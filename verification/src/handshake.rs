//! The ClientHello message: its parts, and its encoding on the wire.
use vstd::prelude::*;
use vstd::string::StringSliceAdditionalSpecFns;

use crate::codec::{bytes_to_vec, code_items, flatten_with, put_bytes, put_code_items, put_u16, put_u16_len, put_u8_len, u16_be, u8_be, lemma_flatten_push, lemma_flatten_take_step};
use crate::enums::{CertificateCompressionAlgorithm, CipherSuite, CodePoint, ExtensionType, NamedGroup, ProtocolVersion, SignatureScheme};

verus! {

/// The 32 random bytes of a ClientHello.
pub struct Random(pub [u8; 32]);

impl Random {
    /// Wraps 32 bytes.
    pub fn from(bytes: [u8; 32]) -> (r: Random)
        ensures
            r.0 == bytes,
    {
        Random(bytes)
    }
}

/// The legacy session id of a ClientHello: at most 32 bytes.
pub struct SessionId {
    pub data: Vec<u8>,
}

impl SessionId {
    /// The empty session id.
    pub fn empty() -> (s: SessionId)
        ensures
            s.data@ == Seq::<u8>::empty(),
    {
        SessionId { data: Vec::new() }
    }

    /// A session id holding `bytes`, or `None` where they are more than 32.
    pub fn new(bytes: &[u8]) -> (s: Option<SessionId>)
        ensures
            bytes@.len() <= 32 <==> s is Some,
            s matches Some(sid) ==> sid.data@ == bytes@,
    {
        if bytes.len() <= 32 {
            Some(SessionId { data: bytes_to_vec(bytes) })
        } else {
            None
        }
    }

    /// True when the session id holds no byte.
    pub fn is_empty(&self) -> (b: bool)
        ensures
            b == (self.data@.len() == 0),
    {
        self.data.len() == 0
    }

    /// The bytes of the session id.
    pub fn as_slice(&self) -> (s: &[u8])
        ensures
            s@ == self.data@,
    {
        self.data.as_slice()
    }
}

/// Compression methods of the legacy `compression_methods` list.
#[derive(Clone, Copy, Debug, PartialEq, Eq, Structural)]
pub enum Compression {
    Null,
    Deflate,
    Unknown(u8),
}

impl Compression {
    /// The code point carried on the wire.
    pub open spec fn value(self) -> u8 {
        match self {
            Compression::Null => 0,
            Compression::Deflate => 1,
            Compression::Unknown(x) => x,
        }
    }

    /// Returns the code point of this value.
    pub fn get_u8(&self) -> (v: u8)
        ensures
            v == self.value(),
    {
        match self {
            Compression::Null => 0,
            Compression::Deflate => 1,
            Compression::Unknown(x) => *x,
        }
    }
}

/// The validity of a DNS name according to `rustls_pki_types`.
pub uninterp spec fn spec_dns_name_valid(name: Seq<u8>) -> bool;

/// `DnsName::try_from` of `rustls_pki_types` on `name`: true when it accepts `name`.
/// What is stated besides the name: an accepted name has between 1 and 253 bytes,
/// as the crate's `validate` checks before anything else.
#[verifier::external_body]
fn pki_dns_name_is_valid(name: &[u8]) -> (ok: bool)
    ensures
        ok == spec_dns_name_valid(name@),
        ok ==> 1 <= name@.len() <= 253,
{
    rustls_pki_types::DnsName::try_from(name).is_ok()
}

/// The error for a string that is not a valid DNS name.
#[derive(Clone, Copy, Debug, PartialEq, Eq, Structural)]
pub struct InvalidDnsNameError;

/// A DNS name that `rustls_pki_types` accepts.
pub struct DnsName {
    name: Vec<u8>,
}

impl View for DnsName {
    type V = Seq<u8>;

    closed spec fn view(&self) -> Seq<u8> {
        self.name@
    }
}

impl DnsName {
    #[verifier::type_invariant]
    closed spec fn is_valid(&self) -> bool {
        spec_dns_name_valid(self.name@) && 1 <= self.name@.len() <= 253
    }

    /// Checks `s` as a DNS name.
    pub fn try_from(s: &str) -> (r: Result<DnsName, InvalidDnsNameError>)
        ensures
            r is Ok <==> spec_dns_name_valid(s.spec_bytes()),
            r matches Ok(n) ==> n@ == s.spec_bytes(),
    {
        Self::try_from_bytes(s.as_bytes())
    }

    /// Checks `bytes` as a DNS name.
    pub fn try_from_bytes(bytes: &[u8]) -> (r: Result<DnsName, InvalidDnsNameError>)
        ensures
            r is Ok <==> spec_dns_name_valid(bytes@),
            r matches Ok(n) ==> n@ == bytes@,
    {
        if pki_dns_name_is_valid(bytes) {
            Ok(DnsName { name: bytes_to_vec(bytes) })
        } else {
            Err(InvalidDnsNameError)
        }
    }

    /// The bytes of the name.
    pub fn as_bytes(&self) -> (b: &[u8])
        ensures
            b@ == self@,
            spec_dns_name_valid(self@),
            1 <= self@.len() <= 253,
    {
        proof {
            use_type_invariant(self);
        }
        self.name.as_slice()
    }

}

/// The `server_name` extension.
pub enum ServerNamePayload {
    SingleDnsName(DnsName),
}

/// One offered key share.
pub struct KeyShareEntry {
    pub group: NamedGroup,
    pub payload: Vec<u8>,
}

impl KeyShareEntry {
    /// A key share for `group` holding `payload`.
    pub fn new(group: NamedGroup, payload: Vec<u8>) -> (e: KeyShareEntry)
        ensures
            e.group == group,
            e.payload@ == payload@,
    {
        KeyShareEntry { group, payload }
    }
}

/// An ALPN protocol name.
pub struct ProtocolName(pub Vec<u8>);

impl ProtocolName {
    /// Wraps the bytes of a protocol name.
    pub fn from(bytes: Vec<u8>) -> (p: ProtocolName)
        ensures
            p.0@ == bytes@,
    {
        ProtocolName(bytes)
    }
}

/// The `psk_key_exchange_modes` extension.
pub struct PskKeyExchangeModes {
    pub psk_dhe: bool,
    pub psk: bool,
}

/// The `ec_point_formats` extension.
pub struct SupportedEcPointFormats {
    pub uncompressed: bool,
}

impl SupportedEcPointFormats {
    /// Offers the uncompressed point format.
    pub fn default() -> (f: SupportedEcPointFormats)
        ensures
            f.uncompressed,
    {
        SupportedEcPointFormats { uncompressed: true }
    }
}

/// The `supported_versions` extension as rustls builds it.
pub struct SupportedProtocolVersions {
    pub tls13: bool,
    pub tls12: bool,
}

/// The `status_request` extension, asking for OCSP stapling.
pub struct CertificateStatusRequest {
    pub responder_ids: Vec<Vec<u8>>,
    pub extensions: Vec<u8>,
}

impl CertificateStatusRequest {
    /// An OCSP request with no responder ids and no extensions.
    pub fn build_ocsp() -> (r: CertificateStatusRequest)
        ensures
            r.responder_ids@.len() == 0,
            r.extensions@.len() == 0,
    {
        CertificateStatusRequest { responder_ids: Vec::new(), extensions: Vec::new() }
    }
}

/// The `session_ticket` extension.
pub enum ClientSessionTicket {
    Request,
    Offer(Vec<u8>),
}

/// An HPKE KDF and AEAD pair.
pub struct HpkeSymmetricCipherSuite {
    pub kdf_id: u16,
    pub aead_id: u16,
}

/// The outer form of `encrypted_client_hello`.
pub struct EncryptedClientHelloOuter {
    pub cipher_suite: HpkeSymmetricCipherSuite,
    pub config_id: u8,
    pub enc: Vec<u8>,
    pub payload: Vec<u8>,
}

/// The `encrypted_client_hello` extension.
pub enum EncryptedClientHello {
    Outer(EncryptedClientHelloOuter),
    Inner,
}

/// Bytes carried with a one-byte length prefix.
pub struct PayloadU8(pub Vec<u8>);

impl PayloadU8 {
    /// No bytes.
    pub fn empty() -> (p: PayloadU8)
        ensures
            p.0@.len() == 0,
    {
        PayloadU8(Vec::new())
    }

    /// Wraps `bytes`.
    pub fn new(bytes: Vec<u8>) -> (p: PayloadU8)
        ensures
            p.0@ == bytes@,
    {
        PayloadU8(bytes)
    }
}

/// An extension carried as its type and raw body.
pub struct UnknownExtension {
    pub typ: ExtensionType,
    pub payload: Vec<u8>,
}

/// The extensions of a ClientHello.
///
/// `contiguous_extensions` gives the order in which a profile wants the extensions sent;
/// `unknown_extensions` and `custom_extensions` carry extensions as raw bodies.
pub struct ClientExtensions {
    pub server_name: Option<ServerNamePayload>,
    pub certificate_status_request: Option<CertificateStatusRequest>,
    pub named_groups: Option<Vec<NamedGroup>>,
    pub ec_point_formats: Option<SupportedEcPointFormats>,
    pub signature_schemes: Option<Vec<SignatureScheme>>,
    pub protocols: Option<Vec<ProtocolName>>,
    pub extended_master_secret_request: Option<()>,
    pub certificate_compression_algorithms: Option<Vec<CertificateCompressionAlgorithm>>,
    pub session_ticket: Option<ClientSessionTicket>,
    pub supported_versions: Option<SupportedProtocolVersions>,
    pub preshared_key_modes: Option<PskKeyExchangeModes>,
    pub key_shares: Option<Vec<KeyShareEntry>>,
    pub encrypted_client_hello: Option<EncryptedClientHello>,
    pub renegotiation_info: Option<PayloadU8>,
    pub order_seed: u16,
    pub contiguous_extensions: Vec<ExtensionType>,
    pub unknown_extensions: Vec<UnknownExtension>,
    pub custom_extensions: Vec<UnknownExtension>,
}

impl ClientExtensions {
    /// No extension at all.
    pub open spec fn is_empty(&self) -> bool {
        &&& self.server_name is None
        &&& self.certificate_status_request is None
        &&& self.named_groups is None
        &&& self.ec_point_formats is None
        &&& self.signature_schemes is None
        &&& self.protocols is None
        &&& self.extended_master_secret_request is None
        &&& self.certificate_compression_algorithms is None
        &&& self.session_ticket is None
        &&& self.supported_versions is None
        &&& self.preshared_key_modes is None
        &&& self.key_shares is None
        &&& self.encrypted_client_hello is None
        &&& self.renegotiation_info is None
        &&& self.order_seed == 0
        &&& self.contiguous_extensions@.len() == 0
        &&& self.unknown_extensions@.len() == 0
        &&& self.custom_extensions@.len() == 0
    }
}

impl Default for ClientExtensions {
    fn default() -> (e: Self)
        ensures
            e.is_empty(),
    {
        ClientExtensions {
            server_name: None,
            certificate_status_request: None,
            named_groups: None,
            ec_point_formats: None,
            signature_schemes: None,
            protocols: None,
            extended_master_secret_request: None,
            certificate_compression_algorithms: None,
            session_ticket: None,
            supported_versions: None,
            preshared_key_modes: None,
            key_shares: None,
            encrypted_client_hello: None,
            renegotiation_info: None,
            order_seed: 0,
            contiguous_extensions: Vec::new(),
            unknown_extensions: Vec::new(),
            custom_extensions: Vec::new(),
        }
    }
}

/// A ClientHello.
pub struct ClientHelloPayload {
    pub client_version: ProtocolVersion,
    pub random: Random,
    pub session_id: SessionId,
    pub cipher_suites: Vec<CipherSuite>,
    pub compression_methods: Vec<Compression>,
    pub extensions: Box<ClientExtensions>,
}


/// An extension on the wire: its type, the two-byte length of its body, and the body.
pub open spec fn ext_bytes(typ: u16, body: Seq<u8>) -> Seq<u8> {
    u16_be(typ as nat) + u16_be(body.len()) + body
}

/// Body of `server_name`: a list holding one host name entry.
pub open spec fn server_name_body(p: ServerNamePayload) -> Seq<u8> {
    match p {
        ServerNamePayload::SingleDnsName(n) => {
            let entry = seq![0u8] + u16_be(n@.len()) + n@;
            u16_be(entry.len()) + entry
        },
    }
}

/// One responder id: two-byte length and bytes.
pub open spec fn responder_id_bytes(id: Vec<u8>) -> Seq<u8> {
    u16_be(id@.len()) + id@
}

/// Body of `status_request`: type OCSP, the responder id list, the request extensions.
pub open spec fn status_request_body(r: CertificateStatusRequest) -> Seq<u8> {
    let ids = flatten_with(r.responder_ids@, |id: Vec<u8>| responder_id_bytes(id));
    seq![1u8] + u16_be(ids.len()) + ids + u16_be(r.extensions@.len()) + r.extensions@
}

/// A list of code points behind a two-byte length.
pub open spec fn u16_list_body<T: CodePoint>(v: Seq<T>) -> Seq<u8> {
    u16_be(code_items(v).len()) + code_items(v)
}

/// A list of code points behind a one-byte length.
pub open spec fn u8_list_body<T: CodePoint>(v: Seq<T>) -> Seq<u8> {
    u8_be(code_items(v).len()) + code_items(v)
}

/// Body of `ec_point_formats`.
pub open spec fn ec_point_formats_body(f: SupportedEcPointFormats) -> Seq<u8> {
    if f.uncompressed {
        seq![1u8, 0u8]
    } else {
        seq![0u8]
    }
}

/// One ALPN protocol name: one-byte length and bytes.
pub open spec fn protocol_name_bytes(p: ProtocolName) -> Seq<u8> {
    u8_be(p.0@.len()) + p.0@
}

/// Body of `application_layer_protocol_negotiation`.
pub open spec fn alpn_body(ps: Seq<ProtocolName>) -> Seq<u8> {
    let l = flatten_with(ps, |p: ProtocolName| protocol_name_bytes(p));
    u16_be(l.len()) + l
}

/// Body of `session_ticket`.
pub open spec fn session_ticket_body(t: ClientSessionTicket) -> Seq<u8> {
    match t {
        ClientSessionTicket::Request => Seq::empty(),
        ClientSessionTicket::Offer(b) => b@,
    }
}

/// Body of `supported_versions`.
pub open spec fn supported_versions_body(v: SupportedProtocolVersions) -> Seq<u8> {
    let items = (if v.tls13 { u16_be(0x0304) } else { Seq::empty() }) + (if v.tls12 {
        u16_be(0x0303)
    } else {
        Seq::empty()
    });
    u8_be(items.len()) + items
}

/// Body of `psk_key_exchange_modes`.
pub open spec fn psk_modes_body(m: PskKeyExchangeModes) -> Seq<u8> {
    let items = (if m.psk_dhe { seq![1u8] } else { Seq::empty() }) + (if m.psk {
        seq![0u8]
    } else {
        Seq::empty()
    });
    u8_be(items.len()) + items
}

/// One key share: group, two-byte length, key exchange bytes.
pub open spec fn key_share_bytes(e: KeyShareEntry) -> Seq<u8> {
    u16_be(e.group.value() as nat) + u16_be(e.payload@.len()) + e.payload@
}

/// Body of `key_share`.
pub open spec fn key_shares_body(v: Seq<KeyShareEntry>) -> Seq<u8> {
    let l = flatten_with(v, |e: KeyShareEntry| key_share_bytes(e));
    u16_be(l.len()) + l
}

/// Body of `encrypted_client_hello`.
pub open spec fn ech_body(e: EncryptedClientHello) -> Seq<u8> {
    match e {
        EncryptedClientHello::Outer(o) => seq![0u8] + u16_be(o.cipher_suite.kdf_id as nat) + u16_be(
            o.cipher_suite.aead_id as nat,
        ) + seq![o.config_id] + u16_be(o.enc@.len()) + o.enc@ + u16_be(o.payload@.len())
            + o.payload@,
        EncryptedClientHello::Inner => seq![1u8],
    }
}

/// Body of `renegotiation_info`.
pub open spec fn renegotiation_info_body(p: PayloadU8) -> Seq<u8> {
    u8_be(p.0@.len()) + p.0@
}

/// An extension given by its raw body.
pub open spec fn unknown_ext_bytes(u: UnknownExtension) -> Seq<u8> {
    ext_bytes(u.typ.value(), u.payload@)
}

/// The `server_name` extension as written, or nothing when absent.
pub open spec fn server_name_ext(e: ClientExtensions) -> Seq<u8> {
    match e.server_name {
        Some(x) => ext_bytes(0x0000, server_name_body(x)),
        None => Seq::empty(),
    }
}

/// The `certificate_status_request` extension as written, or nothing when absent.
pub open spec fn certificate_status_request_ext(e: ClientExtensions) -> Seq<u8> {
    match e.certificate_status_request {
        Some(x) => ext_bytes(0x0005, status_request_body(x)),
        None => Seq::empty(),
    }
}

/// The `named_groups` extension as written, or nothing when absent.
pub open spec fn named_groups_ext(e: ClientExtensions) -> Seq<u8> {
    match e.named_groups {
        Some(x) => ext_bytes(0x000a, u16_list_body(x@)),
        None => Seq::empty(),
    }
}

/// The `ec_point_formats` extension as written, or nothing when absent.
pub open spec fn ec_point_formats_ext(e: ClientExtensions) -> Seq<u8> {
    match e.ec_point_formats {
        Some(x) => ext_bytes(0x000b, ec_point_formats_body(x)),
        None => Seq::empty(),
    }
}

/// The `signature_schemes` extension as written, or nothing when absent.
pub open spec fn signature_schemes_ext(e: ClientExtensions) -> Seq<u8> {
    match e.signature_schemes {
        Some(x) => ext_bytes(0x000d, u16_list_body(x@)),
        None => Seq::empty(),
    }
}

/// The `protocols` extension as written, or nothing when absent.
pub open spec fn protocols_ext(e: ClientExtensions) -> Seq<u8> {
    match e.protocols {
        Some(x) => ext_bytes(0x0010, alpn_body(x@)),
        None => Seq::empty(),
    }
}

/// The `extended_master_secret_request` extension as written, or nothing when absent.
pub open spec fn extended_master_secret_request_ext(e: ClientExtensions) -> Seq<u8> {
    match e.extended_master_secret_request {
        Some(x) => ext_bytes(0x0017, Seq::<u8>::empty()),
        None => Seq::empty(),
    }
}

/// The `certificate_compression_algorithms` extension as written, or nothing when absent.
pub open spec fn certificate_compression_algorithms_ext(e: ClientExtensions) -> Seq<u8> {
    match e.certificate_compression_algorithms {
        Some(x) => ext_bytes(0x001b, u8_list_body(x@)),
        None => Seq::empty(),
    }
}

/// The `session_ticket` extension as written, or nothing when absent.
pub open spec fn session_ticket_ext(e: ClientExtensions) -> Seq<u8> {
    match e.session_ticket {
        Some(x) => ext_bytes(0x0023, session_ticket_body(x)),
        None => Seq::empty(),
    }
}

/// The `supported_versions` extension as written, or nothing when absent.
pub open spec fn supported_versions_ext(e: ClientExtensions) -> Seq<u8> {
    match e.supported_versions {
        Some(x) => ext_bytes(0x002b, supported_versions_body(x)),
        None => Seq::empty(),
    }
}

/// The `preshared_key_modes` extension as written, or nothing when absent.
pub open spec fn preshared_key_modes_ext(e: ClientExtensions) -> Seq<u8> {
    match e.preshared_key_modes {
        Some(x) => ext_bytes(0x002d, psk_modes_body(x)),
        None => Seq::empty(),
    }
}

/// The `key_shares` extension as written, or nothing when absent.
pub open spec fn key_shares_ext(e: ClientExtensions) -> Seq<u8> {
    match e.key_shares {
        Some(x) => ext_bytes(0x0033, key_shares_body(x@)),
        None => Seq::empty(),
    }
}

/// The `encrypted_client_hello` extension as written, or nothing when absent.
pub open spec fn encrypted_client_hello_ext(e: ClientExtensions) -> Seq<u8> {
    match e.encrypted_client_hello {
        Some(x) => ext_bytes(0xfe0d, ech_body(x)),
        None => Seq::empty(),
    }
}

/// The `renegotiation_info` extension as written, or nothing when absent.
pub open spec fn renegotiation_info_ext(e: ClientExtensions) -> Seq<u8> {
    match e.renegotiation_info {
        Some(x) => ext_bytes(0xff01, renegotiation_info_body(x)),
        None => Seq::empty(),
    }
}

/// A list of raw extensions as written, in order.
pub open spec fn unknown_list_bytes(v: Seq<UnknownExtension>) -> Seq<u8> {
    flatten_with(v, |u: UnknownExtension| unknown_ext_bytes(u))
}

/// The known extensions up to `compress_certificate` that are present.
#[verifier::opaque]
pub open spec fn first_known_extensions(e: ClientExtensions) -> Seq<u8> {
    server_name_ext(e)
        + certificate_status_request_ext(e)
        + named_groups_ext(e)
        + ec_point_formats_ext(e)
        + signature_schemes_ext(e)
        + protocols_ext(e)
        + extended_master_secret_request_ext(e)
        + certificate_compression_algorithms_ext(e)
}

/// The known extensions from `session_ticket` on that are present.
#[verifier::opaque]
pub open spec fn last_known_extensions(e: ClientExtensions) -> Seq<u8> {
    session_ticket_ext(e)
        + supported_versions_ext(e)
        + preshared_key_modes_ext(e)
        + key_shares_ext(e)
        + encrypted_client_hello_ext(e)
        + renegotiation_info_ext(e)
}

/// The extensions as written: the known ones that are present, in the order of their
/// code points (with `encrypted_client_hello` and `renegotiation_info` last), then
/// `unknown_extensions`, then `custom_extensions`.
#[verifier::opaque]
pub open spec fn extensions_encoding(e: ClientExtensions) -> Seq<u8> {
    first_known_extensions(e) + last_known_extensions(e) + unknown_list_bytes(e.unknown_extensions@)
        + unknown_list_bytes(e.custom_extensions@)
}

/// The compression method list's items.
pub open spec fn compression_items(v: Seq<Compression>) -> Seq<u8> {
    flatten_with(v, |c: Compression| seq![c.value()])
}

/// A ClientHello body on the wire: version, random, session id, cipher suites,
/// compression methods, and the extensions behind a two-byte length.
pub open spec fn client_hello_encoding(p: ClientHelloPayload) -> Seq<u8> {
    let ext = extensions_encoding(*p.extensions);
    u16_be(p.client_version.value() as nat) + p.random.0@ + u8_be(p.session_id.data@.len())
        + p.session_id.data@ + u16_list_body(p.cipher_suites@) + u8_be(
        compression_items(p.compression_methods@).len(),
    ) + compression_items(p.compression_methods@) + u16_be(ext.len()) + ext
}

/// Appends an extension with the given body.
fn put_ext(typ: u16, body: &Vec<u8>, bytes: &mut Vec<u8>)
    ensures
        final(bytes)@ == old(bytes)@ + ext_bytes(typ, body@),
{
    let ghost start = bytes@;
    put_u16(typ, bytes);
    put_u16_len(body.len(), bytes);
    put_bytes(body.as_slice(), bytes);
    assert(bytes@ =~= start + ext_bytes(typ, body@));
}

/// Appends `body` behind a two-byte length.
fn put_u16_prefixed(body: &Vec<u8>, bytes: &mut Vec<u8>)
    ensures
        final(bytes)@ == old(bytes)@ + u16_be(body@.len()) + body@,
{
    put_u16_len(body.len(), bytes);
    put_bytes(body.as_slice(), bytes);
}

/// Appends `body` behind a one-byte length.
fn put_u8_prefixed(body: &Vec<u8>, bytes: &mut Vec<u8>)
    ensures
        final(bytes)@ == old(bytes)@ + u8_be(body@.len()) + body@,
{
    put_u8_len(body.len(), bytes);
    put_bytes(body.as_slice(), bytes);
}

fn encode_server_name(p: &ServerNamePayload) -> (b: Vec<u8>)
    ensures
        b@ == server_name_body(*p),
{
    match p {
        ServerNamePayload::SingleDnsName(n) => {
            let name = n.as_bytes();
            let mut entry: Vec<u8> = Vec::new();
            entry.push(0u8);
            put_u16_len(name.len(), &mut entry);
            put_bytes(name, &mut entry);
            let mut b: Vec<u8> = Vec::new();
            put_u16_prefixed(&entry, &mut b);
            assert(entry@ =~= seq![0u8] + u16_be(n@.len()) + n@);
            assert(b@ =~= server_name_body(*p));
            b
        },
    }
}

fn encode_status_request(r: &CertificateStatusRequest) -> (b: Vec<u8>)
    ensures
        b@ == status_request_body(*r),
{
    let ghost f = |id: Vec<u8>| responder_id_bytes(id);
    let mut ids: Vec<u8> = Vec::new();
    let mut i: usize = 0;
    assert(r.responder_ids@.take(0) =~= Seq::<Vec<u8>>::empty());
    while i < r.responder_ids.len()
        invariant
            i <= r.responder_ids@.len(),
            f == (|id: Vec<u8>| responder_id_bytes(id)),
            ids@ == flatten_with(r.responder_ids@.take(i as int), f),
        decreases r.responder_ids@.len() - i,
    {
        let id = &r.responder_ids[i];
        put_u16_prefixed(id, &mut ids);
        proof {
            lemma_flatten_take_step(r.responder_ids@, f, i as int);
        }
        i = i + 1;
    }
    assert(r.responder_ids@.take(i as int) =~= r.responder_ids@);
    let mut b: Vec<u8> = Vec::new();
    b.push(1u8);
    put_u16_prefixed(&ids, &mut b);
    put_u16_prefixed(&r.extensions, &mut b);
    assert(b@ =~= status_request_body(*r));
    b
}

fn encode_u16_list<T: CodePoint>(v: &Vec<T>) -> (b: Vec<u8>)
    ensures
        b@ == u16_list_body(v@),
{
    let mut items: Vec<u8> = Vec::new();
    put_code_items(v, &mut items);
    let mut b: Vec<u8> = Vec::new();
    put_u16_prefixed(&items, &mut b);
    assert(b@ =~= u16_list_body(v@));
    b
}

fn encode_u8_list<T: CodePoint>(v: &Vec<T>) -> (b: Vec<u8>)
    ensures
        b@ == u8_list_body(v@),
{
    let mut items: Vec<u8> = Vec::new();
    put_code_items(v, &mut items);
    let mut b: Vec<u8> = Vec::new();
    put_u8_prefixed(&items, &mut b);
    assert(b@ =~= u8_list_body(v@));
    b
}

fn encode_ec_point_formats(f: &SupportedEcPointFormats) -> (b: Vec<u8>)
    ensures
        b@ == ec_point_formats_body(*f),
{
    let mut b: Vec<u8> = Vec::new();
    if f.uncompressed {
        b.push(1u8);
        b.push(0u8);
    } else {
        b.push(0u8);
    }
    assert(b@ =~= ec_point_formats_body(*f));
    b
}

fn encode_alpn(ps: &Vec<ProtocolName>) -> (b: Vec<u8>)
    ensures
        b@ == alpn_body(ps@),
{
    let ghost f = |p: ProtocolName| protocol_name_bytes(p);
    let mut l: Vec<u8> = Vec::new();
    let mut i: usize = 0;
    assert(ps@.take(0) =~= Seq::<ProtocolName>::empty());
    while i < ps.len()
        invariant
            i <= ps@.len(),
            f == (|p: ProtocolName| protocol_name_bytes(p)),
            l@ == flatten_with(ps@.take(i as int), f),
        decreases ps@.len() - i,
    {
        put_u8_prefixed(&ps[i].0, &mut l);
        proof {
            lemma_flatten_take_step(ps@, f, i as int);
        }
        i = i + 1;
    }
    assert(ps@.take(i as int) =~= ps@);
    let mut b: Vec<u8> = Vec::new();
    put_u16_prefixed(&l, &mut b);
    b
}

fn encode_session_ticket(t: &ClientSessionTicket) -> (b: Vec<u8>)
    ensures
        b@ == session_ticket_body(*t),
{
    let mut b: Vec<u8> = Vec::new();
    match t {
        ClientSessionTicket::Request => {},
        ClientSessionTicket::Offer(x) => {
            put_bytes(x.as_slice(), &mut b);
        },
    }
    assert(b@ =~= session_ticket_body(*t));
    b
}

fn encode_supported_versions(v: &SupportedProtocolVersions) -> (b: Vec<u8>)
    ensures
        b@ == supported_versions_body(*v),
{
    let mut items: Vec<u8> = Vec::new();
    if v.tls13 {
        put_u16(0x0304, &mut items);
    }
    if v.tls12 {
        put_u16(0x0303, &mut items);
    }
    assert(items@ =~= (if v.tls13 { u16_be(0x0304) } else { Seq::empty() }) + (if v.tls12 {
        u16_be(0x0303)
    } else {
        Seq::empty()
    }));
    let mut b: Vec<u8> = Vec::new();
    put_u8_prefixed(&items, &mut b);
    b
}

fn encode_psk_modes(m: &PskKeyExchangeModes) -> (b: Vec<u8>)
    ensures
        b@ == psk_modes_body(*m),
{
    let mut items: Vec<u8> = Vec::new();
    if m.psk_dhe {
        items.push(1u8);
    }
    if m.psk {
        items.push(0u8);
    }
    assert(items@ =~= (if m.psk_dhe { seq![1u8] } else { Seq::empty() }) + (if m.psk {
        seq![0u8]
    } else {
        Seq::empty()
    }));
    let mut b: Vec<u8> = Vec::new();
    put_u8_prefixed(&items, &mut b);
    b
}

fn encode_key_shares(v: &Vec<KeyShareEntry>) -> (b: Vec<u8>)
    ensures
        b@ == key_shares_body(v@),
{
    let ghost f = |e: KeyShareEntry| key_share_bytes(e);
    let mut l: Vec<u8> = Vec::new();
    let mut i: usize = 0;
    assert(v@.take(0) =~= Seq::<KeyShareEntry>::empty());
    while i < v.len()
        invariant
            i <= v@.len(),
            f == (|e: KeyShareEntry| key_share_bytes(e)),
            l@ == flatten_with(v@.take(i as int), f),
        decreases v@.len() - i,
    {
        let ghost before = l@;
        let e = &v[i];
        put_u16(e.group.get_u16(), &mut l);
        put_u16_prefixed(&e.payload, &mut l);
        proof {
            lemma_flatten_take_step(v@, f, i as int);
            assert(l@ =~= before + key_share_bytes(v@[i as int]));
        }
        i = i + 1;
    }
    assert(v@.take(i as int) =~= v@);
    let mut b: Vec<u8> = Vec::new();
    put_u16_prefixed(&l, &mut b);
    b
}

fn encode_ech(e: &EncryptedClientHello) -> (b: Vec<u8>)
    ensures
        b@ == ech_body(*e),
{
    let mut b: Vec<u8> = Vec::new();
    match e {
        EncryptedClientHello::Outer(o) => {
            b.push(0u8);
            put_u16(o.cipher_suite.kdf_id, &mut b);
            put_u16(o.cipher_suite.aead_id, &mut b);
            b.push(o.config_id);
            put_u16_prefixed(&o.enc, &mut b);
            put_u16_prefixed(&o.payload, &mut b);
        },
        EncryptedClientHello::Inner => {
            b.push(1u8);
        },
    }
    assert(b@ =~= ech_body(*e));
    b
}

fn encode_renegotiation_info(p: &PayloadU8) -> (b: Vec<u8>)
    ensures
        b@ == renegotiation_info_body(*p),
{
    let mut b: Vec<u8> = Vec::new();
    put_u8_prefixed(&p.0, &mut b);
    b
}

fn put_unknown_list(v: &Vec<UnknownExtension>, bytes: &mut Vec<u8>)
    ensures
        final(bytes)@ == old(bytes)@ + unknown_list_bytes(v@),
{
    let ghost f = |u: UnknownExtension| unknown_ext_bytes(u);
    let ghost start = bytes@;
    let mut i: usize = 0;
    assert(v@.take(0) =~= Seq::<UnknownExtension>::empty());
    while i < v.len()
        invariant
            i <= v@.len(),
            f == (|u: UnknownExtension| unknown_ext_bytes(u)),
            bytes@ == start + flatten_with(v@.take(i as int), f),
        decreases v@.len() - i,
    {
        let u = &v[i];
        put_ext(u.typ.get_u16(), &u.payload, bytes);
        proof {
            lemma_flatten_take_step(v@, f, i as int);
            assert(bytes@ =~= start + flatten_with(v@.take(i + 1), f));
        }
        i = i + 1;
    }
    assert(v@.take(i as int) =~= v@);
}

impl ClientExtensions {
    fn put_server_name(&self, bytes: &mut Vec<u8>)
        ensures
            final(bytes)@ == old(bytes)@ + server_name_ext(*self),
    {
        if let Some(x) = &self.server_name {
            put_ext(0x0000, &encode_server_name(x), bytes);
        } else {
            assert(bytes@ =~= old(bytes)@ + server_name_ext(*self));
        }
    }

    fn put_certificate_status_request(&self, bytes: &mut Vec<u8>)
        ensures
            final(bytes)@ == old(bytes)@ + certificate_status_request_ext(*self),
    {
        if let Some(x) = &self.certificate_status_request {
            put_ext(0x0005, &encode_status_request(x), bytes);
        } else {
            assert(bytes@ =~= old(bytes)@ + certificate_status_request_ext(*self));
        }
    }

    fn put_named_groups(&self, bytes: &mut Vec<u8>)
        ensures
            final(bytes)@ == old(bytes)@ + named_groups_ext(*self),
    {
        if let Some(x) = &self.named_groups {
            put_ext(0x000a, &encode_u16_list(x), bytes);
        } else {
            assert(bytes@ =~= old(bytes)@ + named_groups_ext(*self));
        }
    }

    fn put_ec_point_formats(&self, bytes: &mut Vec<u8>)
        ensures
            final(bytes)@ == old(bytes)@ + ec_point_formats_ext(*self),
    {
        if let Some(x) = &self.ec_point_formats {
            put_ext(0x000b, &encode_ec_point_formats(x), bytes);
        } else {
            assert(bytes@ =~= old(bytes)@ + ec_point_formats_ext(*self));
        }
    }

    fn put_signature_schemes(&self, bytes: &mut Vec<u8>)
        ensures
            final(bytes)@ == old(bytes)@ + signature_schemes_ext(*self),
    {
        if let Some(x) = &self.signature_schemes {
            put_ext(0x000d, &encode_u16_list(x), bytes);
        } else {
            assert(bytes@ =~= old(bytes)@ + signature_schemes_ext(*self));
        }
    }

    fn put_protocols(&self, bytes: &mut Vec<u8>)
        ensures
            final(bytes)@ == old(bytes)@ + protocols_ext(*self),
    {
        if let Some(x) = &self.protocols {
            put_ext(0x0010, &encode_alpn(x), bytes);
        } else {
            assert(bytes@ =~= old(bytes)@ + protocols_ext(*self));
        }
    }

    fn put_extended_master_secret_request(&self, bytes: &mut Vec<u8>)
        ensures
            final(bytes)@ == old(bytes)@ + extended_master_secret_request_ext(*self),
    {
        if let Some(x) = &self.extended_master_secret_request {
            put_ext(0x0017, &Vec::new(), bytes);
        } else {
            assert(bytes@ =~= old(bytes)@ + extended_master_secret_request_ext(*self));
        }
    }

    fn put_certificate_compression_algorithms(&self, bytes: &mut Vec<u8>)
        ensures
            final(bytes)@ == old(bytes)@ + certificate_compression_algorithms_ext(*self),
    {
        if let Some(x) = &self.certificate_compression_algorithms {
            put_ext(0x001b, &encode_u8_list(x), bytes);
        } else {
            assert(bytes@ =~= old(bytes)@ + certificate_compression_algorithms_ext(*self));
        }
    }

    fn put_session_ticket(&self, bytes: &mut Vec<u8>)
        ensures
            final(bytes)@ == old(bytes)@ + session_ticket_ext(*self),
    {
        if let Some(x) = &self.session_ticket {
            put_ext(0x0023, &encode_session_ticket(x), bytes);
        } else {
            assert(bytes@ =~= old(bytes)@ + session_ticket_ext(*self));
        }
    }

    fn put_supported_versions(&self, bytes: &mut Vec<u8>)
        ensures
            final(bytes)@ == old(bytes)@ + supported_versions_ext(*self),
    {
        if let Some(x) = &self.supported_versions {
            put_ext(0x002b, &encode_supported_versions(x), bytes);
        } else {
            assert(bytes@ =~= old(bytes)@ + supported_versions_ext(*self));
        }
    }

    fn put_preshared_key_modes(&self, bytes: &mut Vec<u8>)
        ensures
            final(bytes)@ == old(bytes)@ + preshared_key_modes_ext(*self),
    {
        if let Some(x) = &self.preshared_key_modes {
            put_ext(0x002d, &encode_psk_modes(x), bytes);
        } else {
            assert(bytes@ =~= old(bytes)@ + preshared_key_modes_ext(*self));
        }
    }

    fn put_key_shares(&self, bytes: &mut Vec<u8>)
        ensures
            final(bytes)@ == old(bytes)@ + key_shares_ext(*self),
    {
        if let Some(x) = &self.key_shares {
            put_ext(0x0033, &encode_key_shares(x), bytes);
        } else {
            assert(bytes@ =~= old(bytes)@ + key_shares_ext(*self));
        }
    }

    fn put_encrypted_client_hello(&self, bytes: &mut Vec<u8>)
        ensures
            final(bytes)@ == old(bytes)@ + encrypted_client_hello_ext(*self),
    {
        if let Some(x) = &self.encrypted_client_hello {
            put_ext(0xfe0d, &encode_ech(x), bytes);
        } else {
            assert(bytes@ =~= old(bytes)@ + encrypted_client_hello_ext(*self));
        }
    }

    fn put_renegotiation_info(&self, bytes: &mut Vec<u8>)
        ensures
            final(bytes)@ == old(bytes)@ + renegotiation_info_ext(*self),
    {
        if let Some(x) = &self.renegotiation_info {
            put_ext(0xff01, &encode_renegotiation_info(x), bytes);
        } else {
            assert(bytes@ =~= old(bytes)@ + renegotiation_info_ext(*self));
        }
    }

    #[verifier::rlimit(40)]
    fn put_first_known(&self, bytes: &mut Vec<u8>)
        ensures
            final(bytes)@ == old(bytes)@ + first_known_extensions(*self),
    {
        let ghost start = bytes@;
        self.put_server_name(bytes);
        self.put_certificate_status_request(bytes);
        self.put_named_groups(bytes);
        self.put_ec_point_formats(bytes);
        self.put_signature_schemes(bytes);
        self.put_protocols(bytes);
        self.put_extended_master_secret_request(bytes);
        self.put_certificate_compression_algorithms(bytes);
        reveal(first_known_extensions);
        assert(bytes@ =~= start + first_known_extensions(*self));
    }

    #[verifier::rlimit(40)]
    fn put_last_known(&self, bytes: &mut Vec<u8>)
        ensures
            final(bytes)@ == old(bytes)@ + last_known_extensions(*self),
    {
        let ghost start = bytes@;
        self.put_session_ticket(bytes);
        self.put_supported_versions(bytes);
        self.put_preshared_key_modes(bytes);
        self.put_key_shares(bytes);
        self.put_encrypted_client_hello(bytes);
        self.put_renegotiation_info(bytes);
        reveal(last_known_extensions);
        assert(bytes@ =~= start + last_known_extensions(*self));
    }

    /// Appends the extensions, as [`extensions_encoding`] gives them.
    pub fn encode_extensions(&self, bytes: &mut Vec<u8>)
        ensures
            final(bytes)@ == old(bytes)@ + extensions_encoding(*self),
    {
        let ghost start = bytes@;
        self.put_first_known(bytes);
        self.put_last_known(bytes);
        put_unknown_list(&self.unknown_extensions, bytes);
        put_unknown_list(&self.custom_extensions, bytes);
        reveal(extensions_encoding);
        assert(bytes@ =~= start + extensions_encoding(*self));
    }
}

fn encode_compression_methods(v: &Vec<Compression>) -> (b: Vec<u8>)
    ensures
        b@ == compression_items(v@),
{
    let ghost f = |c: Compression| seq![c.value()];
    let mut methods: Vec<u8> = Vec::new();
    let mut i: usize = 0;
    assert(v@.take(0) =~= Seq::<Compression>::empty());
    while i < v.len()
        invariant
            i <= v@.len(),
            f == (|c: Compression| seq![c.value()]),
            methods@ == flatten_with(v@.take(i as int), f),
        decreases v@.len() - i,
    {
        methods.push(v[i].get_u8());
        proof {
            lemma_flatten_take_step(v@, f, i as int);
            assert(methods@ =~= flatten_with(v@.take(i + 1), f));
        }
        i = i + 1;
    }
    assert(v@.take(i as int) =~= v@);
    methods
}

impl ClientHelloPayload {
    /// Appends the ClientHello body, as [`client_hello_encoding`] gives it.
    pub fn encode(&self, bytes: &mut Vec<u8>)
        ensures
            final(bytes)@ == old(bytes)@ + client_hello_encoding(*self),
    {
        let ghost start = bytes@;
        put_u16(self.client_version.get_u16(), bytes);
        put_bytes(self.random.0.as_slice(), bytes);
        put_u8_prefixed(&self.session_id.data, bytes);
        let suites = encode_u16_list(&self.cipher_suites);
        put_bytes(suites.as_slice(), bytes);
        let methods = encode_compression_methods(&self.compression_methods);
        put_u8_prefixed(&methods, bytes);
        let mut ext: Vec<u8> = Vec::new();
        self.extensions.encode_extensions(&mut ext);
        put_u16_prefixed(&ext, bytes);
        assert(bytes@ =~= start + client_hello_encoding(*self));
    }
}


/// Each raw extension as its type and body.
pub open spec fn unknown_views(s: Seq<UnknownExtension>) -> Seq<(ExtensionType, Seq<u8>)> {
    s.map_values(|u: UnknownExtension| (u.typ, u.payload@))
}

/// Each protocol name as its bytes.
pub open spec fn protocol_views(s: Seq<ProtocolName>) -> Seq<Seq<u8>> {
    s.map_values(|p: ProtocolName| p.0@)
}

/// The ALPN list `h2`, `http/1.1` that browsers offer.
pub open spec fn h2_http11() -> Seq<Seq<u8>> {
    seq![seq![0x68u8, 0x32u8], seq![0x68u8, 0x74u8, 0x74u8, 0x70u8, 0x2fu8, 0x31u8, 0x2eu8, 0x31u8]]
}

/// Builds the ALPN list `h2`, `http/1.1`.
pub fn h2_http11_protocols() -> (v: Vec<ProtocolName>)
    ensures
        protocol_views(v@) == h2_http11(),
{
    let mut v: Vec<ProtocolName> = Vec::new();
    v.push(ProtocolName::from(vec![0x68u8, 0x32u8]));
    v.push(ProtocolName::from(vec![0x68u8, 0x74u8, 0x74u8, 0x70u8, 0x2fu8, 0x31u8, 0x2eu8, 0x31u8]));
    assert(protocol_views(v@) =~= h2_http11());
    v
}

/// The key shares of `v` whose group is one of `groups`, in order.
pub open spec fn shares_in(v: Seq<KeyShareEntry>, groups: Seq<NamedGroup>) -> Seq<KeyShareEntry> {
    v.filter(|e: KeyShareEntry| groups.contains(e.group))
}

/// True when `g` is one of `groups`.
pub fn group_in(g: NamedGroup, groups: &Vec<NamedGroup>) -> (b: bool)
    ensures
        b == groups@.contains(g),
{
    let mut i: usize = 0;
    while i < groups.len()
        invariant
            i <= groups@.len(),
            forall|k: int| 0 <= k < i ==> groups@[k] != g,
        decreases groups@.len() - i,
    {
        if groups[i] == g {
            assert(groups@.contains(g));
            return true;
        }
        i = i + 1;
    }
    false
}

/// Keeps the key shares whose group is one of `groups`, in order.
pub fn retain_groups(shares: Vec<KeyShareEntry>, groups: &Vec<NamedGroup>) -> (r: Vec<KeyShareEntry>)
    ensures
        r@ == shares_in(shares@, groups@),
{
    let ghost orig = shares@;
    let ghost keep = |e: KeyShareEntry| groups@.contains(e.group);
    let n = shares.len();
    let mut rest = shares;
    let mut out: Vec<KeyShareEntry> = Vec::new();
    let mut k: usize = 0;
    assert(orig.take(0) =~= Seq::<KeyShareEntry>::empty());
    assert(orig.skip(0) =~= orig);
    while rest.len() > 0
        invariant
            k <= orig.len(),
            rest@ == orig.skip(k as int),
            rest@.len() == orig.len() - k,
            orig.len() == n,
            out@ == orig.take(k as int).filter(keep),
            keep == (|e: KeyShareEntry| groups@.contains(e.group)),
        decreases rest@.len(),
    {
        let e = rest.remove(0);
        proof {
            assert(orig.take(k + 1) =~= orig.take(k as int).push(e));
            orig.take(k as int).lemma_filter_push(e, keep);
            assert(rest@ =~= orig.skip(k + 1));
        }
        if group_in(e.group, groups) {
            out.push(e);
        }
        k = k + 1;
    }
    assert(orig.take(k as int) =~= orig);
    out
}


/// The known extensions are written the same for two extension sets that agree on them.
proof fn lemma_known_extensions_same(e1: ClientExtensions, e2: ClientExtensions)
    requires
        e2 == (ClientExtensions {
            unknown_extensions: e2.unknown_extensions,
            custom_extensions: e2.custom_extensions,
            contiguous_extensions: e2.contiguous_extensions,
            ..e1
        }),
    ensures
        first_known_extensions(e2) == first_known_extensions(e1),
        last_known_extensions(e2) == last_known_extensions(e1),
{
    reveal(first_known_extensions);
    reveal(last_known_extensions);
}

/// Adding a raw extension at the end of `unknown_extensions` lengthens the ClientHello
/// encoding by the extension's four header bytes and its body; the order wanted in
/// `contiguous_extensions` does not change the length.
pub proof fn lemma_encoding_len_push_unknown(
    p1: ClientHelloPayload,
    p2: ClientHelloPayload,
    u: UnknownExtension,
)
    requires
        p2.client_version == p1.client_version,
        p2.random == p1.random,
        p2.session_id == p1.session_id,
        p2.cipher_suites == p1.cipher_suites,
        p2.compression_methods == p1.compression_methods,
        *p2.extensions == (ClientExtensions {
            unknown_extensions: p2.extensions.unknown_extensions,
            contiguous_extensions: p2.extensions.contiguous_extensions,
            ..*p1.extensions
        }),
        p2.extensions.unknown_extensions@ == p1.extensions.unknown_extensions@.push(u),
    ensures
        client_hello_encoding(p2).len() == client_hello_encoding(p1).len() + 4
            + u.payload@.len(),
{
    let e1 = *p1.extensions;
    let e2 = *p2.extensions;
    lemma_known_extensions_same(e1, e2);
    lemma_flatten_push(e1.unknown_extensions@, |u: UnknownExtension| unknown_ext_bytes(u), u);
    reveal(extensions_encoding);
}

/// Adding a raw extension at the end of `custom_extensions` lengthens the ClientHello
/// encoding by the extension's four header bytes and its body; the order wanted in
/// `contiguous_extensions` does not change the length.
pub proof fn lemma_encoding_len_push_custom(
    p1: ClientHelloPayload,
    p2: ClientHelloPayload,
    u: UnknownExtension,
)
    requires
        p2.client_version == p1.client_version,
        p2.random == p1.random,
        p2.session_id == p1.session_id,
        p2.cipher_suites == p1.cipher_suites,
        p2.compression_methods == p1.compression_methods,
        *p2.extensions == (ClientExtensions {
            custom_extensions: p2.extensions.custom_extensions,
            contiguous_extensions: p2.extensions.contiguous_extensions,
            ..*p1.extensions
        }),
        p2.extensions.custom_extensions@ == p1.extensions.custom_extensions@.push(u),
    ensures
        client_hello_encoding(p2).len() == client_hello_encoding(p1).len() + 4
            + u.payload@.len(),
{
    let e1 = *p1.extensions;
    let e2 = *p2.extensions;
    lemma_known_extensions_same(e1, e2);
    lemma_flatten_push(e1.custom_extensions@, |u: UnknownExtension| unknown_ext_bytes(u), u);
    reveal(extensions_encoding);
}

/// Two bytes read big-endian.
pub open spec fn be16(hi: u8, lo: u8) -> int {
    hi as int * 256 + lo as int
}

/// `u16_be` of a number below 65536 reads back as that number.
pub proof fn lemma_u16_be_reads_back(n: nat)
    requires
        n < 0x1_0000,
    ensures
        u16_be(n).len() == 2,
        be16(u16_be(n)[0], u16_be(n)[1]) == n,
{
    assert(((n / 256) % 256) * 256 + n % 256 == n) by (nonlinear_arith)
        requires
            n < 0x1_0000,
    ;
}

/// A raw extension is written as its type in two bytes, the length of its body in two
/// bytes, both big-endian, and the body: for a body of at most 65535 bytes, bytes 2 and 3
/// hold the body's full length.
pub proof fn lemma_unknown_ext_layout(u: UnknownExtension)
    requires
        u.payload@.len() <= 0xffff,
    ensures
        ({
            let b = unknown_ext_bytes(u);
            let n = u.payload@.len();
            &&& b.len() == n + 4
            &&& be16(b[0], b[1]) == u.typ.value() as int
            &&& be16(b[2], b[3]) == n
            &&& b.subrange(4, b.len() as int) == u.payload@
        }),
{
    let n = u.payload@.len();
    lemma_u16_be_reads_back(u.typ.value() as nat);
    lemma_u16_be_reads_back(n);
    let b = unknown_ext_bytes(u);
    assert(b.subrange(4, b.len() as int) =~= u.payload@);
}

/// An outer ECH extension's body is laid out as RFC 9849 has it: type 0, the KDF and AEAD
/// ids, the config id, then `enc` and the payload, each behind its two-byte big-endian
/// length; 10 bytes besides `enc` and the payload.
pub proof fn lemma_ech_outer_layout(o: EncryptedClientHelloOuter)
    requires
        o.enc@.len() <= 0xffff,
        o.payload@.len() <= 0xffff,
    ensures
        ({
            let b = ech_body(EncryptedClientHello::Outer(o));
            let e = o.enc@.len() as int;
            let p = o.payload@.len() as int;
            &&& b.len() == 10 + e + p
            &&& b[0] == 0u8
            &&& be16(b[1], b[2]) == o.cipher_suite.kdf_id as int
            &&& be16(b[3], b[4]) == o.cipher_suite.aead_id as int
            &&& b[5] == o.config_id
            &&& be16(b[6], b[7]) == e
            &&& b.subrange(8, 8 + e) == o.enc@
            &&& be16(b[8 + e], b[9 + e]) == p
            &&& b.subrange(10 + e, b.len() as int) == o.payload@
        }),
{
    let e = o.enc@.len() as int;
    lemma_u16_be_reads_back(o.cipher_suite.kdf_id as nat);
    lemma_u16_be_reads_back(o.cipher_suite.aead_id as nat);
    lemma_u16_be_reads_back(o.enc@.len());
    lemma_u16_be_reads_back(o.payload@.len());
    let b = ech_body(EncryptedClientHello::Outer(o));
    assert(b.subrange(8, 8 + e) =~= o.enc@);
    assert(b.subrange(10 + e, b.len() as int) =~= o.payload@);
}

} // verus!
