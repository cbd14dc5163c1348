//! The Safari (macOS) / WebKit (iOS) profile.
//!
//! Safari sends its extensions in a fixed order and pads the first ClientHello to a
//! 512-byte record.
use vstd::prelude::*;

use crate::codec::{u16_be, zero_bytes};
use crate::crypto::KxGroup;
use crate::enums::{CertificateCompressionAlgorithm, CipherSuite, ExtensionType, NamedGroup, SignatureScheme};
use crate::fingerprint::grease::{draw_profile_greases, profile_greases, spec_seed, GreaseRng, ProfileGreases};
use crate::fingerprint::{key_shares_rewritten, rewrite_key_shares, ClientHelloFingerprinter};
use crate::handshake::{
    client_hello_encoding, h2_http11, h2_http11_protocols, lemma_encoding_len_push_unknown,
    protocol_views, unknown_views, CertificateStatusRequest, ClientExtensions, ClientHelloPayload,
    PayloadU8, PskKeyExchangeModes, SupportedEcPointFormats, UnknownExtension,
};

verus! {

/// Emulates the TLS fingerprint of Safari on macOS and WebKit on iOS.
#[derive(Clone, Copy, Debug, Default)]
pub struct SafariFingerprint;

/// Safari's 21 cipher suites, GREASE first, with three 3DES suites last.
pub open spec fn safari_cipher_suites(grease: u16) -> Seq<CipherSuite> {
    seq![
        CipherSuite::Unknown(grease),
        CipherSuite::TLS13_AES_128_GCM_SHA256,
        CipherSuite::TLS13_AES_256_GCM_SHA384,
        CipherSuite::TLS13_CHACHA20_POLY1305_SHA256,
        CipherSuite::TLS_ECDHE_ECDSA_WITH_AES_256_GCM_SHA384,
        CipherSuite::TLS_ECDHE_ECDSA_WITH_AES_128_GCM_SHA256,
        CipherSuite::TLS_ECDHE_ECDSA_WITH_CHACHA20_POLY1305_SHA256,
        CipherSuite::TLS_ECDHE_RSA_WITH_AES_256_GCM_SHA384,
        CipherSuite::TLS_ECDHE_RSA_WITH_AES_128_GCM_SHA256,
        CipherSuite::TLS_ECDHE_RSA_WITH_CHACHA20_POLY1305_SHA256,
        CipherSuite::TLS_ECDHE_ECDSA_WITH_AES_256_CBC_SHA,
        CipherSuite::TLS_ECDHE_ECDSA_WITH_AES_128_CBC_SHA,
        CipherSuite::TLS_ECDHE_RSA_WITH_AES_256_CBC_SHA,
        CipherSuite::TLS_ECDHE_RSA_WITH_AES_128_CBC_SHA,
        CipherSuite::TLS_RSA_WITH_AES_256_GCM_SHA384,
        CipherSuite::TLS_RSA_WITH_AES_128_GCM_SHA256,
        CipherSuite::TLS_RSA_WITH_AES_256_CBC_SHA,
        CipherSuite::TLS_RSA_WITH_AES_128_CBC_SHA,
        CipherSuite::Unknown(0xc008),
        CipherSuite::Unknown(0xc012),
        CipherSuite::Unknown(0x000a),
    ]
}

/// Safari's supported groups, GREASE first.
pub open spec fn safari_named_groups(grease: u16) -> Seq<NamedGroup> {
    seq![
        NamedGroup::Unknown(grease),
        NamedGroup::X25519,
        NamedGroup::secp256r1,
        NamedGroup::secp384r1,
        NamedGroup::secp521r1,
    ]
}

/// Safari's signature algorithms, with RSA-PSS-SHA384 twice.
pub open spec fn safari_signature_schemes() -> Seq<SignatureScheme> {
    seq![
        SignatureScheme::ECDSA_NISTP256_SHA256,
        SignatureScheme::RSA_PSS_SHA256,
        SignatureScheme::RSA_PKCS1_SHA256,
        SignatureScheme::ECDSA_NISTP384_SHA384,
        SignatureScheme::RSA_PSS_SHA384,
        SignatureScheme::Unknown(0x0805),
        SignatureScheme::RSA_PKCS1_SHA384,
        SignatureScheme::RSA_PSS_SHA512,
        SignatureScheme::RSA_PKCS1_SHA512,
        SignatureScheme::RSA_PKCS1_SHA1,
    ]
}

/// The body of Safari's `supported_versions`: GREASE, TLS 1.3, 1.2, 1.1 and 1.0.
pub open spec fn safari_versions_body(grease: u16) -> Seq<u8> {
    seq![0x0au8] + u16_be(grease as nat) + seq![
        0x03u8,
        0x04u8,
        0x03u8,
        0x03u8,
        0x03u8,
        0x02u8,
        0x03u8,
        0x01u8,
    ]
}

/// The extensions that Safari sends as raw bodies, before any padding.
pub open spec fn safari_unknown_extensions(g: ProfileGreases) -> Seq<(ExtensionType, Seq<u8>)> {
    seq![
        (ExtensionType::Unknown(g.ext1), Seq::<u8>::empty()),
        (ExtensionType::Unknown(0x0012), Seq::<u8>::empty()),
        (ExtensionType::SupportedVersions, safari_versions_body(g.version)),
        (ExtensionType::Unknown(g.ext2), seq![0x00u8]),
    ]
}

/// Safari's extension order, before any padding: `server_name` and `key_share` only
/// where the ClientHello has them.
pub open spec fn safari_extension_order(g: ProfileGreases, sni: bool, key_share: bool) -> Seq<ExtensionType> {
    seq![ExtensionType::Unknown(g.ext1)] + (if sni {
        seq![ExtensionType::ServerName]
    } else {
        Seq::empty()
    }) + seq![
        ExtensionType::ExtendedMasterSecret,
        ExtensionType::RenegotiationInfo,
        ExtensionType::EllipticCurves,
        ExtensionType::ECPointFormats,
        ExtensionType::ALProtocolNegotiation,
        ExtensionType::StatusRequest,
        ExtensionType::SignatureAlgorithms,
        ExtensionType::Unknown(0x0012),
    ] + (if key_share { seq![ExtensionType::KeyShare] } else { Seq::empty() }) + seq![
        ExtensionType::PSKKeyExchangeModes,
        ExtensionType::SupportedVersions,
        ExtensionType::CompressCertificate,
        ExtensionType::Unknown(g.ext2),
    ]
}

/// The padding that brings a ClientHello body of `len` bytes to a 512-byte record:
/// 512 less the length (as a 32-bit signed integer), the record's 4-byte handshake
/// header and the padding extension's 4-byte header. Padding is added when this is
/// positive.
pub open spec fn safari_padding_len(len: int) -> int {
    512 - ((len as i32) as int) - 8
}

/// The padding extension of `n` zero bytes, as its type and body.
pub open spec fn padding_view(n: nat) -> (ExtensionType, Seq<u8>) {
    (ExtensionType::Unknown(0x0015), Seq::new(n, |i: int| 0u8))
}

/// The ClientHello `q` ends in the padding that Safari adds to its first ClientHello:
/// where the body without the padding extension needs padding, the raw extensions and
/// the order end with a padding extension of that length; otherwise with nothing more.
pub open spec fn safari_padded(q: ClientHelloPayload, g: ProfileGreases, sni: bool, key_share: bool) -> bool {
    let qe = *q.extensions;
    let total = client_hello_encoding(q).len();
    let base_unknown = safari_unknown_extensions(g);
    let base_order = safari_extension_order(g, sni, key_share);
    ||| {
        &&& safari_padding_len(total as int) <= 0
        &&& unknown_views(qe.unknown_extensions@) == base_unknown
        &&& qe.contiguous_extensions@ == base_order
    }
    ||| exists|n: nat|
        {
            &&& n > 0
            &&& total >= 4 + n
            &&& safari_padding_len(total - 4 - n) == n
            &&& unknown_views(qe.unknown_extensions@) == base_unknown.push(#[trigger] padding_view(n))
            &&& qe.contiguous_extensions@ == base_order.push(ExtensionType::Unknown(0x0015))
        }
}

/// The groups whose key shares Safari keeps in its first ClientHello.
pub open spec fn safari_key_share_groups() -> Seq<NamedGroup> {
    seq![NamedGroup::X25519]
}

/// The fields that the Safari profile sets, whatever the padding.
pub open spec fn safari_fields(o: ClientHelloPayload, q: ClientHelloPayload, is_retry: bool, g: ProfileGreases) -> bool {
    let oe = *o.extensions;
    let qe = *q.extensions;
    &&& q.client_version == o.client_version
    &&& q.random == o.random
    &&& q.session_id == o.session_id
    &&& q.compression_methods == o.compression_methods
    &&& q.cipher_suites@ == safari_cipher_suites(g.cipher)
    &&& qe.order_seed == 0
    &&& qe.session_ticket is None
    &&& qe.extended_master_secret_request == Some(())
    &&& qe.renegotiation_info matches Some(r) && r.0@.len() == 0
    &&& qe.named_groups matches Some(v) && v@ == safari_named_groups(g.group)
    &&& qe.ec_point_formats == Some(SupportedEcPointFormats { uncompressed: true })
    &&& if oe.protocols is None {
        qe.protocols matches Some(v) && protocol_views(v@) == h2_http11()
    } else {
        qe.protocols == oe.protocols
    }
    &&& qe.certificate_status_request matches Some(r) && r.responder_ids@.len() == 0
        && r.extensions@.len() == 0
    &&& qe.signature_schemes matches Some(v) && v@ == safari_signature_schemes()
    &&& key_shares_rewritten(oe.key_shares, qe.key_shares, is_retry, g.group, safari_key_share_groups())
    &&& qe.preshared_key_modes == Some(PskKeyExchangeModes { psk_dhe: true, psk: false })
    &&& qe.supported_versions is None
    &&& qe.certificate_compression_algorithms matches Some(v) && v@ == seq![
        CertificateCompressionAlgorithm::Zlib,
    ]
    &&& qe.server_name == oe.server_name
    &&& qe.encrypted_client_hello == oe.encrypted_client_hello
    &&& qe.custom_extensions == oe.custom_extensions
}

/// What the Safari profile makes of ClientHello `o` (as `q`): the GREASE values come
/// from a generator seeded by the session id; the first ClientHello is padded.
pub open spec fn safari_applied(o: ClientHelloPayload, q: ClientHelloPayload, is_retry: bool) -> bool {
    let g = profile_greases(spec_seed(o.session_id.data@)).0;
    let oe = *o.extensions;
    let qe = *q.extensions;
    let sni = oe.server_name is Some;
    let key_share = oe.key_shares is Some;
    &&& safari_fields(o, q, is_retry, g)
    &&& if is_retry {
        &&& unknown_views(qe.unknown_extensions@) == safari_unknown_extensions(g)
        &&& qe.contiguous_extensions@ == safari_extension_order(g, sni, key_share)
    } else {
        safari_padded(q, g, sni, key_share)
    }
}


fn safari_cipher_suite_vec(grease: u16) -> (v: Vec<CipherSuite>)
    ensures
        v@ == safari_cipher_suites(grease),
{
    let v = vec![
        CipherSuite::Unknown(grease),
        CipherSuite::TLS13_AES_128_GCM_SHA256,
        CipherSuite::TLS13_AES_256_GCM_SHA384,
        CipherSuite::TLS13_CHACHA20_POLY1305_SHA256,
        CipherSuite::TLS_ECDHE_ECDSA_WITH_AES_256_GCM_SHA384,
        CipherSuite::TLS_ECDHE_ECDSA_WITH_AES_128_GCM_SHA256,
        CipherSuite::TLS_ECDHE_ECDSA_WITH_CHACHA20_POLY1305_SHA256,
        CipherSuite::TLS_ECDHE_RSA_WITH_AES_256_GCM_SHA384,
        CipherSuite::TLS_ECDHE_RSA_WITH_AES_128_GCM_SHA256,
        CipherSuite::TLS_ECDHE_RSA_WITH_CHACHA20_POLY1305_SHA256,
        CipherSuite::TLS_ECDHE_ECDSA_WITH_AES_256_CBC_SHA,
        CipherSuite::TLS_ECDHE_ECDSA_WITH_AES_128_CBC_SHA,
        CipherSuite::TLS_ECDHE_RSA_WITH_AES_256_CBC_SHA,
        CipherSuite::TLS_ECDHE_RSA_WITH_AES_128_CBC_SHA,
        CipherSuite::TLS_RSA_WITH_AES_256_GCM_SHA384,
        CipherSuite::TLS_RSA_WITH_AES_128_GCM_SHA256,
        CipherSuite::TLS_RSA_WITH_AES_256_CBC_SHA,
        CipherSuite::TLS_RSA_WITH_AES_128_CBC_SHA,
        CipherSuite::Unknown(0xc008),
        CipherSuite::Unknown(0xc012),
        CipherSuite::Unknown(0x000a),
    ];
    assert(v@ =~= safari_cipher_suites(grease));
    v
}

fn safari_signature_scheme_vec() -> (v: Vec<SignatureScheme>)
    ensures
        v@ == safari_signature_schemes(),
{
    let v = vec![
        SignatureScheme::ECDSA_NISTP256_SHA256,
        SignatureScheme::RSA_PSS_SHA256,
        SignatureScheme::RSA_PKCS1_SHA256,
        SignatureScheme::ECDSA_NISTP384_SHA384,
        SignatureScheme::RSA_PSS_SHA384,
        SignatureScheme::Unknown(0x0805),
        SignatureScheme::RSA_PKCS1_SHA384,
        SignatureScheme::RSA_PSS_SHA512,
        SignatureScheme::RSA_PKCS1_SHA512,
        SignatureScheme::RSA_PKCS1_SHA1,
    ];
    assert(v@ =~= safari_signature_schemes());
    v
}

fn safari_extension_order_vec(g: ProfileGreases, sni: bool, key_share: bool) -> (v: Vec<ExtensionType>)
    ensures
        v@ == safari_extension_order(g, sni, key_share),
{
    let mut v: Vec<ExtensionType> = Vec::new();
    v.push(ExtensionType::Unknown(g.ext1));
    if sni {
        v.push(ExtensionType::ServerName);
    }
    v.push(ExtensionType::ExtendedMasterSecret);
    v.push(ExtensionType::RenegotiationInfo);
    v.push(ExtensionType::EllipticCurves);
    v.push(ExtensionType::ECPointFormats);
    v.push(ExtensionType::ALProtocolNegotiation);
    v.push(ExtensionType::StatusRequest);
    v.push(ExtensionType::SignatureAlgorithms);
    v.push(ExtensionType::Unknown(0x0012));
    if key_share {
        v.push(ExtensionType::KeyShare);
    }
    v.push(ExtensionType::PSKKeyExchangeModes);
    v.push(ExtensionType::SupportedVersions);
    v.push(ExtensionType::CompressCertificate);
    v.push(ExtensionType::Unknown(g.ext2));
    assert(v@ =~= safari_extension_order(g, sni, key_share));
    v
}

fn safari_unknown_extension_vec(g: ProfileGreases) -> (v: Vec<UnknownExtension>)
    ensures
        unknown_views(v@) == safari_unknown_extensions(g),
{
    let mut ver_payload: Vec<u8> = vec![0x0au8];
    crate::codec::put_u16(g.version, &mut ver_payload);
    ver_payload.push(0x03u8);
    ver_payload.push(0x04u8);
    ver_payload.push(0x03u8);
    ver_payload.push(0x03u8);
    ver_payload.push(0x03u8);
    ver_payload.push(0x02u8);
    ver_payload.push(0x03u8);
    ver_payload.push(0x01u8);
    assert(ver_payload@ =~= safari_versions_body(g.version));
    let last: Vec<u8> = vec![0x00u8];
    let mut v: Vec<UnknownExtension> = Vec::new();
    v.push(UnknownExtension { typ: ExtensionType::Unknown(g.ext1), payload: Vec::new() });
    v.push(UnknownExtension { typ: ExtensionType::Unknown(0x0012), payload: Vec::new() });
    v.push(UnknownExtension { typ: ExtensionType::SupportedVersions, payload: ver_payload });
    v.push(UnknownExtension { typ: ExtensionType::Unknown(g.ext2), payload: last });
    assert(v@[0].payload@ =~= Seq::<u8>::empty());
    assert(v@[1].payload@ =~= Seq::<u8>::empty());
    assert(v@[3].payload@ =~= seq![0x00u8]);
    assert(unknown_views(v@) =~= safari_unknown_extensions(g));
    v
}

/// Sets the extensions of the Safari profile, before any padding.
fn set_safari_extensions(exts: &mut ClientExtensions, g: ProfileGreases, is_retry: bool)
    ensures
        ({
            let oe = *old(exts);
            let qe = *final(exts);
            &&& qe.order_seed == 0
            &&& qe.session_ticket is None
            &&& qe.extended_master_secret_request == Some(())
            &&& qe.renegotiation_info matches Some(r) && r.0@.len() == 0
            &&& qe.named_groups matches Some(v) && v@ == safari_named_groups(g.group)
            &&& qe.ec_point_formats == Some(SupportedEcPointFormats { uncompressed: true })
            &&& if oe.protocols is None {
                qe.protocols matches Some(v) && protocol_views(v@) == h2_http11()
            } else {
                qe.protocols == oe.protocols
            }
            &&& qe.certificate_status_request matches Some(r) && r.responder_ids@.len() == 0
                && r.extensions@.len() == 0
            &&& qe.signature_schemes matches Some(v) && v@ == safari_signature_schemes()
            &&& key_shares_rewritten(
                oe.key_shares,
                qe.key_shares,
                is_retry,
                g.group,
                safari_key_share_groups(),
            )
            &&& qe.preshared_key_modes == Some(PskKeyExchangeModes { psk_dhe: true, psk: false })
            &&& qe.supported_versions is None
            &&& qe.certificate_compression_algorithms matches Some(v) && v@ == seq![
                CertificateCompressionAlgorithm::Zlib,
            ]
            &&& qe.server_name == oe.server_name
            &&& qe.encrypted_client_hello == oe.encrypted_client_hello
            &&& qe.custom_extensions == oe.custom_extensions
            &&& unknown_views(qe.unknown_extensions@) == safari_unknown_extensions(g)
            &&& qe.contiguous_extensions@ == safari_extension_order(
                g,
                oe.server_name is Some,
                oe.key_shares is Some,
            )
        }),
{
    let sni = exts.server_name.is_some();
    let key_share = exts.key_shares.is_some();
    exts.contiguous_extensions = safari_extension_order_vec(g, sni, key_share);
    exts.unknown_extensions = safari_unknown_extension_vec(g);
    exts.session_ticket = None;
    exts.order_seed = 0;
    exts.extended_master_secret_request = Some(());
    exts.renegotiation_info = Some(PayloadU8::empty());
    exts.named_groups = Some(vec![
        NamedGroup::Unknown(g.group),
        NamedGroup::X25519,
        NamedGroup::secp256r1,
        NamedGroup::secp384r1,
        NamedGroup::secp521r1,
    ]);
    exts.ec_point_formats = Some(SupportedEcPointFormats::default());
    // Safari always offers h2 and http/1.1, unless ALPN was configured.
    if exts.protocols.is_none() {
        exts.protocols = Some(h2_http11_protocols());
    }
    exts.certificate_status_request = Some(CertificateStatusRequest::build_ocsp());
    exts.signature_schemes = Some(safari_signature_scheme_vec());
    // First ClientHello: keep only x25519 and put GREASE first; a retry keeps the group
    // that the server asked for.
    let keep = vec![NamedGroup::X25519];
    assert(keep@ =~= safari_key_share_groups());
    rewrite_key_shares(&mut exts.key_shares, is_retry, g.group, &keep);
    exts.preshared_key_modes = Some(PskKeyExchangeModes { psk_dhe: true, psk: false });
    exts.supported_versions = None;
    let algs = vec![CertificateCompressionAlgorithm::Zlib];
    assert(algs@ =~= seq![CertificateCompressionAlgorithm::Zlib]);
    exts.certificate_compression_algorithms = Some(algs);
}

impl ClientHelloFingerprinter for SafariFingerprint {
    fn wants_ech_grease(&self) -> (b: bool) {
        false
    }

    fn kx_group_fixups(&self) -> (r: (Vec<KxGroup>, Option<NamedGroup>)) {
        (Vec::new(), None)
    }

    fn apply(&self, payload: &mut ClientHelloPayload, is_retry: bool)
        ensures
            safari_applied(*old(payload), *final(payload), is_retry),
    {
        // Seed from the session id so that GREASE values stay the same across the
        // ClientHellos of one handshake.
        let mut rng = GreaseRng::from_session_id(payload.session_id.as_slice());
        let g = draw_profile_greases(&mut rng);
        payload.cipher_suites = safari_cipher_suite_vec(g.cipher);
        set_safari_extensions(&mut *payload.extensions, g, is_retry);

        // Padding, in the first ClientHello only: up to a 512-byte TLS record.
        if !is_retry {
            let ghost mid = *payload;
            let mut temp: Vec<u8> = Vec::new();
            payload.encode(&mut temp);
            let current_body_len = temp.len();
            let pad_data_len: i64 = 512i64 - ((current_body_len as i32) as i64) - 8;
            if pad_data_len > 0 {
                let n = pad_data_len as usize;
                let pad = UnknownExtension { typ: ExtensionType::Unknown(0x0015), payload: zero_bytes(n) };
                let ghost u = pad;
                payload.extensions.unknown_extensions.push(pad);
                payload.extensions.contiguous_extensions.push(ExtensionType::Unknown(0x0015));
                proof {
                    lemma_encoding_len_push_unknown(mid, *payload, u);
                    assert(unknown_views(payload.extensions.unknown_extensions@) =~= unknown_views(
                        mid.extensions.unknown_extensions@,
                    ).push(padding_view(n as nat)));
                }
            }
        }
    }
}


/// A padded first ClientHello of the Safari profile is 508 bytes long: with the 4-byte
/// handshake header, a 512-byte record. (For bodies under 2 GiB, where the length fits
/// a 32-bit signed integer.)
pub proof fn lemma_safari_padded_length(o: ClientHelloPayload, q: ClientHelloPayload)
    requires
        safari_applied(o, q, false),
        q.extensions.contiguous_extensions@.last() == ExtensionType::Unknown(0x0015),
        client_hello_encoding(q).len() < 0x8000_0000,
    ensures
        client_hello_encoding(q).len() == 508,
{
    let g = profile_greases(spec_seed(o.session_id.data@)).0;
    let base_order = safari_extension_order(g, o.extensions.server_name is Some, o.extensions.key_shares is Some);
    assert(base_order.last() == ExtensionType::Unknown(g.ext2));
    crate::fingerprint::grease::lemma_profile_greases_valid(spec_seed(o.session_id.data@));
    let total = client_hello_encoding(q).len();
    let n = choose|n: nat|
        {
            &&& n > 0
            &&& total >= 4 + n
            &&& safari_padding_len(total - 4 - n) == n
            &&& unknown_views(q.extensions.unknown_extensions@) == safari_unknown_extensions(g).push(
                #[trigger] padding_view(n),
            )
            &&& q.extensions.contiguous_extensions@ == base_order.push(ExtensionType::Unknown(0x0015))
        };
    let len = total - 4 - n;
    assert(0 <= len < 0x8000_0000);
    assert((len as i32) as int == len);
}

/// The first ClientHello and a retry with the same session id get the same cipher
/// suites, groups, GREASE raw extensions (before padding) and extension order (before
/// padding), given the same extensions present.
pub proof fn lemma_safari_stable_across_retry(o1: ClientHelloPayload, q1: ClientHelloPayload, o2: ClientHelloPayload, q2: ClientHelloPayload)
    requires
        safari_applied(o1, q1, false),
        safari_applied(o2, q2, true),
        o1.session_id.data@ == o2.session_id.data@,
        (o1.extensions.server_name is Some) == (o2.extensions.server_name is Some),
        (o1.extensions.key_shares is Some) == (o2.extensions.key_shares is Some),
    ensures
        q1.cipher_suites@ == q2.cipher_suites@,
        q1.extensions.named_groups.unwrap()@ == q2.extensions.named_groups.unwrap()@,
        unknown_views(q1.extensions.unknown_extensions@).take(4) == unknown_views(
            q2.extensions.unknown_extensions@,
        ),
        q1.extensions.contiguous_extensions@.take(q2.extensions.contiguous_extensions@.len() as int)
            == q2.extensions.contiguous_extensions@,
{
    let g = profile_greases(spec_seed(o1.session_id.data@)).0;
    let sni = o1.extensions.server_name is Some;
    let ks = o1.extensions.key_shares is Some;
    let u = unknown_views(q1.extensions.unknown_extensions@);
    let c = q1.extensions.contiguous_extensions@;
    let base_u = safari_unknown_extensions(g);
    let base_c = safari_extension_order(g, sni, ks);
    if u == base_u {
        assert(u.take(4) =~= base_u);
    } else {
        let n = choose|n: nat|
            {
                &&& n > 0
                &&& client_hello_encoding(q1).len() >= 4 + n
                &&& safari_padding_len(client_hello_encoding(q1).len() - 4 - n) == n
                &&& u == base_u.push(#[trigger] padding_view(n))
                &&& c == base_c.push(ExtensionType::Unknown(0x0015))
            };
        assert(u.take(4) =~= base_u);
    }
    if c == base_c {
        assert(c.take(base_c.len() as int) =~= base_c);
    } else {
        assert(c.take(base_c.len() as int) =~= base_c);
    }
}

} // verus!
