//! The Google Chrome (desktop) profile.
//!
//! Chrome permutes its extensions between the leading and the trailing GREASE extension
//! on every ClientHello; here the permutation comes from a generator seeded by the
//! session id (or the client random), so that a retried ClientHello gets the same one.
use vstd::prelude::*;

use crate::codec::u16_be;
use crate::crypto::KxGroup;
use crate::enums::{CertificateCompressionAlgorithm, CipherSuite, ExtensionType, NamedGroup, SignatureScheme};
use crate::fingerprint::grease::{
    draw_index, draw_profile_greases, is_grease, profile_greases, spec_seed, GreaseRng, ProfileGreases,
};
use crate::fingerprint::{key_shares_rewritten, rewrite_key_shares, ClientHelloFingerprinter};
use crate::handshake::{
    h2_http11, h2_http11_protocols, protocol_views, unknown_views, CertificateStatusRequest,
    ClientHelloPayload, ClientSessionTicket, EncryptedClientHello, PayloadU8,
    PskKeyExchangeModes, SupportedEcPointFormats, UnknownExtension,
};

verus! {

/// Emulates the TLS fingerprint of Google Chrome (desktop).
#[derive(Clone, Copy, Debug, Default)]
pub struct ChromeFingerprint;

/// The seed of the Chrome profile's generator: the session id where it is not empty,
/// else the client random.
pub open spec fn chrome_seed(p: ClientHelloPayload) -> u64 {
    if p.session_id.data@.len() != 0 {
        spec_seed(p.session_id.data@)
    } else {
        spec_seed(p.random.0@)
    }
}

/// Chrome's sixteen cipher suites, GREASE first.
pub open spec fn chrome_cipher_suites(grease: u16) -> Seq<CipherSuite> {
    seq![
        CipherSuite::Unknown(grease),
        CipherSuite::TLS13_AES_128_GCM_SHA256,
        CipherSuite::TLS13_AES_256_GCM_SHA384,
        CipherSuite::TLS13_CHACHA20_POLY1305_SHA256,
        CipherSuite::TLS_ECDHE_ECDSA_WITH_AES_128_GCM_SHA256,
        CipherSuite::TLS_ECDHE_RSA_WITH_AES_128_GCM_SHA256,
        CipherSuite::TLS_ECDHE_ECDSA_WITH_AES_256_GCM_SHA384,
        CipherSuite::TLS_ECDHE_RSA_WITH_AES_256_GCM_SHA384,
        CipherSuite::TLS_ECDHE_ECDSA_WITH_CHACHA20_POLY1305_SHA256,
        CipherSuite::TLS_ECDHE_RSA_WITH_CHACHA20_POLY1305_SHA256,
        CipherSuite::TLS_ECDHE_RSA_WITH_AES_128_CBC_SHA,
        CipherSuite::TLS_ECDHE_RSA_WITH_AES_256_CBC_SHA,
        CipherSuite::TLS_RSA_WITH_AES_128_GCM_SHA256,
        CipherSuite::TLS_RSA_WITH_AES_256_GCM_SHA384,
        CipherSuite::TLS_RSA_WITH_AES_128_CBC_SHA,
        CipherSuite::TLS_RSA_WITH_AES_256_CBC_SHA,
    ]
}

/// Chrome's supported groups, GREASE first.
pub open spec fn chrome_named_groups(grease: u16) -> Seq<NamedGroup> {
    seq![
        NamedGroup::Unknown(grease),
        NamedGroup::X25519MLKEM768,
        NamedGroup::X25519,
        NamedGroup::secp256r1,
        NamedGroup::secp384r1,
    ]
}

/// Chrome's signature algorithms: ML-DSA 44, 65 and 87 first, then the classic schemes.
pub open spec fn chrome_signature_schemes() -> Seq<SignatureScheme> {
    seq![
        SignatureScheme::Unknown(0x0904),
        SignatureScheme::Unknown(0x0905),
        SignatureScheme::Unknown(0x0906),
        SignatureScheme::ECDSA_NISTP256_SHA256,
        SignatureScheme::RSA_PSS_SHA256,
        SignatureScheme::RSA_PKCS1_SHA256,
        SignatureScheme::ECDSA_NISTP384_SHA384,
        SignatureScheme::RSA_PSS_SHA384,
        SignatureScheme::RSA_PKCS1_SHA384,
        SignatureScheme::RSA_PSS_SHA512,
        SignatureScheme::RSA_PKCS1_SHA512,
    ]
}

/// The body of Chrome's `supported_versions`: GREASE, TLS 1.3, TLS 1.2.
pub open spec fn chrome_versions_body(grease: u16) -> Seq<u8> {
    seq![0x06u8] + u16_be(grease as nat) + seq![0x03u8, 0x04u8, 0x03u8, 0x03u8]
}

/// The body of `application_settings`, offering `h2`.
pub open spec fn alps_body() -> Seq<u8> {
    seq![0x00u8, 0x03u8, 0x02u8, 0x68u8, 0x32u8]
}

/// The extensions that Chrome sends as raw bodies, in order.
pub open spec fn chrome_unknown_extensions(g: ProfileGreases) -> Seq<(ExtensionType, Seq<u8>)> {
    seq![
        (ExtensionType::Unknown(g.ext1), Seq::<u8>::empty()),
        (ExtensionType::SupportedVersions, chrome_versions_body(g.version)),
        (ExtensionType::Unknown(0x0012), Seq::<u8>::empty()),
        (ExtensionType::Unknown(0x44cd), alps_body()),
        (ExtensionType::Unknown(g.ext2), seq![0x00u8]),
    ]
}

/// The extensions between the two GREASE extensions before they are permuted:
/// thirteen that Chrome always sends, then `server_name`, `key_share` and
/// `encrypted_client_hello` where the ClientHello has them.
pub open spec fn chrome_inner_extensions(sni: bool, key_share: bool, ech: bool) -> Seq<ExtensionType> {
    seq![
        ExtensionType::EllipticCurves,
        ExtensionType::SupportedVersions,
        ExtensionType::PSKKeyExchangeModes,
        ExtensionType::ExtendedMasterSecret,
        ExtensionType::Unknown(0x0012),
        ExtensionType::Unknown(0x44cd),
        ExtensionType::ALProtocolNegotiation,
        ExtensionType::ECPointFormats,
        ExtensionType::RenegotiationInfo,
        ExtensionType::SessionTicket,
        ExtensionType::SignatureAlgorithms,
        ExtensionType::StatusRequest,
        ExtensionType::CompressCertificate,
    ] + (if sni { seq![ExtensionType::ServerName] } else { Seq::empty() }) + (if key_share {
        seq![ExtensionType::KeyShare]
    } else {
        Seq::empty()
    }) + (if ech { seq![ExtensionType::EncryptedClientHello] } else { Seq::empty() })
}

/// `v` with the items at `i` and `j` exchanged.
pub open spec fn swap_seq<T>(v: Seq<T>, i: int, j: int) -> Seq<T> {
    v.update(i, v[j]).update(j, v[i])
}

/// The Fisher-Yates steps for positions `k` down to 1: position `i` is exchanged with an
/// index drawn in `0..=i`.
pub open spec fn fisher_yates<T>(v: Seq<T>, s: u64, k: nat) -> (Seq<T>, u64)
    decreases k,
{
    if k == 0 {
        (v, s)
    } else {
        let (j, s1) = draw_index(s, k + 1);
        fisher_yates(swap_seq(v, k as int, j as int), s1, (k - 1) as nat)
    }
}

/// The permutation of `v` that the generator in state `s` gives, and the state after.
pub open spec fn shuffle(v: Seq<ExtensionType>, s: u64) -> (Seq<ExtensionType>, u64) {
    if v.len() == 0 {
        (v, s)
    } else {
        fisher_yates(v, s, (v.len() - 1) as nat)
    }
}

/// The first `n` bytes of the GREASE ECH payload: byte `i` is a draw in `0..256` XOR `i`.
pub open spec fn ech_dummy_bytes(s: u64, n: nat) -> (Seq<u8>, u64)
    decreases n,
{
    if n == 0 {
        (Seq::empty(), s)
    } else {
        let (b, s1) = ech_dummy_bytes(s, (n - 1) as nat);
        let (r, s2) = draw_index(s1, 256);
        (b.push(((r as usize) ^ ((n - 1) as usize)) as u8), s2)
    }
}

/// The GREASE ECH payload: 4 to 8 blocks of 32 bytes and 16 more, the count drawn first.
pub open spec fn ech_grease_payload(s: u64) -> (Seq<u8>, u64) {
    let (j, s1) = draw_index(s, 5);
    ech_dummy_bytes(s1, (4 + j) * 32 + 16)
}

/// An outer ECH extension gets `payload` in place of its payload; any other value stays.
pub open spec fn ech_payload_rewritten(
    o: Option<EncryptedClientHello>,
    q: Option<EncryptedClientHello>,
    payload: Seq<u8>,
) -> bool {
    match o {
        Some(EncryptedClientHello::Outer(oo)) => {
            &&& q matches Some(EncryptedClientHello::Outer(qo))
            &&& qo.cipher_suite == oo.cipher_suite
            &&& qo.config_id == oo.config_id
            &&& qo.enc == oo.enc
            &&& qo.payload@ == payload
        },
        _ => q == o,
    }
}

/// The groups whose key shares Chrome keeps in its first ClientHello.
pub open spec fn chrome_key_share_groups() -> Seq<NamedGroup> {
    seq![NamedGroup::X25519MLKEM768, NamedGroup::X25519]
}

/// What the Chrome profile makes of ClientHello `o` (as `q`).
pub open spec fn chrome_applied(o: ClientHelloPayload, q: ClientHelloPayload, is_retry: bool) -> bool {
    let (g, s5) = profile_greases(chrome_seed(o));
    let oe = *o.extensions;
    let qe = *q.extensions;
    let has_outer = oe.encrypted_client_hello matches Some(EncryptedClientHello::Outer(_));
    let (ech_payload, s6) = ech_grease_payload(s5);
    let s_perm = if has_outer { s6 } else { s5 };
    let inner = chrome_inner_extensions(
        oe.server_name is Some,
        oe.key_shares is Some,
        oe.encrypted_client_hello is Some,
    );
    &&& q.client_version == o.client_version
    &&& q.random == o.random
    &&& q.session_id == o.session_id
    &&& q.compression_methods == o.compression_methods
    &&& q.cipher_suites@ == chrome_cipher_suites(g.cipher)
    &&& qe.contiguous_extensions@ == seq![ExtensionType::Unknown(g.ext1)] + shuffle(inner, s_perm).0
        + seq![ExtensionType::Unknown(g.ext2)]
    &&& unknown_views(qe.unknown_extensions@) == chrome_unknown_extensions(g)
    &&& qe.order_seed == 0
    &&& qe.named_groups matches Some(v) && v@ == chrome_named_groups(g.group)
    &&& qe.supported_versions is None
    &&& qe.preshared_key_modes == Some(PskKeyExchangeModes { psk_dhe: true, psk: false })
    &&& qe.extended_master_secret_request == Some(())
    &&& if oe.protocols is None {
        qe.protocols matches Some(v) && protocol_views(v@) == h2_http11()
    } else {
        qe.protocols == oe.protocols
    }
    &&& qe.ec_point_formats == Some(SupportedEcPointFormats { uncompressed: true })
    &&& qe.renegotiation_info matches Some(r) && r.0@.len() == 0
    &&& key_shares_rewritten(oe.key_shares, qe.key_shares, is_retry, g.group, chrome_key_share_groups())
    &&& if oe.session_ticket is None {
        qe.session_ticket == Some(ClientSessionTicket::Request)
    } else {
        qe.session_ticket == oe.session_ticket
    }
    &&& ech_payload_rewritten(oe.encrypted_client_hello, qe.encrypted_client_hello, ech_payload)
    &&& qe.signature_schemes matches Some(v) && v@ == chrome_signature_schemes()
    &&& qe.certificate_status_request matches Some(r) && r.responder_ids@.len() == 0
        && r.extensions@.len() == 0
    &&& qe.certificate_compression_algorithms matches Some(v) && v@ == seq![
        CertificateCompressionAlgorithm::Brotli,
    ]
    &&& qe.server_name == oe.server_name
    &&& qe.custom_extensions == oe.custom_extensions
}

/// Permutes `v` in place with the Fisher-Yates shuffle, drawing from `rng`.
pub fn shuffle_extensions(v: &mut Vec<ExtensionType>, rng: &mut GreaseRng)
    ensures
        (final(v)@, final(rng)@) == shuffle(old(v)@, old(rng)@),
{
    if v.len() == 0 {
        return;
    }
    let ghost target = shuffle(v@, rng@);
    let n = v.len();
    let mut i: usize = n - 1;
    while i >= 1
        invariant
            i < v@.len(),
            v@.len() == n,
            fisher_yates(v@, rng@, i as nat) == target,
        decreases i,
    {
        let ghost before = v@;
        let j = rng.next_usize(i + 1);
        let a = v[i];
        let b = v[j];
        v.set(i, b);
        v.set(j, a);
        proof {
            assert(v@ =~= swap_seq(before, i as int, j as int));
        }
        i = i - 1;
    }
}

/// Gives an outer ECH extension a fresh GREASE payload; any other value stays, and then
/// nothing is drawn.
pub fn rewrite_ech_payload(ech: &mut Option<EncryptedClientHello>, rng: &mut GreaseRng)
    ensures
        ech_payload_rewritten(*old(ech), *final(ech), ech_grease_payload(old(rng)@).0),
        final(rng)@ == (if old(ech) matches Some(EncryptedClientHello::Outer(_)) {
            ech_grease_payload(old(rng)@).1
        } else {
            old(rng)@
        }),
        (*final(ech) is Some) == (*old(ech) is Some),
{
    match ech.take() {
        Some(EncryptedClientHello::Outer(outer)) => {
            let mut outer = outer;
            outer.payload = build_ech_grease_payload(rng);
            *ech = Some(EncryptedClientHello::Outer(outer));
        },
        other => {
            *ech = other;
        },
    }
}

/// Builds the GREASE ECH payload, drawing from `rng`.
pub fn build_ech_grease_payload(rng: &mut GreaseRng) -> (p: Vec<u8>)
    ensures
        (p@, final(rng)@) == ech_grease_payload(old(rng)@),
{
    let block_count = 4 + rng.next_usize(5);
    let payload_len = block_count * 32 + 16;
    let ghost s1 = rng@;
    let mut dummy: Vec<u8> = Vec::new();
    let mut i: usize = 0;
    while i < payload_len
        invariant
            i <= payload_len,
            (dummy@, rng@) == ech_dummy_bytes(s1, i as nat),
        decreases payload_len - i,
    {
        let r = rng.next_usize(256);
        dummy.push((r ^ i) as u8);
        i = i + 1;
    }
    dummy
}


pub(crate) fn chrome_cipher_suite_vec(grease: u16) -> (v: Vec<CipherSuite>)
    ensures
        v@ == chrome_cipher_suites(grease),
{
    let v = vec![
        CipherSuite::Unknown(grease),
        CipherSuite::TLS13_AES_128_GCM_SHA256,
        CipherSuite::TLS13_AES_256_GCM_SHA384,
        CipherSuite::TLS13_CHACHA20_POLY1305_SHA256,
        CipherSuite::TLS_ECDHE_ECDSA_WITH_AES_128_GCM_SHA256,
        CipherSuite::TLS_ECDHE_RSA_WITH_AES_128_GCM_SHA256,
        CipherSuite::TLS_ECDHE_ECDSA_WITH_AES_256_GCM_SHA384,
        CipherSuite::TLS_ECDHE_RSA_WITH_AES_256_GCM_SHA384,
        CipherSuite::TLS_ECDHE_ECDSA_WITH_CHACHA20_POLY1305_SHA256,
        CipherSuite::TLS_ECDHE_RSA_WITH_CHACHA20_POLY1305_SHA256,
        CipherSuite::TLS_ECDHE_RSA_WITH_AES_128_CBC_SHA,
        CipherSuite::TLS_ECDHE_RSA_WITH_AES_256_CBC_SHA,
        CipherSuite::TLS_RSA_WITH_AES_128_GCM_SHA256,
        CipherSuite::TLS_RSA_WITH_AES_256_GCM_SHA384,
        CipherSuite::TLS_RSA_WITH_AES_128_CBC_SHA,
        CipherSuite::TLS_RSA_WITH_AES_256_CBC_SHA,
    ];
    assert(v@ =~= chrome_cipher_suites(grease));
    v
}

fn chrome_signature_scheme_vec() -> (v: Vec<SignatureScheme>)
    ensures
        v@ == chrome_signature_schemes(),
{
    let v = vec![
        SignatureScheme::Unknown(0x0904),
        SignatureScheme::Unknown(0x0905),
        SignatureScheme::Unknown(0x0906),
        SignatureScheme::ECDSA_NISTP256_SHA256,
        SignatureScheme::RSA_PSS_SHA256,
        SignatureScheme::RSA_PKCS1_SHA256,
        SignatureScheme::ECDSA_NISTP384_SHA384,
        SignatureScheme::RSA_PSS_SHA384,
        SignatureScheme::RSA_PKCS1_SHA384,
        SignatureScheme::RSA_PSS_SHA512,
        SignatureScheme::RSA_PKCS1_SHA512,
    ];
    assert(v@ =~= chrome_signature_schemes());
    v
}

fn chrome_inner_extension_vec(sni: bool, key_share: bool, ech: bool) -> (v: Vec<ExtensionType>)
    ensures
        v@ == chrome_inner_extensions(sni, key_share, ech),
{
    let mut v = vec![
        ExtensionType::EllipticCurves,
        ExtensionType::SupportedVersions,
        ExtensionType::PSKKeyExchangeModes,
        ExtensionType::ExtendedMasterSecret,
        ExtensionType::Unknown(0x0012),
        ExtensionType::Unknown(0x44cd),
        ExtensionType::ALProtocolNegotiation,
        ExtensionType::ECPointFormats,
        ExtensionType::RenegotiationInfo,
        ExtensionType::SessionTicket,
        ExtensionType::SignatureAlgorithms,
        ExtensionType::StatusRequest,
        ExtensionType::CompressCertificate,
    ];
    if sni {
        v.push(ExtensionType::ServerName);
    }
    if key_share {
        v.push(ExtensionType::KeyShare);
    }
    if ech {
        v.push(ExtensionType::EncryptedClientHello);
    }
    assert(v@ =~= chrome_inner_extensions(sni, key_share, ech));
    v
}

/// The raw extensions that Chrome sends.
fn chrome_unknown_extension_vec(g: ProfileGreases) -> (v: Vec<UnknownExtension>)
    ensures
        unknown_views(v@) == chrome_unknown_extensions(g),
{
    let mut ver_payload: Vec<u8> = vec![0x06u8];
    crate::codec::put_u16(g.version, &mut ver_payload);
    ver_payload.push(0x03u8);
    ver_payload.push(0x04u8);
    ver_payload.push(0x03u8);
    ver_payload.push(0x03u8);
    assert(ver_payload@ =~= chrome_versions_body(g.version));
    let alps: Vec<u8> = vec![0x00u8, 0x03u8, 0x02u8, 0x68u8, 0x32u8];
    assert(alps@ =~= alps_body());
    let last: Vec<u8> = vec![0x00u8];
    let mut v: Vec<UnknownExtension> = Vec::new();
    v.push(UnknownExtension { typ: ExtensionType::Unknown(g.ext1), payload: Vec::new() });
    v.push(UnknownExtension { typ: ExtensionType::SupportedVersions, payload: ver_payload });
    v.push(UnknownExtension { typ: ExtensionType::Unknown(0x0012), payload: Vec::new() });
    v.push(UnknownExtension { typ: ExtensionType::Unknown(0x44cd), payload: alps });
    v.push(UnknownExtension { typ: ExtensionType::Unknown(g.ext2), payload: last });
    assert(v@[0].payload@ =~= Seq::<u8>::empty());
    assert(v@[2].payload@ =~= Seq::<u8>::empty());
    assert(v@[4].payload@ =~= seq![0x00u8]);
    assert(unknown_views(v@) =~= chrome_unknown_extensions(g));
    v
}

impl ClientHelloFingerprinter for ChromeFingerprint {
    open spec fn spec_wants_ech_grease(&self) -> bool {
        true
    }

    open spec fn spec_kx_group_fixups(&self) -> (Seq<KxGroup>, Option<NamedGroup>) {
        (Seq::empty(), Some(NamedGroup::X25519MLKEM768))
    }

    fn wants_ech_grease(&self) -> (b: bool) {
        true
    }

    fn kx_group_fixups(&self) -> (r: (Vec<KxGroup>, Option<NamedGroup>)) {
        (Vec::new(), Some(NamedGroup::X25519MLKEM768))
    }

    fn apply(&self, payload: &mut ClientHelloPayload, is_retry: bool)
        ensures
            chrome_applied(*old(payload), *final(payload), is_retry),
    {
        // Seed from the session id, or the random where there is none, so that GREASE
        // values and the extension order vary across connections but stay the same
        // across the ClientHellos of one handshake.
        let mut rng = if !payload.session_id.is_empty() {
            GreaseRng::from_session_id(payload.session_id.as_slice())
        } else {
            GreaseRng::from_session_id(payload.random.0.as_slice())
        };
        let g = draw_profile_greases(&mut rng);
        let ghost s5 = rng@;

        // 1. Cipher suites, in Chrome's order.
        payload.cipher_suites = chrome_cipher_suite_vec(g.cipher);

        // 2. Extension payloads.
        let exts = &mut *payload.extensions;
        exts.contiguous_extensions.clear();
        exts.order_seed = 0;
        exts.unknown_extensions = chrome_unknown_extension_vec(g);
        exts.named_groups = Some(vec![
            NamedGroup::Unknown(g.group),
            NamedGroup::X25519MLKEM768,
            NamedGroup::X25519,
            NamedGroup::secp256r1,
            NamedGroup::secp384r1,
        ]);
        exts.supported_versions = None;
        exts.preshared_key_modes = Some(PskKeyExchangeModes { psk_dhe: true, psk: false });
        exts.extended_master_secret_request = Some(());
        if exts.protocols.is_none() {
            exts.protocols = Some(h2_http11_protocols());
        }
        exts.ec_point_formats = Some(SupportedEcPointFormats::default());
        exts.renegotiation_info = Some(PayloadU8::empty());
        let keep = vec![NamedGroup::X25519MLKEM768, NamedGroup::X25519];
        rewrite_key_shares(&mut exts.key_shares, is_retry, g.group, &keep);
        if exts.session_ticket.is_none() {
            exts.session_ticket = Some(ClientSessionTicket::Request);
        }

        // The GREASE ECH payload varies across 32-byte blocks, as Chrome's padding does.
        let ghost s_before_ech = rng@;
        rewrite_ech_payload(&mut exts.encrypted_client_hello, &mut rng);
        exts.signature_schemes = Some(chrome_signature_scheme_vec());
        exts.certificate_status_request = Some(CertificateStatusRequest::build_ocsp());
        let algs = vec![CertificateCompressionAlgorithm::Brotli];
        assert(algs@ =~= seq![CertificateCompressionAlgorithm::Brotli]);
        exts.certificate_compression_algorithms = Some(algs);

        // 3. Permute the extensions between the two GREASE extensions.
        let mut inner = chrome_inner_extension_vec(
            exts.server_name.is_some(),
            exts.key_shares.is_some(),
            exts.encrypted_client_hello.is_some(),
        );
        let ghost unshuffled = inner@;
        let ghost s_perm = rng@;
        shuffle_extensions(&mut inner, &mut rng);
        let ghost shuffled = inner@;
        exts.contiguous_extensions.push(ExtensionType::Unknown(g.ext1));
        exts.contiguous_extensions.append(&mut inner);
        exts.contiguous_extensions.push(ExtensionType::Unknown(g.ext2));
        assert(exts.contiguous_extensions@ =~= seq![ExtensionType::Unknown(g.ext1)] + shuffled
            + seq![ExtensionType::Unknown(g.ext2)]);
    }
}


/// The Fisher-Yates steps permute their input.
pub proof fn lemma_fisher_yates_permutes<T>(v: Seq<T>, s: u64, k: nat)
    requires
        k < v.len(),
    ensures
        fisher_yates(v, s, k).0.to_multiset() == v.to_multiset(),
        fisher_yates(v, s, k).0.len() == v.len(),
    decreases k,
{
    broadcast use vstd::seq_lib::to_multiset_update;
    broadcast use vstd::multiset::group_multiset_axioms;

    if k > 0 {
        let (j, s1) = draw_index(s, k + 1);
        crate::fingerprint::grease::lemma_draw_index_bound(s, k + 1);
        let w = swap_seq(v, k as int, j as int);
        let v1 = v.update(k as int, v[j as int]);
        let m = v.to_multiset();
        assert(m.count(v[j as int]) > 0 && m.count(v[k as int]) > 0) by {
            broadcast use vstd::seq_lib::to_multiset_contains;

            assert(v.contains(v[j as int]));
            assert(v.contains(v[k as int]));
        }
        assert(v1.to_multiset() =~= m.insert(v[j as int]).remove(v[k as int]));
        assert(v1[j as int] == (if j == k { v[j as int] } else { v[j as int] }));
        assert(w.to_multiset() =~= v1.to_multiset().insert(v[k as int]).remove(v1[j as int]));
        assert(w.to_multiset() =~= m);
        lemma_fisher_yates_permutes(w, s1, (k - 1) as nat);
    }
}

/// The shuffle of the Chrome profile is a permutation of what it shuffles.
pub proof fn lemma_shuffle_permutes(v: Seq<ExtensionType>, s: u64)
    ensures
        shuffle(v, s).0.to_multiset() == v.to_multiset(),
        shuffle(v, s).0.len() == v.len(),
{
    if v.len() > 0 {
        lemma_fisher_yates_permutes(v, s, (v.len() - 1) as nat);
    }
}

/// The extensions that the Chrome profile sends come as: a GREASE extension, every
/// extension of its list exactly once in some order, and a second GREASE extension of
/// another value.
pub proof fn lemma_chrome_extension_layout(o: ClientHelloPayload, q: ClientHelloPayload, is_retry: bool)
    requires
        chrome_applied(o, q, is_retry),
    ensures
        ({
            let order = q.extensions.contiguous_extensions@;
            let g = profile_greases(chrome_seed(o)).0;
            let inner = chrome_inner_extensions(
                o.extensions.server_name is Some,
                o.extensions.key_shares is Some,
                o.extensions.encrypted_client_hello is Some,
            );
            &&& order.len() == inner.len() + 2
            &&& order[0] == ExtensionType::Unknown(g.ext1)
            &&& order[order.len() - 1] == ExtensionType::Unknown(g.ext2)
            &&& is_grease(g.ext1) && is_grease(g.ext2) && g.ext1 != g.ext2
            &&& order.subrange(1, order.len() - 1).to_multiset() == inner.to_multiset()
        }),
{
    let (g, s5) = profile_greases(chrome_seed(o));
    crate::fingerprint::grease::lemma_profile_greases_valid(chrome_seed(o));
    let oe = *o.extensions;
    let has_outer = oe.encrypted_client_hello matches Some(EncryptedClientHello::Outer(_));
    let s_perm = if has_outer { ech_grease_payload(s5).1 } else { s5 };
    let inner = chrome_inner_extensions(
        oe.server_name is Some,
        oe.key_shares is Some,
        oe.encrypted_client_hello is Some,
    );
    lemma_shuffle_permutes(inner, s_perm);
    let order = q.extensions.contiguous_extensions@;
    assert(order.subrange(1, order.len() - 1) =~= shuffle(inner, s_perm).0);
}

/// The first `n` bytes of the GREASE ECH payload are `n` bytes.
proof fn lemma_ech_dummy_len(s: u64, n: nat)
    ensures
        ech_dummy_bytes(s, n).0.len() == n,
    decreases n,
{
    if n > 0 {
        lemma_ech_dummy_len(s, (n - 1) as nat);
    }
}

/// The GREASE ECH payload is 4 to 8 blocks of 32 bytes and 16 bytes more: 144 to 272
/// bytes, so that the ClientHello's size varies in steps of 32 bytes.
pub proof fn lemma_ech_grease_payload_len(s: u64)
    ensures
        144 <= ech_grease_payload(s).0.len() <= 272,
        (ech_grease_payload(s).0.len() - 16) % 32 == 0,
{
    let (j, s1) = draw_index(s, 5);
    crate::fingerprint::grease::lemma_draw_index_bound(s, 5);
    lemma_ech_dummy_len(s1, (4 + j) * 32 + 16);
    assert(((4 + j) * 32 + 16 - 16) % 32 == 0) by {
        assert((4 + j) * 32 + 16 - 16 == (4 + j) * 32);
    }
}

/// The Chrome profile adds no padding extension: neither the extension order nor the
/// raw extensions it sets hold type 0x0015 (Chrome varies the ECH payload instead).
pub proof fn lemma_chrome_no_padding(o: ClientHelloPayload, q: ClientHelloPayload, is_retry: bool)
    requires
        chrome_applied(o, q, is_retry),
    ensures
        !q.extensions.contiguous_extensions@.contains(ExtensionType::Padding),
        !q.extensions.contiguous_extensions@.contains(ExtensionType::Unknown(0x0015)),
        forall|i: int|
            0 <= i < q.extensions.unknown_extensions@.len() ==> {
                let t = (#[trigger] q.extensions.unknown_extensions@[i]).typ;
                t != ExtensionType::Padding && t != ExtensionType::Unknown(0x0015)
            },
{
    broadcast use vstd::seq_lib::to_multiset_contains;

    let (g, s5) = profile_greases(chrome_seed(o));
    crate::fingerprint::grease::lemma_profile_greases_valid(chrome_seed(o));
    let oe = *o.extensions;
    let has_outer = oe.encrypted_client_hello matches Some(EncryptedClientHello::Outer(_));
    let s_perm = if has_outer { ech_grease_payload(s5).1 } else { s5 };
    let inner = chrome_inner_extensions(
        oe.server_name is Some,
        oe.key_shares is Some,
        oe.encrypted_client_hello is Some,
    );
    let shuffled = shuffle(inner, s_perm).0;
    lemma_shuffle_permutes(inner, s_perm);
    let order = q.extensions.contiguous_extensions@;
    assert(order =~= seq![ExtensionType::Unknown(g.ext1)] + shuffled + seq![ExtensionType::Unknown(g.ext2)]);
    assert forall|x: ExtensionType| x == ExtensionType::Padding || x == ExtensionType::Unknown(0x0015)
        implies !order.contains(x) by {
        assert(!inner.contains(x));
        if shuffled.contains(x) {
            assert(shuffled.to_multiset().count(x) > 0);
            assert(inner.to_multiset().count(x) > 0);
        }
        if order.contains(x) {
            let k = choose|k: int| 0 <= k < order.len() && order[k] == x;
            if 0 < k < order.len() - 1 {
                assert(shuffled[k - 1] == x);
            }
        }
    }
    let u = q.extensions.unknown_extensions@;
    assert(unknown_views(u).len() == u.len());
    assert(u.len() == 5);
    assert forall|i: int| 0 <= i < u.len() implies {
        let t = (#[trigger] u[i]).typ;
        t != ExtensionType::Padding && t != ExtensionType::Unknown(0x0015)
    } by {
        let c = chrome_unknown_extensions(g);
        assert(unknown_views(u)[i].0 == u[i].typ);
        assert(unknown_views(u)[i] == c[i]);
        assert(g.ext1 != 0x0015 && g.ext2 != 0x0015);
        if i == 0 {
            assert(c[0].0 == ExtensionType::Unknown(g.ext1));
        } else if i == 1 {
            assert(c[1].0 == ExtensionType::SupportedVersions);
        } else if i == 2 {
            assert(c[2].0 == ExtensionType::Unknown(0x0012));
        } else if i == 3 {
            assert(c[3].0 == ExtensionType::Unknown(0x44cd));
        } else {
            assert(c[4].0 == ExtensionType::Unknown(g.ext2));
        }
    }
}

/// The Chrome profile seeds its generator from the session id, or from the client random
/// where the session id is empty: its GREASE cipher suite, group and the two GREASE
/// extensions are the profile draws from the seed of those bytes.
pub proof fn lemma_chrome_seed_source(o: ClientHelloPayload, q: ClientHelloPayload, is_retry: bool)
    requires
        chrome_applied(o, q, is_retry),
    ensures
        ({
            let bytes = if o.session_id.data@.len() == 0 {
                o.random.0@
            } else {
                o.session_id.data@
            };
            let g = profile_greases(spec_seed(bytes)).0;
            let order = q.extensions.contiguous_extensions@;
            &&& q.cipher_suites@[0] == CipherSuite::Unknown(g.cipher)
            &&& q.extensions.named_groups.unwrap()@[0] == NamedGroup::Unknown(g.group)
            &&& order[0] == ExtensionType::Unknown(g.ext1)
            &&& order[order.len() - 1] == ExtensionType::Unknown(g.ext2)
        }),
{
    lemma_chrome_extension_layout(o, q, is_retry);
}

/// Two ClientHellos without a session id whose client randoms differ in their first eight
/// bytes (neither all zero there) get different seeds: GREASE values and extension order
/// vary across connections.
pub proof fn lemma_chrome_random_seeds_differ(o1: ClientHelloPayload, o2: ClientHelloPayload)
    requires
        o1.session_id.data@.len() == 0,
        o2.session_id.data@.len() == 0,
        exists|i: int| 0 <= i < 8 && o1.random.0@[i] != o2.random.0@[i],
        exists|i: int| 0 <= i < 8 && o1.random.0@[i] != 0,
        exists|i: int| 0 <= i < 8 && o2.random.0@[i] != 0,
    ensures
        chrome_seed(o1) != chrome_seed(o2),
{
    crate::fingerprint::grease::lemma_seed_injective(o1.random.0@, o2.random.0@);
}

/// A retried ClientHello gets what the first one got: where two ClientHellos have the
/// same seed (session id, or random where there is none) and the same extensions
/// present, the profile gives them the same cipher suites, the same extension order,
/// the same raw extensions and the same groups.
pub proof fn lemma_chrome_stable_across_retry(
    o1: ClientHelloPayload,
    q1: ClientHelloPayload,
    r1: bool,
    o2: ClientHelloPayload,
    q2: ClientHelloPayload,
    r2: bool,
)
    requires
        chrome_applied(o1, q1, r1),
        chrome_applied(o2, q2, r2),
        chrome_seed(o1) == chrome_seed(o2),
        (o1.extensions.server_name is Some) == (o2.extensions.server_name is Some),
        (o1.extensions.key_shares is Some) == (o2.extensions.key_shares is Some),
        (o1.extensions.encrypted_client_hello is Some) == (o2.extensions.encrypted_client_hello is Some),
        (o1.extensions.encrypted_client_hello matches Some(EncryptedClientHello::Outer(_))) == (
        o2.extensions.encrypted_client_hello matches Some(EncryptedClientHello::Outer(_))),
    ensures
        q1.cipher_suites@ == q2.cipher_suites@,
        q1.extensions.contiguous_extensions@ == q2.extensions.contiguous_extensions@,
        unknown_views(q1.extensions.unknown_extensions@) == unknown_views(
            q2.extensions.unknown_extensions@,
        ),
        q1.extensions.named_groups.unwrap()@ == q2.extensions.named_groups.unwrap()@,
{
}

} // verus!
