//! The WebKit (Safari) profile drawn from the thread-local generator.
use vstd::prelude::*;

use crate::codec::{put_u16, zero_bytes};
use crate::enums::{CertificateCompressionAlgorithm, CipherSuite, ExtensionType, NamedGroup, SignatureScheme};
use crate::fingerprint::grease::{grease_values, lemma_grease_table, ProfileGreases};
use crate::fingerprint::safari::{safari_named_groups, safari_versions_body};
use crate::fingerprint::{key_shares_rewritten, rewrite_key_shares};
use crate::handshake::{
    client_hello_encoding, h2_http11, h2_http11_protocols, lemma_encoding_len_push_custom,
    protocol_views, unknown_views, ClientExtensions, ClientHelloPayload, PayloadU8,
    UnknownExtension,
};
use crate::patches::chrome::valid_patch_greases;
use crate::patches::grease::{choose_multiple, get_grease_value, thread_rng};

verus! {

/// The ClientHello, without padding, is between 505 and 511 bytes long: no padding
/// extension can bring it to a 512-byte record.
#[derive(Clone, Copy, Debug, PartialEq, Eq, Structural)]
pub struct PaddingOverflow;

/// The profile's 21 cipher suites, GREASE first, with three 3DES suites last.
pub open spec fn webkit_cipher_suites(grease: u16) -> Seq<CipherSuite> {
    seq![
        CipherSuite::Unknown(grease),
        CipherSuite::TLS13_AES_128_GCM_SHA256,
        CipherSuite::TLS13_AES_256_GCM_SHA384,
        CipherSuite::TLS13_CHACHA20_POLY1305_SHA256,
        CipherSuite::TLS_ECDHE_ECDSA_WITH_AES_256_GCM_SHA384,
        CipherSuite::TLS_ECDHE_ECDSA_WITH_AES_128_GCM_SHA256,
        CipherSuite::TLS_ECDHE_ECDSA_WITH_CHACHA20_POLY1305_SHA256,
        CipherSuite::TLS_ECDHE_RSA_WITH_AES_256_GCM_SHA384,
        CipherSuite::TLS_ECDHE_RSA_WITH_AES_128_GCM_SHA256,
        CipherSuite::TLS_ECDHE_RSA_WITH_CHACHA20_POLY1305_SHA256,
        CipherSuite::TLS_ECDHE_ECDSA_WITH_AES_256_CBC_SHA,
        CipherSuite::TLS_ECDHE_ECDSA_WITH_AES_128_CBC_SHA,
        CipherSuite::TLS_ECDHE_RSA_WITH_AES_256_CBC_SHA,
        CipherSuite::TLS_ECDHE_RSA_WITH_AES_128_CBC_SHA,
        CipherSuite::TLS_RSA_WITH_AES_256_GCM_SHA384,
        CipherSuite::TLS_RSA_WITH_AES_128_GCM_SHA256,
        CipherSuite::TLS_RSA_WITH_AES_256_CBC_SHA,
        CipherSuite::TLS_RSA_WITH_AES_128_CBC_SHA,
        CipherSuite::TLS_ECDHE_ECDSA_WITH_3DES_EDE_CBC_SHA,
        CipherSuite::TLS_ECDHE_RSA_WITH_3DES_EDE_CBC_SHA,
        CipherSuite::TLS_RSA_WITH_3DES_EDE_CBC_SHA,
    ]
}

/// The profile's signature algorithms, with RSA-PSS-SHA384 twice.
pub open spec fn webkit_signature_schemes() -> Seq<SignatureScheme> {
    seq![
        SignatureScheme::ECDSA_NISTP256_SHA256,
        SignatureScheme::RSA_PSS_SHA256,
        SignatureScheme::RSA_PKCS1_SHA256,
        SignatureScheme::ECDSA_NISTP384_SHA384,
        SignatureScheme::RSA_PSS_SHA384,
        SignatureScheme::RSA_PSS_SHA384,
        SignatureScheme::RSA_PKCS1_SHA384,
        SignatureScheme::RSA_PSS_SHA512,
        SignatureScheme::RSA_PKCS1_SHA512,
        SignatureScheme::RSA_PKCS1_SHA1,
    ]
}

/// The custom extensions of the profile before any padding.
pub open spec fn webkit_custom(g: ProfileGreases) -> Seq<(ExtensionType, Seq<u8>)> {
    seq![
        (ExtensionType::spec_from_u16(g.ext1), Seq::<u8>::empty()),
        (ExtensionType::SCT, Seq::<u8>::empty()),
        (ExtensionType::SupportedVersions, safari_versions_body(g.version)),
        (ExtensionType::spec_from_u16(g.ext2), seq![0x00u8]),
    ]
}

/// The order of the profile's extensions before any padding.
pub open spec fn webkit_order(g: ProfileGreases, key_share: bool, no_alpn: bool) -> Seq<ExtensionType> {
    seq![
        ExtensionType::spec_from_u16(g.ext1),
        ExtensionType::ServerName,
        ExtensionType::ExtendedMasterSecret,
        ExtensionType::RenegotiationInfo,
        ExtensionType::EllipticCurves,
        ExtensionType::ECPointFormats,
    ] + (if no_alpn { Seq::empty() } else { seq![ExtensionType::ALProtocolNegotiation] }) + seq![
        ExtensionType::StatusRequest,
        ExtensionType::SignatureAlgorithms,
        ExtensionType::SCT,
    ] + (if key_share { seq![ExtensionType::KeyShare] } else { Seq::empty() }) + seq![
        ExtensionType::PSKKeyExchangeModes,
        ExtensionType::SupportedVersions,
        ExtensionType::CompressCertificate,
        ExtensionType::spec_from_u16(g.ext2),
    ]
}

/// The groups whose key shares the profile keeps.
pub open spec fn webkit_key_share_groups() -> Seq<NamedGroup> {
    seq![NamedGroup::X25519]
}

/// The fields that the profile sets, whatever the padding.
pub open spec fn webkit_fields(o: ClientHelloPayload, q: ClientHelloPayload, no_alpn: bool, g: ProfileGreases) -> bool {
    let oe = *o.extensions;
    let qe = *q.extensions;
    &&& q.client_version == o.client_version
    &&& q.random == o.random
    &&& q.session_id == o.session_id
    &&& q.compression_methods == o.compression_methods
    &&& q.cipher_suites@ == webkit_cipher_suites(g.cipher)
    &&& qe.session_ticket is None
    &&& qe.extended_master_secret_request == Some(())
    &&& qe.renegotiation_info matches Some(r) && r.0@.len() == 0
    &&& qe.named_groups matches Some(v) && v@ == safari_named_groups(g.group)
    &&& if !no_alpn && oe.protocols is None {
        qe.protocols matches Some(v) && protocol_views(v@) == h2_http11()
    } else {
        qe.protocols == oe.protocols
    }
    &&& qe.signature_schemes matches Some(v) && v@ == webkit_signature_schemes()
    &&& key_shares_rewritten(oe.key_shares, qe.key_shares, false, g.group, webkit_key_share_groups())
    &&& qe.supported_versions is None
    &&& qe.certificate_compression_algorithms matches Some(v) && v@ == seq![
        CertificateCompressionAlgorithm::Zlib,
    ]
    &&& qe.server_name == oe.server_name
    &&& qe.certificate_status_request == oe.certificate_status_request
    &&& qe.ec_point_formats == oe.ec_point_formats
    &&& qe.preshared_key_modes == oe.preshared_key_modes
    &&& qe.encrypted_client_hello == oe.encrypted_client_hello
    &&& qe.order_seed == oe.order_seed
    &&& qe.unknown_extensions == oe.unknown_extensions
}

/// The padding extension of `n` zero bytes, as its type and body.
pub open spec fn webkit_padding_view(n: nat) -> (ExtensionType, Seq<u8>) {
    (ExtensionType::Padding, Seq::new(n, |i: int| 0u8))
}

/// How the profile ends `q`, given what the ClientHello needs: where its body without
/// padding is shorter than 504 bytes, a padding extension of `512 - length - 8` bytes
/// brings it to 508 bytes (a 512-byte record with its 4-byte handshake header); at 504
/// bytes, or 512 and more, nothing is added; lengths from 505 to 511 are refused.
pub open spec fn webkit_padded(
    q: ClientHelloPayload,
    g: ProfileGreases,
    key_share: bool,
    no_alpn: bool,
    r: Result<(), PaddingOverflow>,
) -> bool {
    let qe = *q.extensions;
    let total = client_hello_encoding(q).len();
    let base_custom = webkit_custom(g);
    let base_order = webkit_order(g, key_share, no_alpn);
    ||| {
        &&& r is Ok
        &&& total == 504 || total >= 512
        &&& unknown_views(qe.custom_extensions@) == base_custom
        &&& qe.contiguous_extensions@ == base_order
    }
    ||| {
        &&& r is Err
        &&& 504 < total < 512
        &&& unknown_views(qe.custom_extensions@) == base_custom
        &&& qe.contiguous_extensions@ == base_order
    }
    ||| exists|n: nat|
        {
            &&& r is Ok
            &&& 0 < n < 505
            &&& total == 508
            &&& unknown_views(qe.custom_extensions@) == base_custom.push(#[trigger] webkit_padding_view(n))
            &&& qe.contiguous_extensions@ == base_order.push(ExtensionType::Padding)
        }
}

/// Adds a custom extension and puts its type next in the wanted order.
pub fn add_custom_ext(payload: &mut ClientHelloPayload, typ: u16, data: Vec<u8>)
    ensures
        unknown_views(final(payload).extensions.custom_extensions@) == unknown_views(
            old(payload).extensions.custom_extensions@,
        ).push((ExtensionType::spec_from_u16(typ), data@)),
        final(payload).extensions.custom_extensions@.len() == old(payload).extensions.custom_extensions@.len() + 1,
        final(payload).extensions.custom_extensions@ == old(payload).extensions.custom_extensions@.push(
            UnknownExtension { typ: ExtensionType::spec_from_u16(typ), payload: data },
        ),
        final(payload).extensions.contiguous_extensions@ == old(payload).extensions.contiguous_extensions@.push(
            ExtensionType::spec_from_u16(typ),
        ),
        *final(payload) == (ClientHelloPayload { extensions: final(payload).extensions, ..*old(payload) }),
        *final(payload).extensions == (ClientExtensions {
            custom_extensions: final(payload).extensions.custom_extensions,
            contiguous_extensions: final(payload).extensions.contiguous_extensions,
            ..*old(payload).extensions
        }),
{
    let etype = ExtensionType::from_u16(typ);
    payload.extensions.custom_extensions.push(UnknownExtension { typ: etype, payload: data });
    payload.extensions.contiguous_extensions.push(etype);
    assert(unknown_views(payload.extensions.custom_extensions@) =~= unknown_views(
        old(payload).extensions.custom_extensions@,
    ).push((ExtensionType::spec_from_u16(typ), data@)));
}


fn webkit_cipher_suite_vec(grease: u16) -> (v: Vec<CipherSuite>)
    ensures
        v@ == webkit_cipher_suites(grease),
{
    let v = vec![
        CipherSuite::Unknown(grease),
        CipherSuite::TLS13_AES_128_GCM_SHA256,
        CipherSuite::TLS13_AES_256_GCM_SHA384,
        CipherSuite::TLS13_CHACHA20_POLY1305_SHA256,
        CipherSuite::TLS_ECDHE_ECDSA_WITH_AES_256_GCM_SHA384,
        CipherSuite::TLS_ECDHE_ECDSA_WITH_AES_128_GCM_SHA256,
        CipherSuite::TLS_ECDHE_ECDSA_WITH_CHACHA20_POLY1305_SHA256,
        CipherSuite::TLS_ECDHE_RSA_WITH_AES_256_GCM_SHA384,
        CipherSuite::TLS_ECDHE_RSA_WITH_AES_128_GCM_SHA256,
        CipherSuite::TLS_ECDHE_RSA_WITH_CHACHA20_POLY1305_SHA256,
        CipherSuite::TLS_ECDHE_ECDSA_WITH_AES_256_CBC_SHA,
        CipherSuite::TLS_ECDHE_ECDSA_WITH_AES_128_CBC_SHA,
        CipherSuite::TLS_ECDHE_RSA_WITH_AES_256_CBC_SHA,
        CipherSuite::TLS_ECDHE_RSA_WITH_AES_128_CBC_SHA,
        CipherSuite::TLS_RSA_WITH_AES_256_GCM_SHA384,
        CipherSuite::TLS_RSA_WITH_AES_128_GCM_SHA256,
        CipherSuite::TLS_RSA_WITH_AES_256_CBC_SHA,
        CipherSuite::TLS_RSA_WITH_AES_128_CBC_SHA,
        CipherSuite::TLS_ECDHE_ECDSA_WITH_3DES_EDE_CBC_SHA,
        CipherSuite::TLS_ECDHE_RSA_WITH_3DES_EDE_CBC_SHA,
        CipherSuite::TLS_RSA_WITH_3DES_EDE_CBC_SHA,
    ];
    assert(v@ =~= webkit_cipher_suites(grease));
    v
}

fn webkit_signature_scheme_vec() -> (v: Vec<SignatureScheme>)
    ensures
        v@ == webkit_signature_schemes(),
{
    let v = vec![
        SignatureScheme::ECDSA_NISTP256_SHA256,
        SignatureScheme::RSA_PSS_SHA256,
        SignatureScheme::RSA_PKCS1_SHA256,
        SignatureScheme::ECDSA_NISTP384_SHA384,
        SignatureScheme::RSA_PSS_SHA384,
        SignatureScheme::RSA_PSS_SHA384,
        SignatureScheme::RSA_PKCS1_SHA384,
        SignatureScheme::RSA_PSS_SHA512,
        SignatureScheme::RSA_PKCS1_SHA512,
        SignatureScheme::RSA_PKCS1_SHA1,
    ];
    assert(v@ =~= webkit_signature_schemes());
    v
}

/// Everything the profile does but the padding.
fn webkit_prepare(payload: &mut ClientHelloPayload, no_alpn: bool, g: ProfileGreases)
    ensures
        webkit_fields(*old(payload), *final(payload), no_alpn, g),
        unknown_views(final(payload).extensions.custom_extensions@) == webkit_custom(g),
        final(payload).extensions.contiguous_extensions@ == webkit_order(
            g,
            old(payload).extensions.key_shares is Some,
            no_alpn,
        ),
{
    let ghost o = *payload;
    // 1. Cipher suites.
    payload.cipher_suites = webkit_cipher_suite_vec(g.cipher);
    // 2. Clear and prepare the extensions.
    payload.extensions.contiguous_extensions.clear();
    payload.extensions.custom_extensions.clear();
    payload.extensions.session_ticket = None;
    // 2.1 GREASE extension (1).
    add_custom_ext(payload, g.ext1, Vec::new());
    let ghost c1 = payload.extensions.custom_extensions@;
    // 2.2 server_name.
    payload.extensions.contiguous_extensions.push(ExtensionType::ServerName);
    // 2.3 extended_master_secret.
    payload.extensions.extended_master_secret_request = Some(());
    payload.extensions.contiguous_extensions.push(ExtensionType::ExtendedMasterSecret);
    // 2.4 renegotiation_info.
    payload.extensions.renegotiation_info = Some(PayloadU8::new(Vec::new()));
    payload.extensions.contiguous_extensions.push(ExtensionType::RenegotiationInfo);
    // 2.5 supported_groups.
    payload.extensions.named_groups = Some(vec![
        NamedGroup::Unknown(g.group),
        NamedGroup::X25519,
        NamedGroup::secp256r1,
        NamedGroup::secp384r1,
        NamedGroup::secp521r1,
    ]);
    payload.extensions.contiguous_extensions.push(ExtensionType::EllipticCurves);
    // 2.6 ec_point_formats.
    payload.extensions.contiguous_extensions.push(ExtensionType::ECPointFormats);
    // 2.7 application_layer_protocol_negotiation.
    if !no_alpn {
        if payload.extensions.protocols.is_none() {
            payload.extensions.protocols = Some(h2_http11_protocols());
        }
        payload.extensions.contiguous_extensions.push(ExtensionType::ALProtocolNegotiation);
    }
    // 2.8 status_request.
    payload.extensions.contiguous_extensions.push(ExtensionType::StatusRequest);
    // 2.9 signature_algorithms.
    payload.extensions.signature_schemes = Some(webkit_signature_scheme_vec());
    payload.extensions.contiguous_extensions.push(ExtensionType::SignatureAlgorithms);
    // 2.10 signed_certificate_timestamp.
    add_custom_ext(payload, 0x0012, Vec::new());
    // 2.11 key_share: only X25519, GREASE first.
    let keep = vec![NamedGroup::X25519];
    assert(keep@ =~= webkit_key_share_groups());
    let had_shares = payload.extensions.key_shares.is_some();
    rewrite_key_shares(&mut payload.extensions.key_shares, false, g.group, &keep);
    if had_shares {
        payload.extensions.contiguous_extensions.push(ExtensionType::KeyShare);
    }
    // 2.12 psk_key_exchange_modes.
    payload.extensions.contiguous_extensions.push(ExtensionType::PSKKeyExchangeModes);
    // 2.13 supported_versions, with TLS 1.1 and 1.0, as a custom extension.
    let mut ver_payload: Vec<u8> = vec![0x0au8];
    put_u16(g.version, &mut ver_payload);
    put_u16(0x0304, &mut ver_payload);
    put_u16(0x0303, &mut ver_payload);
    put_u16(0x0302, &mut ver_payload);
    put_u16(0x0301, &mut ver_payload);
    assert(ver_payload@ =~= safari_versions_body(g.version));
    payload.extensions.supported_versions = None;
    add_custom_ext(payload, 0x002b, ver_payload);
    // 2.14 compress_certificate.
    let algs = vec![CertificateCompressionAlgorithm::Zlib];
    assert(algs@ =~= seq![CertificateCompressionAlgorithm::Zlib]);
    payload.extensions.certificate_compression_algorithms = Some(algs);
    payload.extensions.contiguous_extensions.push(ExtensionType::CompressCertificate);
    // 2.15 GREASE extension (2).
    let mut last: Vec<u8> = Vec::new();
    last.push(0x00u8);
    add_custom_ext(payload, g.ext2, last);
    assert(payload.extensions.contiguous_extensions@ =~= webkit_order(
        g,
        o.extensions.key_shares is Some,
        no_alpn,
    ));
    assert(unknown_views(payload.extensions.custom_extensions@) =~= webkit_custom(g));
}

/// Applies the profile with the given GREASE values; refuses (after every change but the
/// padding) a ClientHello whose unpadded body is 505 to 511 bytes long.
pub fn apply_webkit_fingerprint_with(payload: &mut ClientHelloPayload, no_alpn: bool, g: ProfileGreases) -> (r:
    Result<(), PaddingOverflow>)
    ensures
        webkit_fields(*old(payload), *final(payload), no_alpn, g),
        webkit_padded(*final(payload), g, old(payload).extensions.key_shares is Some, no_alpn, r),
{
    webkit_prepare(payload, no_alpn, g);
    // 2.16 padding.
    let ghost mid = *payload;
    let mut temp: Vec<u8> = Vec::new();
    payload.encode(&mut temp);
    let current_total_len = temp.len();
    let target_len: usize = 512;
    if current_total_len < target_len {
        if current_total_len > target_len - 8 {
            return Err(PaddingOverflow);
        }
        let pad_len = target_len - current_total_len - 8;
        if pad_len > 0 {
            add_custom_ext(payload, 0x0015, zero_bytes(pad_len));
            proof {
                let u = payload.extensions.custom_extensions@.last();
                assert(payload.extensions.custom_extensions@ =~= mid.extensions.custom_extensions@.push(u));
                lemma_encoding_len_push_custom(mid, *payload, u);
                assert(unknown_views(payload.extensions.custom_extensions@) =~= webkit_custom(g).push(
                    webkit_padding_view(pad_len as nat),
                ));
            }
        }
    }
    Ok(())
}

/// Rewrites `payload` to look like a ClientHello of Safari / WebKit, with GREASE values
/// drawn from the thread-local generator, padded to a 512-byte record. `no_alpn` leaves
/// ALPN out. Where the ClientHello comes out 505 to 511 bytes long before padding (no
/// padding fits there), it is left unpadded and the result is `Err`.
pub fn apply_webkit_fingerprint(payload: &mut ClientHelloPayload, no_alpn: bool) -> (r: Result<(), PaddingOverflow>)
    ensures
        exists|g: ProfileGreases|
            {
                &&& valid_patch_greases(g)
                &&& #[trigger] webkit_fields(*old(payload), *final(payload), no_alpn, g)
                &&& webkit_padded(*final(payload), g, old(payload).extensions.key_shares is Some, no_alpn, r)
            },
{
    let mut rng = thread_rng();
    // Two different GREASE values for the two GREASE extensions.
    let table = grease_values();
    let grease_pool = choose_multiple(table.as_slice(), &mut rng, 2);
    proof {
        lemma_grease_table();
        crate::patches::chrome::lemma_pair_from_table(grease_pool@, table@);
    }
    let grease_ext1 = grease_pool[0];
    let grease_ext2 = grease_pool[1];
    let grease_shared_group = get_grease_value(&mut rng);
    let grease_cipher = get_grease_value(&mut rng);
    let grease_version = get_grease_value(&mut rng);
    let g = ProfileGreases {
        cipher: grease_cipher,
        group: grease_shared_group,
        version: grease_version,
        ext1: grease_ext1,
        ext2: grease_ext2,
    };
    let r = apply_webkit_fingerprint_with(payload, no_alpn, g);
    assert(valid_patch_greases(g));
    r
}

} // verus!
