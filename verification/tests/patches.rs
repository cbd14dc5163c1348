use rustls_fingerprint::enums::{
    CertificateCompressionAlgorithm, CipherSuite, ExtensionType, NamedGroup, ProtocolVersion,
    SignatureScheme,
};
use rustls_fingerprint::fingerprint::grease::{ProfileGreases, GREASE_VALUES};
use rustls_fingerprint::handshake::{
    ClientHelloPayload, DnsName, EncryptedClientHello, KeyShareEntry, Random, ServerNamePayload,
    SessionId, UnknownExtension,
};
use rustls_fingerprint::patches::chrome::{
    add_custom_data, apply_chrome_fingerprint, apply_chrome_fingerprint_with, SimulatedEch,
};
use rustls_fingerprint::patches::grease::get_grease_value;
use rustls_fingerprint::patches::webkit::{
    add_custom_ext, apply_webkit_fingerprint, apply_webkit_fingerprint_with, PaddingOverflow,
};
use rustls_fingerprint::patches::{InvalidMessage, TlsFingerprint};

fn payload(key_shares: bool) -> ClientHelloPayload {
    let mut p = ClientHelloPayload {
        client_version: ProtocolVersion::TLSv1_2,
        random: Random::from([3u8; 32]),
        session_id: SessionId::new(&[9u8; 32]).unwrap(),
        cipher_suites: vec![CipherSuite::TLS13_AES_256_GCM_SHA384],
        compression_methods: vec![],
        extensions: Box::default(),
    };
    p.extensions.server_name = Some(ServerNamePayload::SingleDnsName(
        DnsName::try_from("example.org").unwrap(),
    ));
    if key_shares {
        p.extensions.key_shares = Some(vec![
            KeyShareEntry::new(NamedGroup::secp256r1, vec![4; 65]),
            KeyShareEntry::new(NamedGroup::X25519, vec![1; 32]),
            KeyShareEntry::new(NamedGroup::X25519MLKEM768, vec![2; 64]),
        ]);
    }
    p
}

fn encoded_len(p: &ClientHelloPayload) -> usize {
    let mut bytes = Vec::new();
    p.encode(&mut bytes);
    bytes.len()
}

fn fixed_greases() -> ProfileGreases {
    ProfileGreases { cipher: 0x0a0a, group: 0x1a1a, version: 0x2a2a, ext1: 0x3a3a, ext2: 0x4a4a }
}

#[test]
fn thread_rng_grease_values_are_grease() {
    let mut rng = rand::rng();
    for _ in 0..200 {
        let v = get_grease_value(&mut rng);
        assert!(GREASE_VALUES.contains(&v));
    }
}

#[test]
fn patched_chrome_with_fixed_choices() {
    let mut p = payload(true);
    let ech = SimulatedEch { config_id: 0x42, enc: vec![5; 32], inner: vec![6; 240] };
    let order = vec![ExtensionType::ServerName, ExtensionType::KeyShare];
    apply_chrome_fingerprint_with(&mut p, false, fixed_greases(), &ech, order);
    assert_eq!(p.cipher_suites.len(), 16);
    assert_eq!(p.cipher_suites[0], CipherSuite::Unknown(0x0a0a));
    assert_eq!(
        p.extensions.contiguous_extensions,
        vec![
            ExtensionType::Unknown(0x3a3a),
            ExtensionType::ServerName,
            ExtensionType::KeyShare,
            ExtensionType::Unknown(0x4a4a),
        ]
    );
    let custom = &p.extensions.custom_extensions;
    assert_eq!(custom.len(), 6);
    assert_eq!(custom[0].typ, ExtensionType::SupportedVersions);
    assert_eq!(custom[0].payload, vec![0x06, 0x2a, 0x2a, 0x03, 0x04, 0x03, 0x03]);
    assert_eq!(custom[1].typ, ExtensionType::SCT);
    assert!(custom[1].payload.is_empty());
    assert_eq!(custom[2].typ, ExtensionType::Unknown(0x44cd));
    assert_eq!(custom[3].typ, ExtensionType::EncryptedClientHello);
    let body = &custom[3].payload;
    assert_eq!(body.len(), 282);
    assert_eq!(&body[..8], &[0x00, 0x00, 0x01, 0x00, 0x01, 0x42, 0x00, 0x20]);
    assert_eq!(&body[40..42], &[0x00, 0xf0]);
    assert_eq!(custom[4].typ, ExtensionType::Unknown(0x3a3a));
    assert_eq!(custom[5].typ, ExtensionType::Unknown(0x4a4a));
    assert_eq!(custom[5].payload, vec![0x00]);
    assert_eq!(
        p.extensions.certificate_compression_algorithms,
        Some(vec![CertificateCompressionAlgorithm::Brotli])
    );
    assert_eq!(p.extensions.signature_schemes.as_ref().unwrap().len(), 8);
    assert_eq!(
        p.extensions.signature_schemes.as_ref().unwrap()[0],
        SignatureScheme::ECDSA_NISTP256_SHA256
    );
    assert!(p.extensions.supported_versions.is_none());
}

#[test]
fn patched_chrome_reorders_key_shares() {
    let mut p = payload(true);
    let ech = SimulatedEch { config_id: 0, enc: vec![0; 32], inner: vec![0; 240] };
    apply_chrome_fingerprint_with(&mut p, true, fixed_greases(), &ech, vec![]);
    let shares = p.extensions.key_shares.as_ref().unwrap();
    let groups: Vec<NamedGroup> = shares.iter().map(|s| s.group).collect();
    assert_eq!(
        groups,
        vec![
            NamedGroup::Unknown(0x1a1a),
            NamedGroup::X25519MLKEM768,
            NamedGroup::X25519,
            NamedGroup::secp256r1,
        ]
    );
    assert_eq!(shares[0].payload, vec![0]);
    assert_eq!(shares[1].payload, vec![2; 64]);
    // no_alpn leaves ALPN unset.
    assert!(p.extensions.protocols.is_none());
}

#[test]
fn patched_chrome_keeps_real_ech() {
    let mut p = payload(false);
    p.extensions.encrypted_client_hello = Some(EncryptedClientHello::Inner);
    let ech = SimulatedEch { config_id: 0, enc: vec![0; 32], inner: vec![0; 240] };
    apply_chrome_fingerprint_with(&mut p, false, fixed_greases(), &ech, vec![]);
    assert_eq!(p.extensions.custom_extensions.len(), 5);
    assert!(p
        .extensions
        .custom_extensions
        .iter()
        .all(|e| e.typ != ExtensionType::EncryptedClientHello));
}

#[test]
fn patched_chrome_from_thread_rng() {
    for _ in 0..20 {
        let mut p = payload(true);
        apply_chrome_fingerprint(&mut p, false);
        let order = &p.extensions.contiguous_extensions;
        assert_eq!(order.len(), 18);
        assert_ne!(order[0], order[17]);
        for e in [
            ExtensionType::StatusRequest,
            ExtensionType::ALProtocolNegotiation,
            ExtensionType::KeyShare,
            ExtensionType::SCT,
            ExtensionType::EncryptedClientHello,
        ] {
            assert_eq!(order[1..17].iter().filter(|x| **x == e).count(), 1);
        }
        let custom = &p.extensions.custom_extensions;
        assert_eq!(custom.len(), 6);
        assert_eq!(custom[3].payload.len(), 282);
        assert_ne!(custom[4].typ, custom[5].typ);
        assert_eq!(p.extensions.key_shares.as_ref().unwrap().len(), 4);
    }
}

#[test]
fn add_custom_data_appends_only_the_extension() {
    let mut p = payload(false);
    add_custom_data(&mut p, 0x0015, vec![0, 0]);
    assert_eq!(p.extensions.custom_extensions.len(), 1);
    assert_eq!(p.extensions.custom_extensions[0].typ, ExtensionType::Padding);
    assert!(p.extensions.contiguous_extensions.is_empty());
}

#[test]
fn add_custom_ext_appends_to_the_order_too() {
    let mut p = payload(false);
    add_custom_ext(&mut p, 0xabcd, vec![1]);
    assert_eq!(p.extensions.custom_extensions.len(), 1);
    assert_eq!(p.extensions.custom_extensions[0].typ, ExtensionType::Unknown(0xabcd));
    assert_eq!(p.extensions.contiguous_extensions, vec![ExtensionType::Unknown(0xabcd)]);
}

#[test]
fn webkit_pads_to_a_512_byte_record() {
    let mut p = payload(true);
    assert_eq!(apply_webkit_fingerprint(&mut p, false), Ok(()));
    assert_eq!(encoded_len(&p), 508);
    assert_eq!(p.cipher_suites.len(), 21);
    assert_eq!(p.cipher_suites[18], CipherSuite::TLS_ECDHE_ECDSA_WITH_3DES_EDE_CBC_SHA);
    assert_eq!(
        p.extensions.contiguous_extensions.last(),
        Some(&ExtensionType::Padding)
    );
    let shares = p.extensions.key_shares.as_ref().unwrap();
    assert_eq!(shares.len(), 2);
    assert_eq!(shares[1].group, NamedGroup::X25519);
}

#[test]
fn webkit_order_without_alpn() {
    let mut p = payload(false);
    apply_webkit_fingerprint_with(&mut p, true, fixed_greases()).unwrap();
    let order = &p.extensions.contiguous_extensions;
    assert!(!order.contains(&ExtensionType::ALProtocolNegotiation));
    assert!(!order.contains(&ExtensionType::KeyShare));
    assert_eq!(order[0], ExtensionType::Unknown(0x3a3a));
    assert_eq!(order[order.len() - 2], ExtensionType::Unknown(0x4a4a));
    assert_eq!(order[order.len() - 1], ExtensionType::Padding);
}

#[test]
fn webkit_padding_for_every_length() {
    let mut refused = 0;
    for n in 0..500 {
        let mut p = payload(true);
        p.extensions.unknown_extensions.push(UnknownExtension {
            typ: ExtensionType::Unknown(0x7777),
            payload: vec![0xee; n],
        });
        let r = apply_webkit_fingerprint_with(&mut p, false, fixed_greases());
        let total = encoded_len(&p);
        match r {
            Ok(()) => assert!(total == 508 || total == 504 || total >= 512, "{} bytes", total),
            Err(PaddingOverflow) => {
                refused += 1;
                assert!(total > 504 && total < 512, "{} bytes", total);
                assert_ne!(
                    p.extensions.contiguous_extensions.last(),
                    Some(&ExtensionType::Padding)
                );
            }
        }
    }
    assert_eq!(refused, 7);
}

#[test]
fn unknown_extension_encodes_type_length_body() {
    let e = UnknownExtension { typ: ExtensionType::Unknown(0x1234), payload: vec![1, 2, 3] };
    let mut bytes = vec![0xff];
    e.encode(&mut bytes);
    assert_eq!(bytes, vec![0xff, 0x12, 0x34, 0x00, 0x03, 1, 2, 3]);
    let e = UnknownExtension { typ: ExtensionType::Padding, payload: vec![] };
    let mut bytes = vec![];
    e.encode(&mut bytes);
    assert_eq!(bytes, vec![0x00, 0x15, 0x00, 0x00]);
}

#[test]
fn unknown_extension_is_never_read() {
    match UnknownExtension::read(&[0, 1, 2]) {
        Err(InvalidMessage::MissingData(what)) => assert_eq!(what, "UnknownExtension"),
        Ok(_) => panic!("read must fail"),
    }
}

#[test]
fn fingerprint_kinds_differ() {
    assert_ne!(TlsFingerprint::Chrome, TlsFingerprint::Webkit);
}
