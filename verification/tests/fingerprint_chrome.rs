use rustls_fingerprint::enums::{
    CertificateCompressionAlgorithm, CipherSuite, ExtensionType, NamedGroup, ProtocolVersion,
    SignatureScheme,
};
use rustls_fingerprint::fingerprint::chrome::ChromeFingerprint;
use rustls_fingerprint::fingerprint::ClientHelloFingerprinter;
use rustls_fingerprint::handshake::{
    ClientHelloPayload, DnsName, KeyShareEntry, Random, ServerNamePayload, SessionId,
};

#[test]
fn test_chrome_fingerprint_apply() {
    let dns_name = DnsName::try_from("example.com").unwrap();
    let mut payload = ClientHelloPayload {
        client_version: ProtocolVersion::TLSv1_2,
        random: Random::from([0u8; 32]),
        session_id: SessionId::empty(),
        cipher_suites: vec![],
        compression_methods: vec![],
        extensions: Box::default(),
    };

    payload.extensions.server_name = Some(ServerNamePayload::SingleDnsName(dns_name));
    payload.extensions.key_shares =
        Some(vec![KeyShareEntry::new(NamedGroup::X25519, vec![0; 32])]);

    let fp = ChromeFingerprint;
    fp.apply(&mut payload, false);

    // Verify cipher suites count
    assert_eq!(payload.cipher_suites.len(), 16);
    assert!(matches!(payload.cipher_suites[0], CipherSuite::Unknown(_)));
    assert_eq!(
        payload.cipher_suites[1],
        CipherSuite::TLS13_AES_128_GCM_SHA256
    );

    // Verify supported groups
    let groups = payload
        .extensions
        .named_groups
        .as_ref()
        .unwrap();
    assert_eq!(groups.len(), 5);
    assert!(matches!(groups[0], NamedGroup::Unknown(_)));
    assert_eq!(groups[1], NamedGroup::X25519MLKEM768);
    assert_eq!(groups[2], NamedGroup::X25519);

    // Verify certificate compression
    let cert_comp = payload
        .extensions
        .certificate_compression_algorithms
        .as_ref()
        .unwrap();
    assert_eq!(cert_comp, &[CertificateCompressionAlgorithm::Brotli]);

    // Verify signature algorithms
    let sig_schemes = payload
        .extensions
        .signature_schemes
        .as_ref()
        .unwrap();
    assert_eq!(sig_schemes.len(), 11);
    assert_eq!(sig_schemes[0], SignatureScheme::Unknown(0x0904)); // mldsa44

    // Verify total contiguous extensions count (1 GREASE + inner extensions + 1 GREASE)
    let ext_types = &payload.extensions.contiguous_extensions;
    assert!(ext_types.len() >= 17);
    assert!(matches!(ext_types[0], ExtensionType::Unknown(_)));
    assert!(matches!(
        ext_types[ext_types.len() - 1],
        ExtensionType::Unknown(_)
    ));
}
