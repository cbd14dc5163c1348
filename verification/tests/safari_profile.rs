use rustls_fingerprint::enums::{
    CertificateCompressionAlgorithm, CipherSuite, ExtensionType, NamedGroup, ProtocolVersion,
};
use rustls_fingerprint::fingerprint::safari::SafariFingerprint;
use rustls_fingerprint::fingerprint::ClientHelloFingerprinter;
use rustls_fingerprint::handshake::{
    ClientHelloPayload, ClientSessionTicket, DnsName, KeyShareEntry, ProtocolName, Random,
    ServerNamePayload, SessionId, UnknownExtension,
};

const SID: [u8; 8] = [1, 2, 3, 4, 5, 6, 7, 8];

fn payload(custom_len: Option<usize>) -> ClientHelloPayload {
    let mut p = ClientHelloPayload {
        client_version: ProtocolVersion::TLSv1_2,
        random: Random::from([7u8; 32]),
        session_id: SessionId::new(&SID).unwrap(),
        cipher_suites: vec![],
        compression_methods: vec![],
        extensions: Box::default(),
    };
    p.extensions.server_name = Some(ServerNamePayload::SingleDnsName(
        DnsName::try_from("example.com").unwrap(),
    ));
    p.extensions.key_shares = Some(vec![
        KeyShareEntry::new(NamedGroup::secp256r1, vec![4; 65]),
        KeyShareEntry::new(NamedGroup::X25519, vec![1; 32]),
    ]);
    p.extensions.session_ticket = Some(ClientSessionTicket::Request);
    if let Some(n) = custom_len {
        p.extensions.custom_extensions.push(UnknownExtension {
            typ: ExtensionType::Unknown(0x7777),
            payload: vec![0xee; n],
        });
    }
    p
}

fn encoded_len(p: &ClientHelloPayload) -> usize {
    let mut bytes = Vec::new();
    p.encode(&mut bytes);
    bytes.len()
}

#[test]
fn safari_sets_its_lists() {
    let mut p = payload(None);
    SafariFingerprint.apply(&mut p, true);
    assert_eq!(p.cipher_suites.len(), 21);
    assert_eq!(p.cipher_suites[0], CipherSuite::Unknown(0xfafa));
    assert_eq!(p.cipher_suites[20], CipherSuite::Unknown(0x000a));
    assert_eq!(
        p.extensions.named_groups,
        Some(vec![
            NamedGroup::Unknown(0x9a9a),
            NamedGroup::X25519,
            NamedGroup::secp256r1,
            NamedGroup::secp384r1,
            NamedGroup::secp521r1,
        ])
    );
    assert_eq!(
        p.extensions.certificate_compression_algorithms,
        Some(vec![CertificateCompressionAlgorithm::Zlib])
    );
    assert_eq!(p.extensions.signature_schemes.as_ref().unwrap().len(), 10);
    assert!(p.extensions.session_ticket.is_none());
    let unknown = &p.extensions.unknown_extensions;
    assert_eq!(unknown.len(), 4);
    assert_eq!(unknown[0].typ, ExtensionType::Unknown(0xcaca));
    assert_eq!(
        unknown[2].payload,
        vec![0x0a, 0x1a, 0x1a, 0x03, 0x04, 0x03, 0x03, 0x03, 0x02, 0x03, 0x01]
    );
    assert_eq!(unknown[3].typ, ExtensionType::Unknown(0xdada));
}

#[test]
fn safari_extension_order() {
    let mut p = payload(None);
    SafariFingerprint.apply(&mut p, true);
    assert_eq!(
        p.extensions.contiguous_extensions,
        vec![
            ExtensionType::Unknown(0xcaca),
            ExtensionType::ServerName,
            ExtensionType::ExtendedMasterSecret,
            ExtensionType::RenegotiationInfo,
            ExtensionType::EllipticCurves,
            ExtensionType::ECPointFormats,
            ExtensionType::ALProtocolNegotiation,
            ExtensionType::StatusRequest,
            ExtensionType::SignatureAlgorithms,
            ExtensionType::Unknown(0x0012),
            ExtensionType::KeyShare,
            ExtensionType::PSKKeyExchangeModes,
            ExtensionType::SupportedVersions,
            ExtensionType::CompressCertificate,
            ExtensionType::Unknown(0xdada),
        ]
    );
}

#[test]
fn safari_first_hello_is_padded_to_a_512_byte_record() {
    let mut p = payload(None);
    SafariFingerprint.apply(&mut p, false);
    assert_eq!(encoded_len(&p), 508);
    let last = p.extensions.unknown_extensions.last().unwrap();
    assert_eq!(last.typ, ExtensionType::Unknown(0x0015));
    assert!(last.payload.iter().all(|b| *b == 0));
    assert_eq!(
        p.extensions.contiguous_extensions.last(),
        Some(&ExtensionType::Unknown(0x0015))
    );
}

#[test]
fn safari_retry_is_not_padded() {
    let mut p = payload(None);
    SafariFingerprint.apply(&mut p, true);
    assert_eq!(p.extensions.unknown_extensions.len(), 4);
    assert!(encoded_len(&p) < 508);
}

#[test]
fn safari_padding_for_every_length() {
    for n in 0..400 {
        // Without key shares, a retry differs from the first ClientHello only in padding.
        let mut p = payload(Some(n));
        p.extensions.key_shares = None;
        let mut q = payload(Some(n));
        q.extensions.key_shares = None;
        SafariFingerprint.apply(&mut p, false);
        SafariFingerprint.apply(&mut q, true);
        let unpadded = encoded_len(&q);
        let total = encoded_len(&p);
        if unpadded < 504 {
            assert_eq!(total, 508, "custom extension of {} bytes", n);
            assert_eq!(p.extensions.unknown_extensions.len(), 5);
        } else {
            assert_eq!(total, unpadded, "custom extension of {} bytes", n);
            assert_eq!(p.extensions.unknown_extensions.len(), 4);
        }
    }
}

#[test]
fn safari_first_hello_keeps_only_x25519_share() {
    let mut p = payload(None);
    SafariFingerprint.apply(&mut p, false);
    let shares = p.extensions.key_shares.as_ref().unwrap();
    assert_eq!(shares.len(), 2);
    assert_eq!(shares[0].group, NamedGroup::Unknown(0x9a9a));
    assert_eq!(shares[0].payload, vec![0]);
    assert_eq!(shares[1].group, NamedGroup::X25519);
}

#[test]
fn safari_keeps_configured_alpn() {
    let mut p = payload(None);
    p.extensions.protocols = Some(vec![ProtocolName::from(b"h2".to_vec())]);
    SafariFingerprint.apply(&mut p, true);
    assert_eq!(p.extensions.protocols.as_ref().unwrap().len(), 1);
}

#[test]
fn safari_does_not_want_ech_grease() {
    assert!(!SafariFingerprint.wants_ech_grease());
    let (extra, preferred) = SafariFingerprint.kx_group_fixups();
    assert!(extra.is_empty());
    assert!(preferred.is_none());
}
