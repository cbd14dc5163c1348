use rustls_fingerprint::enums::{CipherSuite, ExtensionType, NamedGroup, ProtocolVersion};
use rustls_fingerprint::fingerprint::chrome::{
    build_ech_grease_payload, rewrite_ech_payload, shuffle_extensions, ChromeFingerprint,
};
use rustls_fingerprint::fingerprint::grease::GreaseRng;
use rustls_fingerprint::fingerprint::ClientHelloFingerprinter;
use rustls_fingerprint::handshake::{
    ClientHelloPayload, ClientSessionTicket, DnsName, EncryptedClientHello,
    EncryptedClientHelloOuter, HpkeSymmetricCipherSuite, KeyShareEntry, ProtocolName, Random,
    ServerNamePayload, SessionId,
};

fn payload(session_id: &[u8], sni: bool, key_shares: bool) -> ClientHelloPayload {
    let mut p = ClientHelloPayload {
        client_version: ProtocolVersion::TLSv1_2,
        random: Random::from([0u8; 32]),
        session_id: SessionId::new(session_id).unwrap(),
        cipher_suites: vec![CipherSuite::TLS13_AES_128_GCM_SHA256],
        compression_methods: vec![],
        extensions: Box::default(),
    };
    if sni {
        p.extensions.server_name = Some(ServerNamePayload::SingleDnsName(
            DnsName::try_from("example.com").unwrap(),
        ));
    }
    if key_shares {
        p.extensions.key_shares = Some(vec![
            KeyShareEntry::new(NamedGroup::secp256r1, vec![4; 65]),
            KeyShareEntry::new(NamedGroup::X25519, vec![1; 32]),
            KeyShareEntry::new(NamedGroup::X25519MLKEM768, vec![2; 1216]),
        ]);
    }
    p
}

const SID: [u8; 8] = [1, 2, 3, 4, 5, 6, 7, 8];

#[test]
fn chrome_greases_come_from_the_session_id() {
    let mut p = payload(&SID, true, true);
    ChromeFingerprint.apply(&mut p, false);
    assert_eq!(p.cipher_suites.len(), 16);
    assert_eq!(p.cipher_suites[0], CipherSuite::Unknown(0xfafa));
    assert_eq!(p.cipher_suites[15], CipherSuite::TLS_RSA_WITH_AES_256_CBC_SHA);
    let groups = p.extensions.named_groups.as_ref().unwrap();
    assert_eq!(
        groups,
        &vec![
            NamedGroup::Unknown(0x9a9a),
            NamedGroup::X25519MLKEM768,
            NamedGroup::X25519,
            NamedGroup::secp256r1,
            NamedGroup::secp384r1,
        ]
    );
    let unknown = &p.extensions.unknown_extensions;
    assert_eq!(unknown.len(), 5);
    assert_eq!(unknown[0].typ, ExtensionType::Unknown(0xcaca));
    assert_eq!(unknown[1].typ, ExtensionType::SupportedVersions);
    assert_eq!(unknown[1].payload, vec![0x06, 0x1a, 0x1a, 0x03, 0x04, 0x03, 0x03]);
    assert_eq!(unknown[3].payload, vec![0x00, 0x03, 0x02, 0x68, 0x32]);
    assert_eq!(unknown[4].typ, ExtensionType::Unknown(0xdada));
    assert_eq!(unknown[4].payload, vec![0x00]);
}

#[test]
fn chrome_extension_order_is_the_seeded_permutation() {
    let mut p = payload(&SID, true, true);
    ChromeFingerprint.apply(&mut p, false);
    let expected = vec![
        ExtensionType::Unknown(0xcaca),
        ExtensionType::EllipticCurves,
        ExtensionType::CompressCertificate,
        ExtensionType::Unknown(0x0012),
        ExtensionType::RenegotiationInfo,
        ExtensionType::KeyShare,
        ExtensionType::ExtendedMasterSecret,
        ExtensionType::SessionTicket,
        ExtensionType::SupportedVersions,
        ExtensionType::Unknown(0x44cd),
        ExtensionType::ECPointFormats,
        ExtensionType::ServerName,
        ExtensionType::StatusRequest,
        ExtensionType::ALProtocolNegotiation,
        ExtensionType::SignatureAlgorithms,
        ExtensionType::PSKKeyExchangeModes,
        ExtensionType::Unknown(0xdada),
    ];
    assert_eq!(p.extensions.contiguous_extensions, expected);
}

#[test]
fn chrome_seeds_from_random_without_session_id() {
    let mut p = payload(&[], false, false);
    ChromeFingerprint.apply(&mut p, false);
    assert_eq!(p.cipher_suites[0], CipherSuite::Unknown(0x2a2a));
    let order = &p.extensions.contiguous_extensions;
    assert_eq!(order.len(), 15);
    assert_eq!(order[0], ExtensionType::Unknown(0x7a7a));
    assert_eq!(order[1], ExtensionType::ECPointFormats);
    assert_eq!(order[13], ExtensionType::RenegotiationInfo);
    assert_eq!(order[14], ExtensionType::Unknown(0x5a5a));
    assert!(p.extensions.key_shares.is_none());
    assert!(p.extensions.server_name.is_none());
}

#[test]
fn chrome_retry_keeps_order_and_greases() {
    let mut first = payload(&SID, true, true);
    ChromeFingerprint.apply(&mut first, false);
    let mut retry = payload(&SID, true, true);
    ChromeFingerprint.apply(&mut retry, true);
    assert_eq!(first.cipher_suites, retry.cipher_suites);
    assert_eq!(
        first.extensions.contiguous_extensions,
        retry.extensions.contiguous_extensions
    );
    assert_eq!(first.extensions.named_groups, retry.extensions.named_groups);
}

#[test]
fn chrome_first_hello_keeps_only_hybrid_and_x25519_shares() {
    let mut p = payload(&SID, true, true);
    ChromeFingerprint.apply(&mut p, false);
    let shares = p.extensions.key_shares.as_ref().unwrap();
    assert_eq!(shares.len(), 3);
    assert_eq!(shares[0].group, NamedGroup::Unknown(0x9a9a));
    assert_eq!(shares[0].payload, vec![0]);
    assert_eq!(shares[1].group, NamedGroup::X25519);
    assert_eq!(shares[1].payload, vec![1; 32]);
    assert_eq!(shares[2].group, NamedGroup::X25519MLKEM768);
}

#[test]
fn chrome_retry_leaves_key_shares() {
    let mut p = payload(&SID, true, true);
    ChromeFingerprint.apply(&mut p, true);
    let shares = p.extensions.key_shares.as_ref().unwrap();
    assert_eq!(shares.len(), 3);
    assert_eq!(shares[0].group, NamedGroup::secp256r1);
    assert_eq!(shares[1].group, NamedGroup::X25519);
    assert_eq!(shares[2].group, NamedGroup::X25519MLKEM768);
}

#[test]
fn chrome_keeps_alpn_and_ticket_that_are_set() {
    let mut p = payload(&SID, true, false);
    p.extensions.protocols = Some(vec![ProtocolName::from(b"spdy/3".to_vec())]);
    p.extensions.session_ticket = Some(ClientSessionTicket::Offer(vec![9, 9, 9]));
    ChromeFingerprint.apply(&mut p, false);
    let protocols = p.extensions.protocols.as_ref().unwrap();
    assert_eq!(protocols.len(), 1);
    assert_eq!(protocols[0].0, b"spdy/3".to_vec());
    assert!(matches!(
        p.extensions.session_ticket,
        Some(ClientSessionTicket::Offer(ref t)) if t == &vec![9, 9, 9]
    ));
}

#[test]
fn chrome_fills_alpn_and_ticket_when_absent() {
    let mut p = payload(&SID, true, false);
    ChromeFingerprint.apply(&mut p, false);
    let protocols = p.extensions.protocols.as_ref().unwrap();
    assert_eq!(protocols.len(), 2);
    assert_eq!(protocols[0].0, b"h2".to_vec());
    assert_eq!(protocols[1].0, b"http/1.1".to_vec());
    assert!(matches!(p.extensions.session_ticket, Some(ClientSessionTicket::Request)));
}

#[test]
fn chrome_permutes_each_extension_once() {
    for a in 1u8..40 {
        let mut p = payload(&[a, 7, a, 7, 0, 0, 0, a], true, true);
        ChromeFingerprint.apply(&mut p, false);
        let order = &p.extensions.contiguous_extensions;
        assert_eq!(order.len(), 17);
        let middle = &order[1..16];
        for want in [
            ExtensionType::EllipticCurves,
            ExtensionType::SupportedVersions,
            ExtensionType::PSKKeyExchangeModes,
            ExtensionType::ExtendedMasterSecret,
            ExtensionType::Unknown(0x0012),
            ExtensionType::Unknown(0x44cd),
            ExtensionType::ALProtocolNegotiation,
            ExtensionType::ECPointFormats,
            ExtensionType::RenegotiationInfo,
            ExtensionType::SessionTicket,
            ExtensionType::SignatureAlgorithms,
            ExtensionType::StatusRequest,
            ExtensionType::CompressCertificate,
            ExtensionType::ServerName,
            ExtensionType::KeyShare,
        ] {
            assert_eq!(middle.iter().filter(|e| **e == want).count(), 1);
        }
        assert_ne!(order[0], order[16]);
    }
}

fn outer_ech() -> EncryptedClientHello {
    EncryptedClientHello::Outer(EncryptedClientHelloOuter {
        cipher_suite: HpkeSymmetricCipherSuite { kdf_id: 1, aead_id: 1 },
        config_id: 7,
        enc: vec![3; 32],
        payload: vec![0; 10],
    })
}

#[test]
fn chrome_rewrites_outer_ech_payload() {
    let mut p = payload(&SID, true, true);
    p.extensions.encrypted_client_hello = Some(outer_ech());
    ChromeFingerprint.apply(&mut p, false);
    match p.extensions.encrypted_client_hello.as_ref().unwrap() {
        EncryptedClientHello::Outer(o) => {
            assert_eq!(o.config_id, 7);
            assert_eq!(o.enc, vec![3; 32]);
            assert!(o.payload.len() >= 144 && o.payload.len() <= 272);
            assert_eq!((o.payload.len() - 16) % 32, 0);
        }
        EncryptedClientHello::Inner => panic!("outer ECH expected"),
    }
    assert_eq!(p.extensions.contiguous_extensions.len(), 18);
    assert!(p
        .extensions
        .contiguous_extensions
        .contains(&ExtensionType::EncryptedClientHello));
}

#[test]
fn ech_grease_payload_from_seed() {
    let mut rng = GreaseRng::from_session_id(&SID);
    let p = build_ech_grease_payload(&mut rng);
    assert_eq!(p.len(), 176);
    assert_eq!(&p[..8], &[89, 48, 126, 30, 213, 135, 8, 40]);
}

#[test]
fn ech_payload_left_alone_when_inner_or_absent() {
    let mut rng = GreaseRng::from_session_id(&SID);
    let mut none: Option<EncryptedClientHello> = None;
    rewrite_ech_payload(&mut none, &mut rng);
    assert!(none.is_none());
    let mut inner = Some(EncryptedClientHello::Inner);
    rewrite_ech_payload(&mut inner, &mut rng);
    assert!(matches!(inner, Some(EncryptedClientHello::Inner)));
    // Nothing was drawn: the generator still gives its first output.
    assert_eq!(rng.next_u32(), 65698751);
}

#[test]
fn shuffle_extensions_is_a_seeded_permutation() {
    let original = vec![
        ExtensionType::ServerName,
        ExtensionType::KeyShare,
        ExtensionType::SessionTicket,
        ExtensionType::ALProtocolNegotiation,
    ];
    let mut a = original.clone();
    shuffle_extensions(&mut a, &mut GreaseRng::from_session_id(&SID));
    let mut b = original.clone();
    shuffle_extensions(&mut b, &mut GreaseRng::from_session_id(&SID));
    assert_eq!(a, b);
    for e in &original {
        assert_eq!(a.iter().filter(|x| *x == e).count(), 1);
    }
    let mut empty: Vec<ExtensionType> = vec![];
    shuffle_extensions(&mut empty, &mut GreaseRng::from_session_id(&SID));
    assert!(empty.is_empty());
}

#[test]
fn chrome_sends_no_padding_extension() {
    for a in 0u8..20 {
        let mut p = payload(&[a, 1, 2, 3], true, true);
        p.extensions.encrypted_client_hello = Some(outer_ech());
        ChromeFingerprint.apply(&mut p, false);
        assert!(!p.extensions.contiguous_extensions.contains(&ExtensionType::Padding));
        assert!(!p
            .extensions
            .contiguous_extensions
            .contains(&ExtensionType::Unknown(0x0015)));
        assert!(p
            .extensions
            .unknown_extensions
            .iter()
            .all(|e| e.typ != ExtensionType::Padding && e.typ != ExtensionType::Unknown(0x0015)));
    }
}

#[test]
fn ech_grease_payload_sizes_step_by_32() {
    for a in 0u8..50 {
        let mut rng = GreaseRng::from_session_id(&[a, 0x11, a, 0x22]);
        let p = build_ech_grease_payload(&mut rng);
        assert!(p.len() >= 144 && p.len() <= 272);
        assert_eq!((p.len() - 16) % 32, 0);
    }
}
