use rustls_fingerprint::codec::{put_u16, put_u16_len, put_u8_len, zero_bytes};
use rustls_fingerprint::enums::{
    CertificateCompressionAlgorithm, CipherSuite, ExtensionType, NamedGroup, ProtocolVersion,
    SignatureScheme,
};
use rustls_fingerprint::fingerprint::rewrite_key_shares;
use rustls_fingerprint::handshake::{
    group_in, retain_groups, ClientHelloPayload, Compression, DnsName, InvalidDnsNameError,
    KeyShareEntry, PayloadU8, Random, ServerNamePayload, SessionId, UnknownExtension,
};

fn empty_hello() -> ClientHelloPayload {
    ClientHelloPayload {
        client_version: ProtocolVersion::TLSv1_2,
        random: Random::from([0u8; 32]),
        session_id: SessionId::empty(),
        cipher_suites: vec![],
        compression_methods: vec![],
        extensions: Box::default(),
    }
}

#[test]
fn codec_writes_big_endian() {
    let mut b = vec![];
    put_u16(0x1234, &mut b);
    put_u16_len(0x1_0005, &mut b);
    put_u8_len(0x101, &mut b);
    assert_eq!(b, vec![0x12, 0x34, 0x00, 0x05, 0x01]);
    assert_eq!(zero_bytes(3), vec![0, 0, 0]);
}

#[test]
fn enum_code_points_round_trip() {
    assert_eq!(ExtensionType::from_u16(0x0015), ExtensionType::Padding);
    assert_eq!(ExtensionType::from_u16(0x0012), ExtensionType::SCT);
    assert_eq!(ExtensionType::from_u16(0xfe0d), ExtensionType::EncryptedClientHello);
    assert_eq!(ExtensionType::from_u16(0x0a0a), ExtensionType::Unknown(0x0a0a));
    assert_eq!(ExtensionType::RenegotiationInfo.get_u16(), 0xff01);
    assert_eq!(NamedGroup::from_u16(0x11ec), NamedGroup::X25519MLKEM768);
    assert_eq!(NamedGroup::X25519.get_u16(), 0x001d);
    assert_eq!(CipherSuite::from_u16(0x1301), CipherSuite::TLS13_AES_128_GCM_SHA256);
    assert_eq!(CipherSuite::Unknown(0xfafa).get_u16(), 0xfafa);
    assert_eq!(ProtocolVersion::from_u16(0x0304), ProtocolVersion::TLSv1_3);
    assert_eq!(SignatureScheme::from_u16(0x0804), SignatureScheme::RSA_PSS_SHA256);
    assert_eq!(
        CertificateCompressionAlgorithm::from_u16(2),
        CertificateCompressionAlgorithm::Brotli
    );
    for x in [0u16, 1, 5, 0x12, 0x15, 0x2b, 0x33, 0x44cd, 0xfe0d, 0xff01, 0xffff] {
        assert_eq!(ExtensionType::from_u16(x).get_u16(), x);
        assert_eq!(NamedGroup::from_u16(x).get_u16(), x);
        assert_eq!(CipherSuite::from_u16(x).get_u16(), x);
    }
}

#[test]
fn empty_client_hello_encoding() {
    let mut b = vec![];
    empty_hello().encode(&mut b);
    let mut expected = vec![0x03, 0x03];
    expected.extend_from_slice(&[0u8; 32]);
    expected.extend_from_slice(&[0x00, 0x00, 0x00, 0x00, 0x00, 0x00]);
    assert_eq!(b, expected);
}

#[test]
fn client_hello_encoding_with_extensions() {
    let mut p = empty_hello();
    p.session_id = SessionId::new(&[0xaa, 0xbb]).unwrap();
    p.cipher_suites = vec![CipherSuite::TLS13_AES_128_GCM_SHA256, CipherSuite::Unknown(0x0a0a)];
    p.compression_methods = vec![Compression::Null];
    p.extensions.server_name = Some(ServerNamePayload::SingleDnsName(
        DnsName::try_from("a.io").unwrap(),
    ));
    p.extensions.extended_master_secret_request = Some(());
    p.extensions.renegotiation_info = Some(PayloadU8::empty());
    p.extensions.unknown_extensions.push(UnknownExtension {
        typ: ExtensionType::Unknown(0x0a0a),
        payload: vec![],
    });
    p.extensions.custom_extensions.push(UnknownExtension {
        typ: ExtensionType::Unknown(0x1a1a),
        payload: vec![0],
    });
    let mut b = vec![];
    p.encode(&mut b);
    let mut expected = vec![0x03, 0x03];
    expected.extend_from_slice(&[0u8; 32]);
    expected.extend_from_slice(&[0x02, 0xaa, 0xbb]);
    expected.extend_from_slice(&[0x00, 0x04, 0x13, 0x01, 0x0a, 0x0a]);
    expected.extend_from_slice(&[0x01, 0x00]);
    let exts: Vec<u8> = vec![
        // server_name
        0x00, 0x00, 0x00, 0x09, 0x00, 0x07, 0x00, 0x00, 0x04, b'a', b'.', b'i', b'o',
        // extended_master_secret
        0x00, 0x17, 0x00, 0x00,
        // renegotiation_info
        0xff, 0x01, 0x00, 0x01, 0x00,
        // raw extensions, then custom ones
        0x0a, 0x0a, 0x00, 0x00, 0x1a, 0x1a, 0x00, 0x01, 0x00,
    ];
    expected.extend_from_slice(&[0x00, exts.len() as u8]);
    expected.extend_from_slice(&exts);
    assert_eq!(b, expected);
}

#[test]
fn session_id_is_at_most_32_bytes() {
    assert!(SessionId::new(&[1u8; 32]).is_some());
    assert!(SessionId::new(&[1u8; 33]).is_none());
    let s = SessionId::new(&[5, 6]).unwrap();
    assert_eq!(s.as_slice(), &[5, 6]);
    assert!(!s.is_empty());
    assert!(SessionId::empty().is_empty());
}

#[test]
fn dns_names_are_checked() {
    let n = DnsName::try_from("example.com").unwrap();
    assert_eq!(n.as_bytes(), b"example.com");
    assert!(DnsName::try_from("").is_err());
    assert_eq!(DnsName::try_from("exa mple.com").err(), Some(InvalidDnsNameError));
    assert!(DnsName::try_from_bytes(b"bad..name").is_err());
    assert!(DnsName::try_from_bytes(b"sub.example.org").is_ok());
    let long = "a".repeat(254);
    assert!(DnsName::try_from(long.as_str()).is_err());
}

#[test]
fn retain_groups_keeps_order() {
    let shares = vec![
        KeyShareEntry::new(NamedGroup::X25519MLKEM768, vec![1]),
        KeyShareEntry::new(NamedGroup::secp256r1, vec![2]),
        KeyShareEntry::new(NamedGroup::X25519, vec![3]),
    ];
    let keep = vec![NamedGroup::X25519, NamedGroup::X25519MLKEM768];
    let kept = retain_groups(shares, &keep);
    let groups: Vec<NamedGroup> = kept.iter().map(|s| s.group).collect();
    assert_eq!(groups, vec![NamedGroup::X25519MLKEM768, NamedGroup::X25519]);
    assert!(group_in(NamedGroup::X25519, &keep));
    assert!(!group_in(NamedGroup::secp384r1, &keep));
}

#[test]
fn rewrite_key_shares_first_hello_and_retry() {
    let keep = vec![NamedGroup::X25519];
    let mut shares = Some(vec![
        KeyShareEntry::new(NamedGroup::secp384r1, vec![1]),
        KeyShareEntry::new(NamedGroup::X25519, vec![2]),
    ]);
    rewrite_key_shares(&mut shares, false, 0x5a5a, &keep);
    let v = shares.unwrap();
    assert_eq!(v.len(), 2);
    assert_eq!(v[0].group, NamedGroup::Unknown(0x5a5a));
    assert_eq!(v[0].payload, vec![0]);
    assert_eq!(v[1].group, NamedGroup::X25519);

    let mut retry = Some(vec![KeyShareEntry::new(NamedGroup::secp384r1, vec![1])]);
    rewrite_key_shares(&mut retry, true, 0x5a5a, &keep);
    let v = retry.unwrap();
    assert_eq!(v.len(), 1);
    assert_eq!(v[0].group, NamedGroup::secp384r1);

    let mut none: Option<Vec<KeyShareEntry>> = None;
    rewrite_key_shares(&mut none, false, 0x5a5a, &keep);
    assert!(none.is_none());
}
