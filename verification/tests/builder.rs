use std::sync::Arc;

use rustls_fingerprint::builder::{
    default_cert_compressors, grease_hpke_suite, ConfigBuilder, EchConfig, EchMode,
    EnabledVersions, Error, HpkePublicKey, HpkeSuite, KeyLog, Resumption, RootCertStore,
    Tls12Resumption, WebPkiServerVerifier,
};
use rustls_fingerprint::crypto::{secp521r1, CryptoProvider, KxGroup, SupportedCipherSuite};
use rustls_fingerprint::enums::{
    CertificateCompressionAlgorithm, CipherSuite, NamedGroup, ProtocolVersion, SignatureScheme,
};
use rustls_fingerprint::fingerprint::chrome::ChromeFingerprint;
use rustls_fingerprint::fingerprint::safari::SafariFingerprint;

fn suite(s: CipherSuite, v: ProtocolVersion) -> SupportedCipherSuite {
    SupportedCipherSuite { suite: s, version: v, fips: true }
}

fn group(n: NamedGroup) -> KxGroup {
    KxGroup { name: n, fips_allowed: true }
}

fn provider() -> CryptoProvider {
    CryptoProvider {
        cipher_suites: vec![
            suite(CipherSuite::TLS13_AES_128_GCM_SHA256, ProtocolVersion::TLSv1_3),
            suite(CipherSuite::TLS_ECDHE_RSA_WITH_AES_128_GCM_SHA256, ProtocolVersion::TLSv1_2),
        ],
        kx_groups: vec![
            group(NamedGroup::X25519),
            group(NamedGroup::secp256r1),
            group(NamedGroup::X25519MLKEM768),
        ],
        signature_verification_algorithms: vec![
            SignatureScheme::ECDSA_NISTP256_SHA256,
            SignatureScheme::RSA_PSS_SHA256,
        ],
        signature_verification_fips: true,
        secure_random_fips: true,
        key_provider_fips: true,
    }
}

fn both() -> EnabledVersions {
    EnabledVersions { tls12: true, tls13: true }
}

#[test]
fn versions_need_a_usable_suite() {
    let mut p = provider();
    p.cipher_suites.remove(0);
    let r = ConfigBuilder::new(p).with_protocol_versions(EnabledVersions { tls12: false, tls13: true });
    assert_eq!(r.err(), Some(Error::NoUsableCipherSuites));
}

#[test]
fn versions_need_a_group() {
    let mut p = provider();
    p.kx_groups.clear();
    assert_eq!(ConfigBuilder::new(p).with_protocol_versions(both()).err(), Some(Error::NoKxGroups));
}

#[test]
fn tls12_suites_need_an_ecdhe_group() {
    let mut p = provider();
    p.kx_groups = vec![group(NamedGroup::FFDHE2048)];
    assert_eq!(
        ConfigBuilder::new(p).with_protocol_versions(both()).err(),
        Some(Error::IncompatibleKeyExchange)
    );
}

#[test]
fn ech_selects_tls13_only() {
    let b = ConfigBuilder::new(provider())
        .with_ech(EchMode::Enable(EchConfig { config_list: vec![1, 2, 3] }))
        .unwrap();
    assert_eq!(b.state.versions, EnabledVersions { tls12: false, tls13: true });
    assert!(matches!(b.state.client_ech_mode, Some(EchMode::Enable(_))));
    let mut p = provider();
    p.cipher_suites.remove(0);
    assert_eq!(
        ConfigBuilder::new(p)
            .with_ech(EchMode::Enable(EchConfig { config_list: vec![] }))
            .err()
            .map(|_| ()),
        Some(())
    );
}

#[test]
fn no_client_auth_config_defaults() {
    let cfg = ConfigBuilder::new(provider())
        .with_protocol_versions(both())
        .unwrap()
        .with_root_certificates(RootCertStore { roots: vec![vec![0x30, 0x00]] })
        .with_no_client_auth();
    assert_eq!(cfg.versions, both());
    assert!(cfg.alpn_protocols.is_empty());
    assert!(cfg.check_selected_alpn);
    assert_eq!(
        cfg.resumption,
        Resumption { max_sessions: 256, tls12_resumption: Tls12Resumption::SessionIdOrTickets }
    );
    assert_eq!(cfg.max_fragment_size, None);
    assert!(cfg.enable_sni);
    assert_eq!(cfg.key_log, KeyLog::NoKeyLog);
    assert!(!cfg.enable_secret_extraction);
    assert!(!cfg.enable_early_data);
    assert!(cfg.require_ems);
    assert!(cfg.cert_compressors.is_empty());
    assert!(cfg.ech_mode.is_none());
    assert!(cfg.fingerprint.is_none());
    assert_eq!(cfg.verifier.supported_algs.len(), 2);
    assert!(!cfg.verifier.check_revocation);
}

#[test]
fn ems_not_required_without_fips() {
    let mut p = provider();
    p.kx_groups.push(KxGroup { name: NamedGroup::X448, fips_allowed: false });
    let cfg = ConfigBuilder::new(p)
        .with_protocol_versions(both())
        .unwrap()
        .with_root_certificates(RootCertStore { roots: vec![] })
        .with_no_client_auth();
    assert!(!cfg.require_ems);
}

#[test]
fn chrome_fingerprint_moves_hybrid_group_first_and_greases_ech() {
    let b = ConfigBuilder::new(provider())
        .with_protocol_versions(both())
        .unwrap()
        .with_root_certificates(RootCertStore { roots: vec![] })
        .with_fingerprint(Arc::new(ChromeFingerprint), Some(HpkePublicKey(vec![9; 32])));
    let names: Vec<NamedGroup> = b.provider.kx_groups.iter().map(|g| g.name).collect();
    assert_eq!(
        names,
        vec![
            NamedGroup::X25519MLKEM768,
            NamedGroup::X25519,
            NamedGroup::secp256r1,
            NamedGroup::secp521r1,
        ]
    );
    match b.state.client_ech_mode.as_ref() {
        Some(EchMode::Grease(g)) => {
            assert_eq!(g.suite, HpkeSuite { kem_id: 0x0020, kdf_id: 0x0001, aead_id: 0x0001 });
            assert_eq!(g.placeholder_key.0, vec![9; 32]);
        }
        _ => panic!("ECH GREASE expected"),
    }
    let compressors = vec![CertificateCompressionAlgorithm::Brotli, CertificateCompressionAlgorithm::Zlib];
    assert_eq!(b.state.cert_compressors, Some(compressors.clone()));
    assert_eq!(b.state.cert_decompressors, Some(compressors));
    let cfg = b.with_no_client_auth();
    assert_eq!(cfg.cert_compressors.len(), 2);
    assert!(cfg.fingerprint.is_some());
}

#[test]
fn chrome_fingerprint_without_key_sets_no_ech() {
    let b = ConfigBuilder::new(provider())
        .with_protocol_versions(both())
        .unwrap()
        .with_root_certificates(RootCertStore { roots: vec![] })
        .with_fingerprint(Arc::new(ChromeFingerprint), None);
    assert!(b.state.client_ech_mode.is_none());
}

#[test]
fn fingerprint_keeps_an_ech_mode_already_set() {
    let b = ConfigBuilder::new(provider())
        .with_ech(EchMode::Enable(EchConfig { config_list: vec![7] }))
        .unwrap()
        .with_root_certificates(RootCertStore { roots: vec![] })
        .with_fingerprint(Arc::new(ChromeFingerprint), Some(HpkePublicKey(vec![1])));
    assert!(matches!(b.state.client_ech_mode, Some(EchMode::Enable(ref c)) if c.config_list == vec![7]));
}

#[test]
fn safari_fingerprint_leaves_groups_and_ech() {
    let b = ConfigBuilder::new(provider())
        .with_protocol_versions(both())
        .unwrap()
        .with_root_certificates(RootCertStore { roots: vec![] })
        .with_fingerprint(Arc::new(SafariFingerprint), Some(HpkePublicKey(vec![1])));
    let names: Vec<NamedGroup> = b.provider.kx_groups.iter().map(|g| g.name).collect();
    assert_eq!(
        names,
        vec![
            NamedGroup::X25519,
            NamedGroup::secp256r1,
            NamedGroup::X25519MLKEM768,
            NamedGroup::secp521r1,
        ]
    );
    assert!(b.state.client_ech_mode.is_none());
}

#[test]
fn applying_chrome_group_fixups_twice_changes_nothing() {
    let once = ConfigBuilder::new(provider())
        .with_protocol_versions(both())
        .unwrap()
        .with_root_certificates(RootCertStore { roots: vec![] })
        .with_fingerprint(Arc::new(ChromeFingerprint), None);
    let first: Vec<NamedGroup> = once.provider.kx_groups.iter().map(|g| g.name).collect();
    let twice = once.with_fingerprint(Arc::new(ChromeFingerprint), None);
    let second: Vec<NamedGroup> = twice.provider.kx_groups.iter().map(|g| g.name).collect();
    assert_eq!(first, second);
}

#[test]
fn custom_verifier_and_resolver() {
    let b = ConfigBuilder::new(provider())
        .with_protocol_versions(both())
        .unwrap()
        .dangerous()
        .with_custom_certificate_verifier(Arc::new(17u32));
    assert_eq!(*b.state.verifier, 17);
    let cfg = b.with_client_cert_resolver(Arc::new("resolver"));
    assert_eq!(*cfg.client_auth_cert_resolver, "resolver");
    assert_eq!(*cfg.verifier, 17);
}

#[test]
fn webpki_verifier_has_no_revocation() {
    let v = WebPkiServerVerifier::new_without_revocation(
        RootCertStore { roots: vec![vec![1]] },
        vec![SignatureScheme::ED25519],
    );
    assert!(!v.check_revocation);
    assert_eq!(v.supported_algs, vec![SignatureScheme::ED25519]);
}

#[test]
fn small_constants() {
    assert_eq!(grease_hpke_suite(), HpkeSuite { kem_id: 0x20, kdf_id: 1, aead_id: 1 });
    assert_eq!(
        default_cert_compressors(),
        vec![CertificateCompressionAlgorithm::Brotli, CertificateCompressionAlgorithm::Zlib]
    );
    assert_eq!(Resumption::default().max_sessions, 256);
    let g = secp521r1();
    assert_eq!(g.name, NamedGroup::secp521r1);
    assert!(g.fips_allowed);
    assert_eq!(g.name(), NamedGroup::secp521r1);
}

#[test]
fn provider_fips_needs_every_part() {
    let p = provider();
    assert!(p.fips());
    let mut q = provider();
    q.cipher_suites[1].fips = false;
    assert!(!q.fips());
    let mut r = provider();
    r.key_provider_fips = false;
    assert!(!r.fips());
}

#[test]
fn fingerprint_does_not_repeat_secp521r1() {
    let mut p = provider();
    p.kx_groups.insert(0, secp521r1());
    let b = ConfigBuilder::new(p)
        .with_protocol_versions(both())
        .unwrap()
        .with_root_certificates(RootCertStore { roots: vec![] })
        .with_fingerprint(Arc::new(SafariFingerprint), None);
    let names: Vec<NamedGroup> = b.provider.kx_groups.iter().map(|g| g.name).collect();
    assert_eq!(
        names,
        vec![
            NamedGroup::secp521r1,
            NamedGroup::X25519,
            NamedGroup::secp256r1,
            NamedGroup::X25519MLKEM768,
        ]
    );
}

#[test]
fn fingerprint_twice_keeps_ech_grease_mode() {
    let once = ConfigBuilder::new(provider())
        .with_protocol_versions(both())
        .unwrap()
        .with_root_certificates(RootCertStore { roots: vec![] })
        .with_fingerprint(Arc::new(ChromeFingerprint), Some(HpkePublicKey(vec![1; 32])));
    let twice = once.with_fingerprint(Arc::new(ChromeFingerprint), Some(HpkePublicKey(vec![2; 32])));
    match twice.state.client_ech_mode.as_ref() {
        Some(EchMode::Grease(g)) => assert_eq!(g.placeholder_key.0, vec![1; 32]),
        _ => panic!("ECH GREASE expected"),
    }
}
