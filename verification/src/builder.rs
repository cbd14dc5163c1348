//! Building a client configuration: protocol versions, certificate verification,
//! a fingerprint profile, and client authentication.
use vstd::prelude::*;

use std::sync::Arc;

use crate::crypto::{secp521r1, spec_secp521r1, CryptoProvider, KxGroup};
use crate::enums::{CertificateCompressionAlgorithm, NamedGroup, ProtocolVersion, SignatureScheme};
use crate::fingerprint::ClientHelloFingerprinter;

verus! {

/// The general error of building a configuration.
#[derive(Clone, Copy, Debug, PartialEq, Eq, Structural)]
pub enum Error {
    /// No cipher suite of the provider can be used with the chosen versions.
    NoUsableCipherSuites,
    /// The provider offers no key exchange group.
    NoKxGroups,
    /// A TLS 1.2 cipher suite needs an ECDHE group and the provider has none.
    IncompatibleKeyExchange,
}

/// The protocol versions that a configuration enables.
#[derive(Clone, Copy, Debug, PartialEq, Eq, Structural)]
pub struct EnabledVersions {
    pub tls12: bool,
    pub tls13: bool,
}

/// An HPKE suite: KEM, KDF and AEAD identifiers.
#[derive(Clone, Copy, Debug, PartialEq, Eq, Structural)]
pub struct HpkeSuite {
    pub kem_id: u16,
    pub kdf_id: u16,
    pub aead_id: u16,
}

/// DHKEM(X25519, HKDF-SHA256) with HKDF-SHA256 and AES-128-GCM: the suite of ECH GREASE.
pub open spec fn spec_grease_hpke_suite() -> HpkeSuite {
    HpkeSuite { kem_id: 0x0020, kdf_id: 0x0001, aead_id: 0x0001 }
}

/// The suite that ECH GREASE uses.
pub fn grease_hpke_suite() -> (s: HpkeSuite)
    ensures
        s == spec_grease_hpke_suite(),
{
    HpkeSuite { kem_id: 0x0020, kdf_id: 0x0001, aead_id: 0x0001 }
}

/// An HPKE public key.
pub struct HpkePublicKey(pub Vec<u8>);

/// ECH GREASE: an outer ECH extension with a placeholder key.
pub struct EchGreaseConfig {
    pub suite: HpkeSuite,
    pub placeholder_key: HpkePublicKey,
}

/// A real ECH configuration, as its encoded config list.
pub struct EchConfig {
    pub config_list: Vec<u8>,
}

/// How Encrypted Client Hello is used.
pub enum EchMode {
    Enable(EchConfig),
    Grease(EchGreaseConfig),
}

/// How session resumption is done.
#[derive(Clone, Copy, Debug, PartialEq, Eq, Structural)]
pub enum Tls12Resumption {
    Disabled,
    SessionIdOnly,
    SessionIdOrTickets,
}

/// Session resumption settings: an in-memory store of `max_sessions` sessions.
#[derive(Clone, Copy, Debug, PartialEq, Eq, Structural)]
pub struct Resumption {
    pub max_sessions: usize,
    pub tls12_resumption: Tls12Resumption,
}

impl Resumption {
    /// The default: 256 sessions in memory, TLS 1.2 resumption by session id or ticket.
    pub fn default() -> (r: Resumption)
        ensures
            r == (Resumption { max_sessions: 256, tls12_resumption: Tls12Resumption::SessionIdOrTickets }),
    {
        Resumption { max_sessions: 256, tls12_resumption: Tls12Resumption::SessionIdOrTickets }
    }
}

/// Where session secrets are logged.
#[derive(Clone, Copy, Debug, PartialEq, Eq, Structural)]
pub enum KeyLog {
    /// Secrets are not logged.
    NoKeyLog,
    /// Secrets go to the file that `SSLKEYLOGFILE` names.
    KeyLogFile,
}

/// Where the current time comes from.
#[derive(Clone, Copy, Debug, PartialEq, Eq, Structural)]
pub enum TimeProvider {
    /// The system clock.
    DefaultTimeProvider,
}

/// The client certificate resolver that never offers a certificate.
#[derive(Clone, Copy, Debug)]
pub struct FailResolveClientCert;

/// Root certificates, each as DER.
pub struct RootCertStore {
    pub roots: Vec<Vec<u8>>,
}

/// Server certificate verification with webpki.
pub struct WebPkiServerVerifier {
    pub roots: RootCertStore,
    pub supported_algs: Vec<SignatureScheme>,
    pub check_revocation: bool,
}

impl WebPkiServerVerifier {
    /// A verifier against `roots`, with no revocation checking.
    pub fn new_without_revocation(roots: RootCertStore, supported_algs: Vec<SignatureScheme>) -> (v: Self)
        ensures
            v.roots == roots,
            v.supported_algs == supported_algs,
            !v.check_revocation,
    {
        WebPkiServerVerifier { roots, supported_algs, check_revocation: false }
    }
}

/// The state before the protocol versions are chosen.
pub struct WantsVersions;

/// The state where the certificate verifier is to be chosen.
pub struct WantsVerifier {
    pub versions: EnabledVersions,
    pub client_ech_mode: Option<EchMode>,
}

/// The absence of a fingerprint profile.
#[derive(Clone, Copy, Debug)]
pub struct NoFingerprint;

/// A config builder state where the caller needs to supply whether and how to provide a
/// client certificate; `V` is the certificate verifier and `F` the fingerprint profile.
pub struct WantsClientCert<V, F> {
    pub versions: EnabledVersions,
    pub verifier: Arc<V>,
    pub client_ech_mode: Option<EchMode>,
    pub fingerprint: Option<Arc<F>>,
    pub cert_compressors: Option<Vec<CertificateCompressionAlgorithm>>,
    pub cert_decompressors: Option<Vec<CertificateCompressionAlgorithm>>,
}

/// A configuration under construction.
pub struct ConfigBuilder<S> {
    pub state: S,
    pub provider: CryptoProvider,
    pub time_provider: TimeProvider,
}

/// Accessor for dangerous configuration options.
pub struct DangerousClientConfigBuilder {
    /// The underlying builder.
    pub cfg: ConfigBuilder<WantsVerifier>,
}

/// A client configuration; `V` is the certificate verifier, `F` the fingerprint
/// profile, `R` the client certificate resolver.
pub struct ClientConfig<V, F, R> {
    pub provider: CryptoProvider,
    pub alpn_protocols: Vec<Vec<u8>>,
    pub check_selected_alpn: bool,
    pub resumption: Resumption,
    pub max_fragment_size: Option<usize>,
    pub client_auth_cert_resolver: Arc<R>,
    pub versions: EnabledVersions,
    pub enable_sni: bool,
    pub verifier: Arc<V>,
    pub key_log: KeyLog,
    pub enable_secret_extraction: bool,
    pub enable_early_data: bool,
    pub require_ems: bool,
    pub time_provider: TimeProvider,
    pub cert_compressors: Vec<CertificateCompressionAlgorithm>,
    pub cert_decompressors: Vec<CertificateCompressionAlgorithm>,
    pub ech_mode: Option<EchMode>,
    pub fingerprint: Option<Arc<F>>,
}


/// The certificate compression algorithms that this build supports, in order of
/// preference: Brotli, then zlib.
pub open spec fn spec_default_cert_compressors() -> Seq<CertificateCompressionAlgorithm> {
    seq![CertificateCompressionAlgorithm::Brotli, CertificateCompressionAlgorithm::Zlib]
}

/// The certificate compressors of this build.
pub fn default_cert_compressors() -> (v: Vec<CertificateCompressionAlgorithm>)
    ensures
        v@ == spec_default_cert_compressors(),
{
    let v = vec![CertificateCompressionAlgorithm::Brotli, CertificateCompressionAlgorithm::Zlib];
    assert(v@ =~= spec_default_cert_compressors());
    v
}

/// The certificate decompressors of this build: the same algorithms.
pub fn default_cert_decompressors() -> (v: Vec<CertificateCompressionAlgorithm>)
    ensures
        v@ == spec_default_cert_compressors(),
{
    default_cert_compressors()
}

/// The groups that a profile needs in the provider: its own extra groups, then
/// secp521r1, which the browsers offer.
pub open spec fn fingerprint_groups(extra: Seq<KxGroup>) -> Seq<KxGroup> {
    extra.push(spec_secp521r1())
}

/// The ECH mode after a profile is set: ECH GREASE with `key` where no mode was set, the
/// profile wants ECH GREASE and a key was generated; otherwise the mode as it was.
pub open spec fn ech_mode_after(mode: Option<EchMode>, wants_grease: bool, key: Option<HpkePublicKey>) -> Option<EchMode> {
    if mode is None && wants_grease && key is Some {
        Some(EchMode::Grease(EchGreaseConfig { suite: spec_grease_hpke_suite(), placeholder_key: key.unwrap() }))
    } else {
        mode
    }
}

/// A group named `name` is in `groups`.
pub open spec fn has_group(groups: Seq<KxGroup>, name: NamedGroup) -> bool {
    exists|i: int| 0 <= i < groups.len() && (#[trigger] groups[i]).name == name
}

/// `groups` with each group of `extra` added at the end, in order, unless a group of its
/// name is there already.
pub open spec fn add_missing_groups(groups: Seq<KxGroup>, extra: Seq<KxGroup>) -> Seq<KxGroup>
    decreases extra.len(),
{
    if extra.len() == 0 {
        groups
    } else {
        let g1 = add_missing_groups(groups, extra.drop_last());
        if has_group(g1, extra.last().name) {
            g1
        } else {
            g1.push(extra.last())
        }
    }
}

/// `p` is the first position of `groups` holding a group named `name`.
pub open spec fn is_first_named(groups: Seq<KxGroup>, name: NamedGroup, p: int) -> bool {
    &&& 0 <= p < groups.len()
    &&& groups[p].name == name
    &&& forall|k: int| 0 <= k < p ==> groups[k].name != name
}

/// `groups` with the first group named `name` moved to the front; unchanged where no
/// group has that name.
pub open spec fn move_group_first(groups: Seq<KxGroup>, name: NamedGroup) -> Seq<KxGroup> {
    if exists|p: int| is_first_named(groups, name, p) {
        let p = choose|p: int| is_first_named(groups, name, p);
        seq![groups[p]] + groups.remove(p)
    } else {
        groups
    }
}

/// The provider's groups after a profile's fix-ups: the extra groups added, then the
/// preferred group moved first.
pub open spec fn kx_groups_fixed(
    groups: Seq<KxGroup>,
    extra: Seq<KxGroup>,
    preferred: Option<NamedGroup>,
) -> Seq<KxGroup> {
    let g1 = add_missing_groups(groups, extra);
    match preferred {
        Some(name) => move_group_first(g1, name),
        None => g1,
    }
}

/// True when a group of `groups` is named `name`.
fn any_group_named(groups: &Vec<KxGroup>, name: NamedGroup) -> (b: bool)
    ensures
        b == has_group(groups@, name),
{
    let mut i: usize = 0;
    while i < groups.len()
        invariant
            i <= groups@.len(),
            forall|k: int| 0 <= k < i ==> groups@[k].name != name,
        decreases groups@.len() - i,
    {
        if groups[i].name() == name {
            assert(groups@[i as int].name == name);
            return true;
        }
        i = i + 1;
    }
    false
}

/// Adds the groups of `extra` whose names are missing, in order.
fn add_missing_kx_groups(groups: &mut Vec<KxGroup>, extra: &Vec<KxGroup>)
    ensures
        final(groups)@ == add_missing_groups(old(groups)@, extra@),
{
    let ghost start = groups@;
    let mut i: usize = 0;
    assert(extra@.take(0) =~= Seq::<KxGroup>::empty());
    while i < extra.len()
        invariant
            i <= extra@.len(),
            groups@ == add_missing_groups(start, extra@.take(i as int)),
        decreases extra@.len() - i,
    {
        let group = extra[i];
        assert(extra@.take(i + 1).drop_last() =~= extra@.take(i as int));
        if !any_group_named(groups, group.name()) {
            groups.push(group);
        }
        i = i + 1;
    }
    assert(extra@.take(i as int) =~= extra@);
}

/// Moves the first group named `name` to the front.
fn move_kx_group_first(groups: &mut Vec<KxGroup>, name: NamedGroup)
    ensures
        final(groups)@ == move_group_first(old(groups)@, name),
{
    let ghost v = groups@;
    let mut i: usize = 0;
    while i < groups.len()
        invariant
            groups@ == v,
            v == old(groups)@,
            i <= v.len(),
            forall|k: int| 0 <= k < i ==> v[k].name != name,
        decreases v.len() - i,
    {
        if groups[i].name() == name {
            proof {
                assert(is_first_named(v, name, i as int));
                let p = choose|p: int| is_first_named(v, name, p);
                assert(is_first_named(v, name, p));
                if p > i {
                    assert(v[i as int].name != name);
                }
                assert(p == i);
            }
            let group = groups.remove(i);
            groups.insert(0, group);
            assert(groups@ =~= seq![v[i as int]] + v.remove(i as int));
            return;
        }
        i = i + 1;
    }
    assert(!exists|p: int| is_first_named(v, name, p));
}


/// A copy of a list of signature schemes.
fn copy_schemes(v: &Vec<SignatureScheme>) -> (r: Vec<SignatureScheme>)
    ensures
        r@ == v@,
{
    let mut r: Vec<SignatureScheme> = Vec::new();
    let mut i: usize = 0;
    while i < v.len()
        invariant
            i <= v@.len(),
            r@ == v@.take(i as int),
        decreases v@.len() - i,
    {
        r.push(v[i]);
        i = i + 1;
        assert(r@ =~= v@.take(i as int));
    }
    assert(v@.take(i as int) =~= v@);
    r
}

/// The group is usable for the key exchange of a TLS 1.2 ECDHE suite: it is not a
/// finite-field group.
pub open spec fn is_ecdhe_group(name: NamedGroup) -> bool {
    !(name == NamedGroup::FFDHE2048 || name == NamedGroup::FFDHE3072 || name == NamedGroup::FFDHE4096
        || name == NamedGroup::FFDHE6144 || name == NamedGroup::FFDHE8192)
}

/// The version of a cipher suite is enabled.
pub open spec fn version_enabled(versions: EnabledVersions, v: ProtocolVersion) -> bool {
    (v == ProtocolVersion::TLSv1_3 && versions.tls13) || (v == ProtocolVersion::TLSv1_2 && versions.tls12)
}

/// Why the provider cannot serve the versions, if it cannot: no cipher suite for an
/// enabled version; no key exchange group; or a TLS 1.2 (ECDHE) suite without an ECDHE
/// group.
pub open spec fn spec_versions_check(provider: CryptoProvider, versions: EnabledVersions) -> Option<Error> {
    let suites = provider.cipher_suites@;
    let groups = provider.kx_groups@;
    if !(exists|i: int| 0 <= i < suites.len() && version_enabled(versions, #[trigger] suites[i].version)) {
        Some(Error::NoUsableCipherSuites)
    } else if groups.len() == 0 {
        Some(Error::NoKxGroups)
    } else if (exists|i: int| 0 <= i < suites.len() && (#[trigger] suites[i]).version == ProtocolVersion::TLSv1_2)
        && !(exists|j: int| 0 <= j < groups.len() && is_ecdhe_group((#[trigger] groups[j]).name)) {
        Some(Error::IncompatibleKeyExchange)
    } else {
        None
    }
}

fn versions_check(provider: &CryptoProvider, versions: EnabledVersions) -> (r: Option<Error>)
    ensures
        r == spec_versions_check(*provider, versions),
{
    let mut any_usable_suite = false;
    let mut any_tls12_suite = false;
    let mut i: usize = 0;
    while i < provider.cipher_suites.len()
        invariant
            i <= provider.cipher_suites@.len(),
            any_usable_suite == exists|k: int| 0 <= k < i && version_enabled(versions, #[trigger] provider.cipher_suites@[k].version),
            any_tls12_suite == exists|k: int| 0 <= k < i && (#[trigger] provider.cipher_suites@[k]).version == ProtocolVersion::TLSv1_2,
        decreases provider.cipher_suites@.len() - i,
    {
        let v = provider.cipher_suites[i].version;
        if (v == ProtocolVersion::TLSv1_3 && versions.tls13) || (v == ProtocolVersion::TLSv1_2 && versions.tls12) {
            any_usable_suite = true;
        }
        if v == ProtocolVersion::TLSv1_2 {
            any_tls12_suite = true;
        }
        i = i + 1;
    }
    if !any_usable_suite {
        return Some(Error::NoUsableCipherSuites);
    }
    if provider.kx_groups.len() == 0 {
        return Some(Error::NoKxGroups);
    }
    let mut any_ecdhe = false;
    let mut j: usize = 0;
    while j < provider.kx_groups.len()
        invariant
            j <= provider.kx_groups@.len(),
            any_ecdhe == exists|k: int| 0 <= k < j && is_ecdhe_group((#[trigger] provider.kx_groups@[k]).name),
        decreases provider.kx_groups@.len() - j,
    {
        let n = provider.kx_groups[j].name;
        if !(n == NamedGroup::FFDHE2048 || n == NamedGroup::FFDHE3072 || n == NamedGroup::FFDHE4096
            || n == NamedGroup::FFDHE6144 || n == NamedGroup::FFDHE8192) {
            any_ecdhe = true;
        }
        j = j + 1;
    }
    if any_tls12_suite && !any_ecdhe {
        return Some(Error::IncompatibleKeyExchange);
    }
    None
}

impl ConfigBuilder<WantsVersions> {
    /// Starts a configuration with `provider` and the system clock.
    pub fn new(provider: CryptoProvider) -> (b: Self)
        ensures
            b.provider == provider,
            b.time_provider == TimeProvider::DefaultTimeProvider,
    {
        ConfigBuilder { state: WantsVersions, provider, time_provider: TimeProvider::DefaultTimeProvider }
    }

    /// Chooses the protocol versions; fails where the provider cannot serve them.
    pub fn with_protocol_versions(self, versions: EnabledVersions) -> (r: Result<ConfigBuilder<WantsVerifier>, Error>)
        ensures
            match spec_versions_check(self.provider, versions) {
                Some(e) => r == Err::<ConfigBuilder<WantsVerifier>, Error>(e),
                None => r matches Ok(b) && {
                    &&& b.state.versions == versions
                    &&& b.state.client_ech_mode is None
                    &&& b.provider == self.provider
                    &&& b.time_provider == self.time_provider
                },
            },
    {
        match versions_check(&self.provider, versions) {
            Some(e) => Err(e),
            None => Ok(
                ConfigBuilder {
                    state: WantsVerifier { versions, client_ech_mode: None },
                    provider: self.provider,
                    time_provider: self.time_provider,
                },
            ),
        }
    }

    /// Enables Encrypted Client Hello (ECH) in the given mode.
    ///
    /// This implicitly selects TLS 1.3 as the only supported protocol version to meet
    /// the requirement to support ECH.
    pub fn with_ech(self, mode: EchMode) -> (r: Result<ConfigBuilder<WantsVerifier>, Error>)
        ensures
            match spec_versions_check(self.provider, EnabledVersions { tls12: false, tls13: true }) {
                Some(e) => r == Err::<ConfigBuilder<WantsVerifier>, Error>(e),
                None => r matches Ok(b) && {
                    &&& b.state.versions == (EnabledVersions { tls12: false, tls13: true })
                    &&& b.state.client_ech_mode == Some(mode)
                    &&& b.provider == self.provider
                    &&& b.time_provider == self.time_provider
                },
            },
    {
        let mut res = self.with_protocol_versions(EnabledVersions { tls12: false, tls13: true })?;
        res.state.client_ech_mode = Some(mode);
        Ok(res)
    }
}

impl ConfigBuilder<WantsVerifier> {
    /// Chooses how to verify server certificates: webpki against `root_store`, with the
    /// provider's signature verification algorithms and no revocation checking.
    pub fn with_root_certificates(self, root_store: RootCertStore) -> (b: ConfigBuilder<
        WantsClientCert<WebPkiServerVerifier, NoFingerprint>,
    >)
        ensures
            b.state.verifier.roots == root_store,
            b.state.verifier.supported_algs@ == self.provider.signature_verification_algorithms@,
            !b.state.verifier.check_revocation,
            b.state.versions == self.state.versions,
            b.state.client_ech_mode == self.state.client_ech_mode,
            b.state.fingerprint is None,
            b.state.cert_compressors is None,
            b.state.cert_decompressors is None,
            b.provider == self.provider,
            b.time_provider == self.time_provider,
    {
        let algorithms = copy_schemes(&self.provider.signature_verification_algorithms);
        self.with_webpki_verifier(Arc::new(WebPkiServerVerifier::new_without_revocation(root_store, algorithms)))
    }

    /// Chooses how to verify server certificates using a webpki verifier.
    pub fn with_webpki_verifier(self, verifier: Arc<WebPkiServerVerifier>) -> (b: ConfigBuilder<
        WantsClientCert<WebPkiServerVerifier, NoFingerprint>,
    >)
        ensures
            b.state.verifier == verifier,
            b.state.versions == self.state.versions,
            b.state.client_ech_mode == self.state.client_ech_mode,
            b.state.fingerprint is None,
            b.state.cert_compressors is None,
            b.state.cert_decompressors is None,
            b.provider == self.provider,
            b.time_provider == self.time_provider,
    {
        ConfigBuilder {
            state: WantsClientCert {
                versions: self.state.versions,
                verifier,
                client_ech_mode: self.state.client_ech_mode,
                fingerprint: None,
                cert_compressors: None,
                cert_decompressors: None,
            },
            provider: self.provider,
            time_provider: self.time_provider,
        }
    }

    /// Access configuration options whose use is dangerous and requires extra care.
    pub fn dangerous(self) -> (d: DangerousClientConfigBuilder)
        ensures
            d.cfg == self,
    {
        DangerousClientConfigBuilder { cfg: self }
    }
}

impl DangerousClientConfigBuilder {
    /// Sets a custom certificate verifier.
    pub fn with_custom_certificate_verifier<V>(self, verifier: Arc<V>) -> (b: ConfigBuilder<
        WantsClientCert<V, NoFingerprint>,
    >)
        ensures
            b.state.verifier == verifier,
            b.state.versions == self.cfg.state.versions,
            b.state.client_ech_mode == self.cfg.state.client_ech_mode,
            b.state.fingerprint is None,
            b.state.cert_compressors is None,
            b.state.cert_decompressors is None,
            b.provider == self.cfg.provider,
            b.time_provider == self.cfg.time_provider,
    {
        ConfigBuilder {
            state: WantsClientCert {
                versions: self.cfg.state.versions,
                verifier,
                client_ech_mode: self.cfg.state.client_ech_mode,
                fingerprint: None,
                cert_compressors: None,
                cert_decompressors: None,
            },
            provider: self.cfg.provider,
            time_provider: self.cfg.time_provider,
        }
    }
}


impl<V, F> ConfigBuilder<WantsClientCert<V, F>> {
    /// Does not support client auth.
    pub fn with_no_client_auth(self) -> (c: ClientConfig<V, F, FailResolveClientCert>)
        ensures
            client_config_built(self, c),
    {
        self.with_client_cert_resolver(Arc::new(FailResolveClientCert))
    }

    /// Sets a [`ClientHelloFingerprinter`] to modify the ClientHello before sending.
    ///
    /// Where no ECH mode is set and the profile wants ECH GREASE, ECH GREASE is set up
    /// with `ech_grease_key`, a freshly generated X25519 public key for the GREASE HPKE
    /// suite (`None` where generating one failed, and then nothing is set up). The
    /// profile's extra groups, and secp521r1, are added to the provider where missing and
    /// the profile's preferred group is moved first; certificate compression is turned on
    /// in both directions.
    pub fn with_fingerprint<G: ClientHelloFingerprinter>(
        self,
        fingerprint: Arc<G>,
        ech_grease_key: Option<HpkePublicKey>,
    ) -> (b: ConfigBuilder<WantsClientCert<V, G>>)
        ensures
            b.state.versions == self.state.versions,
            b.state.verifier == self.state.verifier,
            b.state.fingerprint == Some(fingerprint),
            b.state.client_ech_mode == ech_mode_after(
                self.state.client_ech_mode,
                fingerprint.spec_wants_ech_grease(),
                ech_grease_key,
            ),
            b.provider.kx_groups@ == kx_groups_fixed(
                self.provider.kx_groups@,
                fingerprint_groups(fingerprint.spec_kx_group_fixups().0),
                fingerprint.spec_kx_group_fixups().1,
            ),
            has_group(b.provider.kx_groups@, NamedGroup::secp521r1),
            forall|n: NamedGroup| has_group(self.provider.kx_groups@, n) ==> has_group(b.provider.kx_groups@, n),
            b.provider.cipher_suites == self.provider.cipher_suites,
            b.provider.signature_verification_algorithms == self.provider.signature_verification_algorithms,
            b.provider.signature_verification_fips == self.provider.signature_verification_fips,
            b.provider.secure_random_fips == self.provider.secure_random_fips,
            b.provider.key_provider_fips == self.provider.key_provider_fips,
            b.state.cert_compressors matches Some(v) && v@ == spec_default_cert_compressors(),
            b.state.cert_decompressors matches Some(v) && v@ == spec_default_cert_compressors(),
            b.time_provider == self.time_provider,
    {
        let ConfigBuilder { state, provider, time_provider } = self;
        let WantsClientCert { versions, verifier, client_ech_mode, fingerprint: _, cert_compressors: _, cert_decompressors: _ } = state;
        let mut client_ech_mode = client_ech_mode;
        // ECH GREASE where the profile asks for it and no ECH mode is set.
        if client_ech_mode.is_none() && fingerprint.wants_ech_grease() {
            if let Some(public_key) = ech_grease_key {
                client_ech_mode = Some(EchMode::Grease(EchGreaseConfig { suite: grease_hpke_suite(), placeholder_key: public_key }));
            }
        }
        // The profile's groups.
        let (extra_groups, preferred_group) = fingerprint.kx_group_fixups();
        let mut extra_groups = extra_groups;
        // A browser offers secp521r1: the provider needs the group too.
        extra_groups.push(secp521r1());
        let mut provider = provider;
        let ghost old_groups = provider.kx_groups@;
        add_missing_kx_groups(&mut provider.kx_groups, &extra_groups);
        if let Some(preferred) = preferred_group {
            move_kx_group_first(&mut provider.kx_groups, preferred);
        }
        proof {
            let extra = fingerprint_groups(fingerprint.spec_kx_group_fixups().0);
            assert(extra_groups@ == extra);
            lemma_kx_groups_fixed(old_groups, extra, preferred_group);
            assert(extra[extra.len() - 1].name == NamedGroup::secp521r1);
            assert(has_group(extra, NamedGroup::secp521r1));
        }
        ConfigBuilder {
            state: WantsClientCert {
                versions,
                verifier,
                client_ech_mode,
                fingerprint: Some(fingerprint),
                cert_compressors: Some(default_cert_compressors()),
                cert_decompressors: Some(default_cert_decompressors()),
            },
            provider,
            time_provider,
        }
    }

    /// Sets a custom client certificate resolver.
    pub fn with_client_cert_resolver<R>(self, client_auth_cert_resolver: Arc<R>) -> (c: ClientConfig<V, F, R>)
        ensures
            client_config_built(self, c),
            c.client_auth_cert_resolver == client_auth_cert_resolver,
    {
        let require_ems = self.provider.fips();
        let cert_compressors = match self.state.cert_compressors {
            Some(v) => v,
            None => Vec::new(),
        };
        let cert_decompressors = match self.state.cert_decompressors {
            Some(v) => v,
            None => Vec::new(),
        };
        ClientConfig {
            provider: self.provider,
            alpn_protocols: Vec::new(),
            check_selected_alpn: true,
            resumption: Resumption::default(),
            max_fragment_size: None,
            client_auth_cert_resolver,
            versions: self.state.versions,
            enable_sni: true,
            verifier: self.state.verifier,
            key_log: KeyLog::NoKeyLog,
            enable_secret_extraction: false,
            enable_early_data: false,
            require_ems,
            time_provider: self.time_provider,
            cert_compressors,
            cert_decompressors,
            ech_mode: self.state.client_ech_mode,
            fingerprint: self.state.fingerprint,
        }
    }
}

/// `c` is the configuration that builder `b` gives: the builder's provider, versions,
/// verifier, clock, ECH mode and profile; compression as the builder set it (none where
/// it set none); extended master secret required exactly for a FIPS provider; and the
/// defaults: no ALPN, selected ALPN checked, default resumption, no maximum fragment size,
/// SNI on, no key log, no secret extraction, no early data.
pub open spec fn client_config_built<V, F, R>(b: ConfigBuilder<WantsClientCert<V, F>>, c: ClientConfig<V, F, R>) -> bool {
    &&& c.provider == b.provider
    &&& c.alpn_protocols@.len() == 0
    &&& c.check_selected_alpn
    &&& c.resumption == (Resumption { max_sessions: 256, tls12_resumption: Tls12Resumption::SessionIdOrTickets })
    &&& c.max_fragment_size is None
    &&& c.versions == b.state.versions
    &&& c.enable_sni
    &&& c.verifier == b.state.verifier
    &&& c.key_log == KeyLog::NoKeyLog
    &&& !c.enable_secret_extraction
    &&& !c.enable_early_data
    &&& c.require_ems == b.provider.spec_fips()
    &&& c.time_provider == b.time_provider
    &&& match b.state.cert_compressors {
        Some(v) => c.cert_compressors == v,
        None => c.cert_compressors@.len() == 0,
    }
    &&& match b.state.cert_decompressors {
        Some(v) => c.cert_decompressors == v,
        None => c.cert_decompressors@.len() == 0,
    }
    &&& c.ech_mode == b.state.client_ech_mode
    &&& c.fingerprint == b.state.fingerprint
}


/// Fingerprinting is opt-in: a builder whose verifier was chosen but that did not go
/// through `with_fingerprint` (no profile, no compression set) gives a configuration
/// with no profile, no certificate compression, the provider unchanged and the ECH mode
/// unchanged.
pub proof fn lemma_without_fingerprint_nothing_changes<V, R>(
    b: ConfigBuilder<WantsClientCert<V, NoFingerprint>>,
    c: ClientConfig<V, NoFingerprint, R>,
)
    requires
        b.state.fingerprint is None,
        b.state.cert_compressors is None,
        b.state.cert_decompressors is None,
        client_config_built(b, c),
    ensures
        c.fingerprint is None,
        c.cert_compressors@.len() == 0,
        c.cert_decompressors@.len() == 0,
        c.provider == b.provider,
        c.ech_mode == b.state.client_ech_mode,
{
}

/// No two groups of `groups` have the same name.
pub open spec fn names_unique(groups: Seq<KxGroup>) -> bool {
    forall|i: int, j: int|
        0 <= i < groups.len() && 0 <= j < groups.len() && i != j ==> groups[i].name != groups[j].name
}

/// Adding the missing groups: the names after are those before and those of `extra`; no
/// name is repeated that was not repeated before; and nothing is added where every name
/// of `extra` is there already.
pub proof fn lemma_add_missing_groups(groups: Seq<KxGroup>, extra: Seq<KxGroup>)
    ensures
        forall|n: NamedGroup|
            has_group(add_missing_groups(groups, extra), n) <==> (has_group(groups, n) || has_group(extra, n)),
        names_unique(groups) ==> names_unique(add_missing_groups(groups, extra)),
        (forall|n: NamedGroup| has_group(extra, n) ==> has_group(groups, n)) ==> add_missing_groups(
            groups,
            extra,
        ) == groups,
    decreases extra.len(),
{
    if extra.len() > 0 {
        let e0 = extra.drop_last();
        let x = extra.last();
        lemma_add_missing_groups(groups, e0);
        let g1 = add_missing_groups(groups, e0);
        assert forall|n: NamedGroup| has_group(extra, n) <==> (has_group(e0, n) || x.name == n) by {
            if has_group(extra, n) {
                let i = choose|i: int| 0 <= i < extra.len() && (#[trigger] extra[i]).name == n;
                if i < extra.len() - 1 {
                    assert(e0[i] == extra[i]);
                }
            }
            if has_group(e0, n) {
                let i = choose|i: int| 0 <= i < e0.len() && (#[trigger] e0[i]).name == n;
                assert(extra[i] == e0[i]);
            }
            if x.name == n {
                assert(extra[extra.len() - 1] == x);
            }
        }
        if !has_group(g1, x.name) {
            let g2 = g1.push(x);
            assert forall|n: NamedGroup| has_group(g2, n) <==> (has_group(g1, n) || x.name == n) by {
                if has_group(g2, n) {
                    let i = choose|i: int| 0 <= i < g2.len() && (#[trigger] g2[i]).name == n;
                    if i < g1.len() {
                        assert(g1[i] == g2[i]);
                    }
                }
                if has_group(g1, n) {
                    let i = choose|i: int| 0 <= i < g1.len() && (#[trigger] g1[i]).name == n;
                    assert(g2[i] == g1[i]);
                }
                if x.name == n {
                    assert(g2[g1.len() as int] == x);
                }
            }
            if names_unique(groups) {
                assert forall|i: int, j: int|
                    0 <= i < g2.len() && 0 <= j < g2.len() && i != j implies g2[i].name != g2[j].name by {
                    if i == g1.len() {
                        assert(!has_group(g1, x.name));
                        assert(g1[j] == g2[j]);
                    } else if j == g1.len() {
                        assert(g1[i] == g2[i]);
                    }
                }
            }
            if forall|n: NamedGroup| has_group(extra, n) ==> has_group(groups, n) {
                assert(has_group(extra, x.name));
                assert(false);
            }
        }
    }
}

/// Where some group has the name, a first one has it.
proof fn lemma_first_named_exists(groups: Seq<KxGroup>, name: NamedGroup, i: int)
    requires
        0 <= i < groups.len(),
        groups[i].name == name,
    ensures
        exists|p: int| is_first_named(groups, name, p),
    decreases i,
{
    if exists|k: int| 0 <= k < i && groups[k].name == name {
        let k = choose|k: int| 0 <= k < i && groups[k].name == name;
        lemma_first_named_exists(groups, name, k);
    } else {
        assert(is_first_named(groups, name, i));
    }
}

/// Moving a group first: the same groups, each as often as before, so the same names;
/// nothing moves where the first group already has the name; and afterwards the first
/// group has the name, where any group has it.
pub proof fn lemma_move_group_first(groups: Seq<KxGroup>, name: NamedGroup)
    ensures
        move_group_first(groups, name).to_multiset() == groups.to_multiset(),
        move_group_first(groups, name).len() == groups.len(),
        forall|n: NamedGroup| has_group(move_group_first(groups, name), n) <==> has_group(groups, n),
        names_unique(groups) ==> names_unique(move_group_first(groups, name)),
        has_group(groups, name) ==> move_group_first(groups, name)[0].name == name,
        groups.len() > 0 && groups[0].name == name ==> move_group_first(groups, name) == groups,
{
    broadcast use vstd::seq_lib::to_multiset_insert;
    broadcast use vstd::seq_lib::to_multiset_remove;
    broadcast use vstd::seq_lib::to_multiset_contains;
    broadcast use vstd::multiset::group_multiset_axioms;

    if exists|p: int| is_first_named(groups, name, p) {
        let p = choose|p: int| is_first_named(groups, name, p);
        let r = groups.remove(p);
        let m = seq![groups[p]] + r;
        assert(m =~= r.insert(0, groups[p]));
        assert(groups.contains(groups[p]));
        assert(m.to_multiset() =~= groups.to_multiset());
        assert forall|n: NamedGroup| has_group(m, n) <==> has_group(groups, n) by {
            if has_group(m, n) {
                let i = choose|i: int| 0 <= i < m.len() && (#[trigger] m[i]).name == n;
                if i == 0 {
                    assert(groups[p].name == n);
                } else if i - 1 < p {
                    assert(groups[i - 1] == m[i]);
                } else {
                    assert(groups[i] == m[i]);
                }
            }
            if has_group(groups, n) {
                let i = choose|i: int| 0 <= i < groups.len() && (#[trigger] groups[i]).name == n;
                if i == p {
                    assert(m[0] == groups[i]);
                } else if i < p {
                    assert(m[i + 1] == groups[i]);
                } else {
                    assert(m[i] == groups[i]);
                }
            }
        }
        if names_unique(groups) {
            assert forall|i: int, j: int|
                0 <= i < m.len() && 0 <= j < m.len() && i != j implies m[i].name != m[j].name by {
                let oi = if i == 0 { p } else if i - 1 < p { i - 1 } else { i };
                let oj = if j == 0 { p } else if j - 1 < p { j - 1 } else { j };
                assert(m[i] == groups[oi]);
                assert(m[j] == groups[oj]);
            }
        }
        if groups.len() > 0 && groups[0].name == name {
            assert(is_first_named(groups, name, 0));
            if p > 0 {
                assert(groups[0].name != name);
            }
            assert(m =~= groups);
        }
    } else {
        if has_group(groups, name) {
            let i = choose|i: int| 0 <= i < groups.len() && (#[trigger] groups[i]).name == name;
            lemma_first_named_exists(groups, name, i);
        }
        if groups.len() > 0 && groups[0].name == name {
            assert(is_first_named(groups, name, 0));
        }
    }
}

/// After a profile's fix-ups, the provider offers the groups it offered and the
/// profile's extra groups, and no other; where it offers the preferred group, that group
/// comes first; names that were not repeated are not repeated after.
pub proof fn lemma_kx_groups_fixed(groups: Seq<KxGroup>, extra: Seq<KxGroup>, preferred: Option<NamedGroup>)
    ensures
        forall|n: NamedGroup|
            has_group(kx_groups_fixed(groups, extra, preferred), n) <==> (has_group(groups, n)
                || has_group(extra, n)),
        forall|p: NamedGroup|
            preferred == Some(p) && has_group(kx_groups_fixed(groups, extra, preferred), p)
                ==> #[trigger] kx_groups_fixed(groups, extra, preferred)[0].name == p,
        names_unique(groups) ==> names_unique(kx_groups_fixed(groups, extra, preferred)),
{
    lemma_add_missing_groups(groups, extra);
    let g1 = add_missing_groups(groups, extra);
    if let Some(p) = preferred {
        lemma_move_group_first(g1, p);
    }
}

/// Applying a profile's fix-ups a second time changes nothing.
pub proof fn lemma_kx_groups_fixed_idempotent(groups: Seq<KxGroup>, extra: Seq<KxGroup>, preferred: Option<NamedGroup>)
    ensures
        kx_groups_fixed(kx_groups_fixed(groups, extra, preferred), extra, preferred) == kx_groups_fixed(
            groups,
            extra,
            preferred,
        ),
{
    let h = kx_groups_fixed(groups, extra, preferred);
    lemma_kx_groups_fixed(groups, extra, preferred);
    lemma_add_missing_groups(h, extra);
    assert(add_missing_groups(h, extra) == h);
    if let Some(p) = preferred {
        lemma_move_group_first(h, p);
        if has_group(h, p) {
            let i = choose|i: int| 0 <= i < h.len() && (#[trigger] h[i]).name == p;
            assert(h.len() > 0);
        }
    }
}

/// Setting the same profile twice gives what setting it once gives, where both calls are
/// handed a key or neither is: the same groups in the same order, and the same ECH mode.
pub proof fn lemma_fingerprint_twice(
    groups: Seq<KxGroup>,
    extra: Seq<KxGroup>,
    preferred: Option<NamedGroup>,
    mode: Option<EchMode>,
    wants_grease: bool,
    key1: Option<HpkePublicKey>,
    key2: Option<HpkePublicKey>,
)
    requires
        (key1 is Some) == (key2 is Some),
    ensures
        ({
            let once = kx_groups_fixed(groups, fingerprint_groups(extra), preferred);
            kx_groups_fixed(once, fingerprint_groups(extra), preferred) == once
        }),
        ech_mode_after(ech_mode_after(mode, wants_grease, key1), wants_grease, key2) == ech_mode_after(
            mode,
            wants_grease,
            key1,
        ),
{
    lemma_kx_groups_fixed_idempotent(groups, fingerprint_groups(extra), preferred);
}

} // verus!
