//! Key exchange groups and the provider that offers them.
use vstd::prelude::*;

use crate::enums::{CipherSuite, NamedGroup, ProtocolVersion, SignatureScheme};

verus! {

/// A key exchange group that a provider offers, known by its name.
#[derive(Clone, Copy, Debug, PartialEq, Eq, Structural)]
pub struct KxGroup {
    pub name: NamedGroup,
    pub fips_allowed: bool,
}

impl KxGroup {
    /// The name of the group.
    pub fn name(&self) -> (n: NamedGroup)
        ensures
            n == self.name,
    {
        self.name
    }
}

/// The secp521r1 group, FIPS-allowed.
pub open spec fn spec_secp521r1() -> KxGroup {
    KxGroup { name: NamedGroup::secp521r1, fips_allowed: true }
}

/// Ephemeral ECDH on secp521r1 (aka NIST-P521).
pub fn secp521r1() -> (g: KxGroup)
    ensures
        g == spec_secp521r1(),
{
    KxGroup { name: NamedGroup::secp521r1, fips_allowed: true }
}

/// A cipher suite that a provider offers.
#[derive(Clone, Copy, Debug, PartialEq, Eq, Structural)]
pub struct SupportedCipherSuite {
    pub suite: CipherSuite,
    pub version: ProtocolVersion,
    pub fips: bool,
}

/// The cryptography that a configuration uses.
pub struct CryptoProvider {
    pub cipher_suites: Vec<SupportedCipherSuite>,
    pub kx_groups: Vec<KxGroup>,
    pub signature_verification_algorithms: Vec<SignatureScheme>,
    pub signature_verification_fips: bool,
    pub secure_random_fips: bool,
    pub key_provider_fips: bool,
}

impl CryptoProvider {
    /// The provider is FIPS-approved: every part of it is.
    pub open spec fn spec_fips(&self) -> bool {
        &&& forall|i: int| 0 <= i < self.cipher_suites@.len() ==> #[trigger] self.cipher_suites@[i].fips
        &&& forall|i: int| 0 <= i < self.kx_groups@.len() ==> #[trigger] self.kx_groups@[i].fips_allowed
        &&& self.signature_verification_fips
        &&& self.secure_random_fips
        &&& self.key_provider_fips
    }

    /// True when every part of the provider is FIPS-approved.
    pub fn fips(&self) -> (b: bool)
        ensures
            b == self.spec_fips(),
    {
        let mut i: usize = 0;
        while i < self.cipher_suites.len()
            invariant
                i <= self.cipher_suites@.len(),
                forall|k: int| 0 <= k < i ==> #[trigger] self.cipher_suites@[k].fips,
            decreases self.cipher_suites@.len() - i,
        {
            if !self.cipher_suites[i].fips {
                return false;
            }
            i = i + 1;
        }
        let mut j: usize = 0;
        while j < self.kx_groups.len()
            invariant
                j <= self.kx_groups@.len(),
                forall|k: int| 0 <= k < self.cipher_suites@.len() ==> #[trigger] self.cipher_suites@[k].fips,
                forall|k: int| 0 <= k < j ==> #[trigger] self.kx_groups@[k].fips_allowed,
            decreases self.kx_groups@.len() - j,
        {
            if !self.kx_groups[j].fips_allowed {
                return false;
            }
            j = j + 1;
        }
        self.signature_verification_fips && self.secure_random_fips && self.key_provider_fips
    }
}

} // verus!
