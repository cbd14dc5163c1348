//! Browser fingerprint profiles that rewrite a ClientHello.
use vstd::prelude::*;

use crate::crypto::KxGroup;
use crate::enums::NamedGroup;
use crate::handshake::{retain_groups, shares_in, ClientHelloPayload, KeyShareEntry};

pub mod chrome;
pub mod grease;
pub mod safari;

verus! {

/// Rewrites a ClientHello so that it matches the TLS fingerprint of a browser.
///
/// `apply` runs after the default ClientHello has been built and before it is encoded.
pub trait ClientHelloFingerprinter {
    /// Whether this profile sends ECH GREASE by default.
    open spec fn spec_wants_ech_grease(&self) -> bool {
        false
    }

    /// The groups this profile needs in the provider, and the group to put first.
    open spec fn spec_kx_group_fixups(&self) -> (Seq<KxGroup>, Option<NamedGroup>) {
        (Seq::empty(), None)
    }

    /// Modifies `payload` in place; `is_retry` is true for the ClientHello that answers
    /// a HelloRetryRequest.
    fn apply(&self, payload: &mut ClientHelloPayload, is_retry: bool);

    /// Returns `true` if this browser fingerprint sends ECH GREASE by default.
    fn wants_ech_grease(&self) -> (b: bool)
        ensures
            b == self.spec_wants_ech_grease(),
    ;

    /// The extra groups to add to the provider, and the group to move first.
    fn kx_group_fixups(&self) -> (r: (Vec<KxGroup>, Option<NamedGroup>))
        ensures
            r.0@ == self.spec_kx_group_fixups().0,
            r.1 == self.spec_kx_group_fixups().1,
    ;
}


/// What a profile does to the key shares: on the first ClientHello it keeps those in
/// `keep` and puts a one-byte share for the GREASE group first; on a retry, and where
/// there are no key shares, nothing changes.
pub open spec fn key_shares_rewritten(
    o: Option<Vec<KeyShareEntry>>,
    q: Option<Vec<KeyShareEntry>>,
    is_retry: bool,
    grease_group: u16,
    keep: Seq<NamedGroup>,
) -> bool {
    match o {
        None => q is None,
        Some(ov) => if is_retry {
            q == o
        } else {
            &&& q matches Some(qv)
            &&& qv@.len() == shares_in(ov@, keep).len() + 1
            &&& qv@[0].group == NamedGroup::Unknown(grease_group)
            &&& qv@[0].payload@ == seq![0u8]
            &&& qv@.skip(1) == shares_in(ov@, keep)
        },
    }
}

/// Rewrites the key shares as [`key_shares_rewritten`] says.
pub fn rewrite_key_shares(
    key_shares: &mut Option<Vec<KeyShareEntry>>,
    is_retry: bool,
    grease_group: u16,
    keep: &Vec<NamedGroup>,
)
    ensures
        key_shares_rewritten(*old(key_shares), *final(key_shares), is_retry, grease_group, keep@),
{
    if !is_retry {
        match key_shares.take() {
            Some(shares) => {
                let kept = retain_groups(shares, keep);
                let mut one: Vec<u8> = Vec::new();
                one.push(0x00u8);
                let entry = KeyShareEntry::new(NamedGroup::Unknown(grease_group), one);
                assert(entry.payload@ =~= seq![0u8]);
                let mut new_shares: Vec<KeyShareEntry> = Vec::new();
                new_shares.push(entry);
                let mut kept = kept;
                new_shares.append(&mut kept);
                assert(new_shares@[0] == entry);
                assert(new_shares@.skip(1) =~= shares_in(shares@, keep@));
                *key_shares = Some(new_shares);
            },
            None => {},
        }
    }
}

} // verus!
