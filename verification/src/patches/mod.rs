//! Browser profiles applied with randomness from the thread-local generator, and the
//! encoding of raw extensions that they add.
use vstd::prelude::*;

use crate::codec::{put_bytes, put_u16, put_u16_len};
use crate::handshake::{be16, lemma_unknown_ext_layout, unknown_ext_bytes, UnknownExtension};

pub mod chrome;
pub mod grease;
pub mod webkit;

verus! {

/// Which TLS fingerprint to use.
#[derive(Clone, Copy, Debug, PartialEq, Eq, Structural)]
pub enum TlsFingerprint {
    /// Chrome-like fingerprint
    Chrome,
    /// Safari-like fingerprint
    Webkit,
}

/// Why a message could not be read.
#[derive(Clone, Copy, Debug)]
pub enum InvalidMessage {
    /// The message ended before the named part.
    MissingData(&'static str),
}

impl UnknownExtension {
    /// Appends the extension: its type, the two-byte length of its body (modulo 65536),
    /// and the body.
    pub fn encode(&self, bytes: &mut Vec<u8>)
        ensures
            final(bytes)@ == old(bytes)@ + unknown_ext_bytes(*self),
            self.payload@.len() <= 0xffff ==> {
                let k = old(bytes)@.len() as int;
                let n = self.payload@.len() as int;
                &&& final(bytes)@.len() == k + 4 + n
                &&& be16(final(bytes)@[k], final(bytes)@[k + 1]) == self.typ.value() as int
                &&& be16(final(bytes)@[k + 2], final(bytes)@[k + 3]) == n
                &&& final(bytes)@.subrange(k + 4, k + 4 + n) == self.payload@
            },
    {
        let ghost start = bytes@;
        put_u16(self.typ.get_u16(), bytes);
        let payload_bytes = self.payload.as_slice();
        put_u16_len(payload_bytes.len(), bytes);
        put_bytes(payload_bytes, bytes);
        assert(bytes@ =~= start + unknown_ext_bytes(*self));
        proof {
            if self.payload@.len() <= 0xffff {
                lemma_unknown_ext_layout(*self);
                let k = start.len() as int;
                let n = self.payload@.len() as int;
                let u = unknown_ext_bytes(*self);
                assert(bytes@.subrange(k + 4, k + 4 + n) =~= u.subrange(4, u.len() as int));
            }
        }
    }

    /// Raw extensions are only written, never read back: reading always fails.
    pub fn read(_r: &[u8]) -> (r: Result<UnknownExtension, InvalidMessage>)
        ensures
            r matches Err(InvalidMessage::MissingData(what)) && what@ == "UnknownExtension"@,
    {
        Err(InvalidMessage::MissingData("UnknownExtension"))
    }
}

} // verus!
