//! The address type shared by the decoder and the encoder.

use vstd::prelude::*;

verus! {

/// Length in bytes of a ledger address.
pub const PUBKEY_BYTES: usize = 32;

/// A ledger address: 32 raw bytes, kept as plain values so that every
/// byte-level contract in the crate can speak about them directly.
#[derive(Clone, Copy, Debug)]
pub struct Pubkey {
    pub bytes: [u8; 32],
}

impl View for Pubkey {
    type V = Seq<u8>;

    open spec fn view(&self) -> Seq<u8> {
        self.bytes@
    }
}

impl Pubkey {
    /// Wraps 32 raw bytes as an address.
    pub fn new(bytes: [u8; 32]) -> (r: Pubkey)
        ensures
            r@ == bytes@,
    {
        Pubkey { bytes }
    }

    /// Byte-for-byte address comparison.
    pub fn eq_bytes(&self, other: &Pubkey) -> (r: bool)
        ensures
            r == (self@ == other@),
    {
        let mut i: usize = 0;
        while i < PUBKEY_BYTES
            invariant
                0 <= i <= PUBKEY_BYTES,
                forall|j: int| 0 <= j < i ==> self.bytes@[j] == other.bytes@[j],
            decreases PUBKEY_BYTES - i,
        {
            if self.bytes[i] != other.bytes[i] {
                assert(self@[i as int] != other@[i as int]);
                return false;
            }
            i = i + 1;
        }
        assert(self@ =~= other@);
        true
    }
}

} // verus!
