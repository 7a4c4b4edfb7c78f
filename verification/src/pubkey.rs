//! Identity keys: thirty-two bytes that name an owner, an asset or a record.

use vstd::prelude::*;

verus! {

/// Number of bytes in a key.
pub const PUBKEY_BYTES: usize = 32;

/// A thirty-two byte identity. Two keys are the same key exactly when all
/// their bytes agree.
#[derive(Clone, Copy, Debug, PartialEq, Eq, Hash)]
pub struct Pubkey {
    pub bytes: [u8; 32],
}

impl View for Pubkey {
    type V = Seq<u8>;

    open spec fn view(&self) -> Seq<u8> {
        self.bytes@
    }
}

/// The key whose every byte is `b`.
pub open spec fn filled_key(b: u8) -> Seq<u8> {
    Seq::new(32, |i: int| b)
}

impl Pubkey {
    /// Wraps the given bytes as a key.
    pub fn new_from_array(bytes: [u8; 32]) -> (key: Pubkey)
        ensures
            key@ == bytes@,
            key.bytes == bytes,
    {
        Pubkey { bytes }
    }

    /// The key made of thirty-two copies of `b`.
    pub fn filled(b: u8) -> (key: Pubkey)
        ensures
            key@ == filled_key(b),
    {
        let key = Pubkey { bytes: [b; 32] };
        assert(key@ =~= filled_key(b));
        key
    }

    /// The bytes of the key.
    pub fn to_bytes(&self) -> (bytes: [u8; 32])
        ensures
            bytes@ == self@,
            bytes == self.bytes,
    {
        self.bytes
    }

    /// Byte-wise comparison of two keys.
    pub fn same_as(&self, other: &Pubkey) -> (same: bool)
        ensures
            same == (self@ == other@),
    {
        let mut i: usize = 0;
        while i < 32
            invariant
                i <= 32,
                forall|j: int| 0 <= j < i ==> self@[j] == other@[j],
            decreases 32 - i,
        {
            if self.bytes[i] != other.bytes[i] {
                assert(self@[i as int] != other@[i as int]);
                return false;
            }
            i += 1;
        }
        assert(self@ =~= other@);
        true
    }
}

} // verus!
