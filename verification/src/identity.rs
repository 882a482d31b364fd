//! Identities of programs and account owners.

use vstd::prelude::*;

verus! {

/// The number of bytes in an identity.
pub const IDENTITY_LEN: usize = 32;

/// A 32-byte identity, as the host assigns to programs and account owners.
#[derive(Clone, Copy, Debug)]
pub struct Identity {
    bytes: [u8; IDENTITY_LEN],
}

impl View for Identity {
    type V = Seq<u8>;

    closed spec fn view(&self) -> Seq<u8> {
        self.bytes@
    }
}

impl Identity {
    /// The identity made of the given bytes.
    pub fn new(bytes: [u8; IDENTITY_LEN]) -> (id: Identity)
        ensures
            id@ == bytes@,
    {
        Identity { bytes }
    }

    /// The bytes of this identity.
    pub fn to_bytes(&self) -> (bytes: [u8; IDENTITY_LEN])
        ensures
            bytes@ == self@,
    {
        self.bytes
    }

    /// Whether two identities are the same, byte for byte.
    pub fn same_as(&self, other: &Identity) -> (same: bool)
        ensures
            same == (self@ == other@),
    {
        let mut i: usize = 0;
        while i < IDENTITY_LEN
            invariant
                i <= IDENTITY_LEN,
                forall|j: int| 0 <= j < i ==> self.bytes@[j] == other.bytes@[j],
            decreases IDENTITY_LEN - i,
        {
            if self.bytes[i] != other.bytes[i] {
                return false;
            }
            i += 1;
        }
        assert(self.bytes@ =~= other.bytes@);
        true
    }
}

} // verus!
