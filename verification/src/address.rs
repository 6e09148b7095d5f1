//! Twenty-byte account and contract identifiers.

use vstd::prelude::*;

verus! {

/// A 20-byte identifier of an account or of a contract.
#[derive(Clone, Copy, Debug, PartialEq, Eq, Hash)]
pub struct Address(pub [u8; 20]);

impl View for Address {
    type V = Seq<u8>;

    open spec fn view(&self) -> Seq<u8> {
        self.0@
    }
}

impl Address {
    /// The bytes of the address, most significant first.
    pub fn as_bytes(&self) -> (bytes: &[u8])
        ensures
            bytes@ == self@,
    {
        &self.0
    }

    /// Whether the address begins with the bytes of `prefix`, one for one.
    pub fn starts_with(&self, prefix: &[u8]) -> (found: bool)
        ensures
            found == prefix@.is_prefix_of(self@),
    {
        if prefix.len() > 20 {
            return false;
        }
        let mut i: usize = 0;
        while i < prefix.len()
            invariant
                i <= prefix.len() <= 20,
                forall|j: int| 0 <= j < i ==> prefix@[j] == self@[j],
            decreases prefix.len() - i,
        {
            if prefix[i] != self.0[i] {
                return false;
            }
            i += 1;
        }
        true
    }

    /// The address carried by a 32-byte digest: its last twenty bytes.
    pub fn from_digest(digest: &[u8; 32]) -> (address: Address)
        ensures
            address@ == digest@.subrange(12, 32),
    {
        let mut bytes = [0u8; 20];
        let mut i: usize = 0;
        while i < 20
            invariant
                i <= 20,
                forall|j: int| 0 <= j < i ==> bytes@[j] == digest@[j + 12],
            decreases 20 - i,
        {
            bytes[i] = digest[i + 12];
            i += 1;
        }
        Address(bytes)
    }
}

} // verus!
