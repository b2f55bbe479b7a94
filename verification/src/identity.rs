use vstd::prelude::*;

verus! {

broadcast use vstd::array::group_array_axioms;

/// A party on the ledger: an Ed25519 public key, 32 bytes.
#[derive(Clone, Copy, PartialEq, Eq, Debug)]
pub struct Identity {
    pub bytes: [u8; 32],
}

impl View for Identity {
    type V = Seq<u8>;

    open spec fn view(&self) -> Seq<u8> {
        self.bytes@
    }
}

impl Identity {
    pub fn new(bytes: [u8; 32]) -> (r: Identity)
        ensures
            r.bytes == bytes,
    {
        Identity { bytes }
    }

    /// Byte-for-byte equality, usable from verified code.
    pub fn same(&self, other: &Identity) -> (r: bool)
        ensures
            r == (*self == *other),
    {
        let mut i: usize = 0;
        while i < 32
            invariant
                0 <= i <= 32,
                forall|j: int| 0 <= j < i ==> self.bytes@[j] == other.bytes@[j],
            decreases 32 - i,
        {
            if self.bytes[i] != other.bytes[i] {
                assert(self.bytes@[i as int] != other.bytes@[i as int]);
                assert(*self != *other);
                return false;
            }
            i = i + 1;
        }
        proof {
            assert(self.bytes =~= other.bytes);
        }
        true
    }
}

/// A detached Ed25519 signature, 64 bytes.
#[derive(Clone, Copy, PartialEq, Eq, Debug)]
pub struct Signature {
    pub bytes: [u8; 64],
}

impl View for Signature {
    type V = Seq<u8>;

    open spec fn view(&self) -> Seq<u8> {
        self.bytes@
    }
}

/// True of a signature whose bytes are all zero: such a value is malformed
/// and is rejected before any cryptographic check.
pub open spec fn all_zero(s: Seq<u8>) -> bool {
    forall|i: int| 0 <= i < s.len() ==> s[i] == 0
}

impl Signature {
    pub fn new(bytes: [u8; 64]) -> (r: Signature)
        ensures
            r.bytes == bytes,
    {
        Signature { bytes }
    }

    pub fn is_zero(&self) -> (r: bool)
        ensures
            r == all_zero(self@),
    {
        let mut i: usize = 0;
        while i < 64
            invariant
                0 <= i <= 64,
                forall|j: int| 0 <= j < i ==> self.bytes@[j] == 0,
            decreases 64 - i,
        {
            if self.bytes[i] != 0 {
                assert(self.bytes@[i as int] != 0);
                return false;
            }
            i = i + 1;
        }
        true
    }
}

} // verus!
