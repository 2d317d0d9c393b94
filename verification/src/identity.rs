//! Identities: the 32-byte public keys that name parties and records.

use vstd::prelude::*;

verus! {

/// Number of bytes in an identity.
pub const IDENTITY_BYTES: usize = 32;

/// A public key. It names a party that can authorise transactions, and it is
/// also the form that record addresses take.
#[derive(Clone, Copy, Debug)]
pub struct Identity {
    pub bytes: [u8; 32],
}

impl View for Identity {
    type V = Seq<u8>;

    open spec fn view(&self) -> Seq<u8> {
        self.bytes@
    }
}

/// The all-zero byte string that stands for "nobody".
pub open spec fn zero_identity() -> Seq<u8> {
    Seq::new(32, |i: int| 0u8)
}

impl Identity {
    /// The identity made of the given bytes.
    pub fn from_bytes(bytes: [u8; 32]) -> (id: Identity)
        ensures
            id@ == bytes@,
    {
        Identity { bytes }
    }

    /// The bytes of this identity.
    pub fn to_bytes(&self) -> (bytes: [u8; 32])
        ensures
            bytes@ == self@,
    {
        self.bytes
    }

    /// The zero identity, which marks a field that names nobody yet.
    pub fn zero() -> (id: Identity)
        ensures
            id@ == zero_identity(),
    {
        let id = Identity { bytes: [0u8; 32] };
        assert(id@ =~= zero_identity());
        id
    }

    /// Whether two identities are the same key.
    pub fn same_as(&self, other: &Identity) -> (same: bool)
        ensures
            same == (self@ == other@),
    {
        let mut i: usize = 0;
        while i < 32
            invariant
                0 <= i <= 32,
                forall|j: int| 0 <= j < i ==> self.bytes@[j] == other.bytes@[j],
            decreases 32 - i,
        {
            if self.bytes[i] != other.bytes[i] {
                return false;
            }
            i += 1;
        }
        assert(self@ =~= other@);
        true
    }

    /// Whether this is the zero identity.
    pub fn is_zero(&self) -> (zero: bool)
        ensures
            zero == (self@ == zero_identity()),
    {
        let z = Identity::zero();
        self.same_as(&z)
    }
}

impl PartialEq for Identity {
    fn eq(&self, other: &Identity) -> (same: bool) {
        self.same_as(other)
    }
}

impl Eq for Identity {

}

impl vstd::std_specs::cmp::PartialEqSpecImpl for Identity {
    open spec fn obeys_eq_spec() -> bool {
        true
    }

    open spec fn eq_spec(&self, other: &Identity) -> bool {
        self@ == other@
    }
}

} // verus!
