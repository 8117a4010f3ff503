//! Identities of the parties to an escrow and of the custody records.

use vstd::prelude::*;
use vstd::std_specs::cmp::PartialEqSpecImpl;

verus! {

/// Number of bytes in an identity.
pub const IDENTITY_LEN: usize = 32;

/// A public key naming a party or a custody record.
///
/// The engine takes every identity it is handed as already verified: it
/// compares identities and never checks a signature.
#[derive(Clone, Copy, Debug, Eq)]
pub struct Identity {
    pub bytes: [u8; 32],
}

impl View for Identity {
    type V = Seq<u8>;

    open spec fn view(&self) -> Seq<u8> {
        self.bytes@
    }
}

impl Identity {
    /// The identity whose bytes are all zero, as in a record that nobody has
    /// funded yet.
    pub open spec fn spec_zero() -> Identity {
        Identity { bytes: vstd::array::spec_array_fill_for_copy_type::<u8, 32>(0u8) }
    }

    /// The identity with the given bytes.
    pub fn new(bytes: [u8; 32]) -> (id: Identity)
        ensures
            id.bytes == bytes,
            id@ == bytes@,
    {
        Identity { bytes }
    }

    /// The all-zero identity.
    #[verifier::when_used_as_spec(spec_zero)]
    pub fn zero() -> (id: Identity)
        ensures
            id == Identity::spec_zero(),
            id@ == Seq::new(32, |i: int| 0u8),
    {
        proof {
            zero_identity_bytes();
        }
        Identity { bytes: [0u8; 32] }
    }

    /// The bytes of the identity.
    pub fn to_bytes(&self) -> (bytes: [u8; 32])
        ensures
            bytes == self.bytes,
            bytes@ == self@,
    {
        self.bytes
    }
}

/// Every byte of the all-zero identity is zero.
pub proof fn zero_identity_bytes()
    ensures
        Identity::spec_zero()@ == Seq::new(32, |i: int| 0u8),
{
    broadcast use vstd::array::group_array_axioms;

    assert(Identity::spec_zero()@ =~= Seq::new(32, |i: int| 0u8));
}

/// Two identities are the same exactly when their byte sequences are.
pub proof fn identity_eq_by_view(a: Identity, b: Identity)
    ensures
        (a == b) <==> (a@ == b@),
{
    broadcast use vstd::array::group_array_axioms;

    if a@ == b@ {
        assert(a.bytes =~= b.bytes);
    }
}

impl PartialEq for Identity {
    fn eq(&self, other: &Identity) -> (r: bool) {
        broadcast use vstd::array::group_array_axioms;

        let mut i: usize = 0;
        while i < 32
            invariant
                i <= 32,
                forall|j: int| 0 <= j < i ==> self.bytes[j] == other.bytes[j],
            decreases 32 - i,
        {
            if self.bytes[i] != other.bytes[i] {
                return false;
            }
            i += 1;
        }
        assert(self.bytes =~= other.bytes);
        true
    }
}

impl PartialEqSpecImpl for Identity {
    open spec fn obeys_eq_spec() -> bool {
        true
    }

    open spec fn eq_spec(&self, other: &Identity) -> bool {
        *self == *other
    }
}

} // verus!
