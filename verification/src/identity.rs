//! Identities of participants, authorities, token types and vaults.

use vstd::prelude::*;

verus! {

/// An already authenticated 32-byte identity.
///
/// Its view is the sequence of its 32 bytes. The identity whose bytes are all
/// zero stands for "not set".
#[derive(Clone, Copy, Debug)]
pub struct Identity {
    pub bytes: [u8; 32],
}

impl View for Identity {
    type V = Seq<u8>;

    open spec fn view(&self) -> Seq<u8> {
        self.bytes@
    }
}

/// The bytes of the identity that stands for "not set".
pub open spec fn unset_identity() -> Seq<u8> {
    Seq::new(32, |i: int| 0u8)
}

impl Identity {
    /// Whether this is the identity that stands for "not set".
    pub open spec fn is_unset(&self) -> bool {
        self@ == unset_identity()
    }

    /// The identity with the given bytes.
    pub fn new(bytes: [u8; 32]) -> (id: Identity)
        ensures
            id@ == bytes@,
    {
        Identity { bytes }
    }

    /// The 32 bytes of the identity.
    pub fn to_bytes(&self) -> (bytes: [u8; 32])
        ensures
            bytes@ == self@,
    {
        self.bytes
    }

    /// Tells whether no identity has been set, that is whether every byte is zero.
    pub fn is_default(&self) -> (unset: bool)
        ensures
            unset == self.is_unset(),
    {
        let mut i: usize = 0;
        while i < 32
            invariant
                i <= 32,
                forall|j: int| 0 <= j < i ==> self.bytes@[j] == 0u8,
            decreases 32 - i,
        {
            if self.bytes[i] != 0 {
                assert(self@[i as int] != unset_identity()[i as int]);
                return false;
            }
            i += 1;
        }
        assert(self@ =~= unset_identity());
        true
    }

    /// Tells whether two identities are the same, byte for byte.
    pub fn same_as(&self, other: &Identity) -> (same: bool)
        ensures
            same == (self@ == other@),
    {
        let mut i: usize = 0;
        while i < 32
            invariant
                i <= 32,
                forall|j: int| 0 <= j < i ==> self.bytes@[j] == other.bytes@[j],
            decreases 32 - i,
        {
            if self.bytes[i] != other.bytes[i] {
                assert(self@[i as int] != other@[i as int]);
                return false;
            }
            i += 1;
        }
        assert(self@ =~= other@);
        true
    }
}

impl Default for Identity {
    /// The identity that stands for "not set".
    fn default() -> (id: Identity)
        ensures
            id.is_unset(),
    {
        let id = Identity { bytes: [0u8; 32] };
        assert(id@ =~= unset_identity());
        id
    }
}

impl PartialEq for Identity {
    fn eq(&self, other: &Identity) -> (same: bool) {
        self.same_as(other)
    }
}

impl vstd::std_specs::cmp::PartialEqSpecImpl for Identity {
    open spec fn obeys_eq_spec() -> bool {
        true
    }

    open spec fn eq_spec(&self, other: &Identity) -> bool {
        self@ == other@
    }
}

impl Eq for Identity {

}

} // verus!
