//! Participant identities: opaque 32-byte keys compared for equality.

use vstd::prelude::*;

verus! {

/// Length of an identity key in bytes.
pub const KEY_LEN: usize = 32;

/// A participant, as the hosting environment identifies it.
#[derive(Clone, Copy, Debug)]
pub struct Identity {
    pub key: [u8; 32],
}

impl Identity {
    /// An identity with the given key.
    pub fn new(key: [u8; 32]) -> (r: Identity)
        ensures
            r.key == key,
    {
        Identity { key }
    }
}

impl PartialEq for Identity {
    fn eq(&self, other: &Identity) -> (r: bool)
        ensures
            r == (*self == *other),
    {
        let mut i: usize = 0;
        while i < KEY_LEN
            invariant
                i <= KEY_LEN,
                forall|j: int| 0 <= j < i ==> self.key[j] == other.key[j],
            decreases KEY_LEN - i,
        {
            if self.key[i] != other.key[i] {
                return false;
            }
            i = i + 1;
        }
        assert(self.key =~= other.key);
        true
    }
}

impl vstd::std_specs::cmp::PartialEqSpecImpl for Identity {
    open spec fn obeys_eq_spec() -> bool {
        true
    }

    open spec fn eq_spec(&self, other: &Identity) -> bool {
        *self == *other
    }
}

impl Eq for Identity {
}

} // verus!
