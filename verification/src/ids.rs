//! Entity identifiers.

use vstd::prelude::*;

verus! {

/// A 128-bit entity identifier (the value of a UUID). The nil identifier is
/// all zeros and marks "no server-side entity".
#[derive(Clone, Copy, Debug, PartialEq, Eq, Structural, Hash)]
pub struct Uuid {
    pub value: u128,
}

impl Uuid {
    /// The all-zero identifier.
    pub fn nil() -> (r: Uuid)
        ensures
            r.value == 0,
    {
        Uuid { value: 0 }
    }

    pub fn from_u128(value: u128) -> (r: Uuid)
        ensures
            r.value == value,
    {
        Uuid { value }
    }

    pub open spec fn nil_spec(self) -> bool {
        self.value == 0
    }

    /// Whether this is the all-zero identifier.
    pub fn is_nil(&self) -> (r: bool)
        ensures
            r == self.nil_spec(),
    {
        self.value == 0
    }
}

/// Whether `id` occurs in `ids`.
pub fn contains_id(ids: &Vec<Uuid>, id: Uuid) -> (r: bool)
    ensures
        r == ids@.contains(id),
{
    let mut i: usize = 0;
    while i < ids.len()
        invariant
            i <= ids@.len(),
            forall|j: int| 0 <= j < i ==> ids@[j] != id,
        decreases ids@.len() - i,
    {
        if ids[i] == id {
            proof {
                assert(ids@[i as int] == id);
            }
            return true;
        }
        i = i + 1;
    }
    false
}

} // verus!
