//! The identity of a party, as the signature layer hands it over.

use vstd::prelude::*;
use crate::bytes::bytes_equal;

verus! {

/// Thirty-two bytes that name a party. Two identities are the same party
/// exactly when all their bytes agree.
#[derive(Clone, Copy, Debug, Eq)]
pub struct Identity {
    pub bytes: [u8; 32],
}

impl PartialEq for Identity {
    fn eq(&self, other: &Identity) -> (r: bool) {
        bytes_equal(&self.bytes, &other.bytes)
    }
}

impl vstd::std_specs::cmp::PartialEqSpecImpl for Identity {
    open spec fn obeys_eq_spec() -> bool {
        true
    }

    open spec fn eq_spec(&self, other: &Identity) -> bool {
        *self == *other
    }
}

impl Identity {
    /// The identity made of the given bytes.
    pub fn new(bytes: [u8; 32]) -> (id: Identity)
        ensures
            id.bytes == bytes,
    {
        Identity { bytes }
    }
}

/// Whether `who` is the party that `slot` holds; an empty slot holds nobody.
pub open spec fn holds(slot: Option<Identity>, who: Identity) -> bool {
    slot == Some(who)
}

/// Whether `who` is the party that `slot` holds.
pub fn slot_holds(slot: &Option<Identity>, who: &Identity) -> (r: bool)
    ensures
        r == holds(*slot, *who),
{
    match slot {
        Some(p) => *p == *who,
        None => false,
    }
}

} // verus!
