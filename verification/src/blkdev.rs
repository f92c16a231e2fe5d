//! The independent size query callers use to validate allocation and
//! layer-length invariants.

use vstd::prelude::*;

use crate::sector::Sector;
use crate::stack::Stack;

verus! {

/// Reports a stack's address-space length in sectors, as the operating
/// system would for its path.
pub fn getsize<S: Stack>(s: &S) -> (r: Sector)
    requires
        s.inv(),
    ensures
        r@ == s.size_spec(),
{
    s.size()
}

} // verus!
