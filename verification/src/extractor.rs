//! Grant extraction for the request-gating layer: which permissions a
//! request holds.  The callback outcome does not feed this set, a known
//! gap, so every request holds none.

use vstd::prelude::*;

verus! {

/// The grants a request carries: always the empty set.
pub fn auth_extractor() -> (r: Vec<String>)
    ensures
        r@.len() == 0,
{
    Vec::new()
}

} // verus!
