//! Small predicates used when deciding which fields to write out.
use vstd::prelude::*;

verus! {

/// True exactly when the flag is unset; such a flag is left out of the
/// encoded form.
pub fn is_false(v: &bool) -> (r: bool)
    ensures
        r == !*v,
{
    !*v
}

} // verus!
