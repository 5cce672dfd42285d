//! The informational endpoint.

use vstd::prelude::*;

verus! {

/// The greeting of the backend.
pub fn get() -> (r: &'static str)
    ensures
        r@ == "hello"@,
{
    "hello"
}

} // verus!
