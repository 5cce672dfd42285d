//! The rule for personal names on user accounts.

use vstd::prelude::*;
use vstd::string::StrSliceExecFns;

verus! {

/// A personal name is acceptable when it has at least two characters; the
/// general length bounds of the input are checked separately.
pub open spec fn name_acceptable(s: Seq<char>) -> bool {
    s.len() >= 2
}

pub fn valid_name(name: &str) -> (r: bool)
    ensures
        r == name_acceptable(name@),
{
    name.unicode_len() >= 2
}

} // verus!
