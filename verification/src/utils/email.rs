//! E-mail address acceptance, delegated to the `validator` crate.

use vstd::prelude::*;

verus! {

/// Whether the HTML5 e-mail check of the `validator` crate accepts the
/// string; the outcome depends on the characters alone.
pub uninterp spec fn email_accepted(s: Seq<char>) -> bool;

/// Relies on validator's ValidateEmail for &str: accepts a string of the
/// HTML5 e-mail shape, user and domain part split at the last `@`.
#[verifier::external_body]
pub fn check_email(s: &str) -> (r: bool)
    ensures
        r == email_accepted(s@),
{
    validator::ValidateEmail::validate_email(&s)
}

} // verus!
