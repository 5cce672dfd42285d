//! The password policy, and hashing of accepted passwords.

use vstd::prelude::*;
use vstd::string::StrSliceExecFns;
use crate::utils::text::{is_digit_char, is_lower_char, is_special_char, is_upper_char};

verus! {

pub open spec fn has_lowercase(s: Seq<char>) -> bool {
    exists|i: int| 0 <= i < s.len() && is_lower_char(#[trigger] s[i])
}

pub open spec fn has_uppercase(s: Seq<char>) -> bool {
    exists|i: int| 0 <= i < s.len() && is_upper_char(#[trigger] s[i])
}

pub open spec fn has_digit(s: Seq<char>) -> bool {
    exists|i: int| 0 <= i < s.len() && is_digit_char(#[trigger] s[i])
}

pub open spec fn has_special(s: Seq<char>) -> bool {
    exists|i: int| 0 <= i < s.len() && is_special_char(#[trigger] s[i])
}

/// A password is accepted when it holds at least one lower-case letter, one
/// upper-case letter, one digit, and one space or ASCII punctuation
/// character.
pub open spec fn password_secure(s: Seq<char>) -> bool {
    has_lowercase(s) && has_uppercase(s) && has_digit(s) && has_special(s)
}

pub fn is_secure_password(password: &str) -> (r: bool)
    ensures
        r == password_secure(password@),
{
    let n = password.unicode_len();
    let mut lower = false;
    let mut upper = false;
    let mut digit = false;
    let mut special = false;
    let mut i: usize = 0;
    while i < n
        invariant
            0 <= i <= n,
            n == password@.len(),
            lower == (exists|j: int| 0 <= j < i && is_lower_char(#[trigger] password@[j])),
            upper == (exists|j: int| 0 <= j < i && is_upper_char(#[trigger] password@[j])),
            digit == (exists|j: int| 0 <= j < i && is_digit_char(#[trigger] password@[j])),
            special == (exists|j: int| 0 <= j < i && is_special_char(#[trigger] password@[j])),
        decreases n - i,
    {
        let c = password.get_char(i);
        if 'a' <= c && c <= 'z' {
            lower = true;
        }
        if 'A' <= c && c <= 'Z' {
            upper = true;
        }
        if '0' <= c && c <= '9' {
            digit = true;
        }
        if (' ' <= c && c <= '/') || (':' <= c && c <= '@') || ('[' <= c && c <= '`') || ('{' <= c
            && c <= '~') {
            special = true;
        }
        i += 1;
    }
    lower && upper && digit && special
}

/// Relies on bcrypt::hash with bcrypt::DEFAULT_COST: the salt is drawn from
/// the operating system, so nothing can be promised of the returned hash;
/// hashing fails only when that randomness is unavailable.
#[verifier::external_body]
pub fn hash_password(password: &str) -> (r: Option<String>)
{
    bcrypt::hash(password, bcrypt::DEFAULT_COST).ok()
}

} // verus!
