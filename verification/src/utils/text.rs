//! Character classes and string-shape checks used by the input validation.

use vstd::prelude::*;
use vstd::string::StrSliceExecFns;

verus! {

pub open spec fn is_digit_char(c: char) -> bool {
    '0' <= c && c <= '9'
}

pub open spec fn is_lower_char(c: char) -> bool {
    'a' <= c && c <= 'z'
}

pub open spec fn is_upper_char(c: char) -> bool {
    'A' <= c && c <= 'Z'
}

/// ASCII punctuation or the space character: the classes ` ` to `/`, `:` to
/// `@`, `[` to `` ` ``, and `{` to `~`.
pub open spec fn is_special_char(c: char) -> bool {
    ||| (' ' <= c && c <= '/')
    ||| (':' <= c && c <= '@')
    ||| ('[' <= c && c <= '`')
    ||| ('{' <= c && c <= '~')
}

/// Number of characters in `s` (not bytes).
pub fn char_len(s: &str) -> (n: usize)
    ensures
        n == s@.len(),
{
    s.unicode_len()
}

/// Whether the character count of `s` lies in `min..=max`.
pub fn len_between(s: &str, min: usize, max: usize) -> (r: bool)
    ensures
        r == (min <= s@.len() && s@.len() <= max),
{
    let n = s.unicode_len();
    min <= n && n <= max
}

/// The shape `YYYY-MM-DD`: ten characters, digits everywhere but for the
/// dashes at positions 4 and 7. Only the shape is checked, not that the
/// digits name a calendar date.
pub open spec fn date_shape(s: Seq<char>) -> bool {
    &&& s.len() == 10
    &&& (forall|i: int| 0 <= i < 10 && i != 4 && i != 7 ==> is_digit_char(#[trigger] s[i]))
    &&& s[4] == '-'
    &&& s[7] == '-'
}

pub fn check_date_shape(s: &str) -> (r: bool)
    ensures
        r == date_shape(s@),
{
    if s.unicode_len() != 10 {
        return false;
    }
    let mut i: usize = 0;
    while i < 10
        invariant
            0 <= i <= 10,
            s@.len() == 10,
            forall|j: int| 0 <= j < i && j != 4 && j != 7 ==> is_digit_char(#[trigger] s@[j]),
            i > 4 ==> s@[4] == '-',
            i > 7 ==> s@[7] == '-',
        decreases 10 - i,
    {
        let c = s.get_char(i);
        if i == 4 || i == 7 {
            if c != '-' {
                return false;
            }
        } else {
            if !('0' <= c && c <= '9') {
                return false;
            }
        }
        i += 1;
    }
    true
}

} // verus!
