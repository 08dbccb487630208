//! Text primitives of std that the helpers of this crate rely on, with what
//! std documents of them.
use vstd::prelude::*;

verus! {

/// Whether `c` is an upper-case ASCII letter.
pub open spec fn is_ascii_upper(c: char) -> bool {
    65 <= (c as u32) && (c as u32) <= 90
}

/// Two characters that are equal once ASCII letters are lower-cased.
pub open spec fn ascii_ci_char_eq(a: char, b: char) -> bool {
    a == b || (is_ascii_upper(a) && (a as u32) + 32 == (b as u32)) || (is_ascii_upper(b) && (b
        as u32) + 32 == (a as u32))
}

/// Two texts that are equal once ASCII letters are lower-cased.
pub open spec fn ascii_ci_eq(a: Seq<char>, b: Seq<char>) -> bool {
    a.len() == b.len() && forall|i: int| 0 <= i < a.len() ==> ascii_ci_char_eq(#[trigger] a[i], b[i])
}

/// Whether `c` has the Unicode White_Space property, the test of
/// `char::is_whitespace`.
pub open spec fn is_white_space(c: char) -> bool {
    let u = c as u32;
    (0x09 <= u && u <= 0x0d) || u == 0x20 || u == 0x85 || u == 0xa0 || u == 0x1680 || (0x2000 <= u
        && u <= 0x200a) || u == 0x2028 || u == 0x2029 || u == 0x202f || u == 0x205f || u == 0x3000
}

/// The number of white space characters that begin `s`.
pub open spec fn leading_white_space(s: Seq<char>) -> nat
    decreases s.len(),
{
    if s.len() > 0 && is_white_space(s[0]) {
        1 + leading_white_space(s.drop_first())
    } else {
        0
    }
}

/// The number of white space characters that end `s`.
pub open spec fn trailing_white_space(s: Seq<char>) -> nat
    decreases s.len(),
{
    if s.len() > 0 && is_white_space(s.last()) {
        1 + trailing_white_space(s.drop_last())
    } else {
        0
    }
}

/// `s` without its leading and trailing white space.
pub open spec fn trim_whitespace(s: Seq<char>) -> Seq<char> {
    let rest = s.subrange(leading_white_space(s) as int, s.len() as int);
    rest.subrange(0, rest.len() - trailing_white_space(rest))
}

/// Relies on `str::trim`: leading and trailing white space (as
/// `char::is_whitespace` tests it) is removed.
#[verifier::external_body]
pub(crate) fn trim(s: &str) -> (r: &str)
    ensures
        r@ == trim_whitespace(s@),
{
    s.trim()
}

/// Relies on `str::eq_ignore_ascii_case`: equality once ASCII letters on both
/// sides are lower-cased.
#[verifier::external_body]
pub(crate) fn eq_ignore_ascii_case(a: &str, b: &str) -> (r: bool)
    ensures
        r == ascii_ci_eq(a@, b@),
{
    a.eq_ignore_ascii_case(b)
}

/// Relies on `str::starts_with`: whether `prefix` begins `s`.
#[verifier::external_body]
pub(crate) fn starts_with(s: &str, prefix: &str) -> (r: bool)
    ensures
        r == prefix@.is_prefix_of(s@),
{
    s.starts_with(prefix)
}

} // verus!
