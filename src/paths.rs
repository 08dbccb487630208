//! Windows path spellings: the extended-length form, and the plain form that
//! git expects, and the decoding of the UTF-16 text that Windows hands
//! out. Paths are handled as their text.
use vstd::prelude::*;
use crate::text::starts_with;

verus! {

/// The marker of an extended-length path.
pub const LONG_PATH_PREFIX: &'static str = r"\\\\?\";

pub open spec fn is_separator(c: char) -> bool {
    c == '\\' || c == '/'
}

pub open spec fn is_ascii_letter(c: char) -> bool {
    (65 <= (c as u32) && (c as u32) <= 90) || (97 <= (c as u32) && (c as u32) <= 122)
}

/// An absolute Windows path: a drive letter, a colon and a separator, or two
/// leading separators (a network or device path).
pub open spec fn is_absolute_path(s: Seq<char>) -> bool {
    (s.len() >= 3 && is_ascii_letter(s[0]) && s[1] == ':' && is_separator(s[2])) || (s.len() >= 2
        && is_separator(s[0]) && is_separator(s[1]))
}

/// The extended-length spelling of a path: relative paths and paths that
/// already carry the marker stay as they are, other absolute paths get the
/// marker in front.
pub open spec fn long_path(s: Seq<char>) -> Seq<char> {
    if !is_absolute_path(s) || LONG_PATH_PREFIX@.is_prefix_of(s) {
        s
    } else {
        LONG_PATH_PREFIX@ + s
    }
}

fn is_separator_char(c: char) -> (r: bool)
    ensures
        r == is_separator(c),
{
    c == '\\' || c == '/'
}

fn is_absolute(path: &str) -> (r: bool)
    ensures
        r == is_absolute_path(path@),
{
    let n = path.unicode_len();
    if n >= 3 {
        let c0 = path.get_char(0);
        let c1 = path.get_char(1);
        let c2 = path.get_char(2);
        let letter = ('A' <= c0 && c0 <= 'Z') || ('a' <= c0 && c0 <= 'z');
        if letter && c1 == ':' && is_separator_char(c2) {
            return true;
        }
    }
    n >= 2 && is_separator_char(path.get_char(0)) && is_separator_char(path.get_char(1))
}

/// The extended-length spelling of `path`.
pub fn to_win_long_path(path: &str) -> (r: String)
    ensures
        r@ == long_path(path@),
{
    if !is_absolute(path) {
        return String::from_str(path);
    }
    if starts_with(path, LONG_PATH_PREFIX) {
        String::from_str(path)
    } else {
        let mut long = String::from_str(LONG_PATH_PREFIX);
        long.append(path);
        long
    }
}

/// The number of backslashes in `s` from index `i` on, up to the first other
/// character.
pub open spec fn backslash_run(s: Seq<char>, i: int) -> int
    decreases s.len() - i,
{
    if 0 <= i < s.len() && s[i] == '\\' {
        1 + backslash_run(s, i + 1)
    } else {
        0
    }
}

/// The plain spelling of a path for git: a leading verbatim marker (at
/// least two backslashes, a question mark, then backslashes) is removed;
/// anything else stays as it is.
pub open spec fn git_path(s: Seq<char>) -> Seq<char> {
    let k = backslash_run(s, 0);
    let m = backslash_run(s, k + 1);
    if k >= 2 && k < s.len() && s[k] == '?' && m >= 1 {
        s.subrange(k + 1 + m, s.len() as int)
    } else {
        s
    }
}

proof fn lemma_backslash_run_bounds(s: Seq<char>, i: int)
    requires
        0 <= i,
    ensures
        0 <= backslash_run(s, i),
        i < s.len() ==> i + backslash_run(s, i) <= s.len(),
        i >= s.len() ==> backslash_run(s, i) == 0,
    decreases s.len() - i,
{
    if 0 <= i < s.len() && s[i] == '\\' {
        lemma_backslash_run_bounds(s, i + 1);
    }
}

/// The end of the run of backslashes of `path` that starts at `i`.
fn skip_backslashes(path: &str, n: usize, i: usize) -> (r: usize)
    requires
        n == path@.len(),
        i <= n,
    ensures
        r == i + backslash_run(path@, i as int),
        r <= n,
{
    let mut j = i;
    proof {
        lemma_backslash_run_bounds(path@, i as int);
    }
    while j < n && path.get_char(j) == '\\'
        invariant
            i <= j <= n,
            n == path@.len(),
            j + backslash_run(path@, j as int) == i + backslash_run(path@, i as int),
        decreases n - j,
    {
        j = j + 1;
    }
    j
}

/// The spelling of `path` that git expects.
pub fn normalize_path_for_git(path: &str) -> (r: String)
    ensures
        r@ == git_path(path@),
{
    let n = path.unicode_len();
    let k = skip_backslashes(path, n, 0);
    if k >= 2 && k < n && path.get_char(k) == '?' {
        let end = skip_backslashes(path, n, k + 1);
        if end > k + 1 {
            return String::from_str(path.substring_char(end, n));
        }
    }
    String::from_str(path)
}

pub open spec fn is_high_surrogate(u: u16) -> bool {
    0xd800 <= u && u <= 0xdbff
}

pub open spec fn is_low_surrogate(u: u16) -> bool {
    0xdc00 <= u && u <= 0xdfff
}

/// The code points that UTF-16 `units` encode: a high surrogate followed by
/// a low one encodes one supplementary code point, any other non-surrogate
/// unit itself; an unpaired surrogate makes the text invalid (`None`).
pub open spec fn utf16_scalars(units: Seq<u16>) -> Option<Seq<u32>>
    decreases units.len(),
{
    if units.len() == 0 {
        Some(Seq::empty())
    } else if units.len() >= 2 && is_high_surrogate(units[0]) && is_low_surrogate(units[1]) {
        match utf16_scalars(units.subrange(2, units.len() as int)) {
            Some(rest) => Some(
                seq![(0x10000 + (units[0] - 0xd800) * 0x400 + (units[1] - 0xdc00)) as u32] + rest,
            ),
            None => None,
        }
    } else if is_high_surrogate(units[0]) || is_low_surrogate(units[0]) {
        None
    } else {
        match utf16_scalars(units.subrange(1, units.len() as int)) {
            Some(rest) => Some(seq![units[0] as u32] + rest),
            None => None,
        }
    }
}

/// Relies on `String::from_utf16`: decodes UTF-16, and fails on an unpaired
/// surrogate.
#[verifier::external_body]
fn decode_utf16_units(units: &[u16]) -> (r: Option<String>)
    ensures
        r is Some <==> utf16_scalars(units@) is Some,
        r matches Some(s) ==> s@.map_values(|c: char| c as u32) == utf16_scalars(units@)->Some_0,
{
    String::from_utf16(units).ok()
}

/// UTF-16 text with an unpaired surrogate.
#[derive(Clone, Copy, Debug, PartialEq, Eq, Structural)]
pub enum Utf16Error {
    InvalidUtf16,
}

/// The text that the UTF-16 `units` encode; an unpaired surrogate is an
/// error.
pub fn normalize_utf16(units: &[u16]) -> (r: Result<String, Utf16Error>)
    ensures
        utf16_scalars(units@) is None ==> r == Err::<String, Utf16Error>(Utf16Error::InvalidUtf16),
        utf16_scalars(units@) matches Some(points) ==> (r matches Ok(s) && s@.map_values(
            |c: char| c as u32,
        ) == points),
{
    match decode_utf16_units(units) {
        Some(text) => Ok(text),
        None => Err(Utf16Error::InvalidUtf16),
    }
}

} // verus!
