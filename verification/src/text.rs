//! Small text and path operations.

use std::path::Path;
use vstd::prelude::*;

verus! {

/// What `str::to_lowercase` gives back for `s`.
pub uninterp spec fn lowercase(s: Seq<char>) -> Seq<char>;

/// What `String::from_utf8_lossy` gives back for `bytes`.
pub uninterp spec fn utf8_lossy(bytes: Seq<u8>) -> Seq<char>;

/// The text of `Path::new(dir).join(name)`.
pub uninterp spec fn joined_path(dir: Seq<char>, name: Seq<char>) -> Seq<char>;

/// The text of `Path::new(path).with_extension(ext)`.
pub uninterp spec fn path_with_extension(path: Seq<char>, ext: Seq<char>) -> Seq<char>;

/// The `Debug` text of `Path::new(path)`.
pub uninterp spec fn path_debug(path: Seq<char>) -> Seq<char>;

/// `c` with an ASCII capital letter turned into its small letter.
pub open spec fn ascii_lower_char(c: char) -> char {
    if 'A' <= c && c <= 'Z' {
        ((c as u32) + 32) as char
    } else {
        c
    }
}

/// `s` with every ASCII capital letter turned into its small letter.
pub open spec fn ascii_lower(s: Seq<char>) -> Seq<char> {
    s.map_values(|c: char| ascii_lower_char(c))
}

/// Whether every character of `s` is ASCII.
pub open spec fn is_ascii_text(s: Seq<char>) -> bool {
    forall|i: int| 0 <= i < s.len() ==> (#[trigger] s[i] as u32) < 128
}

/// `str::to_lowercase`. Trusted: the result is named `lowercase` of the argument, and, as the
/// documentation's Unicode lowercase mapping gives for ASCII, an ASCII text has each capital
/// letter replaced by its small letter and nothing else changed.
#[verifier::external_body]
pub(crate) fn to_lowercase(s: &str) -> (r: String)
    ensures
        r@ == lowercase(s@),
        is_ascii_text(s@) ==> r@ == ascii_lower(s@),
{
    s.to_lowercase()
}

/// `String::from_utf8_lossy`. Trusted: the result is named `utf8_lossy` of the bytes, and, as
/// the documentation says, valid UTF-8 is decoded unchanged.
#[verifier::external_body]
pub(crate) fn from_utf8_lossy(bytes: &[u8]) -> (r: String)
    ensures
        r@ == utf8_lossy(bytes@),
        vstd::utf8::valid_utf8(bytes@) ==> r@ == vstd::utf8::decode_utf8(bytes@),
{
    String::from_utf8_lossy(bytes).into_owned()
}

/// `Path::join`, read back as text. Trusted: the result is named `joined_path` of the arguments.
#[verifier::external_body]
pub(crate) fn join_path(dir: &str, name: &str) -> (r: String)
    ensures
        r@ == joined_path(dir@, name@),
{
    Path::new(dir).join(name).to_string_lossy().into_owned()
}

/// `Path::with_extension`, read back as text. Trusted: the result is named
/// `path_with_extension` of the arguments. The extension holds no path separator, on which
/// `PathBuf::set_extension` panics.
#[verifier::external_body]
pub(crate) fn with_extension(path: &str, ext: &str) -> (r: String)
    requires
        forall|i: int| 0 <= i < ext@.len() ==> #[trigger] ext@[i] != '/' && ext@[i] != '\\',
    ensures
        r@ == path_with_extension(path@, ext@),
{
    Path::new(path).with_extension(ext).to_string_lossy().into_owned()
}

/// The `Debug` formatting of a path. Trusted: the result is named `path_debug` of the argument.
#[verifier::external_body]
pub(crate) fn debug_path(path: &str) -> (r: String)
    ensures
        r@ == path_debug(path@),
{
    format!("{:?}", Path::new(path))
}

/// `Path::exists`. Trusted to return; the answer depends on the file system, and nothing is
/// stated of it.
#[verifier::external_body]
pub(crate) fn path_exists(path: &str) -> (r: bool) {
    Path::new(path).exists()
}

/// Whether `s` and `t` are the same text.
pub fn same_text(s: &str, t: &str) -> (r: bool)
    ensures
        r == (s@ == t@),
{
    let a = String::from_str(s);
    let b = String::from_str(t);
    a == b
}

/// Whether `s` begins with `prefix`.
pub open spec fn starts_with(s: Seq<char>, prefix: Seq<char>) -> bool {
    prefix.len() <= s.len() && s.subrange(0, prefix.len() as int) == prefix
}

/// Whether `part` occurs somewhere in `s`.
pub open spec fn contains_text(s: Seq<char>, part: Seq<char>) -> bool {
    exists|i: int| 0 <= i && i + part.len() <= s.len() && #[trigger] s.subrange(i, i + part.len()) == part
}

/// Whether `s` begins with `prefix`.
pub fn has_prefix(s: &str, prefix: &str) -> (r: bool)
    ensures
        r == starts_with(s@, prefix@),
{
    let n = s.unicode_len();
    let m = prefix.unicode_len();
    if m > n {
        return false;
    }
    let mut i: usize = 0;
    while i < m
        invariant
            n == s@.len(),
            m == prefix@.len(),
            m <= n,
            i <= m,
            forall|j: int| 0 <= j < i ==> s@[j] == prefix@[j],
        decreases m - i,
    {
        if s.get_char(i) != prefix.get_char(i) {
            assert(s@.subrange(0, m as int)[i as int] != prefix@[i as int]);
            return false;
        }
        i = i + 1;
    }
    assert(s@.subrange(0, m as int) =~= prefix@);
    true
}

/// Whether `part` occurs in `s` starting at character `at`.
fn occurs_at(s: &str, part: &str, at: usize) -> (r: bool)
    requires
        at + part@.len() <= s@.len(),
        s@.len() <= usize::MAX,
    ensures
        r == (s@.subrange(at as int, at + part@.len()) == part@),
{
    let m = part.unicode_len();
    let mut i: usize = 0;
    while i < m
        invariant
            m == part@.len(),
            at + m <= s@.len(),
            s@.len() <= usize::MAX,
            i <= m,
            forall|j: int| 0 <= j < i ==> s@[at + j] == part@[j],
        decreases m - i,
    {
        if s.get_char(at + i) != part.get_char(i) {
            assert(s@.subrange(at as int, at + m)[i as int] != part@[i as int]);
            return false;
        }
        i = i + 1;
    }
    assert(s@.subrange(at as int, at + m) =~= part@);
    true
}

/// Whether `part` occurs somewhere in `s`.
pub fn has_text(s: &str, part: &str) -> (r: bool)
    ensures
        r == contains_text(s@, part@),
{
    let n = s.unicode_len();
    let m = part.unicode_len();
    if m > n {
        return false;
    }
    if m == 0 {
        assert(s@.subrange(0int, 0int + part@.len()) =~= part@);
        return true;
    }
    let last = n - m;
    let mut at: usize = 0;
    while at <= last
        invariant
            n == s@.len(),
            m == part@.len(),
            last == n - m,
            m >= 1,
            at <= last + 1,
            forall|k: int| 0 <= k < at ==> #[trigger] s@.subrange(k, k + m) != part@,
        decreases last + 1 - at,
    {
        if occurs_at(s, part, at) {
            return true;
        }
        at = at + 1;
    }
    false
}

/// `first` followed by `second`.
pub fn concat(first: &str, second: &str) -> (r: String)
    ensures
        r@ == first@ + second@,
{
    let mut out = String::from_str(first);
    out.append(second);
    out
}

} // verus!
