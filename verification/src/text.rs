//! Text fields addressed by character offset.
//!
//! A caret position counts characters from the start of a field, never
//! bytes, so editing behaves the same for every script a name may be
//! written in.

use vstd::prelude::*;
use vstd::string::*;

verus! {

/// `String::push` of the standard library. Nothing is proved of it: the
/// contract says what its documentation says, that the character is
/// appended to the end of the string.
#[verifier::external_body]
fn push_char(s: &mut String, ch: char)
    ensures
        final(s)@ == old(s)@.push(ch),
{
    s.push(ch)
}

/// The file stem of a path, as `Path::file_stem` of the standard library
/// gives it: the last component of the path without its extension, and
/// nothing where the path ends in no file name.
pub uninterp spec fn path_file_stem(path: Seq<char>) -> Option<Seq<char>>;

/// `Path::file_stem` of the standard library, on a path given as text and
/// with the stem handed back as text. Nothing is proved of it: the contract
/// gives the result its name, and says that the call finds a stem exactly
/// where there is one.
#[verifier::external_body]
pub(crate) fn file_stem(path: &str) -> (stem: Option<String>)
    ensures
        match stem {
            Some(s) => path_file_stem(path@) == Some(s@),
            None => path_file_stem(path@) is None,
        },
{
    std::path::Path::new(path).file_stem().map(|s| s.to_string_lossy().into_owned())
}

/// The number of characters in `s`.
pub fn char_count(s: &String) -> (n: usize)
    ensures
        n == s@.len(),
{
    s.as_str().unicode_len()
}

/// A copy of `s` with `ch` placed so that it becomes the character at
/// offset `at`.
pub fn insert_char(s: &String, at: usize, ch: char) -> (out: String)
    requires
        at <= s@.len(),
    ensures
        out@ == s@.insert(at as int, ch),
{
    let n: usize = char_count(s);
    let mut out = String::from_str(s.as_str().substring_char(0, at));
    push_char(&mut out, ch);
    out.append(s.as_str().substring_char(at, n));
    assert(out@ =~= s@.insert(at as int, ch));
    out
}

/// A copy of `s` without the character at offset `at`.
pub fn remove_char(s: &String, at: usize) -> (out: String)
    requires
        at < s@.len(),
    ensures
        out@ == s@.remove(at as int),
{
    let n: usize = char_count(s);
    let mut out = String::from_str(s.as_str().substring_char(0, at));
    out.append(s.as_str().substring_char(at + 1, n));
    assert(out@ =~= s@.remove(at as int));
    out
}

} // verus!
