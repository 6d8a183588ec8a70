//! The trusted boundary: every item here states a contract that is believed,
//! not proved. Each one stands for a single function of the standard library
//! or of an outside crate.

use std::fmt::Write;
use vstd::prelude::*;

verus! {

/// `String::push` appends one character to the end of the string.
pub assume_specification[ String::push ](s: &mut String, ch: char)
    ensures
        final(s)@ == old(s)@.push(ch),
;

/// `str`'s `==` holds exactly when both slices hold the same characters.
pub assume_specification[ <str as PartialEq>::eq ](a: &str, b: &str) -> (r: bool)
    ensures
        r == (a@ == b@),
;

/// The lowercase form that `str::to_lowercase` gives to a text. It follows the
/// Unicode lowercase mapping and depends on the characters alone.
pub uninterp spec fn lowercase_text(s: Seq<char>) -> Seq<char>;

/// `str::to_lowercase` returns the lowercase form of the slice as a new string.
pub assume_specification[ str::to_lowercase ](s: &str) -> (r: String)
    ensures
        r@ == lowercase_text(s@),
;

/// The text that `String::from_utf8_lossy` gives to a run of bytes: the bytes
/// read as UTF-8, with U+FFFD in place of what is not UTF-8.
pub uninterp spec fn lossy_text(bytes: Seq<u8>) -> Seq<char>;

/// Calls `String::from_utf8_lossy` and takes the result as an owned string.
/// The conversion never fails, and bytes that already are UTF-8 come out as
/// the characters they encode.
#[verifier::external_body]
pub(crate) fn decode_lossy(bytes: &[u8]) -> (text: String)
    ensures
        text@ == lossy_text(bytes@),
        vstd::utf8::valid_utf8(bytes@) ==> text@ == vstd::utf8::decode_utf8(bytes@),
{
    String::from_utf8_lossy(bytes).into_owned()
}

/// What `chrono` prints for the UTC instant `secs` seconds after the Unix
/// epoch under a strftime `pattern`. There is no text where the instant lies
/// outside the range that `chrono` represents or the pattern cannot be printed.
pub uninterp spec fn utc_text(secs: i64, pattern: Seq<char>) -> Option<Seq<char>>;

/// Calls `chrono::DateTime::format` with `pattern` on the UTC instant that
/// `chrono::DateTime::from_timestamp(secs, 0)` makes of `secs`, and collects
/// what it prints. An instant that `chrono` cannot make and a pattern that it
/// cannot print both give `None`. Nothing else is claimed of the text than
/// that it is a function of the two arguments.
#[verifier::external_body]
pub(crate) fn format_utc(secs: i64, pattern: &str) -> (text: Option<String>)
    ensures
        text.deep_view() == utc_text(secs, pattern@),
{
    let at = chrono::DateTime::from_timestamp(secs, 0)?;
    let mut out = String::new();
    match write!(out, "{}", at.format(pattern)) {
        Ok(()) => Some(out),
        Err(_) => None,
    }
}

/// Asks `dirs::home_dir` for the user's home directory and renders the path
/// as text. The answer depends on the machine and the environment, so
/// nothing is claimed of it.
#[verifier::external_body]
pub(crate) fn home_directory() -> Option<String> {
    match dirs::home_dir() {
        Some(path) => Some(path.to_string_lossy().into_owned()),
        None => None,
    }
}

/// Asks `std::path::Path::parent` for the path without its last component
/// and renders it as text. How a path is split depends on the platform, so
/// nothing is claimed of the answer.
#[verifier::external_body]
pub(crate) fn parent_directory(path: &str) -> Option<String> {
    match std::path::Path::new(path).parent() {
        Some(dir) => Some(dir.to_string_lossy().into_owned()),
        None => None,
    }
}

} // verus!
