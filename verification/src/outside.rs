//! Calls into `rand`, `chrono` and the parts of the standard library that
//! the verifier has no specification for. Each contract here is taken on
//! trust from the documentation of the function that the body calls.

use crate::record::Timestamp;
use rand::Rng;
use vstd::prelude::*;

verus! {

/// An ASCII letter or digit.
pub open spec fn is_ascii_alphanumeric(c: char) -> bool {
    ('a' <= c && c <= 'z') || ('A' <= c && c <= 'Z') || ('0' <= c && c <= '9')
}

/// A text made of ASCII letters and digits only.
pub open spec fn all_ascii_alphanumeric(text: Seq<char>) -> bool {
    forall|i: int| 0 <= i < text.len() ==> is_ascii_alphanumeric(#[trigger] text[i])
}

/// The text that the standard library's `Debug` formatting gives for a
/// string: the string between double quotes, with its special characters
/// escaped.
pub uninterp spec fn debug_text(text: Seq<char>) -> Seq<char>;

/// The text that `String::from_utf8_lossy` reads out of bytes: the bytes
/// decoded as UTF-8, with a replacement character for what is not UTF-8.
pub uninterp spec fn lossy_text(bytes: Seq<u8>) -> Seq<char>;

/// The directory part of a path, as `std::path::Path::parent` reads it on the
/// platform that the crate is built for: the path without its last
/// component, and nothing for an empty path or one that ends in a root.
pub uninterp spec fn path_parent(path: Seq<char>) -> Option<Seq<char>>;

/// `rand::Rng::gen_range(0, bound)` on the generator of the current thread.
/// Trusted: the number lies at or above zero and below `bound`. Which number
/// comes is left open, and two calls may differ. `gen_range` panics on an
/// empty range, which the precondition excludes. The generator is seeded
/// from the operating system when a thread first asks for it, and `rand`
/// panics if the system has no seed to give.
#[verifier::external_body]
pub(crate) fn random_below(bound: usize) -> (n: usize)
    requires
        bound > 0,
    ensures
        n < bound,
{
    rand::thread_rng().gen_range(0, bound)
}

/// `rand::Rng::sample_iter` with the distribution `rand::distributions::Alphanumeric`
/// on the generator of the current thread, cut off after `count` characters.
/// Trusted: the text has `count` characters, each of them an ASCII letter or
/// digit. Which characters come is left open. The generator is the one of
/// `random_below`.
#[verifier::external_body]
pub(crate) fn random_alphanumeric(count: u8) -> (text: String)
    ensures
        text@.len() == count,
        all_ascii_alphanumeric(text@),
{
    rand::thread_rng().sample_iter(rand::distributions::Alphanumeric).take(count as usize).collect()
}

/// `chrono::Utc::now`, read out with `DateTime::timestamp` and
/// `DateTime::timestamp_subsec_nanos`. Trusted: the nanoseconds stay below
/// two seconds' worth, the range that chrono documents (values from one
/// second up stand for a leap second). The moment itself is left open.
/// `Utc::now` panics if the system clock stands before 1970.
#[verifier::external_body]
pub(crate) fn utc_now() -> (now: Timestamp)
    ensures
        now.nanos < 2_000_000_000,
{
    let now = chrono::Utc::now();
    Timestamp { secs: now.timestamp(), nanos: now.timestamp_subsec_nanos() }
}

/// The standard library's `Debug` formatting of a string. Trusted: the result
/// depends on the characters of `text` alone; it is named `debug_text` and
/// not spelled out.
#[verifier::external_body]
pub(crate) fn debug_quoted(text: &str) -> (quoted: String)
    ensures
        quoted@ == debug_text(text@),
{
    format!("{:?}", text)
}

/// `std::path::Path::parent`, from text to text. Trusted: the result depends
/// on the characters of `path` alone; it is named `path_parent` and not
/// spelled out.
#[verifier::external_body]
pub(crate) fn parent_of(path: &str) -> (parent: Option<String>)
    ensures
        match parent {
            Some(directory) => path_parent(path@) == Some(directory@),
            None => path_parent(path@) is None,
        },
{
    std::path::Path::new(path).parent().map(|directory| directory.to_string_lossy().into_owned())
}

/// `String::from_utf8_lossy`, made into an owned string. Trusted: the result
/// depends on the bytes alone; it is named `lossy_text` and not spelled out.
#[verifier::external_body]
pub(crate) fn decode_lossy(bytes: &Vec<u8>) -> (text: String)
    ensures
        text@ == lossy_text(bytes@),
{
    String::from_utf8_lossy(bytes).to_string()
}

} // verus!
