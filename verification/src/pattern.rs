//! Regular expressions, as the `regex` crate compiles and runs them.
//!
//! What a pattern matches is the crate's business and is not restated here:
//! the contracts below give the outcome of compiling and of searching a name,
//! and the rest of the library is proved against those names.

use regex::Regex;
use vstd::prelude::*;

verus! {

#[verifier::external_type_specification]
#[verifier::external_body]
pub struct ExRegex(Regex);

#[verifier::external_type_specification]
#[verifier::external_body]
pub struct ExRegexError(regex::Error);

/// The matcher that `Regex::new` builds from `source`, or `None` where it
/// rejects the pattern.
pub uninterp spec fn compiled(source: Seq<char>) -> Option<Regex>;

/// Whether `Regex::is_match` finds a match of `re` anywhere in `text`.
pub uninterp spec fn pattern_matches(re: Regex, text: Seq<char>) -> bool;

/// The text of the first capture group in the leftmost match of `re` in
/// `text`, as `Regex::captures` and `Captures::get(1)` give it; `None` where
/// there is no match or the group took no part in it.
pub uninterp spec fn first_group(re: Regex, text: Seq<char>) -> Option<Seq<char>>;

/// `Regex::new`: compiles `source` with the crate's default options. The
/// outcome depends on the pattern text alone: a matcher for a pattern the
/// crate accepts, an error for one it rejects.
#[verifier::external_body]
pub(crate) fn compile(source: &str) -> (r: Result<Regex, regex::Error>)
    ensures
        match r {
            Ok(re) => compiled(source@) == Some(re),
            Err(_) => compiled(source@) is None,
        },
{
    Regex::new(source)
}

/// `Regex::is_match`: whether the pattern matches anywhere in `text`. It
/// searches from the start of the text, never panics, and its answer depends
/// on the matcher and the text alone.
#[verifier::external_body]
pub(crate) fn is_match(re: &Regex, text: &str) -> (b: bool)
    ensures
        b == pattern_matches(*re, text@),
{
    re.is_match(text)
}

/// `Regex::captures` followed by `Captures::get(1)`: the substring that the
/// first capture group took in the leftmost match, if any.
#[verifier::external_body]
pub(crate) fn capture_first(re: &Regex, text: &str) -> (r: Option<String>)
    ensures
        match r {
            Some(s) => first_group(*re, text@) == Some(s@),
            None => first_group(*re, text@) is None,
        },
{
    match re.captures(text) {
        Some(caps) => match caps.get(1) {
            Some(m) => Some(m.as_str().to_string()),
            None => None,
        },
        None => None,
    }
}

} // verus!
