//! Compiled search patterns, and the patterns of the two configuration
//! dialects.
//!
//! Searching is done by the `regex` crate. Its compiled `Regex` is carried
//! through as an opaque value. Which texts compile and what a search finds
//! are known to the proofs only under the names [`regex_accepts`],
//! [`regex_is_match`] and [`regex_group`].

use regex::Regex;
use vstd::prelude::*;

verus! {

/// `regex::Regex`, a compiled pattern. Nothing inside it is visible here.
#[verifier::external_type_specification]
#[verifier::external_body]
pub struct ExRegex(regex::Regex);

/// `regex::Error`, the compiler's refusal. Nothing inside it is visible here.
#[verifier::external_type_specification]
#[verifier::external_body]
pub struct ExRegexError(regex::Error);

/// The pattern text that `re` was compiled from, as `Regex::as_str` reports it.
pub uninterp spec fn regex_text(re: Regex) -> Seq<char>;

/// Whether `re` matches anywhere in `haystack`, as `Regex::is_match` reports it.
pub uninterp spec fn regex_is_match(re: Regex, haystack: Seq<char>) -> bool;

/// What capture group `index` holds in the leftmost match of `re` in
/// `haystack`, as `Regex::captures` reports it: `None` when `re` matches
/// nowhere, `Some(None)` when it matches but the pattern has no such group or
/// the group took no part in the match, `Some(Some(text))` with the group's
/// text otherwise.
pub uninterp spec fn regex_group(re: Regex, haystack: Seq<char>, index: int) -> Option<
    Option<Seq<char>>,
>;

/// Whether `Regex::new` accepts `text`: its syntax is valid and the program
/// compiled from it stays within the default size limit. Both depend on the
/// text alone.
pub uninterp spec fn regex_accepts(text: Seq<char>) -> bool;

/// Calls `Regex::new`. A regex comes back exactly for the texts that the
/// compiler accepts, which are known here only as [`regex_accepts`]; it keeps
/// `text` as its pattern text.
#[verifier::external_body]
pub(crate) fn compile(text: &str) -> (outcome: Result<Regex, regex::Error>)
    ensures
        outcome is Ok <==> regex_accepts(text@),
        outcome matches Ok(re) ==> regex_text(re) == text@,
{
    Regex::new(text)
}

/// Renders a `regex::Error` through its `Display` impl. Nothing is claimed
/// about the wording.
#[verifier::external_body]
pub(crate) fn error_reason(error: &regex::Error) -> String {
    error.to_string()
}

/// Calls `Regex::is_match`, which searches the whole haystack from its start
/// and does not panic.
#[verifier::external_body]
pub(crate) fn is_match(re: &Regex, haystack: &str) -> (found: bool)
    ensures
        found == regex_is_match(*re, haystack@),
{
    re.is_match(haystack)
}

/// Calls `Regex::captures` and copies out the text of group `index` with
/// `Captures::get`, which answers `None` for a group that is absent or unset
/// where indexing would panic.
#[verifier::external_body]
pub(crate) fn group(re: &Regex, haystack: &str, index: usize) -> (found: Option<Option<String>>)
    ensures
        found.deep_view() == regex_group(*re, haystack@, index as int),
{
    match re.captures(haystack) {
        None => None,
        Some(captures) => match captures.get(index) {
            None => Some(None),
            Some(part) => Some(Some(part.as_str().to_string())),
        },
    }
}

/// A pattern text that could not be compiled.
#[derive(Debug, Clone, PartialEq, Eq)]
pub struct PatternError {
    /// The text that was refused.
    pub pattern: String,
    /// The compiler's explanation.
    pub reason: String,
}

/// Whether `outcome` speaks of `text`: a regex whose pattern text is `text`,
/// or an error that names `text`.
pub open spec fn compiled_from(outcome: Result<Regex, PatternError>, text: Seq<char>) -> bool {
    match outcome {
        Ok(re) => regex_text(re) == text,
        Err(error) => error.pattern@ == text,
    }
}

/// Turns the compiler's answer for `text` into this library's: a regex is
/// passed on as it is, an error is replaced by a [`PatternError`] that names
/// `text`.
pub fn pattern_outcome(text: &str, outcome: Result<Regex, regex::Error>) -> (mapped: Result<
    Regex,
    PatternError,
>)
    ensures
        match outcome {
            Ok(re) => mapped == Ok::<Regex, PatternError>(re),
            Err(_) => mapped matches Err(error) && error.pattern@ == text@,
        },
{
    match outcome {
        Ok(re) => Ok(re),
        Err(error) => Err(PatternError { pattern: text.to_owned(), reason: error_reason(&error) }),
    }
}

/// Compiles `text` into a regex. It succeeds exactly where the compiler
/// accepts `text`.
pub fn compile_pattern(text: &str) -> (compiled: Result<Regex, PatternError>)
    ensures
        compiled is Ok <==> regex_accepts(text@),
        compiled_from(compiled, text@),
{
    pattern_outcome(text, compile(text))
}

} // verus!
