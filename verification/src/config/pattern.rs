//! Regular expressions, as far as the rules need them.
//!
//! Patterns are compiled and matched by the `regex` crate. What it answers is
//! taken on trust here and given a name, so that the contracts of the rest of
//! the crate can speak of it.

use regex::Regex;
use vstd::prelude::*;

verus! {

#[verifier::external_type_specification]
#[verifier::external_body]
pub struct ExRegex(regex::Regex);

#[verifier::external_type_specification]
#[verifier::external_body]
pub struct ExRegexError(regex::Error);

/// What `Regex::new` returns for `pattern`.
pub uninterp spec fn compiled(pattern: Seq<char>) -> Result<Regex, regex::Error>;

/// Whether the regular expression compiled from `pattern` matches somewhere
/// in `text`: what `Regex::is_match` returns.
pub uninterp spec fn pattern_matches(pattern: Seq<char>, text: Seq<char>) -> bool;

/// Whether `pattern` is a regular expression that the `regex` crate accepts.
pub open spec fn compiles(pattern: Seq<char>) -> bool {
    compiled(pattern) is Ok
}

/// `Regex::new` builds the expression with the crate's default settings, so
/// its outcome is fixed by the pattern alone.
pub assume_specification[ Regex::new ](re: &str) -> (outcome: Result<Regex, regex::Error>)
    ensures
        outcome == compiled(re@),
;

/// A clone of a `Regex` is the same expression.
pub assume_specification[ <Regex as Clone>::clone ](regex: &Regex) -> (copy: Regex)
    ensures
        copy == *regex,
;

/// `Regex::is_match`: whether `regex` matches anywhere in `text`. The
/// expression has to be the one that `pattern` compiles to; the answer is then
/// fixed by `pattern` and `text`.
#[verifier::external_body]
pub(crate) fn regex_is_match(regex: &Regex, pattern: &str, text: &str) -> (matched: bool)
    requires
        compiled(pattern@) == Ok::<Regex, regex::Error>(*regex),
    ensures
        matched == pattern_matches(pattern@, text@),
{
    regex.is_match(text)
}

/// The message that `regex::Error` displays.
#[verifier::external_body]
pub(crate) fn regex_error_text(error: &regex::Error) -> (text: String) {
    error.to_string()
}

} // verus!
