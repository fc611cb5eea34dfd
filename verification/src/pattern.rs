//! Regular expressions compiled once and matched many times, through the `regex` crate.

use vstd::prelude::*;

verus! {

#[verifier::external_type_specification]
#[verifier::external_body]
pub struct ExRegex(regex::Regex);

#[verifier::external_type_specification]
#[verifier::external_body]
pub struct ExRegexError(regex::Error);

/// Whether `regex::Regex::new` accepts the pattern.
pub uninterp spec fn regex_compiles(pattern: Seq<char>) -> bool;

/// Whether a regex compiled from `pattern` matches somewhere in `haystack`
/// (`regex::Regex::is_match`).
pub uninterp spec fn regex_matches(pattern: Seq<char>, haystack: Seq<char>) -> bool;

/// A compiled regular expression together with the pattern it was compiled from.
/// Its fields are private and only `compile_pattern` builds one, so the compiled
/// regex always stems from `source`.
#[derive(Debug)]
pub struct Pattern {
    source: String,
    regex: regex::Regex,
}

impl View for Pattern {
    type V = Seq<char>;

    closed spec fn view(&self) -> Seq<char> {
        self.source@
    }
}

/// Calls `regex::Regex::new`. It returns `Ok` exactly on the patterns that the
/// regex crate accepts, and the pattern is kept as the value's view.
#[verifier::external_body]
pub(crate) fn compile_pattern(source: &str) -> (r: Result<Pattern, regex::Error>)
    ensures
        r is Ok <==> regex_compiles(source@),
        r matches Ok(p) ==> p@ == source@,
{
    match regex::Regex::new(source) {
        Ok(regex) => Ok(Pattern { source: source.to_string(), regex }),
        Err(error) => Err(error),
    }
}

/// Calls `regex::Regex::is_match` on the pattern's compiled regex. The result is
/// whatever the regex crate decides for that pattern and haystack.
#[verifier::external_body]
pub(crate) fn pattern_is_match(pattern: &Pattern, haystack: &str) -> (r: bool)
    ensures
        r == regex_matches(pattern@, haystack@),
{
    pattern.regex.is_match(haystack)
}

/// Renders a `regex::Error` with its `Display` impl. What the text says is not stated.
#[verifier::external_body]
pub(crate) fn regex_error_message(error: &regex::Error) -> String {
    error.to_string()
}

impl Pattern {
    /// The pattern text this regex was compiled from.
    pub fn as_str(&self) -> (r: &str)
        ensures
            r@ == self@,
    {
        self.source.as_str()
    }
}

} // verus!
