//! Regular expressions, compiled once and searched many times.
use vstd::prelude::*;

verus! {

#[verifier::external_type_specification]
#[verifier::external_body]
pub struct ExRegex(regex::Regex);

#[verifier::external_type_specification]
#[verifier::external_body]
pub struct ExRegexError(regex::Error);

/// Whether `pattern` is a regular expression that the regex crate accepts.
pub uninterp spec fn regex_compiles(pattern: Seq<char>) -> bool;

/// Whether `pattern` matches anywhere in `haystack` (an unanchored search).
pub uninterp spec fn regex_search(pattern: Seq<char>, haystack: Seq<char>) -> bool;

/// `haystack` with the leftmost-first match of `pattern` replaced by
/// `replacement`, in which `$name` and `${name}` stand for capture groups.
pub uninterp spec fn regex_replace_first(
    pattern: Seq<char>,
    haystack: Seq<char>,
    replacement: Seq<char>,
) -> Seq<char>;

/// `haystack` after one replacement: unchanged where `pattern` is not
/// found, else with its leftmost-first match replaced.
pub open spec fn replaced_first(pattern: Seq<char>, haystack: Seq<char>, replacement: Seq<char>) -> Seq<char> {
    if regex_search(pattern, haystack) {
        regex_replace_first(pattern, haystack, replacement)
    } else {
        haystack
    }
}

/// Relies on `regex::Regex::new`: it succeeds exactly on the patterns that
/// the crate accepts, which depends on the pattern alone.
#[verifier::external_body]
fn compile(pattern: &str) -> (r: Result<regex::Regex, regex::Error>)
    ensures
        r is Ok <==> regex_compiles(pattern@),
{
    regex::Regex::new(pattern)
}

/// A regular expression together with the text it was compiled from. The
/// fields are set together, in `new`, and never apart: the compiled form is
/// always that of `source`, which the contracts of the searching methods
/// rely on.
pub struct Pattern {
    source: String,
    regex: regex::Regex,
}

impl Pattern {
    /// The text this pattern was compiled from.
    pub closed spec fn source(&self) -> Seq<char> {
        self.source@
    }

    /// Compiles `pattern`; fails with the regex crate's error when it is not a
    /// valid regular expression.
    pub fn new(pattern: &str) -> (r: Result<Pattern, regex::Error>)
        ensures
            r is Ok <==> regex_compiles(pattern@),
            r matches Ok(p) ==> p.source() == pattern@,
    {
        match compile(pattern) {
            Ok(regex) => Ok(Pattern { source: pattern.to_string(), regex }),
            Err(e) => Err(e),
        }
    }

    /// The text this pattern was compiled from.
    pub fn as_str(&self) -> (r: &str)
        ensures
            r@ == self.source(),
    {
        self.source.as_str()
    }

    /// Relies on `regex::Regex::is_match`: whether the compiled pattern
    /// matches anywhere in `haystack`.
    #[verifier::external_body]
    pub(crate) fn is_match(&self, haystack: &str) -> (r: bool)
        ensures
            r == regex_search(self.source(), haystack@),
    {
        self.regex.is_match(haystack)
    }

    /// Relies on `regex::Regex::replace`: the leftmost-first match is replaced,
    /// with capture groups expanded; without a match the haystack comes back
    /// unchanged.
    #[verifier::external_body]
    pub(crate) fn replace_first(&self, haystack: &str, replacement: &str) -> (r: String)
        ensures
            regex_search(self.source(), haystack@) ==> r@ == regex_replace_first(
                self.source(),
                haystack@,
                replacement@,
            ),
            !regex_search(self.source(), haystack@) ==> r@ == haystack@,
    {
        self.regex.replace(haystack, replacement).into_owned()
    }
}

} // verus!
