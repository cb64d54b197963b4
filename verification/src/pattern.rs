//! The pattern that window names are tested against. Compiling and matching
//! are the work of the `regex` crate; nothing of either is proved here.

use vstd::prelude::*;

verus! {

#[verifier::external_type_specification]
#[verifier::external_body]
pub struct ExRegex(regex::Regex);

#[verifier::external_type_specification]
#[verifier::external_body]
pub struct ExRegexError(regex::Error);

/// Whether `regex::Regex::new` accepts the pattern text.
pub uninterp spec fn pattern_compiles(pattern: Seq<char>) -> bool;

/// The pattern text that `regex::Regex::as_str` gives back.
pub uninterp spec fn regex_source(re: regex::Regex) -> Seq<char>;

/// Whether `regex::Regex::is_match` finds a match anywhere in the text.
pub uninterp spec fn regex_accepts(re: regex::Regex, text: Seq<char>) -> bool;

/// Calls `regex::Regex::new`. It succeeds on the patterns that
/// `pattern_compiles` names, and the expression it gives keeps the pattern
/// text as its source.
#[verifier::external_body]
fn compile(pattern: &str) -> (r: Result<regex::Regex, regex::Error>)
    ensures
        r is Ok == pattern_compiles(pattern@),
        r matches Ok(re) ==> regex_source(re) == pattern@,
{
    regex::Regex::new(pattern)
}

/// Calls `regex::Regex::as_str`, which gives the source of the expression.
#[verifier::external_body]
fn source(re: &regex::Regex) -> (text: &str)
    ensures
        text@ == regex_source(*re),
{
    re.as_str()
}

/// Calls `regex::Regex::is_match`; the answer is the one that `regex_accepts`
/// names.
#[verifier::external_body]
fn is_match(re: &regex::Regex, text: &str) -> (found: bool)
    ensures
        found == regex_accepts(*re, text@),
{
    re.is_match(text)
}

/// Renders a `regex::Error` as text, as its `Display` does. Nothing is claimed
/// of the text.
#[verifier::external_body]
fn describe(error: &regex::Error) -> String {
    error.to_string()
}

/// A pattern that the `regex` crate refused, with the crate's own account of
/// the reason.
#[derive(Debug)]
pub struct InvalidPattern {
    pub message: String,
}

/// A compiled pattern for window names.
pub struct NamePattern {
    regex: regex::Regex,
}

impl NamePattern {
    /// The text that the pattern was compiled from.
    pub closed spec fn spec_source(&self) -> Seq<char> {
        regex_source(self.regex)
    }

    /// Whether the pattern matches somewhere in `name`.
    pub closed spec fn accepts(&self, name: Seq<char>) -> bool {
        regex_accepts(self.regex, name)
    }

    /// Compiles `pattern`, or reports that it cannot be compiled.
    pub fn new(pattern: &str) -> (r: Result<NamePattern, InvalidPattern>)
        ensures
            r is Ok == pattern_compiles(pattern@),
            r matches Ok(p) ==> p.spec_source() == pattern@,
    {
        match compile(pattern) {
            Ok(regex) => Ok(NamePattern { regex }),
            Err(error) => Err(InvalidPattern { message: describe(&error) }),
        }
    }

    /// The text that the pattern was compiled from.
    pub fn source(&self) -> (text: &str)
        ensures
            text@ == self.spec_source(),
    {
        source(&self.regex)
    }

    /// Tests a window name against the pattern.
    pub fn matches(&self, name: &str) -> (found: bool)
        ensures
            found == self.accepts(name@),
    {
        is_match(&self.regex, name)
    }
}

} // verus!
