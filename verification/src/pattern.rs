//! Key-code patterns, backed by the regex crate.
//!
//! A [`KeyPattern`] pairs a compiled regular expression with the
//! pattern text it was compiled from; the text is the value the
//! contracts speak about. Both fields are private and every
//! constructor in this module compiles the stored text itself, so a
//! value always carries the expression of its own source.

use vstd::prelude::*;

use crate::errors::KeyboardError;

verus! {

#[verifier::external_type_specification]
#[verifier::external_body]
pub struct ExRegex(regex::Regex);

/// Whether the pattern `pattern`, compiled by the regex crate, finds
/// a match anywhere in `text` (the search is not anchored).
pub uninterp spec fn regex_match(pattern: Seq<char>, text: Seq<char>) -> bool;

/// Whether the regex crate accepts `pattern` as a regular
/// expression: compilation succeeds or fails on the pattern text
/// alone.
pub uninterp spec fn regex_compiles(pattern: Seq<char>) -> bool;

/// A key-code pattern: a compiled regular expression together with
/// its source text.
pub struct KeyPattern {
    source: String,
    regex: regex::Regex,
}

impl KeyPattern {
    /// The pattern text this value was compiled from.
    pub closed spec fn src(self) -> Seq<char> {
        self.source@
    }

    /// Relies on `regex::Regex::new`: compiles `pattern`, succeeding
    /// exactly on valid pattern syntax and reporting everything else
    /// as an error.
    #[verifier::external_body]
    fn compile(pattern: &str) -> (result: Result<KeyPattern, String>)
        ensures
            result is Ok <==> regex_compiles(pattern@),
            result matches Ok(p) ==> p.src() == pattern@,
    {
        match regex::Regex::new(pattern) {
            Ok(regex) => Ok(KeyPattern { source: pattern.to_string(), regex }),
            Err(e) => Err(format!("{}", e)),
        }
    }

    /// Compiles `pattern`; an invalid pattern is reported as a
    /// [`KeyboardError::Regex`] error at load time, never at event
    /// time.
    pub fn new(pattern: &str) -> (result: Result<KeyPattern, KeyboardError>)
        ensures
            result is Ok <==> regex_compiles(pattern@),
            result matches Ok(p) ==> p.src() == pattern@,
            result matches Err(e) ==> e matches KeyboardError::Regex(_),
    {
        match Self::compile(pattern) {
            Ok(p) => Ok(p),
            Err(message) => Err(KeyboardError::Regex(message)),
        }
    }

    /// Relies on `regex::Regex::new`: `.*` is valid pattern syntax,
    /// and an unanchored search with it succeeds on every text, since
    /// it matches the empty string at the first position.
    #[verifier::external_body]
    pub fn match_all() -> (p: KeyPattern)
        ensures
            p.src() == ".*"@,
            forall|text: Seq<char>| regex_match(p.src(), text),
    {
        KeyPattern {
            source: ".*".to_string(),
            regex: regex::Regex::new(".*").unwrap(),
        }
    }

    /// Relies on `regex::Regex::is_match`: searches for a match of
    /// the compiled pattern anywhere in `text`.
    #[verifier::external_body]
    pub fn is_match(&self, text: &str) -> (matched: bool)
        ensures
            matched == regex_match(self.src(), text@),
    {
        self.regex.is_match(text)
    }
}

} // verus!
