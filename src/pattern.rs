//! Compiled search patterns, in regular-expression syntax.
use vstd::prelude::*;
use vstd::string::*;

verus! {

#[verifier::external_type_specification]
#[verifier::external_body]
pub struct ExRegex(regex::Regex);

/// Whether the regex crate accepts `source` as a pattern.
pub uninterp spec fn regex_compiles(source: Seq<char>) -> bool;

/// Whether the pattern compiled from `source` matches somewhere in `text`.
pub uninterp spec fn regex_is_match(source: Seq<char>, text: Seq<char>) -> bool;

/// The diagnostic that the regex crate writes for a rejected pattern.
pub uninterp spec fn regex_error_message(source: Seq<char>) -> Seq<char>;

/// Relies on `regex::Regex::new`: it succeeds exactly on the patterns that
/// the crate's syntax accepts; a rejection is handed back as the crate's
/// message for it, which depends on the pattern alone.
#[verifier::external_body]
fn compile_regex(source: &str) -> (r: Result<regex::Regex, String>)
    ensures
        r is Ok <==> regex_compiles(source@),
        r matches Err(m) ==> m@ == regex_error_message(source@),
{
    regex::Regex::new(source).map_err(|e| e.to_string())
}

/// Relies on `regex::Regex::is_match` of a regex that `Pattern::new` compiled
/// from `p.source`: whether it matches somewhere in `text`.
#[verifier::external_body]
fn regex_find(p: &Pattern, text: &str) -> (r: bool)
    ensures
        r == regex_is_match(p.source@, text@),
{
    p.regex.is_match(text)
}

/// The inline flag that makes the rest of a pattern ignore letter case.
pub const CASE_INSENSITIVE_FLAG: &'static str = "(?i)";

/// The pattern text that is compiled for a user pattern.
pub open spec fn effective_source(pattern: Seq<char>, case_insensitive: bool) -> Seq<char> {
    if case_insensitive {
        CASE_INSENSITIVE_FLAG@ + pattern
    } else {
        pattern
    }
}

/// A user pattern that failed to compile.
#[derive(Debug)]
pub enum PatternError {
    /// The pattern text that was compiled, and the regex crate's diagnostic.
    Invalid { source: String, message: String },
}

/// A compiled pattern. Its regex is always the one compiled from `source`.
pub struct Pattern {
    regex: regex::Regex,
    source: String,
}

/// The pattern text that is compiled for `pattern`: with the case-insensitive
/// flag in front when `case_insensitive` is set, else `pattern` itself.
pub fn effective_pattern(pattern: &str, case_insensitive: bool) -> (r: String)
    ensures
        r@ == effective_source(pattern@, case_insensitive),
{
    if case_insensitive {
        let mut s = String::from_str(CASE_INSENSITIVE_FLAG);
        s.append(pattern);
        s
    } else {
        pattern.to_string()
    }
}

impl Pattern {
    /// The pattern text this pattern was compiled from.
    pub closed spec fn source_view(&self) -> Seq<char> {
        self.source@
    }

    /// Compiles `pattern`, ignoring letter case when `case_insensitive` is
    /// set. Fails exactly when the regex crate rejects the effective pattern.
    pub fn new(pattern: &str, case_insensitive: bool) -> (r: Result<Pattern, PatternError>)
        ensures
            r is Ok <==> regex_compiles(effective_source(pattern@, case_insensitive)),
            r matches Ok(p) ==> p.source_view() == effective_source(pattern@, case_insensitive),
            r matches Err(PatternError::Invalid { source, message }) ==> {
                &&& source@ == effective_source(pattern@, case_insensitive)
                &&& message@ == regex_error_message(source@)
            },
    {
        let source = effective_pattern(pattern, case_insensitive);
        match compile_regex(source.as_str()) {
            Ok(regex) => Ok(Pattern { regex, source }),
            Err(message) => Err(PatternError::Invalid { source, message }),
        }
    }

    /// The pattern text this pattern was compiled from.
    pub fn as_str(&self) -> (r: &str)
        ensures
            r@ == self.source_view(),
    {
        self.source.as_str()
    }

    /// Whether the pattern matches somewhere in `text`.
    pub fn is_match(&self, text: &str) -> (r: bool)
        ensures
            r == regex_is_match(self.source_view(), text@),
    {
        regex_find(self, text)
    }
}

} // verus!
