//! Name patterns: regular expressions compiled once and tested against base names.
use vstd::prelude::*;

verus! {

/// Whether `regex::Regex::new` accepts the pattern `p` (its syntax is valid and
/// the compiled program stays within the default size limits).
pub uninterp spec fn regex_accepts(p: Seq<char>) -> bool;

/// Whether the regex compiled from pattern `p` finds a match anywhere in `text`.
pub uninterp spec fn regex_finds(p: Seq<char>, text: Seq<char>) -> bool;

#[verifier::external_type_specification]
#[verifier::external_body]
pub struct ExRegex(regex::Regex);

#[verifier::external_type_specification]
#[verifier::external_body]
pub struct ExRegexError(regex::Error);

/// Relies on `regex::Regex::new`: it returns `Ok` exactly for the patterns it
/// accepts, which depends on the pattern text alone.
#[verifier::external_body]
fn compile_regex(p: &str) -> (r: Result<regex::Regex, regex::Error>)
    ensures
        r is Ok <==> regex_accepts(p@),
{
    regex::Regex::new(p)
}

/// Relies on `regex::Error`'s `Display`: a human-readable account of why a
/// pattern was refused.
#[verifier::external_body]
fn regex_error_text(e: &regex::Error) -> String {
    e.to_string()
}

/// A pattern together with the regex compiled from it.
///
/// The fields are private: `re` is only ever the value that
/// `regex::Regex::new` built from `source`.
pub struct NamePattern {
    source: String,
    re: regex::Regex,
}

/// A pattern that could not be compiled.
pub struct PatternError {
    pub pattern: String,
    pub message: String,
}

/// Relies on `regex::Regex::is_match` on the regex that `regex::Regex::new`
/// built from `p.source`: an unanchored search of `text`.
#[verifier::external_body]
fn pattern_is_match(p: &NamePattern, text: &str) -> (r: bool)
    ensures
        r == regex_finds(p.source@, text@),
{
    p.re.is_match(text)
}

impl View for NamePattern {
    type V = Seq<char>;

    closed spec fn view(&self) -> Seq<char> {
        self.source@
    }
}

impl NamePattern {
    /// Compiles `source`; fails exactly when the regex engine refuses it.
    pub fn new(source: &str) -> (r: Result<NamePattern, PatternError>)
        ensures
            r is Ok <==> regex_accepts(source@),
            r matches Ok(p) ==> p@ == source@,
            r matches Err(e) ==> e.pattern@ == source@,
    {
        match compile_regex(source) {
            Ok(re) => Ok(NamePattern { source: source.to_owned(), re }),
            Err(e) => Err(PatternError { pattern: source.to_owned(), message: regex_error_text(&e) }),
        }
    }

    /// The text the pattern was compiled from.
    pub fn as_str(&self) -> (r: &str)
        ensures
            r@ == self@,
    {
        self.source.as_str()
    }

    /// Whether the pattern is found anywhere in `text`.
    pub fn is_match(&self, text: &str) -> (r: bool)
        ensures
            r == regex_finds(self@, text@),
    {
        pattern_is_match(self, text)
    }
}

} // verus!
