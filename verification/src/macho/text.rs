//! Where text is made by code that is not verified here: the decoding of
//! UTF-8 by the standard library, and the matching of regular expressions
//! by the regex crate. Each item says what is taken on trust.

use vstd::prelude::*;
use vstd::utf8::{decode_utf8, valid_utf8};

verus! {

/// The text that lossy UTF-8 decoding makes of a byte string: the text
/// itself where the bytes are valid UTF-8, and otherwise the text in which
/// U+FFFD stands for each ill-formed stretch.
pub uninterp spec fn utf8_lossy(bytes: Seq<u8>) -> Seq<char>;

/// Decodes bytes with `String::from_utf8_lossy`. The text is the one that
/// `utf8_lossy` names: it depends on the bytes alone. Bytes that are valid
/// UTF-8 give the text that they encode, unchanged.
#[verifier::external_body]
pub(crate) fn string_from_utf8_lossy(bytes: &[u8]) -> (text: String)
    ensures
        text@ == utf8_lossy(bytes@),
        valid_utf8(bytes@) ==> text@ == decode_utf8(bytes@),
{
    String::from_utf8_lossy(bytes).into_owned()
}

/// Reads bytes as text with `std::str::from_utf8`: there is text exactly
/// where the bytes are valid UTF-8, and it is the text that they encode.
#[verifier::external_body]
pub(crate) fn str_from_utf8(bytes: &[u8]) -> (text: Option<&str>)
    ensures
        text is Some <==> valid_utf8(bytes@),
        text is Some ==> text->Some_0@ == decode_utf8(bytes@),
{
    std::str::from_utf8(bytes).ok()
}

/// `String::push` appends one character to the text.
pub assume_specification[ String::push ](s: &mut String, c: char)
    ensures
        final(s)@ == old(s)@.push(c),
;

/// Whether the regular expression written as `pattern` matches somewhere in
/// `haystack`.
pub uninterp spec fn regex_matches(pattern: Seq<char>, haystack: Seq<char>) -> bool;

/// A regular expression that was compiled, together with the text that it
/// was compiled from.
pub struct CompiledPattern {
    regex: regex::Regex,
    source: String,
}

impl View for CompiledPattern {
    type V = Seq<char>;

    /// The text of the pattern.
    closed spec fn view(&self) -> Seq<char> {
        self.source@
    }
}

/// `regex::Regex`, a compiled regular expression. Nothing inside it is
/// looked at here.
#[verifier::external_type_specification]
#[verifier::external_body]
pub struct ExRegex(regex::Regex);

/// `regex::Error`, what the regex crate returns for a pattern that it
/// cannot compile.
#[verifier::external_type_specification]
#[verifier::external_body]
pub struct ExRegexError(regex::Error);

/// Why a pattern could not be used.
#[derive(Debug, Clone, PartialEq, Eq)]
pub enum PatternError {
    /// The pattern is not a regular expression; the text says why.
    Syntax(String),
    /// The compiled pattern would be larger than the limit, which is given.
    CompiledTooBig(usize),
    /// The regex crate gave a reason that has no name here.
    Other,
}

/// Compiles a pattern with `regex::Regex::new`. Whether a pattern compiles
/// is for the regex crate to say; one that does is kept with its text.
#[verifier::external_body]
fn compile_pattern(pattern: &str) -> (r: Result<CompiledPattern, regex::Error>)
    ensures
        r is Ok ==> r->Ok_0@ == pattern@,
{
    match regex::Regex::new(pattern) {
        Ok(regex) => Ok(CompiledPattern { regex, source: pattern.to_owned() }),
        Err(e) => Err(e),
    }
}

/// Tells the variants of `regex::Error` apart.
#[verifier::external_body]
fn pattern_error_of(e: regex::Error) -> (err: PatternError) {
    match e {
        regex::Error::Syntax(message) => PatternError::Syntax(message),
        regex::Error::CompiledTooBig(limit) => PatternError::CompiledTooBig(limit),
        _ => PatternError::Other,
    }
}

/// Asks `regex::Regex::is_match` whether the pattern matches somewhere in
/// `haystack`.
#[verifier::external_body]
pub(crate) fn pattern_is_match(pattern: &CompiledPattern, haystack: &str) -> (found: bool)
    ensures
        found == regex_matches(pattern@, haystack@),
{
    pattern.regex.is_match(haystack)
}

impl CompiledPattern {
    /// Compiles a pattern. Whether a pattern compiles is for the regex
    /// crate to say; one that does stands for the text it was given.
    pub fn new(pattern: &str) -> (r: Result<CompiledPattern, PatternError>)
        ensures
            r is Ok ==> r->Ok_0@ == pattern@,
    {
        compiled_or_error(compile_pattern(pattern))
    }
}

/// What becomes of the answer of the regex crate: a pattern that compiled
/// is handed on as it is, and for one that did not the reason is handed on
/// in the words of this library.
pub fn compiled_or_error(outcome: Result<CompiledPattern, regex::Error>) -> (r: Result<
    CompiledPattern,
    PatternError,
>)
    ensures
        r is Ok <==> outcome is Ok,
        outcome is Ok ==> r->Ok_0 == outcome->Ok_0,
{
    match outcome {
        Ok(compiled) => Ok(compiled),
        Err(e) => Err(pattern_error_of(e)),
    }
}

} // verus!
