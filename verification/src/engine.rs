//! The boundary to the regular-expression engine.
//!
//! Everything the library asks of the `regex` crate goes through the items of
//! this module. Their contracts are taken on trust: they restate what the
//! engine documents and are not proved here.

use regex::Error as CompileError;
use regex::Regex;
use vstd::prelude::*;

verus! {

/// The engine's compiled matcher. Its inside is not visible to the verifier.
#[verifier::external_type_specification]
#[verifier::external_body]
pub struct ExRegex(regex::Regex);

/// The engine's own failure to compile a pattern.
#[verifier::external_type_specification]
#[verifier::external_body]
pub struct ExCompileError(CompileError);

/// What `Regex::new` makes of a pattern text: the matcher, or the engine's
/// report where it turns the text down.
pub uninterp spec fn compiled(pattern: Seq<char>) -> Result<Regex, CompileError>;

/// The pattern text that a matcher was built from, as `Regex::as_str` gives it.
pub uninterp spec fn source(re: Regex) -> Seq<char>;

/// The text that `Regex::replace_all` gives for a matcher, a text to search
/// and a replacement.
pub uninterp spec fn replaced(re: Regex, text: Seq<char>, replacement: Seq<char>) -> Seq<char>;

/// Whether the engine compiles the pattern text.
pub open spec fn accepts(pattern: Seq<char>) -> bool {
    compiled(pattern) is Ok
}

/// `Regex::new`. Taken on trust: the matcher that the engine builds, or its
/// report on a text that it turns down, depends on the text alone (the
/// engine's limits on size are its built-in ones), and a matcher that comes
/// back keeps the text it was built from. Nothing is claimed about which
/// texts the engine accepts.
pub assume_specification[ Regex::new ](re: &str) -> (r: Result<Regex, CompileError>)
    ensures
        r == compiled(re@),
        r matches Ok(built) ==> source(built) == re@,
;

/// `Regex::as_str`. Taken on trust: it gives the text that the matcher was
/// built from.
pub assume_specification<'a>[ Regex::as_str ](re: &'a Regex) -> (s: &'a str)
    ensures
        s@ == source(*re),
;

/// `Regex::replace_all` with a replacement text, the result taken as an owned
/// `String`. Taken on trust: the result depends on the matcher, the text and
/// the replacement alone. Nothing is claimed about what is replaced.
#[verifier::external_body]
pub(crate) fn replace_all(re: &Regex, text: &str, replacement: &str) -> (out: String)
    ensures
        out@ == replaced(*re, text@, replacement@),
{
    re.replace_all(text, replacement).into_owned()
}

} // verus!
