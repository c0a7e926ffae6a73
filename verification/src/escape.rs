//! Escaping a literal text, so that the engine reads each of its characters
//! as itself.

use crate::engine::{accepts, compiled, replace_all, replaced};
use crate::traits::{compile, refusal, Error};
use vstd::prelude::*;

verus! {

/// The pattern that finds the characters to escape: `.`, `*`, `+`, `?`, `^`,
/// `$`, `{`, `}`, `(`, `)`, `|`, `[`, `]`, `\` and `/`, written as one
/// character class.
pub const ESCAPE_REPLACE_RE: &'static str = r"[.*+?^${}()|\[\]\\/]";

/// What each character found is replaced with: a backslash and the character
/// itself.
pub const ESCAPE_REPLACEMENT: &'static str = r"\$0";

/// Whether the engine compiles the pattern that finds the characters to
/// escape.
pub open spec fn can_escape() -> bool {
    accepts(ESCAPE_REPLACE_RE@)
}

/// A literal text after escaping: what the engine's substitution makes of it
/// with [`ESCAPE_REPLACE_RE`] and [`ESCAPE_REPLACEMENT`].
pub open spec fn escaped(text: Seq<char>) -> Seq<char> {
    replaced(compiled(ESCAPE_REPLACE_RE@)->Ok_0, text, ESCAPE_REPLACEMENT@)
}

/// The failure that comes of escaping where the engine does not compile
/// [`ESCAPE_REPLACE_RE`].
pub open spec fn escape_refusal() -> Error {
    refusal(ESCAPE_REPLACE_RE@)
}

/// The failure that comes of compiling a text put together from parts:
/// where a part could not be written out, that of escaping; else the
/// engine's refusal of the text.
pub open spec fn failure(written: bool, text: Seq<char>) -> Error {
    if written {
        refusal(text)
    } else {
        escape_refusal()
    }
}

/// Escapes a literal text. Fails only where the engine does not compile
/// [`ESCAPE_REPLACE_RE`].
pub fn escape(text: &str) -> (r: Result<String, Error>)
    ensures
        r is Ok <==> can_escape(),
        r matches Ok(out) ==> out@ == escaped(text@),
        r matches Err(error) ==> error == escape_refusal(),
{
    match compile(ESCAPE_REPLACE_RE) {
        Ok(finder) => Ok(replace_all(&finder, text, ESCAPE_REPLACEMENT)),
        Err(error) => Err(error),
    }
}

} // verus!
