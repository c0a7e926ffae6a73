//! Readable construction of regular expressions from small named parts.
//!
//! A pattern is put together from atomic parts ([`Type`]), each wrapped with
//! how often it is to occur ([`Input`]), and chained with [`Condition`]. What
//! comes out is a `regex::Regex`, compiled by the `regex` crate, on which all
//! matching rests.

pub mod decimal;
pub mod engine;
pub mod escape;
pub mod input;
pub mod traits;
pub mod tree;
pub mod types;

pub use crate::input::Input;
pub use crate::input::Input::{Exactly, Maybe, OneOrMore, Times};
pub use crate::traits::{AsRegex, Condition, Error};
pub use crate::types::Type::{
    CarriageReturn, Char, Digit, Letter, LetterLowercase, LetterUppercase, Linefeed,
    NotCarriageReturn, NotDigit, NotLetter, NotLetterLowercase, NotLetterUppercase, NotLinefeed,
    NotTab, NotWhitespace, NotWordBoundary, NotWordChar, Options, Tab, Text, Whitespace, Word,
    WordBoundary, WordChar,
};
pub use crate::types::{not, try_not, Type};

use crate::engine::{accepts, compiled, source};
use crate::escape::failure;
use regex::Regex;
use vstd::prelude::*;

verus! {

/// Returns the compiled pattern that the given value stands for, or the
/// failure to compile it. Nothing is kept between calls.
pub fn create_reg_exp(input: impl AsRegex) -> (r: Result<Regex, Error>)
    ensures
        r is Ok <==> input.renderable() && accepts(input.pattern()),
        r matches Ok(re) ==> compiled(input.pattern()) == Ok::<Regex, regex::Error>(re)
            && source(re) == input.pattern(),
        r matches Err(error) ==> error == failure(input.renderable(), input.pattern()),
{
    input.as_regex()
}

} // verus!
