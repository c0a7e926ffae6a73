//! The failure type and the two capabilities that every part of a pattern
//! shares: to be written out and compiled, and to be chained with another
//! part.

use crate::engine::{accepts, compiled, source};
use crate::escape::{escape_refusal, failure};
use regex::Regex;
use vstd::prelude::*;
use vstd::std_specs::convert::FromSpecImpl;
use vstd::string::*;

verus! {

/// Why no compiled pattern came back.
#[derive(Debug)]
pub enum Error {
    /// The engine did not compile a pattern text; its own report is kept.
    RegexError(regex::Error),
}

impl Error {
    /// The fixed description of the failure.
    pub fn message(&self) -> (text: String)
        ensures
            text@ == "a pattern-compilation error occurred"@,
    {
        "a pattern-compilation error occurred".to_owned()
    }
}

impl FromSpecImpl<regex::Error> for Error {
    open spec fn obeys_from_spec() -> bool {
        true
    }

    open spec fn from_spec(cause: regex::Error) -> Error {
        Error::RegexError(cause)
    }
}

impl From<regex::Error> for Error {
    fn from(cause: regex::Error) -> (error: Error) {
        Error::RegexError(cause)
    }
}

/// The failure that comes of a pattern text which the engine turns down: the
/// engine's own report on that text, wrapped.
pub open spec fn refusal(pattern: Seq<char>) -> Error {
    Error::RegexError(compiled(pattern)->Err_0)
}

/// Hands a pattern text to the engine and wraps the engine's refusal.
pub fn compile(pattern: &str) -> (r: Result<Regex, Error>)
    ensures
        r is Ok <==> accepts(pattern@),
        r matches Ok(re) ==> compiled(pattern@) == Ok::<Regex, regex::Error>(re) && source(re)
            == pattern@,
        r matches Err(error) ==> error == refusal(pattern@),
{
    match Regex::new(pattern) {
        Ok(re) => Ok(re),
        Err(cause) => Err(Error::RegexError(cause)),
    }
}

/// A value that stands for a pattern text and can be compiled.
pub trait AsRegex {
    /// The pattern text that the value stands for.
    spec fn pattern(&self) -> Seq<char>;

    /// Whether the engine does its part in writing the value out. Only a
    /// value that holds a literal text to escape depends on the engine here.
    spec fn renderable(&self) -> bool;

    /// Writes the value out, or reports that the engine could not help in
    /// escaping.
    fn render(&self) -> (r: Result<String, Error>)
        ensures
            r is Ok <==> self.renderable(),
            r matches Ok(text) ==> text@ == self.pattern(),
            r matches Err(error) ==> error == escape_refusal(),
    ;

    /// Compiles the pattern text of the value.
    fn as_regex(&self) -> (r: Result<Regex, Error>)
        ensures
            r is Ok <==> self.renderable() && accepts(self.pattern()),
            r matches Ok(re) ==> compiled(self.pattern()) == Ok::<Regex, regex::Error>(re)
                && source(re) == self.pattern(),
            r matches Err(error) ==> error == failure(self.renderable(), self.pattern()),
    {
        match self.render() {
            Ok(text) => compile(text.as_str()),
            Err(error) => Err(error),
        }
    }
}

/// Writes out a value that can be written out.
fn rendered<T: AsRegex>(value: &T) -> (text: String)
    requires
        value.renderable(),
    ensures
        text@ == value.pattern(),
{
    match value.render() {
        Ok(text) => text,
        Err(_) => unreached(),
    }
}

/// The pattern text of one part followed by another.
pub open spec fn sequence(left: Seq<char>, right: Seq<char>) -> Seq<char> {
    left + right
}

/// The pattern text that matches either of two parts.
pub open spec fn alternative(left: Seq<char>, right: Seq<char>) -> Seq<char> {
    left + "|"@ + right
}

/// The pattern text of a part that may be missing: the part in a group, and
/// `?` behind it.
pub open spec fn optional(inner: Seq<char>) -> Seq<char> {
    "("@ + inner + ")?"@
}

/// Chaining of parts. Each operation takes its operands over and compiles the
/// text that it puts together. The plain forms expect a text that the engine
/// compiles; the `try_` forms make no such demand and report a refusal.
pub trait Condition: AsRegex + Sized {
    /// The pattern that matches `self` and then `other`.
    fn and(self, other: impl AsRegex) -> (re: Regex)
        requires
            self.renderable(),
            other.renderable(),
            accepts(sequence(self.pattern(), other.pattern())),
        ensures
            compiled(sequence(self.pattern(), other.pattern())) == Ok::<Regex, regex::Error>(re),
            source(re) == sequence(self.pattern(), other.pattern()),
    {
        let mut text = rendered(&self);
        let tail = rendered(&other);
        text.append(tail.as_str());
        match compile(text.as_str()) {
            Ok(re) => re,
            Err(_) => unreached(),
        }
    }

    /// The pattern that matches `self` or `other`.
    fn or(self, other: impl AsRegex) -> (re: Regex)
        requires
            self.renderable(),
            other.renderable(),
            accepts(alternative(self.pattern(), other.pattern())),
        ensures
            compiled(alternative(self.pattern(), other.pattern())) == Ok::<Regex, regex::Error>(re),
            source(re) == alternative(self.pattern(), other.pattern()),
    {
        let mut text = rendered(&self);
        let tail = rendered(&other);
        text.append("|");
        text.append(tail.as_str());
        match compile(text.as_str()) {
            Ok(re) => re,
            Err(_) => unreached(),
        }
    }

    /// The pattern that matches `self` or nothing.
    fn optionally(self) -> (re: Regex)
        requires
            self.renderable(),
            accepts(optional(self.pattern())),
        ensures
            compiled(optional(self.pattern())) == Ok::<Regex, regex::Error>(re),
            source(re) == optional(self.pattern()),
    {
        let inner = rendered(&self);
        let mut text = "(".to_owned();
        text.append(inner.as_str());
        text.append(")?");
        match compile(text.as_str()) {
            Ok(re) => re,
            Err(_) => unreached(),
        }
    }

    /// As [`Condition::and`], for any operands: fails where one of them
    /// cannot be written out or the engine does not compile the text.
    fn try_and(self, other: impl AsRegex) -> (r: Result<Regex, Error>)
        ensures
            r is Ok <==> self.renderable() && other.renderable() && accepts(
                sequence(self.pattern(), other.pattern()),
            ),
            r matches Ok(re) ==> compiled(sequence(self.pattern(), other.pattern())) == Ok::<
                Regex,
                regex::Error,
            >(re) && source(re) == sequence(self.pattern(), other.pattern()),
            r matches Err(error) ==> error == failure(
                self.renderable() && other.renderable(),
                sequence(self.pattern(), other.pattern()),
            ),
    {
        let mut text = match self.render() {
            Ok(head) => head,
            Err(error) => { return Err(error); },
        };
        let tail = match other.render() {
            Ok(tail) => tail,
            Err(error) => { return Err(error); },
        };
        text.append(tail.as_str());
        match compile(text.as_str()) {
            Ok(_) => Ok(self.and(other)),
            Err(error) => Err(error),
        }
    }

    /// As [`Condition::or`], for any operands: fails where one of them cannot
    /// be written out or the engine does not compile the text.
    fn try_or(self, other: impl AsRegex) -> (r: Result<Regex, Error>)
        ensures
            r is Ok <==> self.renderable() && other.renderable() && accepts(
                alternative(self.pattern(), other.pattern()),
            ),
            r matches Ok(re) ==> compiled(alternative(self.pattern(), other.pattern())) == Ok::<
                Regex,
                regex::Error,
            >(re) && source(re) == alternative(self.pattern(), other.pattern()),
            r matches Err(error) ==> error == failure(
                self.renderable() && other.renderable(),
                alternative(self.pattern(), other.pattern()),
            ),
    {
        let mut text = match self.render() {
            Ok(head) => head,
            Err(error) => { return Err(error); },
        };
        let tail = match other.render() {
            Ok(tail) => tail,
            Err(error) => { return Err(error); },
        };
        text.append("|");
        text.append(tail.as_str());
        match compile(text.as_str()) {
            Ok(_) => Ok(self.or(other)),
            Err(error) => Err(error),
        }
    }

    /// As [`Condition::optionally`], for any operand: fails where it cannot
    /// be written out or the engine does not compile the text.
    fn try_optionally(self) -> (r: Result<Regex, Error>)
        ensures
            r is Ok <==> self.renderable() && accepts(optional(self.pattern())),
            r matches Ok(re) ==> compiled(optional(self.pattern())) == Ok::<Regex, regex::Error>(
                re,
            ) && source(re) == optional(self.pattern()),
            r matches Err(error) ==> error == failure(self.renderable(), optional(self.pattern())),
    {
        let inner = match self.render() {
            Ok(inner) => inner,
            Err(error) => { return Err(error); },
        };
        let mut text = "(".to_owned();
        text.append(inner.as_str());
        text.append(")?");
        match compile(text.as_str()) {
            Ok(_) => Ok(self.optionally()),
            Err(error) => Err(error),
        }
    }
}

impl AsRegex for Regex {
    open spec fn pattern(&self) -> Seq<char> {
        source(*self)
    }

    open spec fn renderable(&self) -> bool {
        true
    }

    fn render(&self) -> (r: Result<String, Error>) {
        Ok(self.as_str().to_owned())
    }
}

impl Condition for Regex {

}

} // verus!
