//! A part of a pattern together with how often it is to occur, and the
//! capture groups that can be laid around it.

use crate::decimal::{decimal, decimal_text};
use crate::engine::{accepts, compiled, source};
use crate::escape::{can_escape, escape, escaped, failure};
use crate::traits::{compile, AsRegex, Condition, Error};
use crate::types::{Atom, Type};
use regex::Regex;
use vstd::prelude::*;
use vstd::string::*;

verus! {

/// What an [`Input`] is to the contracts.
pub enum Quantified {
    OneOrMore(Atom),
    Exactly(Atom),
    Maybe(Atom),
    Times(Atom, nat),
}

impl Quantified {
    /// The pattern text of the quantified part. One or more, and zero or one,
    /// come in a group of their own. Exactly one is the part as it is, except
    /// for a literal text, which is escaped. An exact count follows the part
    /// in braces, in decimal digits.
    pub open spec fn pattern(self) -> Seq<char> {
        match self {
            Quantified::OneOrMore(part) => "("@ + part.pattern() + "+)"@,
            Quantified::Exactly(Atom::Text(text)) => escaped(text),
            Quantified::Exactly(part) => part.pattern(),
            Quantified::Maybe(part) => "("@ + part.pattern() + "?)"@,
            Quantified::Times(part, count) => part.pattern() + "{"@ + decimal(count) + "}"@,
        }
    }

    /// Whether writing the value out takes the engine's help: only a literal
    /// text that occurs exactly once is escaped.
    pub open spec fn escapes(self) -> bool {
        self matches Quantified::Exactly(Atom::Text(_))
    }
}

/// A pattern text inside a capture group with a name.
pub open spec fn named_group(name: Seq<char>, inner: Seq<char>) -> Seq<char> {
    "(?P<"@ + name + ">"@ + inner + ")"@
}

/// A pattern text inside a capture group without a name.
pub open spec fn group(inner: Seq<char>) -> Seq<char> {
    "("@ + inner + ")"@
}

/// One part of a pattern and how often it is to occur.
#[derive(Debug, Clone, PartialEq, Eq)]
pub enum Input {
    /// The part, once or several times in a row.
    OneOrMore(Type),
    /// The part, once.
    Exactly(Type),
    /// The part, once or not at all.
    Maybe(Type),
    /// The part, the given number of times in a row.
    Times(Type, usize),
}

impl View for Input {
    type V = Quantified;

    open spec fn view(&self) -> Quantified {
        match *self {
            Input::OneOrMore(part) => Quantified::OneOrMore(part@),
            Input::Exactly(part) => Quantified::Exactly(part@),
            Input::Maybe(part) => Quantified::Maybe(part@),
            Input::Times(part, count) => Quantified::Times(part@, count as nat),
        }
    }
}

impl AsRegex for Input {
    open spec fn pattern(&self) -> Seq<char> {
        self@.pattern()
    }

    open spec fn renderable(&self) -> bool {
        self@.escapes() ==> can_escape()
    }

    fn render(&self) -> (r: Result<String, Error>) {
        match self {
            Input::Exactly(Type::Text(text)) => escape(text.as_str()),
            _ => Ok(Input::to_string(self)),
        }
    }

}

impl Condition for Input {

}

impl Input {
    /// Writes the input out as a pattern text.
    pub fn to_string(&self) -> (text: String)
        requires
            self.renderable(),
        ensures
            text@ == self.pattern(),
    {
        match self {
            Input::OneOrMore(part) => {
                let inner = part.to_string();
                let mut text = "(".to_owned();
                text.append(inner.as_str());
                text.append("+)");
                text
            },
            Input::Exactly(part) => match part {
                Type::Text(literal) => match escape(literal.as_str()) {
                    Ok(text) => text,
                    Err(_) => unreached(),
                },
                _ => part.to_string(),
            },
            Input::Maybe(part) => {
                let inner = part.to_string();
                let mut text = "(".to_owned();
                text.append(inner.as_str());
                text.append("?)");
                text
            },
            Input::Times(part, count) => {
                let mut text = part.to_string();
                let digits = decimal_text(*count);
                text.append("{");
                text.append(digits.as_str());
                text.append("}");
                text
            },
        }
    }

    /// The input so far as a capture group with the given name. A name that
    /// the engine does not take as the name of a group comes back as a
    /// failure, as does an input that the engine does not compile inside the
    /// group.
    pub fn grouped_as(&self, name: &str) -> (r: Result<Regex, Error>)
        ensures
            r is Ok <==> self.renderable() && accepts(named_group(name@, self.pattern())),
            r matches Ok(re) ==> compiled(named_group(name@, self.pattern())) == Ok::<
                Regex,
                regex::Error,
            >(re) && source(re) == named_group(name@, self.pattern()),
            r matches Err(error) ==> error == failure(
                self.renderable(),
                named_group(name@, self.pattern()),
            ),
    {
        let inner = match self.render() {
            Ok(inner) => inner,
            Err(error) => { return Err(error); },
        };
        let mut text = "(?P<".to_owned();
        text.append(name);
        text.append(">");
        text.append(inner.as_str());
        text.append(")");
        compile(text.as_str())
    }

    /// Another name for [`Input::grouped_as`].
    pub fn as_named(&self, name: &str) -> (r: Result<Regex, Error>)
        ensures
            r is Ok <==> self.renderable() && accepts(named_group(name@, self.pattern())),
            r matches Ok(re) ==> compiled(named_group(name@, self.pattern())) == Ok::<
                Regex,
                regex::Error,
            >(re) && source(re) == named_group(name@, self.pattern()),
            r matches Err(error) ==> error == failure(
                self.renderable(),
                named_group(name@, self.pattern()),
            ),
    {
        self.grouped_as(name)
    }

    /// The input so far as a capture group without a name.
    pub fn grouped(&self) -> (re: Regex)
        requires
            self.renderable(),
            accepts(group(self.pattern())),
        ensures
            compiled(group(self.pattern())) == Ok::<Regex, regex::Error>(re),
            source(re) == group(self.pattern()),
    {
        let inner = Input::to_string(self);
        let mut text = "(".to_owned();
        text.append(inner.as_str());
        text.append(")");
        match compile(text.as_str()) {
            Ok(re) => re,
            Err(_) => unreached(),
        }
    }

    /// As [`Input::grouped`], for any input: fails where the input cannot be
    /// written out or the engine does not compile the group.
    pub fn try_grouped(&self) -> (r: Result<Regex, Error>)
        ensures
            r is Ok <==> self.renderable() && accepts(group(self.pattern())),
            r matches Ok(re) ==> compiled(group(self.pattern())) == Ok::<Regex, regex::Error>(re)
                && source(re) == group(self.pattern()),
            r matches Err(error) ==> error == failure(self.renderable(), group(self.pattern())),
    {
        let inner = match self.render() {
            Ok(inner) => inner,
            Err(error) => { return Err(error); },
        };
        let mut text = "(".to_owned();
        text.append(inner.as_str());
        text.append(")");
        match compile(text.as_str()) {
            Ok(_) => Ok(self.grouped()),
            Err(error) => Err(error),
        }
    }
}

} // verus!
