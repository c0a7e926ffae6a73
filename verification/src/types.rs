//! The smallest parts of a pattern, and their negation.

use crate::traits::{AsRegex, Error};
use vstd::prelude::*;
use vstd::string::*;

verus! {

/// What a [`Type`] is to the contracts: the same variants, with the texts
/// they carry as sequences of characters.
pub enum Atom {
    Digit,
    NotDigit,
    WordBoundary,
    NotWordBoundary,
    Word,
    WordChar,
    NotWordChar,
    Text(Seq<char>),
    Options(Seq<char>),
    Char,
    Whitespace,
    NotWhitespace,
    Letter,
    NotLetter,
    LetterLowercase,
    NotLetterLowercase,
    LetterUppercase,
    NotLetterUppercase,
    Tab,
    NotTab,
    Linefeed,
    NotLinefeed,
    CarriageReturn,
    NotCarriageReturn,
}

/// The body of a character set with its leading `^` taken away, or with one
/// put in front where it has none.
pub open spec fn toggled(body: Seq<char>) -> Seq<char> {
    if body.len() > 0 && body[0] == '^' {
        body.subrange(1, body.len() as int)
    } else {
        "^"@ + body
    }
}

impl Atom {
    /// The pattern text of the part.
    pub open spec fn pattern(self) -> Seq<char> {
        match self {
            Atom::Digit => r"\d"@,
            Atom::NotDigit => r"\D"@,
            Atom::WordBoundary => r"\b"@,
            Atom::NotWordBoundary => r"\B"@,
            Atom::Word => r"\b\w+\b"@,
            Atom::WordChar => r"\w"@,
            Atom::NotWordChar => r"\W"@,
            Atom::Char => r"."@,
            Atom::Text(text) => text,
            Atom::Whitespace => r"\s"@,
            Atom::NotWhitespace => r"\S"@,
            Atom::Letter => r"[a-zA-Z]"@,
            Atom::NotLetter => r"[^a-zA-Z]"@,
            Atom::LetterLowercase => r"[a-z]"@,
            Atom::NotLetterLowercase => r"[^a-z]"@,
            Atom::LetterUppercase => r"[A-Z]"@,
            Atom::NotLetterUppercase => r"[^A-Z]"@,
            Atom::Tab => r"\t"@,
            Atom::NotTab => r"^\t"@,
            Atom::Linefeed => r"\n"@,
            Atom::NotLinefeed => r"^\n"@,
            Atom::CarriageReturn => r"\r"@,
            Atom::NotCarriageReturn => r"^\r"@,
            Atom::Options(body) => "["@ + body + "]"@,
        }
    }

    /// Whether the part can be negated: every part but a character set
    /// without a body.
    pub open spec fn negatable(self) -> bool {
        !(self matches Atom::Options(body) && body.len() == 0)
    }

    /// Whether negating the part twice gives it back. This is so for every
    /// part but a literal text, and a character set whose body is empty, is
    /// `^` alone or begins with `^^`.
    pub open spec fn restored_by_negation(self) -> bool {
        match self {
            Atom::Text(_) => false,
            Atom::Options(body) => body.len() > 0 && (body[0] == '^' ==> body.len() > 1
                && body[1] != '^'),
            _ => true,
        }
    }

    /// The opposite of the part. A word and any-character have none and
    /// stay; a literal text gets `^` in front; a character set gains or
    /// loses its leading `^`.
    pub open spec fn negated(self) -> Atom {
        match self {
            Atom::Digit => Atom::NotDigit,
            Atom::NotDigit => Atom::Digit,
            Atom::WordBoundary => Atom::NotWordBoundary,
            Atom::NotWordBoundary => Atom::WordBoundary,
            Atom::WordChar => Atom::NotWordChar,
            Atom::NotWordChar => Atom::WordChar,
            Atom::Whitespace => Atom::NotWhitespace,
            Atom::NotWhitespace => Atom::Whitespace,
            Atom::Letter => Atom::NotLetter,
            Atom::NotLetter => Atom::Letter,
            Atom::LetterLowercase => Atom::NotLetterLowercase,
            Atom::NotLetterLowercase => Atom::LetterLowercase,
            Atom::LetterUppercase => Atom::NotLetterUppercase,
            Atom::NotLetterUppercase => Atom::LetterUppercase,
            Atom::Tab => Atom::NotTab,
            Atom::NotTab => Atom::Tab,
            Atom::Linefeed => Atom::NotLinefeed,
            Atom::NotLinefeed => Atom::Linefeed,
            Atom::CarriageReturn => Atom::NotCarriageReturn,
            Atom::NotCarriageReturn => Atom::CarriageReturn,
            Atom::Text(text) => Atom::Text("^"@ + text),
            Atom::Options(body) => Atom::Options(toggled(body)),
            Atom::Word => Atom::Word,
            Atom::Char => Atom::Char,
        }
    }
}

/// Negating a part twice gives the part back, for every part that is
/// [`Atom::restored_by_negation`]. The second negation is always possible
/// there.
pub proof fn lemma_double_negation(part: Atom)
    requires
        part.restored_by_negation(),
    ensures
        part.negatable(),
        part.negated().negatable(),
        part.negated().negated() == part,
        part.negated().negated().pattern() == part.pattern(),
{
    reveal_strlit("^");
    if let Atom::Options(body) = part {
        assert(toggled(toggled(body)) =~= body);
    }
}

/// Negating twice does not give the part back on any other part that can be
/// negated twice: a literal text grows by `^` each time, and a character set
/// whose body begins with `^^` loses both.
pub proof fn lemma_double_negation_elsewhere(part: Atom)
    requires
        part.negatable(),
        part.negated().negatable(),
        !part.restored_by_negation(),
    ensures
        part.negated().negated() != part,
{
    reveal_strlit("^");
    match part {
        Atom::Text(text) => {
            assert(("^"@ + ("^"@ + text)).len() == text.len() + 2);
        },
        Atom::Options(body) => {
            assert(toggled(body) =~= body.subrange(1, body.len() as int));
            assert(toggled(toggled(body)).len() == body.len() - 2);
        },
        _ => {},
    }
}

/// One irreducible part of a pattern: a character class, an anchor, a literal
/// text or a character set written out by the caller.
#[derive(Debug, Clone, PartialEq, Eq)]
pub enum Type {
    Digit,
    NotDigit,
    WordBoundary,
    NotWordBoundary,
    Word,
    WordChar,
    NotWordChar,
    Text(String),
    Options(String),
    Char,
    Whitespace,
    NotWhitespace,
    Letter,
    NotLetter,
    LetterLowercase,
    NotLetterLowercase,
    LetterUppercase,
    NotLetterUppercase,
    Tab,
    NotTab,
    Linefeed,
    NotLinefeed,
    CarriageReturn,
    NotCarriageReturn,
}

impl View for Type {
    type V = Atom;

    open spec fn view(&self) -> Atom {
        match *self {
            Type::Digit => Atom::Digit,
            Type::NotDigit => Atom::NotDigit,
            Type::WordBoundary => Atom::WordBoundary,
            Type::NotWordBoundary => Atom::NotWordBoundary,
            Type::Word => Atom::Word,
            Type::WordChar => Atom::WordChar,
            Type::NotWordChar => Atom::NotWordChar,
            Type::Text(text) => Atom::Text(text@),
            Type::Options(body) => Atom::Options(body@),
            Type::Char => Atom::Char,
            Type::Whitespace => Atom::Whitespace,
            Type::NotWhitespace => Atom::NotWhitespace,
            Type::Letter => Atom::Letter,
            Type::NotLetter => Atom::NotLetter,
            Type::LetterLowercase => Atom::LetterLowercase,
            Type::NotLetterLowercase => Atom::NotLetterLowercase,
            Type::LetterUppercase => Atom::LetterUppercase,
            Type::NotLetterUppercase => Atom::NotLetterUppercase,
            Type::Tab => Atom::Tab,
            Type::NotTab => Atom::NotTab,
            Type::Linefeed => Atom::Linefeed,
            Type::NotLinefeed => Atom::NotLinefeed,
            Type::CarriageReturn => Atom::CarriageReturn,
            Type::NotCarriageReturn => Atom::NotCarriageReturn,
        }
    }
}

impl AsRegex for Type {
    open spec fn pattern(&self) -> Seq<char> {
        self@.pattern()
    }

    open spec fn renderable(&self) -> bool {
        true
    }

    fn render(&self) -> (r: Result<String, Error>) {
        Ok(Type::to_string(self))
    }

}

impl Type {
    /// Writes the part out as a pattern text.
    pub fn to_string(&self) -> (text: String)
        ensures
            text@ == self@.pattern(),
    {
        match self {
            Type::Digit => r"\d".to_owned(),
            Type::NotDigit => r"\D".to_owned(),
            Type::WordBoundary => r"\b".to_owned(),
            Type::NotWordBoundary => r"\B".to_owned(),
            Type::Word => r"\b\w+\b".to_owned(),
            Type::WordChar => r"\w".to_owned(),
            Type::NotWordChar => r"\W".to_owned(),
            Type::Char => r".".to_owned(),
            Type::Text(text) => text.clone(),
            Type::Whitespace => r"\s".to_owned(),
            Type::NotWhitespace => r"\S".to_owned(),
            Type::Letter => r"[a-zA-Z]".to_owned(),
            Type::NotLetter => r"[^a-zA-Z]".to_owned(),
            Type::LetterLowercase => r"[a-z]".to_owned(),
            Type::NotLetterLowercase => r"[^a-z]".to_owned(),
            Type::LetterUppercase => r"[A-Z]".to_owned(),
            Type::NotLetterUppercase => r"[^A-Z]".to_owned(),
            Type::Tab => r"\t".to_owned(),
            Type::NotTab => r"^\t".to_owned(),
            Type::Linefeed => r"\n".to_owned(),
            Type::NotLinefeed => r"^\n".to_owned(),
            Type::CarriageReturn => r"\r".to_owned(),
            Type::NotCarriageReturn => r"^\r".to_owned(),
            Type::Options(body) => {
                let mut text = "[".to_owned();
                text.append(body.as_str());
                text.append("]");
                text
            },
        }
    }
}

/// The body of a character set, negated: without its leading `^`, or with one
/// where it had none.
fn toggle(body: &str) -> (r: String)
    requires
        body@.len() > 0,
    ensures
        r@ == toggled(body@),
{
    if body.get_char(0) == '^' {
        body.substring_char(1, body.unicode_len()).to_owned()
    } else {
        let mut r = "^".to_owned();
        r.append(body);
        r
    }
}

/// Returns the opposite of the given part: `Digit` for `NotDigit` and so on.
/// A word and any-character have no opposite and come back as they are; a
/// literal text gets `^` in front; a character set gains or loses its
/// leading `^`. A character set without a body cannot be negated.
pub fn not(t: Type) -> (r: Type)
    requires
        t@.negatable(),
    ensures
        r@ == t@.negated(),
{
    match t {
        Type::Digit => Type::NotDigit,
        Type::NotDigit => Type::Digit,
        Type::WordBoundary => Type::NotWordBoundary,
        Type::NotWordBoundary => Type::WordBoundary,
        Type::WordChar => Type::NotWordChar,
        Type::NotWordChar => Type::WordChar,
        Type::Whitespace => Type::NotWhitespace,
        Type::NotWhitespace => Type::Whitespace,
        Type::Letter => Type::NotLetter,
        Type::NotLetter => Type::Letter,
        Type::LetterLowercase => Type::NotLetterLowercase,
        Type::NotLetterLowercase => Type::LetterLowercase,
        Type::LetterUppercase => Type::NotLetterUppercase,
        Type::NotLetterUppercase => Type::LetterUppercase,
        Type::Tab => Type::NotTab,
        Type::NotTab => Type::Tab,
        Type::Linefeed => Type::NotLinefeed,
        Type::NotLinefeed => Type::Linefeed,
        Type::CarriageReturn => Type::NotCarriageReturn,
        Type::NotCarriageReturn => Type::CarriageReturn,
        Type::Text(text) => {
            let mut negated = "^".to_owned();
            negated.append(text.as_str());
            Type::Text(negated)
        },
        Type::Options(body) => Type::Options(toggle(body.as_str())),
        Type::Word => Type::Word,
        Type::Char => Type::Char,
    }
}

/// As [`not`], for any part: nothing comes back for a character set without
/// a body.
pub fn try_not(t: Type) -> (r: Option<Type>)
    ensures
        r is Some <==> t@.negatable(),
        r matches Some(negated) ==> negated@ == t@.negated(),
{
    let negatable = match &t {
        Type::Options(body) => !body.as_str().is_empty(),
        _ => true,
    };
    if negatable {
        Some(not(t))
    } else {
        None
    }
}

} // verus!
