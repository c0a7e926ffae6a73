//! A second way to put a pattern together: a tree of quantified parts, each
//! node with an optional group name, an optional branch to its right and a
//! mark that makes it optional. Every operation hands back a new node; no
//! node changes once it is made.

use crate::escape::{can_escape, escape, escaped};
use crate::traits::{AsRegex, Error};
use crate::types::{Atom, Type};
use std::rc::Rc;
use vstd::prelude::*;
use vstd::string::*;

verus! {

/// How a node is joined to the branch on its right.
#[derive(Debug, Clone, Copy, PartialEq, Eq)]
pub enum Condition {
    And,
    Or,
}

/// What an [`Input`] of a tree is to the contracts.
pub enum Leaf {
    OneOrMore(Atom),
    Exactly(Atom),
    Maybe(Atom),
}

impl Leaf {
    /// The text of the leaf inside a tree: the part's own text, with `+`
    /// behind it for one or more and `?` for zero or one.
    pub open spec fn text(self) -> Seq<char> {
        match self {
            Leaf::OneOrMore(part) => part.pattern() + "+"@,
            Leaf::Exactly(part) => part.pattern(),
            Leaf::Maybe(part) => part.pattern() + "?"@,
        }
    }

    /// The pattern text of the leaf on its own: as inside a tree, but with a
    /// literal text that occurs exactly once escaped.
    pub open spec fn pattern(self) -> Seq<char> {
        match self {
            Leaf::Exactly(Atom::Text(text)) => escaped(text),
            _ => self.text(),
        }
    }

    /// Whether writing the leaf out on its own takes the engine's help.
    pub open spec fn escapes(self) -> bool {
        self matches Leaf::Exactly(Atom::Text(_))
    }
}

/// What a [`CombinedInput`] is to the contracts.
pub struct Node {
    pub name: Option<Seq<char>>,
    pub leaf: Leaf,
    pub right: Option<(Condition, Box<Node>)>,
    pub optional: bool,
}

impl Node {
    /// The text of the node without its right branch: the leaf, inside a
    /// named group if the node has a name, and that inside `(?:` and `)?` if
    /// the node is optional.
    pub open spec fn head(self) -> Seq<char> {
        let named = match self.name {
            Some(name) => "(?P<"@ + name + ">"@ + self.leaf.text() + ")"@,
            None => self.leaf.text(),
        };
        if self.optional {
            "(?:"@ + named + ")?"@
        } else {
            named
        }
    }

    /// The pattern text of the node. A branch joined by `And` follows the
    /// head with `+` behind it; a branch joined by `Or` follows it twice, with
    /// `|` in between.
    pub open spec fn pattern(self) -> Seq<char>
        decreases self,
    {
        match self.right {
            None => self.head(),
            Some((Condition::And, branch)) => self.head() + branch.pattern() + "+"@,
            Some((Condition::Or, branch)) => self.head() + branch.pattern() + "|"@
                + branch.pattern(),
        }
    }
}

/// One part of a pattern and how often it is to occur: the leaf of a tree.
#[derive(Debug, Clone, PartialEq, Eq)]
pub enum Input {
    /// The part, once or several times in a row.
    OneOrMore(Type),
    /// The part, once.
    Exactly(Type),
    /// The part, once or not at all.
    Maybe(Type),
}

impl View for Input {
    type V = Leaf;

    open spec fn view(&self) -> Leaf {
        match *self {
            Input::OneOrMore(part) => Leaf::OneOrMore(part@),
            Input::Exactly(part) => Leaf::Exactly(part@),
            Input::Maybe(part) => Leaf::Maybe(part@),
        }
    }
}

/// A node of the tree.
pub struct CombinedInput {
    group_name: Option<String>,
    left: Input,
    right: Option<(Condition, Rc<CombinedInput>)>,
    optional: bool,
}

impl View for CombinedInput {
    type V = Node;

    closed spec fn view(&self) -> Node
        decreases self,
    {
        Node {
            name: match self.group_name {
                Some(name) => Some(name@),
                None => None,
            },
            leaf: self.left@,
            right: match self.right {
                Some((condition, branch)) => Some((condition, Box::new((*branch)@))),
                None => None,
            },
            optional: self.optional,
        }
    }
}

impl Input {
    /// The text of the leaf inside a tree.
    fn text(&self) -> (text: String)
        ensures
            text@ == self@.text(),
    {
        match self {
            Input::OneOrMore(part) => {
                let mut text = part.to_string();
                text.append("+");
                text
            },
            Input::Exactly(part) => part.to_string(),
            Input::Maybe(part) => {
                let mut text = part.to_string();
                text.append("?");
                text
            },
        }
    }

    /// Writes the leaf out on its own, as a pattern text.
    pub fn to_string(&self) -> (text: String)
        requires
            self@.escapes() ==> can_escape(),
        ensures
            text@ == self@.pattern(),
    {
        match self {
            Input::Exactly(Type::Text(literal)) => match escape(literal.as_str()) {
                Ok(text) => text,
                Err(_) => unreached(),
            },
            _ => self.text(),
        }
    }

    /// A node that holds this leaf under the given group name.
    pub fn grouped_as(self, name: &str) -> (node: CombinedInput)
        ensures
            node@ == (Node { name: Some(name@), leaf: self@, right: None, optional: false }),
    {
        CombinedInput { group_name: Some(name.to_owned()), left: self, right: None, optional: false }
    }

    /// A node that holds this leaf, joined by `And` to the given tree.
    pub fn and(self, other: CombinedInput) -> (node: CombinedInput)
        ensures
            node@ == (Node {
                name: None,
                leaf: self@,
                right: Some((Condition::And, Box::new(other@))),
                optional: false,
            }),
    {
        CombinedInput {
            group_name: None,
            left: self,
            right: Some((Condition::And, Rc::new(other))),
            optional: false,
        }
    }

    /// A tree of one node that holds this leaf: no name, no branch, not
    /// optional.
    pub fn as_combined(self) -> (node: CombinedInput)
        ensures
            node@ == (Node { name: None, leaf: self@, right: None, optional: false }),
    {
        CombinedInput { group_name: None, left: self, right: None, optional: false }
    }
}

impl AsRegex for Input {
    open spec fn pattern(&self) -> Seq<char> {
        self@.pattern()
    }

    open spec fn renderable(&self) -> bool {
        self@.escapes() ==> can_escape()
    }

    fn render(&self) -> (r: Result<String, Error>) {
        match self {
            Input::Exactly(Type::Text(literal)) => escape(literal.as_str()),
            _ => Ok(Input::to_string(self)),
        }
    }

}

impl CombinedInput {
    /// The same node with the given tree as its right branch, joined by
    /// `And`. A branch that the node had before is given up.
    pub fn and(self, right: CombinedInput) -> (node: CombinedInput)
        ensures
            node@ == (Node { right: Some((Condition::And, Box::new(right@))), ..self@ }),
    {
        CombinedInput {
            group_name: self.group_name,
            left: self.left,
            right: Some((Condition::And, Rc::new(right))),
            optional: self.optional,
        }
    }

    /// The same node under the given group name.
    pub fn grouped_as(self, group_name: &str) -> (node: CombinedInput)
        ensures
            node@ == (Node { name: Some(group_name@), ..self@ }),
    {
        CombinedInput {
            group_name: Some(group_name.to_owned()),
            left: self.left,
            right: self.right,
            optional: self.optional,
        }
    }

    /// The same node made optional. Name, leaf and branch stay.
    pub fn optionally(self) -> (node: CombinedInput)
        ensures
            node@ == (Node { optional: true, ..self@ }),
    {
        CombinedInput {
            group_name: self.group_name,
            left: self.left,
            right: self.right,
            optional: true,
        }
    }

    /// Writes the tree out as a pattern text.
    pub fn to_string(&self) -> (text: String)
        ensures
            text@ == self@.pattern(),
        decreases self,
    {
        let mut text = String::new();
        if self.optional {
            text.append("(?:");
        }
        if let Some(name) = &self.group_name {
            text.append("(?P<");
            text.append(name.as_str());
            text.append(">");
        }
        let leaf = self.left.text();
        text.append(leaf.as_str());
        if self.group_name.is_some() {
            text.append(")");
        }
        if self.optional {
            text.append(")?");
        }
        assert(text@ == self@.head());
        if let Some((condition, branch)) = &self.right {
            let tail = branch.to_string();
            match condition {
                Condition::And => {
                    text.append(tail.as_str());
                    text.append("+");
                },
                Condition::Or => {
                    text.append(tail.as_str());
                    text.append("|");
                    text.append(tail.as_str());
                },
            }
        }
        text
    }
}

impl AsRegex for CombinedInput {
    open spec fn pattern(&self) -> Seq<char> {
        self@.pattern()
    }

    open spec fn renderable(&self) -> bool {
        true
    }

    fn render(&self) -> (r: Result<String, Error>) {
        Ok(CombinedInput::to_string(self))
    }

}

} // verus!
