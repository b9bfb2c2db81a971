//! The concrete interactive node kinds and the capability traits through
//! which generic consumers handle them.
//!
//! The node kinds form a closed set, so instead of trait objects the store
//! holds a tagged union, [`Node`]; the capability traits let generic code
//! (walkers, casts) work over the kinds without a central type switch.

use vstd::prelude::*;

use crate::segment::Segment;

verus! {

/// Text typed in by the user. Also serves what editors describe as tabs and
/// mirrors.
pub struct Placeholder(
    /// Content of the placeholder: a sequence of segments, since a
    /// placeholder can contain not merely plain text but also other
    /// interactive nodes.
    pub Vec<Segment>,
);

/// Text selected by the user from a menu of several alternatives.
pub struct Choice(
    /// Index of the chosen alternative within the list below. An
    /// out-of-range index means nothing is selected yet.
    pub usize,
    /// The alternatives; each is a sequence of segments.
    pub Vec<Vec<Segment>>,
);

/// Part of the snippet filled in from a program variable (an environment
/// variable, or a value the embedding client resolves).
pub struct Variable {
    /// Name of the variable.
    pub name: String,
    /// Cached value: what the most recent evaluation stored. Never
    /// implicitly refreshed.
    pub value: String,
}

/// Shell code to run; its captured output is the text shown within the
/// snippet.
pub struct Code {
    /// The command to hand to the shell.
    pub code_to_run: String,
    /// Cached output: what the most recent successful run captured.
    pub output: String,
}

/// A node of the snippet: one of the closed set of interactive kinds.
pub enum Node {
    Placeholder(Placeholder),
    Choice(Choice),
    Variable(Variable),
    Code(Code),
}

/// Base capability of every interactive node kind: a constant type tag, the
/// optional nested child segments, and recovery of the concrete kind from a
/// [`Node`].
pub trait InteractiveSegment: Sized {
    /// Whether `n` holds a value of this kind.
    spec fn node_holds(n: Node) -> bool;

    /// The value of this kind held in `n` (meaningful when `node_holds(n)`).
    spec fn node_value(n: Node) -> Self;

    /// The node holding this value.
    spec fn node_wrap(self) -> Node;

    /// The constant tag of this kind.
    spec fn spec_type_tag() -> Seq<char>;

    /// The nested child segments, as the specification sees them: present
    /// only for the kinds that expose children.
    spec fn spec_nested(self) -> Option<Seq<Segment>>;

    /// The kind's tag, for tooling that needs to branch without casting.
    fn get_type(&self) -> (t: &'static str)
        ensures
            t@ == Self::spec_type_tag(),
    ;

    /// The nested child segments, if this kind exposes any.
    fn nested_segments(&self) -> (r: Option<&Vec<Segment>>)
        ensures
            (r is Some) == ((*self).spec_nested() is Some),
            r matches Some(v) ==> Some(v@) == (*self).spec_nested(),
    ;

    /// This kind's value inside `n`, or nothing when `n` holds another kind.
    fn cast_node(n: &Node) -> (r: Option<&Self>)
        ensures
            (r is Some) == Self::node_holds(*n),
            r matches Some(x) ==> *x == Self::node_value(*n),
    ;

    /// Mutable access to this kind's value inside `n`, or nothing when `n`
    /// holds another kind; `n` is then left as it was.
    fn cast_node_mut(n: &mut Node) -> (r: Option<&mut Self>)
        ensures
            (r is Some) == Self::node_holds(*old(n)),
            r matches Some(x) ==> *x == Self::node_value(*old(n)) && *final(n)
                == Self::node_wrap(*final(x)),
            r is None ==> *final(n) == *old(n),
    ;
}

/// Marker capability: a node kind that may be bound to a tab stop. Only
/// [`Placeholder`] and [`Choice`] are fields; dynamically computed kinds are
/// never directly navigable.
pub trait Field: InteractiveSegment {

}

/// Capability of a node whose displayed value is produced by an explicit
/// evaluation step rather than by structural composition. Each implementor
/// exposes an `evaluate` operation that recomputes and stores its cached
/// value in place; the operations' signatures differ by what the
/// computation needs from the embedding program.
pub trait Programic: InteractiveSegment {
    /// The identity key, as the specification sees it.
    spec fn spec_identifier(self) -> Seq<char>;

    /// A key stable across evaluations, for callers that need a cache key
    /// or an override target.
    fn identifier(&self) -> (r: &String)
        ensures
            r@ == (*self).spec_identifier(),
    ;
}

impl InteractiveSegment for Placeholder {
    open spec fn node_holds(n: Node) -> bool {
        n is Placeholder
    }

    open spec fn node_value(n: Node) -> Self {
        n->Placeholder_0
    }

    open spec fn node_wrap(self) -> Node {
        Node::Placeholder(self)
    }

    open spec fn spec_type_tag() -> Seq<char> {
        "placeholder"@
    }

    open spec fn spec_nested(self) -> Option<Seq<Segment>> {
        Some(self.0@)
    }

    fn get_type(&self) -> &'static str {
        "placeholder"
    }

    fn nested_segments(&self) -> Option<&Vec<Segment>> {
        Some(&self.0)
    }

    fn cast_node(n: &Node) -> Option<&Self> {
        match n {
            Node::Placeholder(x) => Some(x),
            _ => None,
        }
    }

    fn cast_node_mut(n: &mut Node) -> Option<&mut Self> {
        match n {
            Node::Placeholder(x) => Some(x),
            _ => None,
        }
    }
}

impl Field for Placeholder {

}

impl InteractiveSegment for Choice {
    open spec fn node_holds(n: Node) -> bool {
        n is Choice
    }

    open spec fn node_value(n: Node) -> Self {
        n->Choice_0
    }

    open spec fn node_wrap(self) -> Node {
        Node::Choice(self)
    }

    open spec fn spec_type_tag() -> Seq<char> {
        "choice"@
    }

    open spec fn spec_nested(self) -> Option<Seq<Segment>> {
        if self.0 < self.1.len() {
            Some(self.1[self.0 as int]@)
        } else {
            None
        }
    }

    fn get_type(&self) -> &'static str {
        "choice"
    }

    fn nested_segments(&self) -> Option<&Vec<Segment>> {
        if self.0 < self.1.len() {
            Some(&self.1[self.0])
        } else {
            None
        }
    }

    fn cast_node(n: &Node) -> Option<&Self> {
        match n {
            Node::Choice(x) => Some(x),
            _ => None,
        }
    }

    fn cast_node_mut(n: &mut Node) -> Option<&mut Self> {
        match n {
            Node::Choice(x) => Some(x),
            _ => None,
        }
    }
}

impl Field for Choice {

}

impl InteractiveSegment for Variable {
    open spec fn node_holds(n: Node) -> bool {
        n is Variable
    }

    open spec fn node_value(n: Node) -> Self {
        n->Variable_0
    }

    open spec fn node_wrap(self) -> Node {
        Node::Variable(self)
    }

    open spec fn spec_type_tag() -> Seq<char> {
        "variable"@
    }

    open spec fn spec_nested(self) -> Option<Seq<Segment>> {
        None
    }

    fn get_type(&self) -> &'static str {
        "variable"
    }

    fn nested_segments(&self) -> Option<&Vec<Segment>> {
        None
    }

    fn cast_node(n: &Node) -> Option<&Self> {
        match n {
            Node::Variable(x) => Some(x),
            _ => None,
        }
    }

    fn cast_node_mut(n: &mut Node) -> Option<&mut Self> {
        match n {
            Node::Variable(x) => Some(x),
            _ => None,
        }
    }
}

impl Programic for Variable {
    open spec fn spec_identifier(self) -> Seq<char> {
        self.name@
    }

    fn identifier(&self) -> &String {
        &self.name
    }
}

impl InteractiveSegment for Code {
    open spec fn node_holds(n: Node) -> bool {
        n is Code
    }

    open spec fn node_value(n: Node) -> Self {
        n->Code_0
    }

    open spec fn node_wrap(self) -> Node {
        Node::Code(self)
    }

    open spec fn spec_type_tag() -> Seq<char> {
        "code"@
    }

    open spec fn spec_nested(self) -> Option<Seq<Segment>> {
        None
    }

    fn get_type(&self) -> &'static str {
        "code"
    }

    fn nested_segments(&self) -> Option<&Vec<Segment>> {
        None
    }

    fn cast_node(n: &Node) -> Option<&Self> {
        match n {
            Node::Code(x) => Some(x),
            _ => None,
        }
    }

    fn cast_node_mut(n: &mut Node) -> Option<&mut Self> {
        match n {
            Node::Code(x) => Some(x),
            _ => None,
        }
    }
}

impl Programic for Code {
    open spec fn spec_identifier(self) -> Seq<char> {
        self.code_to_run@
    }

    fn identifier(&self) -> &String {
        &self.code_to_run
    }
}

} // verus!
