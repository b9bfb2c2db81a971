//! The units a snippet body is made of: literal text, handles to interactive
//! nodes, and mirror references.

use vstd::prelude::*;

verus! {

/// A mirror of another field's content: it re-displays that content without
/// owning the field. Compared by structural equality; rendered independently
/// of the field it mirrors.
#[derive(Clone)]
pub enum Reference {
    /// A textual mirror: a label naming the mirrored field, and the text
    /// displayed in its place.
    Text(String, String),
}

/// One unit of a snippet body.
///
/// Interactive nodes live in a central store (the snippet's node list); a
/// segment refers to one by its index there, so the same node may be held by
/// several segments and by tab stops at once.
pub enum Segment {
    /// Literal text.
    Text(String),
    /// An interactive node, named by its index in the snippet's node store.
    Interactive(usize),
    /// A mirror of another field's content.
    Reference(Reference),
}

impl Reference {
    /// Field-wise equality of two mirrors, as a spec-level predicate.
    pub open spec fn eq_spec(&self, other: &Reference) -> bool {
        match (self, other) {
            (Reference::Text(l1, t1), Reference::Text(l2, t2)) => l1@ == l2@ && t1@ == t2@,
        }
    }

    /// Whether this mirror equals a segment: only a `Segment::Reference`
    /// carrying a field-wise equal mirror compares equal; text and
    /// interactive segments never do.
    pub open spec fn eq_segment_spec(&self, other: &Segment) -> bool {
        match other {
            Segment::Reference(r) => self.eq_spec(r),
            _ => false,
        }
    }
}

impl PartialEq for Reference {
    fn eq(&self, other: &Reference) -> (r: bool) {
        match (self, other) {
            (Reference::Text(l1, t1), Reference::Text(l2, t2)) => *l1 == *l2 && *t1 == *t2,
        }
    }
}

impl vstd::std_specs::cmp::PartialEqSpecImpl for Reference {
    open spec fn obeys_eq_spec() -> bool {
        true
    }

    open spec fn eq_spec(&self, other: &Reference) -> bool {
        Reference::eq_spec(self, other)
    }
}

impl PartialEq<Segment> for Reference {
    fn eq(&self, other: &Segment) -> (r: bool) {
        match other {
            Segment::Reference(r) => self == r,
            _ => false,
        }
    }
}

impl vstd::std_specs::cmp::PartialEqSpecImpl<Segment> for Reference {
    open spec fn obeys_eq_spec() -> bool {
        true
    }

    open spec fn eq_spec(&self, other: &Segment) -> bool {
        self.eq_segment_spec(other)
    }
}

} // verus!
