//! The aggregate root: an ordered body, navigable tab stops, the node store
//! they share, and the pruning of tab stops whose field displays nothing.

use vstd::prelude::*;

use crate::node::Node;
use crate::render::render_node;
use crate::render::render_segments;
use crate::render::spec_render_node;
use crate::render::spec_render_segments;
use crate::segment::Reference;
use crate::segment::Segment;

verus! {

/// An ordinal position bound to one field in the node store. Several tabs
/// may name the same field (mirrored tab stops): a change to the field is
/// visible through every tab and segment naming it.
#[derive(Clone, Copy, PartialEq, Eq, Structural, Debug)]
pub struct Tab {
    /// The ordinal in the navigation order.
    pub num: usize,
    /// The field's index in the snippet's node store.
    pub field: usize,
}

/// A whole interactive template.
///
/// The embedding parser constructs it whole, bottom-up; evaluation and
/// pruning mutate it in place; rendering walks `body` in order.
pub struct Snippet {
    /// The central store of interactive nodes. Segments, tabs and the
    /// evaluation list name nodes by index here, so one node can be held by
    /// several owners at once. A store built bottom-up only ever lets a
    /// node's children point at earlier indices.
    pub nodes: Vec<Node>,
    /// The ordered top-level segments: the literal render order.
    pub body: Vec<Segment>,
    /// The ordered navigable tab stops, in an order independent of the
    /// body's.
    pub tabs: Vec<Tab>,
    /// The nodes awaiting evaluation, each named by its index in the store.
    pub program_filled_text: Vec<usize>,
    /// The mirror values of the template.
    pub references: Vec<Reference>,
}

/// What remains of `s` once leading and trailing whitespace is removed.
/// Uninterpreted: the whitespace set is `str::trim`'s, and every use goes
/// through the one trusted wrapper below.
pub uninterp spec fn trimmed_of(s: Seq<char>) -> Seq<char>;

/// Relies on str::trim: removes leading and trailing whitespace; the result
/// depends on the characters alone.
#[verifier::external_body]
fn trim_str(s: &str) -> (r: String)
    ensures
        r@ == trimmed_of(s@),
{
    s.trim().to_owned()
}

/// Whether the field the tab is bound to displays only whitespace, or
/// nothing at all: such a tab stop has nothing left to navigate to.
pub open spec fn spec_tab_blank(nodes: Seq<Node>, t: Tab) -> bool {
    trimmed_of(spec_render_node(nodes, t.field as int)).len() == 0
}

/// The test a tab must pass to survive pruning: its field still displays
/// something beyond whitespace.
pub open spec fn spec_tab_kept(nodes: Seq<Node>) -> spec_fn(Tab) -> bool {
    |t: Tab| !spec_tab_blank(nodes, t)
}

/// The tab list with every blank-field tab removed, surviving tabs in their
/// original relative order.
pub open spec fn spec_trimmed_tabs(nodes: Seq<Node>, tabs: Seq<Tab>) -> Seq<Tab> {
    tabs.filter(spec_tab_kept(nodes))
}

/// Whether every node handle among the segments points strictly below
/// `bound` in the store.
pub open spec fn spec_segments_below(segs: Seq<Segment>, bound: int) -> bool {
    forall|k: int|
        0 <= k < segs.len() ==> ((#[trigger] segs[k]) matches Segment::Interactive(j) ==> (
        j as int) < bound)
}

/// Whether every node handle among a node's children points strictly below
/// `bound`: in a store built bottom-up, each node satisfies this at its own
/// index.
pub open spec fn spec_node_below(n: Node, bound: int) -> bool {
    match n {
        Node::Placeholder(p) => spec_segments_below(p.0@, bound),
        Node::Choice(c) => forall|a: int|
            0 <= a < c.1@.len() ==> spec_segments_below(#[trigger] c.1@[a]@, bound),
        Node::Variable(_) => true,
        Node::Code(_) => true,
    }
}

impl Snippet {
    /// Well-formedness of the aggregate: the store is bottom-up (each node's
    /// children point at earlier indices), every body handle points into the
    /// store, every tab stop is bound to a field kind (a placeholder or a
    /// choice, never a computed kind), and the evaluation list names only
    /// computed kinds.
    pub open spec fn wf(self) -> bool {
        &&& forall|i: int|
            0 <= i < self.nodes@.len() ==> spec_node_below(#[trigger] self.nodes@[i], i)
        &&& spec_segments_below(self.body@, self.nodes@.len() as int)
        &&& forall|k: int|
            0 <= k < self.tabs@.len() ==> (#[trigger] self.tabs@[k]).field < self.nodes@.len() && (
            self.nodes@[self.tabs@[k].field as int] is Placeholder
                || self.nodes@[self.tabs@[k].field as int] is Choice)
        &&& forall|k: int|
            0 <= k < self.program_filled_text@.len() ==> (#[trigger] self.program_filled_text@[k])
                < self.nodes@.len() && (self.nodes@[self.program_filled_text@[k] as int] is Variable
                || self.nodes@[self.program_filled_text@[k] as int] is Code)
    }

    /// What the whole template displays: the concatenation, in order, of
    /// what the body's segments display.
    pub open spec fn spec_render(self) -> Seq<char> {
        spec_render_segments(self.nodes@, self.nodes@.len() as int, self.body@)
    }

    /// What the whole template displays.
    pub fn render(&self) -> (out: String)
        ensures
            out@ == self.spec_render(),
    {
        render_segments(&self.nodes, self.nodes.len(), &self.body)
    }

    /// Drops every tab stop whose field renders to whitespace only, keeping
    /// the survivors in their relative order.
    ///
    /// Only tab-stop navigability is affected: the body, the node store (so
    /// every field shared with other owners), the evaluation list and the
    /// mirrors are left exactly as they were.
    pub fn trim_empty_tabs(&mut self)
        ensures
            final(self).nodes == old(self).nodes,
            final(self).body == old(self).body,
            final(self).program_filled_text == old(self).program_filled_text,
            final(self).references == old(self).references,
            final(self).tabs@ == spec_trimmed_tabs(old(self).nodes@, old(self).tabs@),
    {
        let ghost orig: Snippet = *self;
        let mut kept: Vec<Tab> = Vec::new();
        let mut k: usize = 0;
        while k < self.tabs.len()
            invariant
                *self == orig,
                k <= self.tabs.len(),
                kept@ == spec_trimmed_tabs(orig.nodes@, orig.tabs@.take(k as int)),
            decreases self.tabs.len() - k,
        {
            let t = self.tabs[k];
            let rendered = render_node(&self.nodes, t.field);
            let trimmed = trim_str(rendered.as_str());
            if !trimmed.as_str().is_empty() {
                kept.push(t);
            }
            proof {
                reveal(Seq::filter);
                assert(orig.tabs@.take(k as int + 1).drop_last() =~= orig.tabs@.take(k as int));
            }
            k = k + 1;
        }
        proof {
            assert(orig.tabs@.take(orig.tabs@.len() as int) =~= orig.tabs@);
        }
        self.tabs = kept;
    }
}

} // verus!
