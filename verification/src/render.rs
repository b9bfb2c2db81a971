//! Rendering: what each segment and node displays.
//!
//! Interactive nodes live in a store (the snippet's node list) and are named
//! by index, so rendering is relative to that store. A store built bottom-up
//! only ever lets a node's children point at earlier indices; a handle at or
//! past the `bound` (the index of the node being rendered, or the store's
//! length at top level) is out of the built part and displays nothing.

use vstd::prelude::*;
use vstd::string::StringExecFns;

use crate::node::Node;
use crate::segment::Reference;
use crate::segment::Segment;

verus! {

/// What a mirror displays: its text, independent of the field it mirrors.
pub open spec fn spec_render_reference(r: Reference) -> Seq<char> {
    match r {
        Reference::Text(_label, text) => text@,
    }
}

/// What the node at index `i` of the store displays.
///
/// A placeholder displays the concatenation of its children's renderings in
/// order; a choice that of the selected alternative's children, or nothing
/// when the selection index is out of range; the computed kinds display
/// their cached value. An index outside the store displays nothing.
pub open spec fn spec_render_node(nodes: Seq<Node>, i: int) -> Seq<char>
    decreases i, 2int, 0int,
{
    if 0 <= i < nodes.len() {
        match nodes[i] {
            Node::Placeholder(p) => spec_render_segments(nodes, i, p.0@),
            Node::Choice(c) => if c.0 < c.1.len() {
                spec_render_segments(nodes, i, c.1[c.0 as int]@)
            } else {
                Seq::empty()
            },
            Node::Variable(v) => v.value@,
            Node::Code(code) => code.output@,
        }
    } else {
        Seq::empty()
    }
}

/// The concatenation, in order, of what the segments display.
pub open spec fn spec_render_segments(nodes: Seq<Node>, bound: int, segs: Seq<Segment>) -> Seq<
    char,
>
    decreases bound, 1int, segs.len(),
{
    if segs.len() == 0 {
        Seq::empty()
    } else {
        spec_render_segments(nodes, bound, segs.drop_last()) + spec_render_segment(
            nodes,
            bound,
            segs.last(),
        )
    }
}

/// What one segment displays: literal text itself, a mirror its text, and a
/// node handle what the node at that index displays, provided the index is
/// under `bound`.
pub open spec fn spec_render_segment(nodes: Seq<Node>, bound: int, seg: Segment) -> Seq<char>
    decreases bound, 0int, 0int,
{
    match seg {
        Segment::Text(t) => t@,
        Segment::Reference(r) => spec_render_reference(r),
        Segment::Interactive(j) => if (j as int) < bound {
            spec_render_node(nodes, j as int)
        } else {
            Seq::empty()
        },
    }
}

/// What a mirror displays.
pub fn render_reference(r: &Reference) -> (out: String)
    ensures
        out@ == spec_render_reference(*r),
{
    match r {
        Reference::Text(_label, text) => text.clone(),
    }
}

/// What the node at index `i` of the store displays.
pub fn render_node(nodes: &Vec<Node>, i: usize) -> (out: String)
    ensures
        out@ == spec_render_node(nodes@, i as int),
    decreases i, 2int, 0int,
{
    if i < nodes.len() {
        match &nodes[i] {
            Node::Placeholder(p) => render_segments(nodes, i, &p.0),
            Node::Choice(c) => {
                if c.0 < c.1.len() {
                    render_segments(nodes, i, &c.1[c.0])
                } else {
                    String::new()
                }
            },
            Node::Variable(v) => v.value.clone(),
            Node::Code(code) => code.output.clone(),
        }
    } else {
        String::new()
    }
}

/// The concatenation, in order, of what the segments display.
pub fn render_segments(nodes: &Vec<Node>, bound: usize, segs: &Vec<Segment>) -> (out: String)
    ensures
        out@ == spec_render_segments(nodes@, bound as int, segs@),
    decreases bound, 1int, segs.len(),
{
    let mut out = String::new();
    let mut k: usize = 0;
    while k < segs.len()
        invariant
            k <= segs.len(),
            out@ == spec_render_segments(nodes@, bound as int, segs@.take(k as int)),
        decreases segs.len() - k,
    {
        let piece = render_segment(nodes, bound, &segs[k]);
        out.append(piece.as_str());
        proof {
            assert(segs@.take(k as int + 1).drop_last() =~= segs@.take(k as int));
        }
        k = k + 1;
    }
    proof {
        assert(segs@.take(segs@.len() as int) =~= segs@);
    }
    out
}

/// What one segment displays.
pub fn render_segment(nodes: &Vec<Node>, bound: usize, seg: &Segment) -> (out: String)
    ensures
        out@ == spec_render_segment(nodes@, bound as int, *seg),
    decreases bound, 0int, 0int,
{
    match seg {
        Segment::Text(t) => t.clone(),
        Segment::Reference(r) => render_reference(r),
        Segment::Interactive(j) => {
            if *j < bound {
                render_node(nodes, *j)
            } else {
                String::new()
            }
        },
    }
}

} // verus!
