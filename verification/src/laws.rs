//! The laws the model keeps, stated over the rendering and pruning
//! specifications and proved once and for all.

use vstd::prelude::*;

use crate::node::Node;
use crate::render::spec_render_node;
use crate::render::spec_render_segment;
use crate::render::spec_render_segments;
use crate::segment::Segment;
use crate::snippet::spec_tab_kept;
use crate::snippet::spec_trimmed_tabs;
use crate::snippet::Snippet;
use crate::snippet::Tab;

verus! {

/// What each of the segments displays, one rendering per segment, in order.
pub open spec fn spec_child_renders(nodes: Seq<Node>, bound: int, segs: Seq<Segment>) -> Seq<
    Seq<char>,
> {
    segs.map_values(|s: Segment| spec_render_segment(nodes, bound, s))
}

/// Law: rendering a sequence of segments is exactly the concatenation, in
/// order, of each segment's own rendering; no segments, no text.
pub proof fn lemma_render_segments_is_flatten(nodes: Seq<Node>, bound: int, segs: Seq<Segment>)
    ensures
        spec_render_segments(nodes, bound, segs) == spec_child_renders(
            nodes,
            bound,
            segs,
        ).flatten(),
    decreases segs.len(),
{
    let children = spec_child_renders(nodes, bound, segs);
    children.lemma_flatten_and_flatten_alt_are_equivalent();
    if segs.len() == 0 {
        assert(children.flatten() =~= Seq::<char>::empty());
    } else {
        let rest = spec_child_renders(nodes, bound, segs.drop_last());
        lemma_render_segments_is_flatten(nodes, bound, segs.drop_last());
        rest.lemma_flatten_and_flatten_alt_are_equivalent();
        assert(children.drop_last() =~= rest);
        assert(children.last() == spec_render_segment(nodes, bound, segs.last()));
    }
}

/// Law: a placeholder displays the concatenation of its children's
/// renderings, in order, and an empty placeholder displays the empty string.
pub proof fn lemma_placeholder_renders_children(nodes: Seq<Node>, i: int)
    requires
        0 <= i < nodes.len(),
        nodes[i] is Placeholder,
    ensures
        spec_render_node(nodes, i) == spec_child_renders(
            nodes,
            i,
            nodes[i]->Placeholder_0.0@,
        ).flatten(),
        nodes[i]->Placeholder_0.0@.len() == 0 ==> spec_render_node(nodes, i) == Seq::<
            char,
        >::empty(),
{
    lemma_render_segments_is_flatten(nodes, i, nodes[i]->Placeholder_0.0@);
}

/// Law: a choice whose selection index is in range displays the
/// concatenation of the selected alternative's children's renderings, in
/// order; one whose index is out of range is unselected and displays the
/// empty string.
pub proof fn lemma_choice_renders_selection(nodes: Seq<Node>, i: int)
    requires
        0 <= i < nodes.len(),
        nodes[i] is Choice,
    ensures
        (nodes[i]->Choice_0.0 as int) < nodes[i]->Choice_0.1@.len() ==> spec_render_node(nodes, i)
            == spec_child_renders(
            nodes,
            i,
            nodes[i]->Choice_0.1@[nodes[i]->Choice_0.0 as int]@,
        ).flatten(),
        (nodes[i]->Choice_0.0 as int) >= nodes[i]->Choice_0.1@.len() ==> spec_render_node(nodes, i)
            == Seq::<char>::empty(),
{
    let c = nodes[i]->Choice_0;
    if (c.0 as int) < c.1@.len() {
        lemma_render_segments_is_flatten(nodes, i, c.1@[c.0 as int]@);
    }
}

/// Filtering a sequence is idempotent: what survives one pass survives a
/// second pass unchanged.
proof fn lemma_filter_idempotent<A>(s: Seq<A>, pred: spec_fn(A) -> bool)
    ensures
        s.filter(pred).filter(pred) == s.filter(pred),
    decreases s.len(),
{
    reveal(Seq::filter);
    if s.len() != 0 {
        lemma_filter_idempotent(s.drop_last(), pred);
        let sub = s.drop_last().filter(pred);
        if pred(s.last()) {
            assert(sub.push(s.last()).drop_last() =~= sub);
        }
    }
}

/// Law: pruning the tab list is idempotent. Pruning it a second time, over
/// the same node store, leaves exactly the tab list the first pruning left.
pub proof fn lemma_trim_empty_tabs_idempotent(nodes: Seq<Node>, tabs: Seq<Tab>)
    ensures
        spec_trimmed_tabs(nodes, spec_trimmed_tabs(nodes, tabs)) == spec_trimmed_tabs(nodes, tabs),
{
    lemma_filter_idempotent(tabs, spec_tab_kept(nodes));
}

/// Everything a filter keeps was in the sequence it filtered.
proof fn lemma_filter_members<A>(s: Seq<A>, pred: spec_fn(A) -> bool)
    ensures
        forall|i: int|
            0 <= i < s.filter(pred).len() ==> s.contains(#[trigger] s.filter(pred)[i]),
    decreases s.len(),
{
    reveal(Seq::filter);
    if s.len() != 0 {
        lemma_filter_members(s.drop_last(), pred);
        let f = s.filter(pred);
        let fsub = s.drop_last().filter(pred);
        assert forall|i: int| 0 <= i < f.len() implies s.contains(#[trigger] f[i]) by {
            if pred(s.last()) && i == fsub.len() {
                assert(s[s.len() - 1] == f[i]);
            } else {
                assert(f[i] == fsub[i]);
                assert(s.drop_last().contains(fsub[i]));
                let w = choose|w: int|
                    0 <= w < s.drop_last().len() && s.drop_last()[w] == fsub[i];
                assert(s[w] == f[i]);
            }
        }
    }
}

/// Law: pruning preserves the aggregate's well-formedness. With the store,
/// body, evaluation list and mirrors untouched and the tab list only
/// thinned, every surviving tab is still bound to a field kind inside the
/// store.
pub proof fn lemma_trim_empty_tabs_preserves_wf(before: Snippet, after: Snippet)
    requires
        before.wf(),
        after.nodes == before.nodes,
        after.body == before.body,
        after.program_filled_text == before.program_filled_text,
        after.references == before.references,
        after.tabs@ == spec_trimmed_tabs(before.nodes@, before.tabs@),
    ensures
        after.wf(),
{
    lemma_filter_members(before.tabs@, spec_tab_kept(before.nodes@));
    assert forall|k: int| 0 <= k < after.tabs@.len() implies (#[trigger] after.tabs@[k]).field
        < after.nodes@.len() && (after.nodes@[after.tabs@[k].field as int] is Placeholder
        || after.nodes@[after.tabs@[k].field as int] is Choice) by {
        assert(before.tabs@.contains(after.tabs@[k]));
        let w = choose|w: int|
            0 <= w < before.tabs@.len() && before.tabs@[w] == after.tabs@[k];
        assert(before.tabs@[w].field < before.nodes@.len());
    }
}

} // verus!
