//! Flattening a built element tree into the wire format: a list of nodes in
//! which every container refers to its children by index.
use vstd::prelude::*;
use crate::elements::{
    empty_style, DivNode, ImgNode, InputNode, SvgNode, TextNode, UiNode, UiTree, UniformListNode,
};
use crate::ui::{AnyNode, Div};

verus! {

/// Number of nodes in the subtree rooted at `n`.
pub open spec fn node_size(n: AnyNode) -> nat
    decreases n,
{
    match n {
        AnyNode::Div(d) => 1 + children_size(d.children@),
        _ => 1,
    }
}

/// Number of nodes in a list of subtrees.
pub open spec fn children_size(s: Seq<AnyNode>) -> nat
    decreases s,
{
    if s.len() == 0 {
        0
    } else {
        children_size(s.drop_last()) + node_size(s.last())
    }
}

/// Where each subtree of `s` starts when the list is laid out from `start`.
pub open spec fn child_indices(s: Seq<AnyNode>, start: int) -> Seq<u32>
    decreases s.len(),
{
    if s.len() == 0 {
        Seq::empty()
    } else {
        child_indices(s.drop_last(), start).push((start + children_size(s.drop_last())) as u32)
    }
}

/// `out[at]` holds `n` and the nodes after it hold `n`'s subtree, laid out
/// depth-first: a container is followed by its first child's subtree, then
/// its second child's, and so on, and it lists where each one starts.
pub open spec fn is_flat(out: Seq<UiNode>, at: int, n: AnyNode) -> bool
    decreases n,
{
    &&& 0 <= at < out.len()
    &&& match n {
        AnyNode::Div(d) => {
            &&& out[at] matches UiNode::Div(dn)
            &&& dn.id == d.id
            &&& dn.focus_handle_id == d.focus_handle_id
            &&& dn.style == d.style
            &&& dn.events == d.events
            &&& dn.tooltip == d.tooltip
            &&& dn.children@ == child_indices(d.children@, at + 1)
            &&& flat_list(out, at + 1, d.children@)
        },
        AnyNode::Text(content, style) => out[at] == UiNode::Text(TextNode { content, style }),
        AnyNode::Img(id, src, style, events) => out[at] == UiNode::Img(ImgNode { id, src, style, events }),
        AnyNode::Svg(source, color, style) => out[at] == UiNode::Svg(SvgNode { source, color, style }),
        AnyNode::Input(id, value, placeholder, disabled, style) => out[at] == UiNode::Input(
            InputNode { id, value, placeholder, disabled, style },
        ),
        AnyNode::UniformList(id, item_count, item_height, style, fill_width) => out[at]
            == UiNode::UniformList(UniformListNode { id, item_count, item_height, style, fill_width }),
    }
}

/// The subtrees of `s`, one after the other, starting at `out[start]`.
pub open spec fn flat_list(out: Seq<UiNode>, start: int, s: Seq<AnyNode>) -> bool
    decreases s,
{
    s.len() == 0 || (flat_list(out, start, s.drop_last()) && is_flat(
        out,
        start + children_size(s.drop_last()),
        s.last(),
    ))
}

pub proof fn lemma_node_size_positive(n: AnyNode)
    ensures
        node_size(n) >= 1,
{
}

/// The subtrees of a prefix take no more nodes than the whole list.
pub proof fn lemma_children_size_prefix(s: Seq<AnyNode>, j: int)
    requires
        0 <= j <= s.len(),
    ensures
        children_size(s.take(j)) <= children_size(s),
    decreases s.len(),
{
    if j < s.len() {
        assert(s.drop_last().take(j) =~= s.take(j));
        lemma_children_size_prefix(s.drop_last(), j);
    } else {
        assert(s.take(j) =~= s);
    }
}

/// Each child of a container is smaller than the container.
proof fn lemma_child_decreases(d: Div, k: int)
    requires
        0 <= k < d.children@.len(),
    ensures
        decreases_to!(AnyNode::Div(d) => d.children@[k]),
{
    broadcast use vstd::std_specs::vec::axiom_vec_decreases_to_view;

    let n = AnyNode::Div(d);
    assert(decreases_to!(n => n->Div_0));
    assert(decreases_to!(d => d.children));
    assert(decreases_to!(d.children => d.children@));
    assert(decreases_to!(d.children@ => d.children@[k]));
}

/// A flat subtree stays flat in any node list that agrees with it on the
/// subtree's index range.
pub proof fn lemma_flat_frame(out1: Seq<UiNode>, out2: Seq<UiNode>, at: int, n: AnyNode)
    requires
        is_flat(out1, at, n),
        at + node_size(n) <= out2.len(),
        forall|i: int| at <= i < at + node_size(n) ==> out1[i] == out2[i],
    ensures
        is_flat(out2, at, n),
    decreases n,
{
    lemma_node_size_positive(n);
    match n {
        AnyNode::Div(d) => {
            lemma_flat_list_frame(out1, out2, at + 1, d.children@);
        },
        _ => {},
    }
}

pub proof fn lemma_flat_list_frame(out1: Seq<UiNode>, out2: Seq<UiNode>, start: int, s: Seq<AnyNode>)
    requires
        flat_list(out1, start, s),
        start + children_size(s) <= out2.len(),
        forall|i: int| start <= i < start + children_size(s) ==> out1[i] == out2[i],
    ensures
        flat_list(out2, start, s),
    decreases s,
{
    if s.len() > 0 {
        lemma_flat_list_frame(out1, out2, start, s.drop_last());
        lemma_flat_frame(out1, out2, start + children_size(s.drop_last()), s.last());
    }
}

/// The children of every container in `out[lo..hi]` come after it and
/// before `hi`: following child links from a node only moves forward and
/// never leaves the range.
pub open spec fn children_forward(out: Seq<UiNode>, lo: int, hi: int) -> bool {
    forall|i: int, j: int|
        #![trigger out[i]->Div_0.children@[j]]
        lo <= i < hi && out[i] is Div && 0 <= j < out[i]->Div_0.children@.len() ==> i
            < out[i]->Div_0.children@[j] < hi
}

/// A tree whose root is one of its nodes and whose child links all point
/// forward to nodes of the tree; walking it from the root always ends.
pub open spec fn tree_well_formed(t: UiTree) -> bool {
    &&& t.root < t.nodes@.len()
    &&& children_forward(t.nodes@, 0, t.nodes@.len() as int)
}

/// Child `j` of a list laid out from `start` begins after the subtrees of the
/// children before it.
pub proof fn lemma_child_indices(s: Seq<AnyNode>, start: int)
    ensures
        child_indices(s, start).len() == s.len(),
        forall|j: int|
            0 <= j < s.len() ==> #[trigger] child_indices(s, start)[j] == (start + children_size(
                s.take(j),
            )) as u32,
    decreases s.len(),
{
    if s.len() > 0 {
        lemma_child_indices(s.drop_last(), start);
        assert forall|j: int| 0 <= j < s.len() implies #[trigger] child_indices(s, start)[j] == (start
            + children_size(s.take(j))) as u32 by {
            if j < s.len() - 1 {
                assert(s.drop_last().take(j) =~= s.take(j));
            } else {
                assert(s.take(j) =~= s.drop_last());
            }
        }
    }
}

/// The subtrees before child `j` take fewer nodes than the whole list.
pub proof fn lemma_children_size_strict(s: Seq<AnyNode>, j: int)
    requires
        0 <= j < s.len(),
    ensures
        children_size(s.take(j)) + node_size(s[j]) <= children_size(s),
{
    lemma_children_size_prefix(s, j + 1);
    assert(s.take(j + 1).drop_last() =~= s.take(j));
}

/// In a flat subtree, child links point forward and stay inside the subtree.
pub proof fn lemma_flat_forward(out: Seq<UiNode>, at: int, n: AnyNode)
    requires
        is_flat(out, at, n),
        at + node_size(n) <= u32::MAX as int + 1,
    ensures
        children_forward(out, at, at + node_size(n)),
    decreases n,
{
    match n {
        AnyNode::Div(d) => {
            let kids = d.children@;
            lemma_flat_list_forward(out, at + 1, kids);
            lemma_child_indices(kids, at + 1);
            assert forall|i: int, j: int|
                #![trigger out[i]->Div_0.children@[j]]
                at <= i < at + node_size(n) && out[i] is Div && 0 <= j < out[i]->Div_0.children@.len()
                    implies i < out[i]->Div_0.children@[j] < at + node_size(n) by {
                if i == at {
                    lemma_children_size_strict(kids, j);
                    lemma_node_size_positive(kids[j]);
                }
            }
        },
        _ => {},
    }
}

pub proof fn lemma_flat_list_forward(out: Seq<UiNode>, start: int, s: Seq<AnyNode>)
    requires
        flat_list(out, start, s),
        0 <= start,
        start + children_size(s) <= u32::MAX as int + 1,
    ensures
        children_forward(out, start, start + children_size(s)),
    decreases s,
{
    if s.len() > 0 {
        let mid = start + children_size(s.drop_last());
        lemma_flat_list_forward(out, start, s.drop_last());
        lemma_flat_forward(out, mid, s.last());
    }
}

/// How many times `m` occurs in `s`.
pub open spec fn count_of(s: Seq<u32>, m: int) -> nat
    decreases s.len(),
{
    if s.len() == 0 {
        0
    } else {
        count_of(s.drop_last(), m) + if s.last() == m { 1nat } else { 0nat }
    }
}

/// How many times the containers among `out[lo..hi]` list `m` as a child.
pub open spec fn parent_links(out: Seq<UiNode>, lo: int, hi: int, m: int) -> nat
    decreases hi - lo,
{
    if hi <= lo {
        0
    } else {
        parent_links(out, lo, hi - 1, m) + match out[hi - 1] {
            UiNode::Div(d) => count_of(d.children@, m),
            _ => 0nat,
        }
    }
}

/// Counting over a range is counting over its two halves.
pub proof fn lemma_parent_links_split(out: Seq<UiNode>, lo: int, mid: int, hi: int, m: int)
    requires
        lo <= mid <= hi,
    ensures
        parent_links(out, lo, hi, m) == parent_links(out, lo, mid, m) + parent_links(out, mid, hi, m),
    decreases hi - mid,
{
    if hi > mid {
        lemma_parent_links_split(out, lo, mid, hi - 1, m);
    }
}

/// In a flat subtree at `at`, every node but the first is listed as a child
/// exactly once by the containers of the subtree, and no other index is.
pub proof fn lemma_flat_parent_links(out: Seq<UiNode>, at: int, n: AnyNode, m: int)
    requires
        is_flat(out, at, n),
        0 <= at,
        at + node_size(n) <= u32::MAX as int + 1,
    ensures
        parent_links(out, at, at + node_size(n), m) == if at < m < at + node_size(n) { 1nat } else { 0nat },
    decreases n,
{
    lemma_parent_links_split(out, at, at + 1, at + node_size(n), m);
    assert(parent_links(out, at, at, m) == 0);
    match n {
        AnyNode::Div(d) => {
            let kids = d.children@;
            lemma_flat_list_parent_links(out, at + 1, kids, m);
            assert(parent_links(out, at, at + 1, m) == count_of(out[at]->Div_0.children@, m));
            assert(out[at]->Div_0.children@ == child_indices(kids, at + 1));
        },
        _ => {
            assert(parent_links(out, at, at + 1, m) == 0);
        },
    }
}

/// In a flat list of subtrees from `start`, the containers of the list list
/// every node of the list that does not begin a subtree exactly once, and
/// the subtrees' first nodes are exactly the list's child indices.
pub proof fn lemma_flat_list_parent_links(out: Seq<UiNode>, start: int, s: Seq<AnyNode>, m: int)
    requires
        flat_list(out, start, s),
        0 <= start,
        start + children_size(s) <= u32::MAX as int + 1,
    ensures
        parent_links(out, start, start + children_size(s), m) + count_of(child_indices(s, start), m)
            == if start <= m < start + children_size(s) { 1nat } else { 0nat },
    decreases s,
{
    if s.len() > 0 {
        let rest = s.drop_last();
        let p = start + children_size(rest);
        lemma_node_size_positive(s.last());
        lemma_flat_list_parent_links(out, start, rest, m);
        lemma_flat_parent_links(out, p, s.last(), m);
        lemma_parent_links_split(out, start, p, start + children_size(s), m);
        if m >= p {
            lemma_child_indices_below(rest, start, m);
        }
        assert(child_indices(s, start).drop_last() == child_indices(rest, start));
    }
}

/// The child indices of a list laid out from `start` lie below the end of
/// the list, so an index at or past the end occurs among them no time.
proof fn lemma_child_indices_below(s: Seq<AnyNode>, start: int, m: int)
    requires
        0 <= start,
        start + children_size(s) <= u32::MAX as int + 1,
        m >= start + children_size(s),
    ensures
        count_of(child_indices(s, start), m) == 0,
    decreases s.len(),
{
    if s.len() > 0 {
        let rest = s.drop_last();
        lemma_node_size_positive(s.last());
        lemma_child_indices_below(rest, start, m);
        assert(child_indices(s, start).drop_last() == child_indices(rest, start));
    }
}

/// Lay `node`'s subtree out at the end of `nodes` and return the index of its
/// first node.
fn flatten_node(nodes: &mut Vec<UiNode>, node: AnyNode) -> (idx: u32)
    requires
        old(nodes)@.len() + node_size(node) <= u32::MAX as int + 1,
    ensures
        idx == old(nodes)@.len(),
        final(nodes)@.len() == old(nodes)@.len() + node_size(node),
        final(nodes)@.take(old(nodes)@.len() as int) == old(nodes)@,
        is_flat(final(nodes)@, idx as int, node),
    decreases node,
{
    let ghost old_nodes = nodes@;
    proof {
        lemma_node_size_positive(node);
    }
    let idx = nodes.len() as u32;
    // Reserve the slot so that children can refer to the right indices.
    nodes.push(UiNode::Text(TextNode { content: String::new(), style: empty_style() }));
    let ghost node_copy = node;
    let wit_node = match node {
        AnyNode::Div(div) => {
            let ghost kids = div.children@;
            let ghost div_copy = div;
            let ghost start = idx as int + 1;
            let mut rest = div.children;
            let mut children: Vec<u32> = Vec::new();
            let mut k: usize = 0;
            let n = rest.len();
            proof {
                assert(kids.take(0) =~= Seq::<AnyNode>::empty());
                assert(nodes@.take(idx as int) =~= old_nodes);
            }
            while rest.len() > 0
                invariant
                    n == kids.len(),
                    k <= kids.len(),
                    rest@ == kids.skip(k as int),
                    node_copy == AnyNode::Div(div_copy),
                    node_copy == node,
                    kids == div_copy.children@,
                    start == idx + 1,
                    idx == old_nodes.len(),
                    old_nodes.len() + 1 + children_size(kids) <= u32::MAX as int + 1,
                    nodes@.len() == start + children_size(kids.take(k as int)),
                    nodes@.take(idx as int) == old_nodes,
                    children@ == child_indices(kids.take(k as int), start),
                    flat_list(nodes@, start, kids.take(k as int)),
                decreases rest@.len(),
            {
                let ghost before = nodes@;
                let child = rest.remove(0);
                proof {
                    assert(child == kids[k as int]);
                    lemma_child_decreases(div_copy, k as int);
                    lemma_children_size_prefix(kids, k + 1);
                    assert(kids.take(k + 1).drop_last() =~= kids.take(k as int));
                }
                let ci = flatten_node(nodes, child);
                children.push(ci);
                proof {
                    lemma_flat_list_frame(before, nodes@, start, kids.take(k as int));
                    assert(nodes@.take(idx as int) =~= before.take(idx as int));
                    assert(kids.skip(k + 1) =~= kids.skip(k as int).drop_first());
                }
                k = k + 1;
            }
            proof {
                assert(kids.take(k as int) =~= kids);
            }
            UiNode::Div(
                DivNode {
                    id: div.id,
                    focus_handle_id: div.focus_handle_id,
                    style: div.style,
                    events: div.events,
                    tooltip: div.tooltip,
                    children,
                },
            )
        },
        AnyNode::Text(content, style) => UiNode::Text(TextNode { content, style }),
        AnyNode::Img(id, src, style, events) => UiNode::Img(ImgNode { id, src, style, events }),
        AnyNode::Svg(source, color, style) => UiNode::Svg(SvgNode { source, color, style }),
        AnyNode::Input(id, value, placeholder, disabled, style) => UiNode::Input(
            InputNode { id, value, placeholder, disabled, style },
        ),
        AnyNode::UniformList(id, item_count, item_height, style, fill_width) => UiNode::UniformList(
            UniformListNode { id, item_count, item_height, style, fill_width },
        ),
    };
    let ghost before_set = nodes@;
    nodes.set(idx as usize, wit_node);
    proof {
        assert(nodes@.take(idx as int) =~= old_nodes);
        match node_copy {
            AnyNode::Div(d) => {
                lemma_flat_list_frame(before_set, nodes@, idx + 1, d.children@);
            },
            _ => {},
        }
    }
    idx
}

/// Flatten a root `Div` into a tree suitable for passing to the host: the
/// root is node 0 and the tree has one node per element.
pub fn render_tree(root: Div) -> (tree: UiTree)
    requires
        node_size(AnyNode::Div(root)) <= u32::MAX as int + 1,
    ensures
        tree.root == 0,
        tree.nodes@.len() == node_size(AnyNode::Div(root)),
        is_flat(tree.nodes@, 0, AnyNode::Div(root)),
        tree_well_formed(tree),
{
    let mut nodes: Vec<UiNode> = Vec::new();
    let ghost whole = AnyNode::Div(root);
    let root_idx = flatten_node(&mut nodes, AnyNode::Div(root));
    proof {
        lemma_flat_forward(nodes@, 0, whole);
    }
    UiTree { nodes, root: root_idx }
}

} // verus!
