//! Threaded comments: the tree, the rows of it that are visible, collapsing a thread,
//! and how a fetched level of comments becomes nodes.
use vstd::prelude::*;
use crate::api::{Item, plain_of};

verus! {

/// One comment with its replies.
pub struct CommentNode {
    pub item: Item,
    /// The comment's text as plain text.
    pub text: String,
    pub depth: usize,
    pub collapsed: bool,
    pub children: Vec<CommentNode>,
}

/// How deep replies are fetched: a node at this depth gets no children.
pub const MAX_DEPTH: usize = 6;

impl CommentNode {
    /// A node for `item` at `depth`, expanded and without replies yet.
    pub fn new(item: Item, depth: usize) -> (r: CommentNode)
        ensures
            r.item == item,
            r.text@ == plain_of(item@.text),
            r.depth == depth,
            !r.collapsed,
            r.children@.len() == 0,
    {
        let text = item.text_plain();
        CommentNode { item, text, depth, collapsed: false, children: Vec::new() }
    }

    /// The visible rows of this thread, in display order: the node itself, then, unless it
    /// is collapsed, the rows of each reply in turn; each row with its depth.
    pub fn flatten(&self) -> (r: Vec<(&CommentNode, usize)>)
        ensures
            rows_match(r@, flat_node(*self)),
        decreases *self,
    {
        let mut out: Vec<(&CommentNode, usize)> = Vec::new();
        out.push((self, self.depth));
        if !self.collapsed {
            let mut i: usize = 0;
            while i < self.children.len()
                invariant
                    i <= self.children@.len(),
                    !self.collapsed,
                    rows_match(out@, seq![(*self, self.depth)] + flat_list(self.children@.take(i as int))),
                decreases self.children@.len() - i,
            {
                assert(decreases_to!(*self => self.children));
                assert(decreases_to!(self.children => self.children@));
                assert(decreases_to!(self.children@ => self.children@[i as int]));
                let sub = self.children[i].flatten();
                let ghost before = out@;
                append_rows(&mut out, sub);
                proof {
                    let t = self.children@.take(i + 1);
                    assert(t.drop_last() =~= self.children@.take(i as int));
                    assert(t.last() == self.children@[i as int]);
                    assert(seq![(*self, self.depth)] + flat_list(t) =~= (seq![(*self, self.depth)]
                        + flat_list(self.children@.take(i as int))) + flat_node(
                        self.children@[i as int],
                    ));
                }
                i = i + 1;
            }
            assert(self.children@.take(self.children@.len() as int) =~= self.children@);
        } else {
            assert(seq![(*self, self.depth)] + Seq::<(CommentNode, usize)>::empty() =~= seq![
                (*self, self.depth),
            ]);
        }
        out
    }

    /// The ids of the replies to fetch for this node: its item's replies while the node is
    /// shallower than `MAX_DEPTH`, else none.
    pub fn kids_to_load(&self) -> (r: Vec<u64>)
        ensures
            r@ == kids_to_load_spec(*self),
    {
        if self.depth < MAX_DEPTH {
            match &self.item.kids {
                Some(k) => k.clone(),
                None => Vec::new(),
            }
        } else {
            Vec::new()
        }
    }
}

/// The replies fetched for a node.
pub open spec fn kids_to_load_spec(n: CommentNode) -> Seq<u64> {
    if n.depth < MAX_DEPTH {
        match n.item.kids {
            Some(k) => k@,
            None => Seq::empty(),
        }
    } else {
        Seq::empty()
    }
}

/// The rows of a node: itself with its depth, then those of its replies unless collapsed.
pub open spec fn flat_node(n: CommentNode) -> Seq<(CommentNode, usize)>
    decreases n,
{
    seq![(n, n.depth)] + if n.collapsed {
        Seq::empty()
    } else {
        proof {
            assert(decreases_to!(n => n.children));
            assert(decreases_to!(n.children => n.children@));
        }
        flat_list(n.children@)
    }
}

/// The rows of a list of nodes, one node after the other.
pub open spec fn flat_list(s: Seq<CommentNode>) -> Seq<(CommentNode, usize)>
    decreases s,
{
    if s.len() == 0 {
        Seq::empty()
    } else {
        proof {
            assert(decreases_to!(s => s[s.len() - 1]));
        }
        flat_list(s.drop_last()) + flat_node(s.last())
    }
}

/// The rows `r` (which refer to nodes) are the rows `f`.
pub open spec fn rows_match(r: Seq<(&CommentNode, usize)>, f: Seq<(CommentNode, usize)>) -> bool {
    r.len() == f.len() && forall|k: int| 0 <= k < r.len() ==> *r[k].0 == f[k].0 && r[k].1 == f[k].1
}

/// Appends the rows `sub` to `out`.
fn append_rows<'a>(out: &mut Vec<(&'a CommentNode, usize)>, sub: Vec<(&'a CommentNode, usize)>)
    ensures
        final(out)@ == old(out)@ + sub@,
{
    let ghost start = out@;
    let mut i: usize = 0;
    while i < sub.len()
        invariant
            i <= sub@.len(),
            out@ == start + sub@.take(i as int),
        decreases sub@.len() - i,
    {
        out.push(sub[i]);
        assert(sub@.take(i + 1) =~= sub@.take(i as int).push(sub@[i as int]));
        i = i + 1;
    }
    assert(sub@.take(sub@.len() as int) =~= sub@);
}

/// The visible rows of a list of threads, one thread after the other.
pub fn flatten_all(nodes: &Vec<CommentNode>) -> (r: Vec<(&CommentNode, usize)>)
    ensures
        rows_match(r@, flat_list(nodes@)),
{
    let mut out: Vec<(&CommentNode, usize)> = Vec::new();
    let mut i: usize = 0;
    assert(nodes@.take(0) =~= Seq::<CommentNode>::empty());
    while i < nodes.len()
        invariant
            i <= nodes@.len(),
            rows_match(out@, flat_list(nodes@.take(i as int))),
        decreases nodes@.len() - i,
    {
        let sub = nodes[i].flatten();
        append_rows(&mut out, sub);
        proof {
            let t = nodes@.take(i + 1);
            assert(t.drop_last() =~= nodes@.take(i as int));
            assert(t.last() == nodes@[i as int]);
        }
        i = i + 1;
    }
    assert(nodes@.take(nodes@.len() as int) =~= nodes@);
    out
}

// ---------------------------------------------------------------------------
// Collapsing
// ---------------------------------------------------------------------------

/// `b` is `a` with only its replies possibly changed.
pub open spec fn same_but_children(a: CommentNode, b: CommentNode) -> bool {
    a.item == b.item && a.text == b.text && a.depth == b.depth && a.collapsed == b.collapsed
}

/// `b` is `a` with `collapsed` flipped.
pub open spec fn flipped(a: CommentNode, b: CommentNode) -> bool {
    a.item == b.item && a.text == b.text && a.depth == b.depth && a.collapsed == !b.collapsed
        && a.children == b.children
}

/// `b` is what toggling `id` makes of the list `a` from index `i` on: scanning from `i`,
/// each node before the first one with that id has the toggle applied to its replies,
/// the first one with that id is flipped, and the nodes after it are left alone.
pub open spec fn toggled_from(a: Seq<CommentNode>, b: Seq<CommentNode>, i: int, id: u64) -> bool
    decreases a, a.len() - i,
{
    &&& a.len() == b.len()
    &&& (0 <= i < a.len() ==> if a[i].item.id == id {
        flipped(a[i], b[i]) && forall|j: int| i < j < a.len() ==> b[j] == a[j]
    } else {
        &&& same_but_children(a[i], b[i])
        &&& {
            proof {
                assert(decreases_to!(a => a[i]));
                assert(decreases_to!(a[i] => a[i].children));
                assert(decreases_to!(a[i].children => a[i].children@));
            }
            toggled_from(a[i].children@, b[i].children@, 0, id)
        }
        &&& toggled_from(a, b, i + 1, id)
    })
}

/// Toggling `id` in the list `a` gives `b`.
pub open spec fn toggled(a: Seq<CommentNode>, b: Seq<CommentNode>, id: u64) -> bool {
    toggled_from(a, b, 0, id)
}

proof fn lemma_toggled_prefix(a: Seq<CommentNode>, b: Seq<CommentNode>, i: int, id: u64)
    requires
        0 <= i <= a.len(),
        a.len() == b.len(),
        toggled_from(a, b, i, id),
        forall|j: int|
            0 <= j < i ==> a[j].item.id != id && same_but_children(a[j], b[j]) && toggled_from(
                a[j].children@,
                b[j].children@,
                0,
                id,
            ),
    ensures
        toggled_from(a, b, 0, id),
    decreases i,
{
    if i > 0 {
        lemma_toggled_prefix(a, b, i - 1, id);
    }
}

/// Collapses or expands comments with id `id` (see `toggled`): the list is scanned in
/// order; a node with that id is flipped and the scan of that list stops there; every
/// node before it has the toggle applied to its own replies first. So with unique ids the
/// one comment with that id is flipped, wherever it sits in the tree.
pub fn toggle_in_tree(nodes: &mut Vec<CommentNode>, id: u64)
    ensures
        toggled(old(nodes)@, final(nodes)@, id),
    decreases old(nodes)@,
{
    let ghost a = nodes@;
    let mut i: usize = 0;
    while i < nodes.len()
        invariant
            a == old(nodes)@,
            i <= nodes@.len(),
            nodes@.len() == a.len(),
            forall|j: int| i <= j < nodes@.len() ==> nodes@[j] == a[j],
            forall|j: int|
                0 <= j < i ==> a[j].item.id != id && same_but_children(a[j], nodes@[j])
                    && toggled_from(a[j].children@, nodes@[j].children@, 0, id),
        decreases nodes@.len() - i,
    {
        assert(decreases_to!(a => a[i as int]));
        assert(decreases_to!(a[i as int] => a[i as int].children));
        assert(decreases_to!(a[i as int].children => a[i as int].children@));
        if nodes[i].item.id == id {
            nodes[i].collapsed = !nodes[i].collapsed;
            proof {
                lemma_toggled_prefix(a, nodes@, i as int, id);
            }
            return;
        }
        toggle_in_tree(&mut nodes[i].children, id);
        i = i + 1;
    }
    proof {
        lemma_toggled_prefix(a, nodes@, i as int, id);
    }
}

/// `a` and `b` are the same threads: node by node, the same comment, text, depth and
/// collapsed state, with the same replies.
pub open spec fn same_forest_from(a: Seq<CommentNode>, b: Seq<CommentNode>, i: int) -> bool
    decreases a, a.len() - i,
{
    &&& a.len() == b.len()
    &&& (0 <= i < a.len() ==> {
        &&& same_but_children(a[i], b[i])
        &&& {
            proof {
                assert(decreases_to!(a => a[i]));
                assert(decreases_to!(a[i] => a[i].children));
                assert(decreases_to!(a[i].children => a[i].children@));
            }
            same_forest_from(a[i].children@, b[i].children@, 0)
        }
        &&& same_forest_from(a, b, i + 1)
    })
}

/// `a` and `b` hold the same threads.
pub open spec fn same_forest(a: Seq<CommentNode>, b: Seq<CommentNode>) -> bool {
    same_forest_from(a, b, 0)
}

proof fn lemma_same_forest_refl(a: Seq<CommentNode>, b: Seq<CommentNode>, i: int)
    requires
        0 <= i <= a.len(),
        a.len() == b.len(),
        forall|j: int| i <= j < a.len() ==> b[j] == a[j],
    ensures
        same_forest_from(a, b, i),
    decreases a, a.len() - i,
{
    if i < a.len() {
        assert(decreases_to!(a => a[i]));
        assert(decreases_to!(a[i] => a[i].children));
        assert(decreases_to!(a[i].children => a[i].children@));
        lemma_same_forest_refl(a[i].children@, a[i].children@, 0);
        lemma_same_forest_refl(a, b, i + 1);
    }
}

proof fn lemma_toggle_twice_from(
    a: Seq<CommentNode>,
    b: Seq<CommentNode>,
    c: Seq<CommentNode>,
    i: int,
    id: u64,
)
    requires
        0 <= i <= a.len(),
        toggled_from(a, b, i, id),
        toggled_from(b, c, i, id),
    ensures
        same_forest_from(a, c, i),
    decreases a, a.len() - i,
{
    if i < a.len() {
        if a[i].item.id == id {
            lemma_same_forest_refl(a[i].children@, c[i].children@, 0);
            lemma_same_forest_refl(a, c, i + 1);
        } else {
            assert(decreases_to!(a => a[i]));
            assert(decreases_to!(a[i] => a[i].children));
            assert(decreases_to!(a[i].children => a[i].children@));
            lemma_toggle_twice_from(a[i].children@, b[i].children@, c[i].children@, 0, id);
            lemma_toggle_twice_from(a, b, c, i + 1, id);
        }
    }
}

/// Collapsing a comment and then toggling it again gives back the threads as they were:
/// toggling the same id twice changes nothing.
pub proof fn law_toggle_twice_restores(
    a: Seq<CommentNode>,
    b: Seq<CommentNode>,
    c: Seq<CommentNode>,
    id: u64,
)
    requires
        toggled(a, b, id),
        toggled(b, c, id),
    ensures
        same_forest(a, c),
{
    lemma_toggle_twice_from(a, b, c, 0, id);
}

// ---------------------------------------------------------------------------
// Building the tree
// ---------------------------------------------------------------------------

/// The nodes that a fetched level of comments gives: deleted and dead comments are
/// left out, the others become nodes at `depth`, in order.
pub open spec fn level_items(items: Seq<Item>) -> Seq<Item>
    decreases items.len(),
{
    if items.len() == 0 {
        Seq::empty()
    } else if items.last().deleted == Some(true) || items.last().dead == Some(true) {
        level_items(items.drop_last())
    } else {
        level_items(items.drop_last()).push(items.last())
    }
}

/// Building a level keeps the fetched order: the level of two runs of comments one after
/// the other is the level of the first run followed by that of the second.
pub proof fn law_level_keeps_order(a: Seq<Item>, b: Seq<Item>)
    ensures
        level_items(a + b) == level_items(a) + level_items(b),
    decreases b.len(),
{
    if b.len() == 0 {
        assert(a + b =~= a);
        assert(level_items(a) + level_items(b) =~= level_items(a));
    } else {
        law_level_keeps_order(a, b.drop_last());
        assert((a + b).drop_last() =~= a + b.drop_last());
        assert((a + b).last() == b.last());
        if alive(b.last()) {
            assert(level_items(a) + level_items(b.drop_last()).push(b.last()) =~= (level_items(a)
                + level_items(b.drop_last())).push(b.last()));
        }
    }
}

/// A level keeps every live comment: of comments none of which is deleted or dead, the
/// level holds all, in their order.
pub proof fn law_level_keeps_live(items: Seq<Item>)
    requires
        forall|k: int| 0 <= k < items.len() ==> alive(#[trigger] items[k]),
    ensures
        level_items(items) == items,
    decreases items.len(),
{
    if items.len() > 0 {
        law_level_keeps_live(items.drop_last());
        assert(alive(items[items.len() - 1]));
        assert(items.drop_last().push(items.last()) =~= items);
    }
}

/// A level leaves out a deleted or dead comment, and keeps a live one.
pub proof fn law_level_of_one(it: Item)
    ensures
        alive(it) ==> level_items(seq![it]) == seq![it],
        !alive(it) ==> level_items(seq![it]) == Seq::<Item>::empty(),
{
    let one = seq![it];
    assert(one.len() == 1 && one.last() == it);
    assert(one.drop_last() =~= Seq::<Item>::empty());
    assert(level_items(Seq::<Item>::empty()) == Seq::<Item>::empty());
    assert(level_items(one) == if !alive(it) {
        level_items(one.drop_last())
    } else {
        level_items(one.drop_last()).push(it)
    });
    assert(Seq::<Item>::empty().push(it) =~= one);
}

/// The nodes for a fetched level of comments at `depth`: one per comment that is neither
/// deleted nor dead, in order, each as `CommentNode::new` makes it.
pub fn level_nodes(items: Vec<Item>, depth: usize) -> (r: Vec<CommentNode>)
    ensures
        r@.len() == level_items(items@).len(),
        forall|k: int|
            0 <= k < r@.len() ==> {
                let n = #[trigger] r@[k];
                &&& n.item == level_items(items@)[k]
                &&& n.text@ == plain_of(n.item@.text)
                &&& n.depth == depth
                &&& !n.collapsed
                &&& n.children@.len() == 0
            },
        alive_forest(r@),
{
    let mut items = items;
    let ghost all = items@;
    let mut rev: Vec<CommentNode> = Vec::new();
    // take the items from the back, then restore their order
    while items.len() > 0
        invariant
            all.len() >= items@.len(),
            items@ == all.take(items@.len() as int),
            level_items(all) == level_items(items@) + rev_seq(rev@),
            forall|k: int|
                0 <= k < rev@.len() ==> {
                    let n = #[trigger] rev@[k];
                    &&& n.text@ == plain_of(n.item@.text)
                    &&& n.depth == depth
                    &&& !n.collapsed
                    &&& n.children@.len() == 0
                },
        decreases items@.len(),
    {
        let ghost before = items@;
        let it = items.pop().unwrap();
        assert(before.drop_last() =~= items@);
        assert(items@ =~= all.take(items@.len() as int));
        if !it.is_deleted_or_dead() {
            let ghost r0 = rev@;
            rev.push(CommentNode::new(it, depth));
            proof {
                lemma_rev_seq_push(r0, rev@.last());
                assert(rev@.drop_last() =~= r0);
                assert(level_items(before) == level_items(items@).push(it));
                assert(level_items(items@).push(it) + rev_seq(r0) =~= level_items(items@) + (
                seq![it] + rev_seq(r0)));
            }
        }
    }
    assert(items@ =~= Seq::<Item>::empty());
    assert(level_items(all) =~= rev_seq(rev@));
    let mut out: Vec<CommentNode> = Vec::new();
    while rev.len() > 0
        invariant
            items_of(out@) + rev_seq(rev@) == level_items(all),
            forall|k: int|
                0 <= k < rev@.len() ==> {
                    let n = #[trigger] rev@[k];
                    &&& n.text@ == plain_of(n.item@.text)
                    &&& n.depth == depth
                    &&& !n.collapsed
                    &&& n.children@.len() == 0
                },
            forall|k: int|
                0 <= k < out@.len() ==> {
                    let n = #[trigger] out@[k];
                    &&& n.text@ == plain_of(n.item@.text)
                    &&& n.depth == depth
                    &&& !n.collapsed
                    &&& n.children@.len() == 0
                },
        decreases rev@.len(),
    {
        let ghost r0 = rev@;
        let n = rev.pop().unwrap();
        proof {
            assert(r0.drop_last() =~= rev@);
            lemma_rev_seq_push(rev@, n);
            assert(r0 =~= rev@.push(n));
        }
        let ghost o0 = out@;
        out.push(n);
        proof {
            assert(items_of(out@) =~= items_of(o0).push(n.item));
            assert(items_of(out@) + rev_seq(rev@) =~= items_of(o0) + (seq![n.item] + rev_seq(
                rev@,
            )));
        }
    }
    assert(items_of(out@) + rev_seq(rev@) =~= items_of(out@));
    proof {
        lemma_level_items_alive(all);
        assert forall|k: int| 0 <= k < out@.len() implies alive(#[trigger] out@[k].item)
            && alive_forest(out@[k].children@) by {
            assert(items_of(out@)[k] == out@[k].item);
            assert(out@[k].children@ =~= Seq::<CommentNode>::empty());
        }
        lemma_alive_from_parts(out@, 0);
    }
    out
}

/// A comment that is neither deleted nor dead.
pub open spec fn alive(it: Item) -> bool {
    !(it.deleted == Some(true) || it.dead == Some(true))
}

/// Every node of `s` from index `i` on, and every reply below it at any depth, is a
/// comment that is neither deleted nor dead.
pub open spec fn alive_from(s: Seq<CommentNode>, i: int) -> bool
    decreases s, s.len() - i,
{
    0 <= i < s.len() ==> {
        &&& alive(s[i].item)
        &&& {
            proof {
                assert(decreases_to!(s => s[i]));
                assert(decreases_to!(s[i] => s[i].children));
                assert(decreases_to!(s[i].children => s[i].children@));
            }
            alive_from(s[i].children@, 0)
        }
        &&& alive_from(s, i + 1)
    }
}

/// No node of the threads `s`, at any depth, is deleted or dead.
pub open spec fn alive_forest(s: Seq<CommentNode>) -> bool {
    alive_from(s, 0)
}

proof fn lemma_level_items_alive(items: Seq<Item>)
    ensures
        forall|k: int| 0 <= k < level_items(items).len() ==> alive(#[trigger] level_items(items)[k]),
    decreases items.len(),
{
    if items.len() > 0 {
        let prev = items.drop_last();
        lemma_level_items_alive(prev);
        if !alive(items.last()) {
            assert(level_items(items) == level_items(prev));
        } else {
            assert(level_items(items) == level_items(prev).push(items.last()));
            assert forall|k: int| 0 <= k < level_items(items).len() implies alive(
                #[trigger] level_items(items)[k],
            ) by {
                if k < level_items(prev).len() {
                    assert(level_items(items)[k] == level_items(prev)[k]);
                }
            }
        }
    }
}

proof fn lemma_alive_from_parts(s: Seq<CommentNode>, i: int)
    requires
        0 <= i <= s.len(),
        forall|k: int| i <= k < s.len() ==> alive(#[trigger] s[k].item) && alive_forest(s[k].children@),
    ensures
        alive_from(s, i),
    decreases s.len() - i,
{
    if i < s.len() {
        lemma_alive_from_parts(s, i + 1);
    }
}

proof fn lemma_alive_parts(s: Seq<CommentNode>, i: int)
    requires
        0 <= i <= s.len(),
        alive_from(s, i),
    ensures
        forall|k: int| i <= k < s.len() ==> alive(#[trigger] s[k].item) && alive_forest(s[k].children@),
    decreases s.len() - i,
{
    if i < s.len() {
        lemma_alive_parts(s, i + 1);
    }
}

/// Gives each node of a fetched level its replies: node `k` gets the threads
/// `replies[k]` as its children, and is otherwise left as it was. When the level and every
/// reply thread hold no deleted or dead comment, neither does the result, at any depth.
pub fn attach_replies(nodes: Vec<CommentNode>, replies: Vec<Vec<CommentNode>>) -> (r: Vec<CommentNode>)
    requires
        replies@.len() == nodes@.len(),
    ensures
        r@.len() == nodes@.len(),
        forall|k: int|
            0 <= k < r@.len() ==> same_but_children(nodes@[k], #[trigger] r@[k])
                && r@[k].children@ == replies@[k]@,
        alive_forest(nodes@) && (forall|k: int|
            0 <= k < replies@.len() ==> alive_forest(#[trigger] replies@[k]@)) ==> alive_forest(r@),
{
    let ghost n0 = nodes@;
    let ghost r0 = replies@;
    let mut nodes = nodes;
    let mut replies = replies;
    let mut i: usize = 0;
    while i < nodes.len()
        invariant
            nodes@.len() == n0.len(),
            replies@.len() == n0.len(),
            r0.len() == n0.len(),
            i <= n0.len(),
            forall|k: int|
                0 <= k < i ==> same_but_children(n0[k], #[trigger] nodes@[k])
                    && nodes@[k].children@ == r0[k]@,
            forall|k: int| i <= k < n0.len() ==> #[trigger] nodes@[k] == n0[k],
            forall|k: int| i <= k < n0.len() ==> #[trigger] replies@[k] == r0[k],
        decreases n0.len() - i,
    {
        let mut sub: Vec<CommentNode> = Vec::new();
        std::mem::swap(&mut sub, &mut replies[i]);
        nodes[i].children = sub;
        i = i + 1;
    }
    proof {
        if alive_forest(n0) && (forall|k: int| 0 <= k < r0.len() ==> alive_forest(#[trigger] r0[k]@)) {
            lemma_alive_parts(n0, 0);
            assert forall|k: int| 0 <= k < nodes@.len() implies alive(#[trigger] nodes@[k].item)
                && alive_forest(nodes@[k].children@) by {
                assert(alive(n0[k].item));
                assert(alive_forest(r0[k]@));
            }
            lemma_alive_from_parts(nodes@, 0);
        }
    }
    nodes
}

/// The items of a list of nodes.
pub open spec fn items_of(s: Seq<CommentNode>) -> Seq<Item> {
    s.map_values(|n: CommentNode| n.item)
}

/// The items of the nodes `s`, last node first.
pub open spec fn rev_seq(s: Seq<CommentNode>) -> Seq<Item>
    decreases s.len(),
{
    if s.len() == 0 {
        Seq::empty()
    } else {
        seq![s.last().item] + rev_seq(s.drop_last())
    }
}

proof fn lemma_rev_seq_push(s: Seq<CommentNode>, n: CommentNode)
    ensures
        rev_seq(s.push(n)) == seq![n.item] + rev_seq(s),
{
    assert(s.push(n).drop_last() =~= s);
}

} // verus!
