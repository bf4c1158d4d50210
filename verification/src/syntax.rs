//! Syntax trees as the list of their nodes in document order.
//!
//! A tree is stored flat: node `0` is the root, and every node is followed by
//! its descendants, each with its depth below the root. Parent, children and
//! siblings are read off the depths.

use crate::text::contains_text;
use crate::text::decode;
use crate::text::decoded;
use crate::text::slice_texts;
use crate::text::str_eq;
use crate::text::string_of;
use vstd::prelude::*;
use vstd::slice::slice_subrange;

verus! {

/// One node of a syntax tree.
#[derive(Debug, Clone)]
pub struct SyntaxNode {
    /// The node's type in its grammar.
    pub kind: String,
    /// Distance from the root.
    pub depth: usize,
    /// Offset of the node's first byte in the source.
    pub start_byte: usize,
    /// Offset just after the node's last byte.
    pub end_byte: usize,
    /// Zero-based row of the node's first byte.
    pub start_row: usize,
    /// Zero-based row of the node's end.
    pub end_row: usize,
}

/// The mathematical value of a [`SyntaxNode`].
pub struct NodeView {
    pub kind: Seq<char>,
    pub depth: nat,
    pub start_byte: nat,
    pub end_byte: nat,
    pub start_row: nat,
    pub end_row: nat,
}

impl View for SyntaxNode {
    type V = NodeView;

    open spec fn view(&self) -> NodeView {
        NodeView {
            kind: self.kind@,
            depth: self.depth as nat,
            start_byte: self.start_byte as nat,
            end_byte: self.end_byte as nat,
            start_row: self.start_row as nat,
            end_row: self.end_row as nat,
        }
    }
}

impl DeepView for SyntaxNode {
    type V = NodeView;

    open spec fn deep_view(&self) -> NodeView {
        self@
    }
}

/// What a node list must satisfy to be a tree: no node ends on a row before
/// the one it starts on, and every row fits a line number.
pub open spec fn well_formed(nodes: Seq<NodeView>) -> bool {
    forall|i: int|
        0 <= i < nodes.len() ==> (#[trigger] nodes[i]).start_row <= nodes[i].end_row < u32::MAX
}

/// The 1-indexed line of a zero-based row.
pub open spec fn line_of(row: nat) -> u32 {
    (row + 1) as u32
}

// ---------------------------------------------------------------------------
// Structure
// ---------------------------------------------------------------------------
/// Index after the run of nodes deeper than `depth` that starts at `j`.
pub open spec fn span_end(nodes: Seq<NodeView>, depth: nat, j: int) -> int
    decreases nodes.len() - j,
{
    if 0 <= j < nodes.len() && nodes[j].depth > depth {
        span_end(nodes, depth, j + 1)
    } else {
        j
    }
}

/// Index after the last descendant of node `p`.
pub open spec fn subtree_end(nodes: Seq<NodeView>, p: int) -> int {
    span_end(nodes, nodes[p].depth, p + 1)
}

/// The children of node `p` with index below `j`, in document order, where
/// `j` lies within the subtree of `p`.
pub open spec fn children_upto(nodes: Seq<NodeView>, p: int, j: int) -> Seq<int>
    decreases j,
{
    if p < 0 || j <= p + 1 || j > nodes.len() {
        Seq::empty()
    } else if nodes[j - 1].depth == nodes[p].depth + 1 {
        children_upto(nodes, p, j - 1).push(j - 1)
    } else {
        children_upto(nodes, p, j - 1)
    }
}

/// The children of node `p`, in document order.
pub open spec fn children_of(nodes: Seq<NodeView>, p: int) -> Seq<int> {
    children_upto(nodes, p, subtree_end(nodes, p))
}

/// The first node at or after position `k` of `list` whose kind is `kind`.
pub open spec fn first_of_kind(nodes: Seq<NodeView>, list: Seq<int>, kind: Seq<char>, k: int)
    -> Option<int>
    decreases list.len() - k,
{
    if k < 0 || k >= list.len() {
        None
    } else if nodes[list[k]].kind == kind {
        Some(list[k])
    } else {
        first_of_kind(nodes, list, kind, k + 1)
    }
}

/// The first child of node `p` whose kind is `kind`.
pub open spec fn child_of_kind(nodes: Seq<NodeView>, p: int, kind: Seq<char>) -> Option<int> {
    first_of_kind(nodes, children_of(nodes, p), kind, 0)
}

/// The first node at or after position `k` of `list` whose kind is one of
/// two kinds.
pub open spec fn first_of_kinds(
    nodes: Seq<NodeView>,
    list: Seq<int>,
    kind_a: Seq<char>,
    kind_b: Seq<char>,
    k: int,
) -> Option<int>
    decreases list.len() - k,
{
    if k < 0 || k >= list.len() {
        None
    } else if nodes[list[k]].kind == kind_a || nodes[list[k]].kind == kind_b {
        Some(list[k])
    } else {
        first_of_kinds(nodes, list, kind_a, kind_b, k + 1)
    }
}

/// The first child of node `p` whose kind is one of two kinds.
pub open spec fn child_of_kinds(nodes: Seq<NodeView>, p: int, kind_a: Seq<char>, kind_b: Seq<char>)
    -> Option<int> {
    first_of_kinds(nodes, children_of(nodes, p), kind_a, kind_b, 0)
}

/// The last node among the first `k` of `list` whose kind is `kind`.
pub open spec fn last_of_kind(nodes: Seq<NodeView>, list: Seq<int>, kind: Seq<char>, k: int)
    -> Option<int>
    decreases k,
{
    if k <= 0 || k > list.len() {
        None
    } else if nodes[list[k - 1]].kind == kind {
        Some(list[k - 1])
    } else {
        last_of_kind(nodes, list, kind, k - 1)
    }
}

/// The last child of node `p` whose kind is `kind`.
pub open spec fn last_child_of_kind(nodes: Seq<NodeView>, p: int, kind: Seq<char>) -> Option<int> {
    last_of_kind(nodes, children_of(nodes, p), kind, children_of(nodes, p).len() as int)
}

/// The first node at or after position `k` of `list` that lies after node
/// `after`.
pub open spec fn first_after(list: Seq<int>, after: int, k: int) -> Option<int>
    decreases list.len() - k,
{
    if k < 0 || k >= list.len() {
        None
    } else if list[k] > after {
        Some(list[k])
    } else {
        first_after(list, after, k + 1)
    }
}

/// The first child of node `p` that lies after node `after`.
pub open spec fn next_child(nodes: Seq<NodeView>, p: int, after: int) -> Option<int> {
    first_after(children_of(nodes, p), after, 0)
}

/// The first node at or after position `k` of `list` that lies after node
/// `after` and whose kind is one of two kinds.
pub open spec fn first_of_kinds_after(
    nodes: Seq<NodeView>,
    list: Seq<int>,
    kind_a: Seq<char>,
    kind_b: Seq<char>,
    after: int,
    k: int,
) -> Option<int>
    decreases list.len() - k,
{
    if k < 0 || k >= list.len() {
        None
    } else if list[k] > after && (nodes[list[k]].kind == kind_a || nodes[list[k]].kind == kind_b) {
        Some(list[k])
    } else {
        first_of_kinds_after(nodes, list, kind_a, kind_b, after, k + 1)
    }
}

/// The first child of node `p` that lies after node `after` and whose kind
/// is one of two kinds.
pub open spec fn next_child_of_kinds(
    nodes: Seq<NodeView>,
    p: int,
    kind_a: Seq<char>,
    kind_b: Seq<char>,
    after: int,
) -> Option<int> {
    first_of_kinds_after(nodes, children_of(nodes, p), kind_a, kind_b, after, 0)
}

/// The nodes among the first `k` of `list` whose kind is `kind`.
pub open spec fn of_kind_upto(nodes: Seq<NodeView>, list: Seq<int>, kind: Seq<char>, k: int)
    -> Seq<int>
    decreases k,
{
    if k <= 0 || k > list.len() {
        Seq::empty()
    } else if nodes[list[k - 1]].kind == kind {
        of_kind_upto(nodes, list, kind, k - 1).push(list[k - 1])
    } else {
        of_kind_upto(nodes, list, kind, k - 1)
    }
}

/// The children of node `p` whose kind is `kind`, in document order.
pub open spec fn children_of_kind(nodes: Seq<NodeView>, p: int, kind: Seq<char>) -> Seq<int> {
    of_kind_upto(nodes, children_of(nodes, p), kind, children_of(nodes, p).len() as int)
}

/// The child of node `p` at position `k`.
pub open spec fn child_at(nodes: Seq<NodeView>, p: int, k: int) -> Option<int> {
    if 0 <= k < children_of(nodes, p).len() {
        Some(children_of(nodes, p)[k])
    } else {
        None
    }
}

/// Index of the nearest node before `j` that is not deeper than `depth`,
/// or -1.
pub open spec fn nearest_before(nodes: Seq<NodeView>, depth: nat, j: int) -> int
    decreases j,
{
    if j <= 0 || j > nodes.len() {
        -1
    } else if nodes[j - 1].depth > depth {
        nearest_before(nodes, depth, j - 1)
    } else {
        j - 1
    }
}

/// The sibling that precedes node `i`.
pub open spec fn prev_sibling_of(nodes: Seq<NodeView>, i: int) -> Option<int> {
    let j = nearest_before(nodes, nodes[i].depth, i);
    if j >= 0 && nodes[j].depth == nodes[i].depth {
        Some(j)
    } else {
        None
    }
}

/// The parent of node `i`.
pub open spec fn parent_of(nodes: Seq<NodeView>, i: int) -> Option<int> {
    if nodes[i].depth == 0 {
        None
    } else {
        let j = nearest_before(nodes, (nodes[i].depth - 1) as nat, i);
        if j >= 0 {
            Some(j)
        } else {
            None
        }
    }
}

/// Node `i` has a parent of kind `kind`.
pub open spec fn parent_has_kind(nodes: Seq<NodeView>, i: int, kind: Seq<char>) -> bool {
    parent_of(nodes, i) is Some && nodes[parent_of(nodes, i)->0].kind == kind
}

pub proof fn lemma_nearest_before_bounds(nodes: Seq<NodeView>, depth: nat, j: int)
    requires
        0 <= j <= nodes.len(),
    ensures
        -1 <= nearest_before(nodes, depth, j) < j,
    decreases j,
{
    if j > 0 && nodes[j - 1].depth > depth {
        lemma_nearest_before_bounds(nodes, depth, j - 1);
    }
}

// ---------------------------------------------------------------------------
// Text
// ---------------------------------------------------------------------------
/// The text of `source[from..to]`, if the range lies within the source and
/// holds well-formed UTF-8.
pub open spec fn slice_text(source: Seq<u8>, from: nat, to: nat) -> Option<Seq<char>> {
    if from <= to <= source.len() {
        decoded(source.subrange(from as int, to as int))
    } else {
        None
    }
}

/// The source text of node `i`, if it can be read.
pub open spec fn node_slice(nodes: Seq<NodeView>, source: Seq<u8>, i: int) -> Option<Seq<char>> {
    slice_text(source, nodes[i].start_byte, nodes[i].end_byte)
}

/// The source text of node `i`; empty if it cannot be read.
pub open spec fn node_text(nodes: Seq<NodeView>, source: Seq<u8>, i: int) -> Seq<char> {
    match node_slice(nodes, source, i) {
        Some(t) => t,
        None => Seq::empty(),
    }
}

/// The text of the sibling before node `i`, if that sibling's kind is one of
/// the two comment kinds.
pub open spec fn preceding_comment(
    nodes: Seq<NodeView>,
    source: Seq<u8>,
    i: int,
    kind_a: Seq<char>,
    kind_b: Seq<char>,
) -> Option<Seq<char>> {
    match prev_sibling_of(nodes, i) {
        Some(j) => if nodes[j].kind == kind_a || nodes[j].kind == kind_b {
            Some(node_text(nodes, source, j))
        } else {
            None
        },
        None => None,
    }
}

/// The text of the sibling before node `i`, if that sibling's kind is one of
/// the given kinds.
pub open spec fn docstring_before(
    nodes: Seq<NodeView>,
    source: Seq<u8>,
    i: int,
    kinds: Seq<Seq<char>>,
) -> Option<Seq<char>> {
    match prev_sibling_of(nodes, i) {
        Some(j) => if kinds.contains(nodes[j].kind) {
            Some(node_text(nodes, source, j))
        } else {
            None
        },
        None => None,
    }
}

/// The comment before a node by two kinds is the docstring before it by the
/// list of the two.
pub proof fn lemma_two_comment_kinds(
    nodes: Seq<NodeView>,
    source: Seq<u8>,
    i: int,
    kind_a: Seq<char>,
    kind_b: Seq<char>,
)
    ensures
        preceding_comment(nodes, source, i, kind_a, kind_b) == docstring_before(
            nodes,
            source,
            i,
            seq![kind_a, kind_b],
        ),
{
    let kinds = seq![kind_a, kind_b];
    assert(kinds[0] == kind_a && kinds[1] == kind_b);
}

/// The indices in `v` as mathematical integers.
pub open spec fn ints(v: Seq<usize>) -> Seq<int> {
    v.map_values(|x: usize| x as int)
}

// ---------------------------------------------------------------------------
// The tree
// ---------------------------------------------------------------------------
/// A syntax tree: its nodes in document order.
pub struct SyntaxTree {
    nodes: Vec<SyntaxNode>,
}

impl View for SyntaxTree {
    type V = Seq<NodeView>;

    closed spec fn view(&self) -> Seq<NodeView> {
        self.nodes.deep_view()
    }
}

impl SyntaxTree {
    #[verifier::type_invariant]
    spec fn inv(self) -> bool {
        well_formed(self.nodes.deep_view())
    }

    /// Makes a tree of a node list, if the list is well formed.
    pub fn from_nodes(nodes: Vec<SyntaxNode>) -> (r: Option<SyntaxTree>)
        ensures
            r is Some <==> well_formed(nodes.deep_view()),
            r is Some ==> r->0@ == nodes.deep_view(),
    {
        let ghost view = nodes.deep_view();
        let mut i: usize = 0;
        while i < nodes.len()
            invariant
                i <= nodes.len(),
                view == nodes.deep_view(),
                well_formed(view.take(i as int)),
            decreases nodes.len() - i,
        {
            let node = &nodes[i];
            assert(view[i as int] == node@);
            if node.start_row > node.end_row || node.end_row >= u32::MAX as usize {
                return None;
            }
            proof {
                let next = view.take(i + 1);
                let cur = view.take(i as int);
                assert forall|a: int| 0 <= a < next.len() implies (#[trigger] next[a]).start_row
                    <= next[a].end_row < u32::MAX by {
                    if a < i {
                        assert(cur[a] == next[a]);
                    }
                }
            }
            i += 1;
        }
        assert(view.take(nodes.len() as int) == view);
        Some(SyntaxTree { nodes })
    }

    /// States the tree's invariant.
    pub fn use_invariant(&self)
        ensures
            well_formed(self@),
    {
        proof {
            use_type_invariant(self);
        }
    }

    /// Number of nodes.
    pub fn len(&self) -> (n: usize)
        ensures
            n == self@.len(),
    {
        self.nodes.len()
    }

    /// Node `i`.
    pub fn node(&self, i: usize) -> (node: &SyntaxNode)
        requires
            i < self@.len(),
        ensures
            node@ == self@[i as int],
    {
        &self.nodes[i]
    }

    /// Whether node `i` has the given kind.
    pub fn kind_is(&self, i: usize, kind: &str) -> (r: bool)
        requires
            i < self@.len(),
        ensures
            r == (self@[i as int].kind == kind@),
    {
        str_eq(self.nodes[i].kind.as_str(), kind)
    }

    /// The 1-indexed first and last line of node `i`.
    pub fn lines(&self, i: usize) -> (r: (u32, u32))
        requires
            i < self@.len(),
        ensures
            r.0 == line_of(self@[i as int].start_row),
            r.1 == line_of(self@[i as int].end_row),
            1 <= r.0 <= r.1,
    {
        proof {
            use_type_invariant(self);
        }
        let node = &self.nodes[i];
        assert(self@[i as int] == node@);
        ((node.start_row + 1) as u32, (node.end_row + 1) as u32)
    }

    /// The children of node `p`, in document order.
    pub fn children(&self, p: usize) -> (r: Vec<usize>)
        requires
            p < self@.len(),
        ensures
            ints(r@) == children_of(self@, p as int),
            forall|k: int| 0 <= k < r.len() ==> p < (#[trigger] r[k]) < self@.len(),
    {
        let ghost nodes = self@;
        assert(nodes.len() == self.nodes.len());
        let depth = self.nodes[p].depth;
        let mut out: Vec<usize> = Vec::new();
        let mut j: usize = p + 1;
        assert(nodes[p as int].depth == depth);
        while j < self.nodes.len() && self.nodes[j].depth > depth
            invariant
                nodes == self@,
                nodes == self.nodes.deep_view(),
                p < j <= nodes.len(),
                depth == nodes[p as int].depth,
                subtree_end(nodes, p as int) == span_end(nodes, depth as nat, j as int),
                ints(out@) == children_upto(nodes, p as int, j as int),
                forall|k: int| 0 <= k < out.len() ==> p < (#[trigger] out[k]) < nodes.len(),
            decreases nodes.len() - j,
        {
            assert(nodes[j as int] == self.nodes[j as int]@);
            if self.nodes[j].depth - 1 == depth {
                proof {
                    assert(ints(out@.push(j)) == ints(out@).push(j as int));
                }
                out.push(j);
            }
            j += 1;
        }
        proof {
            if j < nodes.len() {
                assert(nodes[j as int] == self.nodes[j as int]@);
            }
        }
        out
    }

    /// The first child of node `p` whose kind is `kind`.
    pub fn find_child(&self, p: usize, kind: &str) -> (r: Option<usize>)
        requires
            p < self@.len(),
        ensures
            match r {
                Some(c) => child_of_kind(self@, p as int, kind@) == Some(c as int) && p < c
                    < self@.len() && self@[c as int].kind == kind@,
                None => child_of_kind(self@, p as int, kind@) is None,
            },
    {
        let list = self.children(p);
        self.first_in(&list, kind)
    }

    /// The first node of `list` whose kind is `kind`.
    pub fn first_in(&self, list: &Vec<usize>, kind: &str) -> (r: Option<usize>)
        requires
            forall|k: int| 0 <= k < list.len() ==> (#[trigger] list[k]) < self@.len(),
        ensures
            match r {
                Some(c) => first_of_kind(self@, ints(list@), kind@, 0) == Some(c as int) && c
                    < self@.len() && self@[c as int].kind == kind@ && list@.contains(c),
                None => first_of_kind(self@, ints(list@), kind@, 0) is None,
            },
    {
        let mut k: usize = 0;
        while k < list.len()
            invariant
                k <= list.len(),
                forall|m: int| 0 <= m < list.len() ==> (#[trigger] list[m]) < self@.len(),
                first_of_kind(self@, ints(list@), kind@, 0) == first_of_kind(
                    self@,
                    ints(list@),
                    kind@,
                    k as int,
                ),
            decreases list.len() - k,
        {
            let c = list[k];
            assert(ints(list@)[k as int] == c);
            if self.kind_is(c, kind) {
                return Some(c);
            }
            k += 1;
        }
        None
    }

    /// The first child of node `p` whose kind is one of two kinds.
    pub fn find_child_of(&self, p: usize, kind_a: &str, kind_b: &str) -> (r: Option<usize>)
        requires
            p < self@.len(),
        ensures
            match r {
                Some(c) => child_of_kinds(self@, p as int, kind_a@, kind_b@) == Some(c as int)
                    && p < c < self@.len(),
                None => child_of_kinds(self@, p as int, kind_a@, kind_b@) is None,
            },
    {
        let list = self.children(p);
        let mut k: usize = 0;
        while k < list.len()
            invariant
                k <= list.len(),
                forall|m: int| 0 <= m < list.len() ==> p < (#[trigger] list[m]) < self@.len(),
                ints(list@) == children_of(self@, p as int),
                child_of_kinds(self@, p as int, kind_a@, kind_b@) == first_of_kinds(
                    self@,
                    ints(list@),
                    kind_a@,
                    kind_b@,
                    k as int,
                ),
            decreases list.len() - k,
        {
            let c = list[k];
            assert(ints(list@)[k as int] == c);
            if self.kind_is(c, kind_a) || self.kind_is(c, kind_b) {
                return Some(c);
            }
            k += 1;
        }
        None
    }

    /// The last child of node `p` whose kind is `kind`.
    pub fn find_last_child(&self, p: usize, kind: &str) -> (r: Option<usize>)
        requires
            p < self@.len(),
        ensures
            match r {
                Some(c) => last_child_of_kind(self@, p as int, kind@) == Some(c as int) && p < c
                    < self@.len(),
                None => last_child_of_kind(self@, p as int, kind@) is None,
            },
    {
        let list = self.children(p);
        assert(ints(list@).len() == list.len());
        let mut k: usize = list.len();
        while k > 0
            invariant
                k <= list.len(),
                forall|m: int| 0 <= m < list.len() ==> p < (#[trigger] list[m]) < self@.len(),
                ints(list@) == children_of(self@, p as int),
                last_child_of_kind(self@, p as int, kind@) == last_of_kind(
                    self@,
                    ints(list@),
                    kind@,
                    k as int,
                ),
            decreases k,
        {
            let c = list[k - 1];
            assert(ints(list@)[k - 1] == c);
            if self.kind_is(c, kind) {
                return Some(c);
            }
            k -= 1;
        }
        None
    }

    /// The first child of node `p` that lies after node `after`.
    pub fn find_next_child(&self, p: usize, after: usize) -> (r: Option<usize>)
        requires
            p < self@.len(),
        ensures
            match r {
                Some(c) => next_child(self@, p as int, after as int) == Some(c as int) && p < c
                    < self@.len(),
                None => next_child(self@, p as int, after as int) is None,
            },
    {
        let list = self.children(p);
        let mut k: usize = 0;
        while k < list.len()
            invariant
                k <= list.len(),
                forall|m: int| 0 <= m < list.len() ==> p < (#[trigger] list[m]) < self@.len(),
                ints(list@) == children_of(self@, p as int),
                next_child(self@, p as int, after as int) == first_after(
                    ints(list@),
                    after as int,
                    k as int,
                ),
            decreases list.len() - k,
        {
            let c = list[k];
            assert(ints(list@)[k as int] == c);
            if c > after {
                return Some(c);
            }
            k += 1;
        }
        None
    }

    /// The first child of node `p` that lies after node `after` and whose
    /// kind is one of two kinds.
    pub fn find_next_child_of(&self, p: usize, kind_a: &str, kind_b: &str, after: usize) -> (r:
        Option<usize>)
        requires
            p < self@.len(),
        ensures
            match r {
                Some(c) => next_child_of_kinds(self@, p as int, kind_a@, kind_b@, after as int)
                    == Some(c as int) && p < c < self@.len(),
                None => next_child_of_kinds(self@, p as int, kind_a@, kind_b@, after as int)
                    is None,
            },
    {
        let list = self.children(p);
        let mut k: usize = 0;
        while k < list.len()
            invariant
                k <= list.len(),
                forall|m: int| 0 <= m < list.len() ==> p < (#[trigger] list[m]) < self@.len(),
                ints(list@) == children_of(self@, p as int),
                next_child_of_kinds(self@, p as int, kind_a@, kind_b@, after as int)
                    == first_of_kinds_after(
                    self@,
                    ints(list@),
                    kind_a@,
                    kind_b@,
                    after as int,
                    k as int,
                ),
            decreases list.len() - k,
        {
            let c = list[k];
            assert(ints(list@)[k as int] == c);
            if c > after && (self.kind_is(c, kind_a) || self.kind_is(c, kind_b)) {
                return Some(c);
            }
            k += 1;
        }
        None
    }

    /// The nodes of `list` whose kind is `kind`, in order.
    pub fn filter_kind(&self, list: &Vec<usize>, kind: &str) -> (r: Vec<usize>)
        requires
            forall|k: int| 0 <= k < list.len() ==> (#[trigger] list[k]) < self@.len(),
        ensures
            ints(r@) == of_kind_upto(self@, ints(list@), kind@, list.len() as int),
            forall|k: int| 0 <= k < r.len() ==> (#[trigger] r[k]) < self@.len(),
    {
        let mut out: Vec<usize> = Vec::new();
        let mut k: usize = 0;
        while k < list.len()
            invariant
                k <= list.len(),
                forall|m: int| 0 <= m < list.len() ==> (#[trigger] list[m]) < self@.len(),
                ints(out@) == of_kind_upto(self@, ints(list@), kind@, k as int),
                forall|m: int| 0 <= m < out.len() ==> (#[trigger] out[m]) < self@.len(),
            decreases list.len() - k,
        {
            let c = list[k];
            assert(ints(list@)[k as int] == c);
            if self.kind_is(c, kind) {
                proof {
                    assert(ints(out@.push(c)) == ints(out@).push(c as int));
                }
                out.push(c);
            }
            k += 1;
        }
        out
    }

    /// The children of node `p` whose kind is `kind`, in document order.
    pub fn find_children(&self, p: usize, kind: &str) -> (r: Vec<usize>)
        requires
            p < self@.len(),
        ensures
            ints(r@) == children_of_kind(self@, p as int, kind@),
            forall|k: int| 0 <= k < r.len() ==> (#[trigger] r[k]) < self@.len(),
    {
        let list = self.children(p);
        assert(ints(list@).len() == list.len());
        self.filter_kind(&list, kind)
    }

    /// The child of node `p` at position `k`.
    pub fn child(&self, p: usize, k: usize) -> (r: Option<usize>)
        requires
            p < self@.len(),
        ensures
            match r {
                Some(c) => child_at(self@, p as int, k as int) == Some(c as int) && p < c
                    < self@.len(),
                None => child_at(self@, p as int, k as int) is None,
            },
    {
        let list = self.children(p);
        assert(ints(list@).len() == list.len());
        if k < list.len() {
            assert(ints(list@)[k as int] == list[k as int]);
            Some(list[k])
        } else {
            None
        }
    }

    /// Index of the nearest node before `i` that is not deeper than `depth`.
    fn scan_back(&self, depth: usize, i: usize) -> (r: Option<usize>)
        requires
            i < self@.len(),
        ensures
            match r {
                Some(j) => nearest_before(self@, depth as nat, i as int) == j && j < i,
                None => nearest_before(self@, depth as nat, i as int) == -1,
            },
    {
        let ghost nodes = self@;
        let mut j: usize = i;
        while j > 0 && self.nodes[j - 1].depth > depth
            invariant
                nodes == self@,
                nodes == self.nodes.deep_view(),
                j <= i < nodes.len(),
                nearest_before(nodes, depth as nat, i as int) == nearest_before(
                    nodes,
                    depth as nat,
                    j as int,
                ),
            decreases j,
        {
            assert(nodes[j - 1] == self.nodes[j - 1]@);
            j -= 1;
        }
        if j == 0 {
            None
        } else {
            assert(nodes[j - 1] == self.nodes[j - 1]@);
            Some(j - 1)
        }
    }

    /// The sibling that precedes node `i`.
    pub fn prev_sibling(&self, i: usize) -> (r: Option<usize>)
        requires
            i < self@.len(),
        ensures
            match r {
                Some(j) => prev_sibling_of(self@, i as int) == Some(j as int) && j < i,
                None => prev_sibling_of(self@, i as int) is None,
            },
    {
        let depth = self.nodes[i].depth;
        assert(self@[i as int] == self.nodes[i as int]@);
        match self.scan_back(depth, i) {
            Some(j) => {
                assert(self@[j as int] == self.nodes[j as int]@);
                if self.nodes[j].depth == depth {
                    Some(j)
                } else {
                    None
                }
            },
            None => None,
        }
    }

    /// The parent of node `i`.
    pub fn parent(&self, i: usize) -> (r: Option<usize>)
        requires
            i < self@.len(),
        ensures
            match r {
                Some(j) => parent_of(self@, i as int) == Some(j as int) && j < i,
                None => parent_of(self@, i as int) is None,
            },
    {
        let depth = self.nodes[i].depth;
        assert(self@[i as int] == self.nodes[i as int]@);
        if depth == 0 {
            None
        } else {
            self.scan_back(depth - 1, i)
        }
    }

    /// Whether node `i` has a parent of the given kind.
    pub fn parent_is(&self, i: usize, kind: &str) -> (r: bool)
        requires
            i < self@.len(),
        ensures
            r == parent_has_kind(self@, i as int, kind@),
    {
        match self.parent(i) {
            Some(p) => self.kind_is(p, kind),
            None => false,
        }
    }

    /// The source text of node `i`, if it can be read.
    pub fn slice(&self, source: &[u8], i: usize) -> (r: Option<Vec<char>>)
        requires
            i < self@.len(),
        ensures
            match r {
                Some(t) => node_slice(self@, source@, i as int) == Some(t@),
                None => node_slice(self@, source@, i as int) is None,
            },
    {
        let node = &self.nodes[i];
        assert(self@[i as int] == node@);
        if node.start_byte <= node.end_byte && node.end_byte <= source.len() {
            decode(slice_subrange(source, node.start_byte, node.end_byte))
        } else {
            None
        }
    }

    /// The source text of node `i`; empty if it cannot be read.
    pub fn text(&self, source: &[u8], i: usize) -> (r: Vec<char>)
        requires
            i < self@.len(),
        ensures
            r@ == node_text(self@, source@, i as int),
    {
        match self.slice(source, i) {
            Some(t) => t,
            None => Vec::new(),
        }
    }

    /// The text of the sibling before node `i`, if that sibling's kind is
    /// one of the two comment kinds.
    pub fn comment_before(&self, source: &[u8], i: usize, kind_a: &str, kind_b: &str) -> (r:
        Option<Vec<char>>)
        requires
            i < self@.len(),
        ensures
            match r {
                Some(t) => preceding_comment(self@, source@, i as int, kind_a@, kind_b@) == Some(
                    t@,
                ),
                None => preceding_comment(self@, source@, i as int, kind_a@, kind_b@) is None,
            },
    {
        match self.prev_sibling(i) {
            Some(j) => {
                if self.kind_is(j, kind_a) || self.kind_is(j, kind_b) {
                    Some(self.text(source, j))
                } else {
                    None
                }
            },
            None => None,
        }
    }
}

/// The docstring of a node: the text of the sibling before it, if there is
/// one and its kind is one of the comment kinds given; else nothing.
pub fn extract_docstring(tree: &SyntaxTree, source: &[u8], i: usize, comment_kinds: &[&str]) -> (r:
    Option<String>)
    requires
        i < tree@.len(),
    ensures
        match r {
            Some(text) => docstring_before(tree@, source@, i as int, slice_texts(comment_kinds@))
                == Some(text@),
            None => docstring_before(tree@, source@, i as int, slice_texts(comment_kinds@))
                is None,
        },
{
    match tree.prev_sibling(i) {
        Some(j) => {
            if contains_text(comment_kinds, tree.node(j).kind.as_str()) {
                Some(string_of(tree.text(source, j).as_slice()))
            } else {
                None
            }
        },
        None => None,
    }
}

} // verus!
