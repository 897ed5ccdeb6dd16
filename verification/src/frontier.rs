use vstd::multiset::Multiset;
use vstd::prelude::*;
use vstd::seq_lib::{to_multiset_insert, to_multiset_remove};
use crate::state_space::CubeState;

verus! {

/// The estimated total cost by which the frontier orders a node.
pub open spec fn cost(node: CubeState) -> int {
    node@.total_cost()
}

/// Every node of the sequence has both of its costs set.
pub open spec fn all_priced(nodes: Seq<CubeState>) -> bool {
    forall|i: int| 0 <= i < nodes.len() ==> (#[trigger] nodes[i])@.priced()
}

/// The index of the parent of node `i` in the implicit binary tree.
pub open spec fn parent(i: int) -> int {
    (i - 1) / 2
}

/// No node costs less than its parent in the implicit binary tree.
pub open spec fn heap_ordered(nodes: Seq<CubeState>) -> bool {
    forall|i: int| 0 < i < nodes.len() ==> cost(nodes[parent(i)]) <= cost(#[trigger] nodes[i])
}

/// The heap order holds everywhere but between `hole` and its parent, and
/// the children of `hole` cost no less than the parent of `hole`.
spec fn ordered_but_above(nodes: Seq<CubeState>, hole: int) -> bool {
    &&& forall|i: int|
        0 < i < nodes.len() && i != hole ==> cost(nodes[parent(i)]) <= cost(#[trigger] nodes[i])
    &&& forall|i: int|
        0 < i < nodes.len() && parent(i) == hole && hole > 0 ==> cost(nodes[parent(hole)])
            <= cost(#[trigger] nodes[i])
}

/// The heap order holds everywhere but between `hole` and its children, and
/// the children of `hole` cost no less than the parent of `hole`.
spec fn ordered_but_below(nodes: Seq<CubeState>, hole: int) -> bool {
    &&& forall|i: int|
        0 < i < nodes.len() && parent(i) != hole ==> cost(nodes[parent(i)]) <= cost(
            #[trigger] nodes[i],
        )
    &&& forall|i: int|
        0 < i < nodes.len() && parent(i) == hole && hole > 0 ==> cost(nodes[parent(hole)])
            <= cost(#[trigger] nodes[i])
}

/// The sequence with the nodes at `i` and `j` exchanged.
spec fn swapped(nodes: Seq<CubeState>, i: int, j: int) -> Seq<CubeState> {
    nodes.update(i, nodes[j]).update(j, nodes[i])
}

/// Replacing one node changes the multiset by that node alone.
proof fn lemma_update_multiset(nodes: Seq<CubeState>, i: int, node: CubeState)
    requires
        0 <= i < nodes.len(),
    ensures
        nodes.update(i, node).to_multiset() == nodes.to_multiset().remove(nodes[i]).insert(node),
{
    assert(nodes.update(i, node) =~= nodes.remove(i).insert(i, node));
    to_multiset_remove(nodes, i);
    to_multiset_insert(nodes.remove(i), i, node);
}

/// Exchanging two nodes keeps the multiset.
proof fn lemma_swap_multiset(nodes: Seq<CubeState>, i: int, j: int)
    requires
        0 <= i < nodes.len(),
        0 <= j < nodes.len(),
    ensures
        swapped(nodes, i, j).to_multiset() == nodes.to_multiset(),
{
    broadcast use vstd::seq_lib::group_to_multiset_ensures;

    let first = nodes.update(i, nodes[j]);
    lemma_update_multiset(nodes, i, nodes[j]);
    lemma_update_multiset(first, j, nodes[i]);
    assert(nodes.to_multiset().count(nodes[i]) > 0) by {
        assert(nodes.contains(nodes[i]));
    }
    assert(nodes.to_multiset().count(nodes[j]) > 0) by {
        assert(nodes.contains(nodes[j]));
    }
    assert(swapped(nodes, i, j).to_multiset() =~= nodes.to_multiset());
}

/// In a heap-ordered sequence no node costs less than the first.
proof fn lemma_root_is_cheapest(nodes: Seq<CubeState>, i: int)
    requires
        heap_ordered(nodes),
        0 <= i < nodes.len(),
    ensures
        cost(nodes[0]) <= cost(nodes[i]),
    decreases i,
{
    if i > 0 {
        lemma_root_is_cheapest(nodes, parent(i));
    }
}

/// The cost of a priced node.
fn key(node: &CubeState) -> (k: u128)
    requires
        node@.priced(),
    ensures
        k == cost(*node),
{
    node.total_cost().unwrap()
}

/// Exchanges the nodes at `i` and `j`, with the last slot as scratch space.
fn swap(nodes: &mut Vec<CubeState>, i: usize, j: usize)
    requires
        i < j < old(nodes)@.len(),
    ensures
        final(nodes)@ == swapped(old(nodes)@, i as int, j as int),
{
    let last = nodes.len() - 1;
    let mut spare = nodes.pop().unwrap();
    nodes.set_and_swap(i, &mut spare);
    if j != last {
        nodes.set_and_swap(j, &mut spare);
        nodes.set_and_swap(i, &mut spare);
    }
    nodes.push(spare);
    assert(nodes@ =~= swapped(old(nodes)@, i as int, j as int));
}

/// Removing the first node by moving the last one into its place takes
/// exactly that node out of the multiset.
proof fn lemma_swap_remove_multiset(nodes: Seq<CubeState>)
    requires
        nodes.len() > 0,
    ensures
        nodes.update(0, nodes.last()).drop_last().to_multiset() == nodes.to_multiset().remove(
            nodes[0],
        ),
{
    let last = nodes.len() - 1;
    let exchanged = swapped(nodes, 0, last);
    lemma_swap_multiset(nodes, 0, last);
    to_multiset_remove(exchanged, last);
    assert(exchanged.remove(last) =~= nodes.update(0, nodes.last()).drop_last());
}

/// One step of sifting up: when the node at `hole` costs less than its
/// parent, exchanging the two moves the only disorder one level up.
proof fn lemma_sift_up_step(before: Seq<CubeState>, hole: int)
    requires
        0 < hole < before.len(),
        ordered_but_above(before, hole),
        cost(before[hole]) < cost(before[parent(hole)]),
    ensures
        ordered_but_above(swapped(before, parent(hole), hole), parent(hole)),
{
    let above = parent(hole);
    let after = swapped(before, above, hole);
    assert forall|i: int| 0 < i < after.len() && i != above implies cost(after[parent(i)])
        <= cost(#[trigger] after[i]) by {
        if i != hole {
            assert(cost(before[parent(i)]) <= cost(before[i]));
        }
    }
    assert forall|i: int| 0 < i < after.len() && parent(i) == above && above > 0 implies cost(
        after[parent(above)],
    ) <= cost(#[trigger] after[i]) by {
        assert(cost(before[parent(above)]) <= cost(before[above]));
        if i != hole {
            assert(cost(before[parent(i)]) <= cost(before[i]));
        }
    }
}

/// Sifting up is done when the node at `hole` is the root or costs no less
/// than its parent.
proof fn lemma_sift_up_done(nodes: Seq<CubeState>, hole: int)
    requires
        0 <= hole < nodes.len(),
        ordered_but_above(nodes, hole),
        hole > 0 ==> cost(nodes[parent(hole)]) <= cost(nodes[hole]),
    ensures
        heap_ordered(nodes),
{
}

/// Moves the node at `start` up until its parent costs no more than it.
fn sift_up(nodes: &mut Vec<CubeState>, start: usize)
    requires
        start < old(nodes)@.len(),
        all_priced(old(nodes)@),
        ordered_but_above(old(nodes)@, start as int),
    ensures
        heap_ordered(final(nodes)@),
        all_priced(final(nodes)@),
        final(nodes)@.to_multiset() == old(nodes)@.to_multiset(),
        final(nodes)@.len() == old(nodes)@.len(),
{
    let mut hole = start;
    while hole > 0
        invariant_except_break
            ordered_but_above(nodes@, hole as int),
        invariant
            hole < nodes@.len(),
            nodes@.len() == old(nodes)@.len(),
            all_priced(nodes@),
            nodes@.to_multiset() == old(nodes)@.to_multiset(),
        ensures
            heap_ordered(nodes@),
        decreases hole,
    {
        let above = (hole - 1) / 2;
        if key(&nodes[hole]) < key(&nodes[above]) {
            proof {
                lemma_swap_multiset(nodes@, above as int, hole as int);
                lemma_sift_up_step(nodes@, hole as int);
            }
            swap(nodes, above, hole);
            hole = above;
        } else {
            proof {
                lemma_sift_up_done(nodes@, hole as int);
            }
            break ;
        }
    }
    proof {
        if hole == 0 && ordered_but_above(nodes@, 0) {
            lemma_sift_up_done(nodes@, 0);
        }
    }
}

/// One step of sifting down: when the cheaper child of `hole` costs less
/// than the node at `hole`, exchanging the two moves the only disorder one
/// level down.
proof fn lemma_sift_down_step(before: Seq<CubeState>, hole: int, child: int)
    requires
        0 <= hole < child < before.len(),
        parent(child) == hole,
        ordered_but_below(before, hole),
        cost(before[child]) < cost(before[hole]),
        forall|i: int|
            0 < i < before.len() && parent(i) == hole ==> cost(before[child]) <= cost(
                #[trigger] before[i],
            ),
    ensures
        ordered_but_below(swapped(before, hole, child), child),
{
    let after = swapped(before, hole, child);
    assert forall|i: int| 0 < i < after.len() && parent(i) != child implies cost(
        after[parent(i)],
    ) <= cost(#[trigger] after[i]) by {
        if parent(i) == hole {
            assert(cost(before[child]) <= cost(before[i]));
        } else if i == hole {
            assert(cost(before[parent(hole)]) <= cost(before[child]));
        } else {
            assert(cost(before[parent(i)]) <= cost(before[i]));
        }
    }
    assert forall|i: int| 0 < i < after.len() && parent(i) == child && child > 0 implies cost(
        after[parent(child)],
    ) <= cost(#[trigger] after[i]) by {
        assert(cost(before[parent(i)]) <= cost(before[i]));
    }
}

/// Sifting down is done when no child of `hole` costs less than the node at
/// `hole`.
proof fn lemma_sift_down_done(nodes: Seq<CubeState>, hole: int)
    requires
        0 <= hole < nodes.len(),
        ordered_but_below(nodes, hole),
        forall|i: int|
            0 < i < nodes.len() && parent(i) == hole ==> cost(nodes[hole]) <= cost(
                #[trigger] nodes[i],
            ),
    ensures
        heap_ordered(nodes),
{
}

/// Moves the node at `start` down until neither child costs less than it.
fn sift_down(nodes: &mut Vec<CubeState>, start: usize)
    requires
        start < old(nodes)@.len(),
        all_priced(old(nodes)@),
        ordered_but_below(old(nodes)@, start as int),
    ensures
        heap_ordered(final(nodes)@),
        all_priced(final(nodes)@),
        final(nodes)@.to_multiset() == old(nodes)@.to_multiset(),
        final(nodes)@.len() == old(nodes)@.len(),
{
    let count = nodes.len();
    let mut hole = start;
    while hole < count / 2
        invariant_except_break
            ordered_but_below(nodes@, hole as int),
        invariant
            hole < count,
            count == nodes@.len(),
            all_priced(nodes@),
            nodes@.to_multiset() == old(nodes)@.to_multiset(),
        ensures
            heap_ordered(nodes@),
        decreases count - hole,
    {
        let left = 2 * hole + 1;
        let right = left + 1;
        let mut child = left;
        if right < count && key(&nodes[right]) < key(&nodes[left]) {
            child = right;
        }
        assert forall|i: int| 0 < i < nodes@.len() && parent(i) == hole implies cost(
            nodes@[child as int],
        ) <= cost(#[trigger] nodes@[i]) by {
            assert(i == left || i == right);
        }
        if key(&nodes[child]) < key(&nodes[hole]) {
            proof {
                lemma_swap_multiset(nodes@, hole as int, child as int);
                lemma_sift_down_step(nodes@, hole as int, child as int);
            }
            swap(nodes, hole, child);
            hole = child;
        } else {
            proof {
                lemma_sift_down_done(nodes@, hole as int);
            }
            break ;
        }
    }
    proof {
        if hole >= count / 2 && ordered_but_below(nodes@, hole as int) {
            assert forall|i: int| 0 < i < nodes@.len() implies parent(i) != hole by {}
            lemma_sift_down_done(nodes@, hole as int);
        }
    }
}

/// Adds a node to a heap-ordered vector.
fn heap_push(nodes: &mut Vec<CubeState>, node: CubeState)
    requires
        heap_ordered(old(nodes)@),
        all_priced(old(nodes)@),
        node@.priced(),
    ensures
        heap_ordered(final(nodes)@),
        all_priced(final(nodes)@),
        final(nodes)@.to_multiset() == old(nodes)@.to_multiset().insert(node),
        final(nodes)@.len() == old(nodes)@.len() + 1,
{
    proof {
        vstd::seq_lib::to_multiset_build(nodes@, node);
    }
    nodes.push(node);
    let last = nodes.len() - 1;
    assert(ordered_but_above(nodes@, last as int)) by {
        assert forall|i: int| 0 < i < nodes@.len() && i != last implies cost(nodes@[parent(i)])
            <= cost(#[trigger] nodes@[i]) by {
            assert(cost(old(nodes)@[parent(i)]) <= cost(old(nodes)@[i]));
        }
    }
    sift_up(nodes, last);
}

/// Takes a cheapest node out of a heap-ordered vector that is not empty.
fn heap_pop(nodes: &mut Vec<CubeState>) -> (least: CubeState)
    requires
        old(nodes)@.len() > 0,
        heap_ordered(old(nodes)@),
        all_priced(old(nodes)@),
    ensures
        heap_ordered(final(nodes)@),
        all_priced(final(nodes)@),
        old(nodes)@.to_multiset().count(least) > 0,
        final(nodes)@.to_multiset() == old(nodes)@.to_multiset().remove(least),
        final(nodes)@.len() == old(nodes)@.len() - 1,
        least@.priced(),
        forall|i: int|
            0 <= i < old(nodes)@.len() ==> cost(least) <= cost(#[trigger] old(nodes)@[i]),
{
    proof {
        broadcast use vstd::seq_lib::group_to_multiset_ensures;

        lemma_swap_remove_multiset(nodes@);
        assert(nodes@.contains(nodes@[0]));
        assert forall|i: int| 0 <= i < nodes@.len() implies cost(nodes@[0]) <= cost(
            #[trigger] nodes@[i],
        ) by {
            lemma_root_is_cheapest(nodes@, i);
        }
    }
    let least = nodes.swap_remove(0);
    if nodes.len() > 0 {
        assert(ordered_but_below(nodes@, 0)) by {
            assert forall|i: int| 0 < i < nodes@.len() && parent(i) != 0 implies cost(
                nodes@[parent(i)],
            ) <= cost(#[trigger] nodes@[i]) by {
                assert(cost(old(nodes)@[parent(i)]) <= cost(old(nodes)@[i]));
            }
        }
        sift_down(nodes, 0);
    }
    least
}

/// Whether `node` is in `nodes` and none of `nodes` costs less.
pub open spec fn cheapest_of(node: CubeState, nodes: Multiset<CubeState>) -> bool {
    &&& nodes.count(node) > 0
    &&& forall|other: CubeState| nodes.count(other) > 0 ==> cost(node) <= cost(other)
}

/// Whether `kept` is a lowest-cost part of `all`: it is taken from `all`,
/// and nothing that was left out costs less than anything kept.
pub open spec fn lowest_cost_part(kept: Multiset<CubeState>, all: Multiset<CubeState>) -> bool {
    &&& kept.subset_of(all)
    &&& forall|a: CubeState, b: CubeState|
        kept.count(a) > 0 && all.sub(kept).count(b) > 0 ==> cost(a) <= cost(b)
}

/// The search frontier: a min-priority collection of priced search nodes,
/// ordered by estimated total cost. It is kept as a binary heap in a vector.
/// Which of several cheapest nodes comes out first is not specified.
pub struct Frontier {
    nodes: Vec<CubeState>,
}

impl View for Frontier {
    type V = Multiset<CubeState>;

    closed spec fn view(&self) -> Multiset<CubeState> {
        self.nodes@.to_multiset()
    }
}

impl Frontier {
    #[verifier::type_invariant]
    spec fn is_heap(&self) -> bool {
        heap_ordered(self.nodes@) && all_priced(self.nodes@)
    }

    /// The empty frontier.
    pub fn new() -> (frontier: Self)
        ensures
            frontier@ == Multiset::<CubeState>::empty(),
    {
        let frontier = Frontier { nodes: Vec::new() };
        assert(frontier.nodes@.to_multiset() =~= Multiset::<CubeState>::empty()) by {
            broadcast use vstd::seq_lib::group_to_multiset_ensures;

        }
        frontier
    }

    /// The number of nodes.
    pub fn len(&self) -> (count: usize)
        ensures
            count == self@.len(),
    {
        proof {
            broadcast use vstd::seq_lib::group_to_multiset_ensures;

        }
        self.nodes.len()
    }

    pub fn is_empty(&self) -> (empty: bool)
        ensures
            empty <==> self@.len() == 0,
    {
        self.len() == 0
    }

    /// Adds a priced node.
    pub fn push(&mut self, node: CubeState)
        requires
            node@.priced(),
        ensures
            final(self)@ == old(self)@.insert(node),
    {
        proof {
            use_type_invariant(&*self);
        }
        let mut nodes = Vec::new();
        core::mem::swap(&mut self.nodes, &mut nodes);
        heap_push(&mut nodes, node);
        self.nodes = nodes;
    }

    /// Takes a cheapest node out, or returns `None` when there is none.
    pub fn pop(&mut self) -> (least: Option<CubeState>)
        ensures
            old(self)@.len() == 0 ==> least is None && final(self)@ == old(self)@,
            old(self)@.len() > 0 ==> least is Some && cheapest_of(least->0, old(self)@)
                && least->0@.priced() && final(self)@ == old(self)@.remove(least->0),
    {
        proof {
            broadcast use vstd::seq_lib::group_to_multiset_ensures;

            use_type_invariant(&*self);
        }
        if self.nodes.len() == 0 {
            return None;
        }
        let mut nodes = Vec::new();
        core::mem::swap(&mut self.nodes, &mut nodes);
        let ghost before = nodes@;
        let least = heap_pop(&mut nodes);
        self.nodes = nodes;
        assert forall|other: CubeState| before.to_multiset().count(other) > 0 implies cost(least)
            <= cost(other) by {
            assert(before.contains(other));
        }
        Some(least)
    }

    /// A cheapest node, or `None` when there is none.
    pub fn peek(&self) -> (least: Option<&CubeState>)
        ensures
            self@.len() == 0 ==> least is None,
            self@.len() > 0 ==> least is Some && cheapest_of(*least->0, self@)
                && least->0@.priced(),
    {
        proof {
            broadcast use vstd::seq_lib::group_to_multiset_ensures;

            use_type_invariant(self);
        }
        if self.nodes.len() == 0 {
            return None;
        }
        let least = &self.nodes[0];
        proof {
            assert(self.nodes@.contains(*least));
            assert forall|other: CubeState| self@.count(other) > 0 implies cost(*least) <= cost(
                other,
            ) by {
                assert(self.nodes@.contains(other));
                let i = choose|i: int| 0 <= i < self.nodes@.len() && self.nodes@[i] == other;
                lemma_root_is_cheapest(self.nodes@, i);
            }
        }
        Some(least)
    }
    /// The nodes, in the order in which the heap holds them.
    pub fn nodes(&self) -> (nodes: &Vec<CubeState>)
        ensures
            nodes@.to_multiset() == self@,
    {
        &self.nodes
    }

    /// Keeps the `keep` cheapest nodes and drops the rest. A frontier that
    /// holds no more than `keep` nodes stays as it is.
    pub fn retain_best(&mut self, keep: usize)
        ensures
            final(self)@.len() == if keep <= old(self)@.len() {
                keep as nat
            } else {
                old(self)@.len()
            },
            lowest_cost_part(final(self)@, old(self)@),
    {
        proof {
            use_type_invariant(&*self);
        }
        let mut rest = Vec::new();
        core::mem::swap(&mut self.nodes, &mut rest);
        let ghost all = rest@;
        let kept = take_cheapest(&mut rest, keep);
        proof {
            lemma_lowest_cost_part(kept@, rest@, all.to_multiset());
            vstd::seq_lib::to_multiset_len(all);
            vstd::seq_lib::to_multiset_len(kept@);
        }
        self.nodes = kept;
    }
}

/// Takes the `keep` cheapest nodes out of a heap-ordered vector, cheapest
/// first, or all of them when there are fewer.
fn take_cheapest(rest: &mut Vec<CubeState>, keep: usize) -> (kept: Vec<CubeState>)
    requires
        heap_ordered(old(rest)@),
        all_priced(old(rest)@),
    ensures
        heap_ordered(kept@),
        all_priced(kept@),
        old(rest)@.to_multiset() == kept@.to_multiset().add(final(rest)@.to_multiset()),
        kept@.len() == if keep <= old(rest)@.len() {
            keep as int
        } else {
            old(rest)@.len() as int
        },
        forall|i: int, j: int|
            0 <= i < kept@.len() && 0 <= j < final(rest)@.len() ==> cost(#[trigger] kept@[i])
                <= cost(#[trigger] final(rest)@[j]),
{
    let mut kept: Vec<CubeState> = Vec::new();
    proof {
        assert(kept@.to_multiset() =~= Multiset::<CubeState>::empty()) by {
            broadcast use vstd::seq_lib::group_to_multiset_ensures;

        }
        assert(rest@.to_multiset() =~= kept@.to_multiset().add(rest@.to_multiset()));
    }
    while kept.len() < keep && rest.len() > 0
        invariant
            heap_ordered(rest@),
            all_priced(rest@),
            all_priced(kept@),
            old(rest)@.to_multiset() == kept@.to_multiset().add(rest@.to_multiset()),
            kept@.len() + rest@.len() == old(rest)@.len(),
            kept@.len() <= keep,
            forall|i: int, j: int|
                0 <= i <= j < kept@.len() ==> cost(#[trigger] kept@[i]) <= cost(
                    #[trigger] kept@[j],
                ),
            forall|i: int, j: int|
                0 <= i < kept@.len() && 0 <= j < rest@.len() ==> cost(#[trigger] kept@[i])
                    <= cost(#[trigger] rest@[j]),
        decreases rest@.len(),
    {
        let ghost kept_before = kept@;
        let ghost rest_before = rest@;
        let least = heap_pop(rest);
        kept.push(least);
        proof {
            lemma_take_step(kept_before, rest_before, rest@, least);
            assert(old(rest)@.to_multiset() =~= kept@.to_multiset().add(rest@.to_multiset()));
        }
    }
    assert(heap_ordered(kept@)) by {
        assert forall|i: int| 0 < i < kept@.len() implies cost(kept@[parent(i)]) <= cost(
            #[trigger] kept@[i],
        ) by {
            assert(0 <= parent(i) <= i);
        }
    }
    kept
}

/// Moving a cheapest node of `rest_before` to the end of an ascending run
/// whose nodes all cost no more than those of `rest_before` keeps the run
/// ascending and no dearer than what is left.
proof fn lemma_take_step(
    kept: Seq<CubeState>,
    rest_before: Seq<CubeState>,
    rest: Seq<CubeState>,
    least: CubeState,
)
    requires
        rest_before.to_multiset().count(least) > 0,
        rest.to_multiset() == rest_before.to_multiset().remove(least),
        forall|i: int|
            0 <= i < rest_before.len() ==> cost(least) <= cost(#[trigger] rest_before[i]),
        forall|i: int, j: int|
            0 <= i <= j < kept.len() ==> cost(#[trigger] kept[i]) <= cost(#[trigger] kept[j]),
        forall|i: int, j: int|
            0 <= i < kept.len() && 0 <= j < rest_before.len() ==> cost(#[trigger] kept[i])
                <= cost(#[trigger] rest_before[j]),
    ensures
        kept.push(least).to_multiset() == kept.to_multiset().insert(least),
        forall|i: int, j: int|
            0 <= i <= j < kept.push(least).len() ==> cost(#[trigger] kept.push(least)[i])
                <= cost(#[trigger] kept.push(least)[j]),
        forall|i: int, j: int|
            0 <= i < kept.push(least).len() && 0 <= j < rest.len() ==> cost(
                #[trigger] kept.push(least)[i],
            ) <= cost(#[trigger] rest[j]),
{
    let longer = kept.push(least);
    vstd::seq_lib::to_multiset_build(kept, least);
    vstd::seq_lib::to_multiset_contains(rest_before, least);
    let at = choose|k: int| 0 <= k < rest_before.len() && rest_before[k] == least;
    assert forall|i: int, j: int| 0 <= i <= j < longer.len() implies cost(#[trigger] longer[i])
        <= cost(#[trigger] longer[j]) by {
        if j == kept.len() && i < j {
            assert(cost(kept[i]) <= cost(rest_before[at]));
        }
    }
    assert forall|i: int, j: int| 0 <= i < longer.len() && 0 <= j < rest.len() implies cost(
        #[trigger] longer[i],
    ) <= cost(#[trigger] rest[j]) by {
        assert(rest.contains(rest[j]));
        vstd::seq_lib::to_multiset_contains(rest, rest[j]);
        vstd::seq_lib::to_multiset_contains(rest_before, rest[j]);
        let k = choose|k: int| 0 <= k < rest_before.len() && rest_before[k] == rest[j];
        if i < kept.len() {
            assert(cost(kept[i]) <= cost(rest_before[k]));
        } else {
            assert(cost(least) <= cost(rest_before[k]));
        }
    }
}

/// When every node of `kept` costs no more than every node of `rest`,
/// `kept` is a lowest-cost part of the two together.
proof fn lemma_lowest_cost_part(
    kept: Seq<CubeState>,
    rest: Seq<CubeState>,
    all: Multiset<CubeState>,
)
    requires
        all == kept.to_multiset().add(rest.to_multiset()),
        forall|i: int, j: int|
            0 <= i < kept.len() && 0 <= j < rest.len() ==> cost(#[trigger] kept[i]) <= cost(
                #[trigger] rest[j],
            ),
    ensures
        lowest_cost_part(kept.to_multiset(), all),
{
    assert(all.sub(kept.to_multiset()) =~= rest.to_multiset());
    assert forall|a: CubeState, b: CubeState|
        kept.to_multiset().count(a) > 0 && all.sub(kept.to_multiset()).count(b) > 0 implies cost(
        a,
    ) <= cost(b) by {
        vstd::seq_lib::to_multiset_contains(kept, a);
        vstd::seq_lib::to_multiset_contains(rest, b);
        let i = choose|i: int| 0 <= i < kept.len() && kept[i] == a;
        let j = choose|j: int| 0 <= j < rest.len() && rest[j] == b;
        assert(cost(kept[i]) <= cost(rest[j]));
    }
}

} // verus!
