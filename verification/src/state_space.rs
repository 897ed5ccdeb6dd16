use vstd::multiset::Multiset;
use vstd::prelude::*;
use crate::action::{Actionable, Actions};
use crate::frontier::{cheapest_of, lowest_cost_part, Frontier};
use crate::heuristic::{heuristic_of, Heuristic, COST_SCALE};
use crate::loaders::CubeLoader;
use crate::model::{
    grid_view, lemma_turned_all_push, turned, turned_all, CubeModel, CubeView, Grid,
};

verus! {

/// What a search node stands for: a puzzle state with its search
/// bookkeeping.
pub struct CubeStateView {
    pub model: CubeView,
    pub path_cost: Option<usize>,
    pub heuristic_cost: Option<usize>,
    pub actions_taken: Seq<Actions>,
}

impl CubeStateView {
    /// Both costs are set, so the node can be ordered in the frontier.
    pub open spec fn priced(self) -> bool {
        self.path_cost is Some && self.heuristic_cost is Some
    }

    /// The estimated total cost of a priced node, in eighths of a move: the
    /// moves taken so far plus the estimate of those still to come.
    pub open spec fn total_cost(self) -> int {
        COST_SCALE * self.path_cost->0 + self.heuristic_cost->0
    }
}

/// A search node: a puzzle state, the number of moves that led to it, the
/// estimate of the moves still needed (in eighths of a move), and the moves
/// themselves.
#[derive(Debug)]
pub struct CubeState {
    pub model: CubeModel,
    pub path_cost: Option<usize>,
    pub heuristic_cost: Option<usize>,
    pub actions_taken: Vec<Actions>,
}

impl View for CubeState {
    type V = CubeStateView;

    open spec fn view(&self) -> CubeStateView {
        CubeStateView {
            model: self.model@,
            path_cost: self.path_cost,
            heuristic_cost: self.heuristic_cost,
            actions_taken: self.actions_taken@,
        }
    }
}

impl Clone for CubeState {
    fn clone(&self) -> (copy: Self)
        ensures
            copy@ == self@,
    {
        let actions_taken = self.actions_taken.clone();
        assert(actions_taken@ =~= self.actions_taken@);
        CubeState {
            model: self.model,
            path_cost: self.path_cost,
            heuristic_cost: self.heuristic_cost,
            actions_taken,
        }
    }
}

impl CubeState {
    /// A node for the given puzzle state, with no costs and no history.
    pub fn from_model(model: CubeModel) -> (state: Self)
        ensures
            state@ == (CubeStateView {
                model: model@,
                path_cost: None,
                heuristic_cost: None,
                actions_taken: Seq::empty(),
            }),
    {
        Self { model, path_cost: None, heuristic_cost: None, actions_taken: Vec::new() }
    }

    /// A node for the puzzle state that a loader describes, with no costs
    /// and no history.
    pub fn from_loader(loader: impl CubeLoader) -> (state: Self)
        requires
            loader.loadable(),
        ensures
            state@ == (CubeStateView {
                model: loader.loaded(),
                path_cost: None,
                heuristic_cost: None,
                actions_taken: Seq::empty(),
            }),
    {
        Self {
            model: CubeModel::from_loader(loader),
            path_cost: None,
            heuristic_cost: None,
            actions_taken: Vec::new(),
        }
    }

    pub fn elements(&self) -> (elements: &Grid)
        ensures
            grid_view(*elements) == self@.model,
    {
        self.model.cube_elements()
    }

    /// The moves that can be applied to a node: all twelve, whatever its
    /// state.
    pub fn actions(&self) -> (moves: Vec<Actions>)
        ensures
            moves@ == Actions::all(),
    {
        Actions::every()
    }

    /// The number of moves from the root, if set.
    pub fn path_cost(&self) -> (cost: Option<usize>)
        ensures
            cost == self@.path_cost,
    {
        self.path_cost
    }

    /// The estimate of the moves still needed, in eighths of a move, if set.
    pub fn heuristic_cost(&self) -> (cost: Option<usize>)
        ensures
            cost == self@.heuristic_cost,
    {
        self.heuristic_cost
    }

    /// The moves taken from the root, first to last.
    pub fn actions_taken(&self) -> (moves: &Vec<Actions>)
        ensures
            moves@ == self@.actions_taken,
    {
        &self.actions_taken
    }

    pub fn set_path_cost(&mut self, cost: usize)
        ensures
            final(self)@ == (CubeStateView { path_cost: Some(cost), ..old(self)@ }),
    {
        self.path_cost = Some(cost);
    }

    pub fn set_heuristic_cost(&mut self, cost: usize)
        ensures
            final(self)@ == (CubeStateView { heuristic_cost: Some(cost), ..old(self)@ }),
    {
        self.heuristic_cost = Some(cost);
    }

    /// Sets the heuristic cost to the estimate of the node's own state.
    pub fn update_heuristic_cost(&mut self)
        ensures
            final(self)@ == (CubeStateView {
                heuristic_cost: Some(heuristic_of(old(self)@.model) as usize),
                ..old(self)@
            }),
            final(self)@.heuristic_cost->0 == heuristic_of(old(self)@.model),
    {
        let estimate = self.heuristic();
        self.set_heuristic_cost(estimate);
    }

    /// The estimated total cost in eighths of a move, or `None` while a cost
    /// is unset.
    pub fn total_cost(&self) -> (cost: Option<u128>)
        ensures
            cost is Some <==> self@.priced(),
            cost is Some ==> cost->0 == self@.total_cost(),
    {
        match (self.path_cost, self.heuristic_cost) {
            (Some(path), Some(estimate)) => Some(
                (COST_SCALE as u128) * (path as u128) + (estimate as u128),
            ),
            _ => None,
        }
    }
}

impl Heuristic for CubeState {
    open spec fn estimate(&self) -> int {
        heuristic_of(self@.model)
    }

    /// The estimate of the node's puzzle state. The move history plays no
    /// part in it.
    fn heuristic(&self) -> (h: usize) {
        self.model.heuristic()
    }
}

impl Actionable for CubeState {
    /// Turns the puzzle and appends the move to the history. The costs stay
    /// as they were.
    fn apply_action(&mut self, action: Actions)
        ensures
            final(self)@ == (CubeStateView {
                model: turned(old(self)@.model, action),
                actions_taken: old(self)@.actions_taken.push(action),
                ..old(self)@
            }),
    {
        self.model.apply_action(action);
        self.actions_taken.push(action);
    }
}

/// How many nodes a prune keeps. A prune happens when the frontier holds
/// more than twice as many.
pub const STATE_SPACE_BOUND: usize = 1_000_000;

/// The heuristic cost that the root is seeded with: a hundred moves, in
/// eighths of a move.
pub const ROOT_HEURISTIC_COST: usize = 800;

/// The node that a move makes of `parent`, before it is priced: the puzzle
/// turned, the move appended to the history, the costs as they were.
pub open spec fn moved(parent: CubeStateView, action: Actions) -> CubeStateView {
    CubeStateView {
        model: turned(parent.model, action),
        actions_taken: parent.actions_taken.push(action),
        ..parent
    }
}

/// The child that expanding `parent` makes for a move: one move further from
/// the root, with the heuristic cost of its own state.
pub open spec fn successor(parent: CubeStateView, action: Actions) -> CubeStateView {
    CubeStateView {
        model: turned(parent.model, action),
        path_cost: Some((parent.path_cost->0 + 1) as usize),
        heuristic_cost: Some(heuristic_of(turned(parent.model, action)) as usize),
        actions_taken: parent.actions_taken.push(action),
    }
}

/// Whether `children` are the twelve children of `parent`, one for each move
/// in declaration order.
pub open spec fn children_of(parent: CubeStateView, children: Seq<CubeState>) -> bool {
    &&& children.len() == Actions::all().len()
    &&& forall|i: int|
        0 <= i < children.len() ==> (#[trigger] children[i])@ == successor(
            parent,
            Actions::all()[i],
        )
}

/// Whether `after` is what expanding `parent` makes of the frontier
/// `before`: the parent, a cheapest node, leaves, and its twelve children
/// come in.
pub open spec fn expansion(
    before: Multiset<CubeState>,
    after: Multiset<CubeState>,
    parent: CubeState,
    children: Seq<CubeState>,
) -> bool {
    &&& cheapest_of(parent, before)
    &&& children_of(parent@, children)
    &&& after == before.remove(parent).add(children.to_multiset())
}

/// Whether a node belongs to the search that started from the puzzle state
/// `start` with the history `prefix`: its history continues `prefix`, its
/// state is what the moves after `prefix` make of `start`, its path cost
/// counts those moves, and, unless it is the root, its heuristic cost is the
/// estimate of its state.
pub open spec fn descends(node: CubeStateView, start: CubeView, prefix: Seq<Actions>) -> bool {
    &&& prefix.len() <= node.actions_taken.len()
    &&& node.actions_taken.take(prefix.len() as int) == prefix
    &&& node.model == turned_all(start, node.actions_taken.skip(prefix.len() as int))
    &&& node.path_cost == Some((node.actions_taken.len() - prefix.len()) as usize)
    &&& node.heuristic_cost is Some
    &&& node.actions_taken.len() > prefix.len() ==> node.heuristic_cost->0 == heuristic_of(
        node.model,
    )
    &&& node.actions_taken.len() == prefix.len() ==> node.heuristic_cost->0
        == ROOT_HEURISTIC_COST
}

/// A child of a node of the search belongs to the search.
pub proof fn lemma_successor_descends(
    parent: CubeStateView,
    action: Actions,
    start: CubeView,
    prefix: Seq<Actions>,
)
    requires
        descends(parent, start, prefix),
        parent.actions_taken.len() < usize::MAX,
        0 <= heuristic_of(turned(parent.model, action)) <= usize::MAX,
    ensures
        descends(successor(parent, action), start, prefix),
{
    let child = successor(parent, action);
    let k = prefix.len() as int;
    assert(child.actions_taken.take(k) =~= parent.actions_taken.take(k));
    assert(child.actions_taken.skip(k) =~= parent.actions_taken.skip(k).push(action));
    lemma_turned_all_push(start, parent.actions_taken.skip(k), action);
}

/// The moves of an answer, as a sequence.
pub open spec fn answer(solution: Option<Vec<Actions>>) -> Option<Seq<Actions>> {
    match solution {
        Some(moves) => Some(moves@),
        None => None,
    }
}

/// What a search stands for.
pub struct StateSpaceView {
    /// The goal node.
    pub goal: CubeStateView,
    /// The nodes waiting to be expanded.
    pub frontier: Multiset<CubeState>,
    /// How many nodes a prune keeps.
    pub bound: usize,
    /// The puzzle state that the search started from.
    pub start: CubeView,
    /// The history that the initial node came with.
    pub prefix: Seq<Actions>,
    /// How many nodes have been expanded so far.
    pub expanded: nat,
}

impl StateSpaceView {
    /// Whether this is a search that is about to start from `initial`: the
    /// frontier holds the root and nothing else, and the root is `initial`
    /// at path cost zero with the seeded heuristic cost.
    pub open spec fn starts_from(self, initial: CubeStateView) -> bool {
        &&& self.start == initial.model
        &&& self.prefix == initial.actions_taken
        &&& self.expanded == 0
        &&& self.frontier.len() == 1
        &&& forall|node: CubeState|
            self.frontier.count(node) > 0 ==> node@ == (CubeStateView {
                path_cost: Some(0usize),
                heuristic_cost: Some(ROOT_HEURISTIC_COST),
                ..initial
            })
    }

    /// Whether `after` is this search after a prune: a frontier of more
    /// than twice the bound is cut down to a lowest-cost part of the
    /// bound's size, a smaller one stays as it is, and nothing else changes.
    pub open spec fn pruned_to(self, after: StateSpaceView) -> bool {
        &&& after == (StateSpaceView { frontier: after.frontier, ..self })
        &&& self.frontier.len() > 2 * self.bound ==> after.frontier.len() == self.bound
            && lowest_cost_part(after.frontier, self.frontier)
        &&& self.frontier.len() <= 2 * self.bound ==> after.frontier == self.frontier
    }

    /// Whether `after` is this search after the expansion of one of its
    /// cheapest nodes.
    pub open spec fn expanded_to(self, after: StateSpaceView) -> bool {
        &&& after == (StateSpaceView {
            frontier: after.frontier,
            expanded: self.expanded + 1,
            ..self
        })
        &&& exists|parent: CubeState, children: Seq<CubeState>| #[trigger]
            expansion(self.frontier, after.frontier, parent, children)
    }

    /// Whether `after` is this search after one round: a prune that leaves
    /// the frontier with something in it, then an expansion.
    pub open spec fn round_to(self, after: StateSpaceView) -> bool {
        exists|pruned: StateSpaceView| #[trigger]
            self.pruned_to(pruned) && pruned.frontier.len() > 0 && pruned.expanded_to(after)
    }

    /// Whether the search can stop with `moves` as its answer: `moves` is
    /// the history of a cheapest node of the frontier, and that node's
    /// heuristic cost is zero.
    pub open spec fn won_by(self, moves: Seq<Actions>) -> bool {
        exists|node: CubeState| #[trigger]
            cheapest_of(node, self.frontier) && node@.heuristic_cost == Some(0usize)
                && node@.actions_taken == moves
    }

    /// Whether the search can go on: the frontier is empty, or one of its
    /// cheapest nodes has a heuristic cost that is not zero. (When cheapest
    /// nodes tie, the search may both stop and go on.)
    pub open spec fn undecided(self) -> bool {
        self.frontier.len() == 0 || exists|node: CubeState| #[trigger]
            cheapest_of(node, self.frontier) && node@.heuristic_cost != Some(0usize)
    }

    /// Whether `rounds` rounds lead from this search to `now`, the search
    /// going on after each round but the last.
    pub open spec fn runs_to(self, now: StateSpaceView, rounds: nat) -> bool
        decreases rounds,
    {
        if rounds == 0 {
            now == self
        } else {
            exists|before: StateSpaceView| #[trigger]
                before.round_to(now) && self.runs_to(before, (rounds - 1) as nat) && (rounds > 1
                    ==> before.undecided())
        }
    }

    /// Whether a search of at most `limit` rounds from this search can end
    /// in `end` with the given answer after `rounds` rounds. An answer is
    /// the history of a cheapest node with heuristic cost zero, found after
    /// a round. There is no answer when the rounds are used up, or when a
    /// prune leaves nothing to expand.
    pub open spec fn searched(
        self,
        end: StateSpaceView,
        rounds: nat,
        limit: nat,
        solution: Option<Seq<Actions>>,
    ) -> bool {
        &&& rounds <= limit
        &&& match solution {
            Some(moves) => rounds > 0 && self.runs_to(end, rounds) && end.won_by(moves),
            None => {
                ||| rounds == limit && self.runs_to(end, rounds) && (rounds > 0
                    ==> end.undecided())
                ||| exists|last: StateSpaceView| #[trigger]
                    last.pruned_to(end) && end.frontier.len() == 0 && self.runs_to(last, rounds)
                        && (rounds > 0 ==> last.undecided())
            },
        }
    }

    /// Whether `moves` is a solution of this search: the history that the
    /// initial node came with, followed by at least one move, such that the
    /// moves after that history take the initial puzzle state to one whose
    /// heuristic is zero.
    pub open spec fn solved_by(self, moves: Seq<Actions>) -> bool {
        &&& self.prefix.len() < moves.len()
        &&& moves.take(self.prefix.len() as int) == self.prefix
        &&& heuristic_of(turned_all(self.start, moves.skip(self.prefix.len() as int))) == 0
    }
}

/// A best-first search from an initial puzzle state: the frontier of nodes
/// still to expand, ordered by estimated total cost, and the goal.
pub struct StateSpace {
    goal_state: CubeState,
    frontier: Frontier,
    bound: usize,
    start: Ghost<CubeView>,
    prefix: Ghost<Seq<Actions>>,
    expanded: Ghost<nat>,
}

impl View for StateSpace {
    type V = StateSpaceView;

    closed spec fn view(&self) -> StateSpaceView {
        StateSpaceView {
            goal: self.goal_state@,
            frontier: self.frontier@,
            bound: self.bound,
            start: self.start@,
            prefix: self.prefix@,
            expanded: self.expanded@,
        }
    }
}

impl StateSpace {
    #[verifier::type_invariant]
    spec fn frontier_descends(&self) -> bool {
        forall|node: CubeState|
            self.frontier@.count(node) > 0 ==> descends(node@, self.start@, self.prefix@)
    }

    /// A search from `initial_state` that prunes as the constants say. The
    /// root keeps the history that `initial_state` came with, starts at path
    /// cost zero, and is seeded with a high heuristic cost.
    pub fn new(initial_state: CubeState, goal_state: CubeState) -> (space: Self)
        ensures
            space@.goal == goal_state@,
            space@.bound == STATE_SPACE_BOUND,
            space@.starts_from(initial_state@),
    {
        Self::with_bound(initial_state, goal_state, STATE_SPACE_BOUND)
    }

    /// A search like that of `new`, but one whose prunes keep `bound` nodes.
    pub fn with_bound(initial_state: CubeState, goal_state: CubeState, bound: usize) -> (space:
        Self)
        ensures
            space@.goal == goal_state@,
            space@.bound == bound,
            space@.starts_from(initial_state@),
    {
        let mut root = initial_state.clone();
        root.set_path_cost(0);
        root.set_heuristic_cost(ROOT_HEURISTIC_COST);
        let mut frontier = Frontier::new();
        frontier.push(root);
        proof {
            assert(root@.actions_taken.take(root@.actions_taken.len() as int)
                =~= root@.actions_taken);
            assert(root@.actions_taken.skip(root@.actions_taken.len() as int) =~= Seq::empty());
            assert(descends(root@, initial_state@.model, initial_state@.actions_taken));
        }
        Self {
            goal_state,
            frontier,
            bound,
            start: Ghost(initial_state@.model),
            prefix: Ghost(initial_state@.actions_taken),
            expanded: Ghost(0),
        }
    }

    /// The frontier, to look at.
    pub fn frontier(&self) -> (frontier: &Frontier)
        ensures
            frontier@ == self@.frontier,
    {
        &self.frontier
    }

    /// Whether the node's puzzle state is that of the goal.
    pub fn is_goal(&self, state: &CubeState) -> (reached: bool)
        ensures
            reached <==> state@.model == self@.goal.model,
    {
        state.model.same_elements(&self.goal_state.model)
    }
    /// Adds a node that belongs to this search to the frontier.
    fn add_to_frontier(&mut self, state: CubeState)
        requires
            descends(state@, old(self)@.start, old(self)@.prefix),
        ensures
            final(self)@ == (StateSpaceView {
                frontier: old(self)@.frontier.insert(state),
                ..old(self)@
            }),
    {
        proof {
            use_type_invariant(&*self);
        }
        let mut frontier = Frontier::new();
        core::mem::swap(&mut self.frontier, &mut frontier);
        frontier.push(state);
        self.frontier = frontier;
    }

    /// The pruning policy: once the frontier holds more than twice the
    /// bound, only the bound's number of cheapest nodes stay. Nodes that
    /// might have led to a solution can be lost this way. After a prune the
    /// frontier never holds more than twice the bound.
    pub fn prune_frontier(&mut self)
        ensures
            old(self)@.pruned_to(final(self)@),
            final(self)@.frontier.len() <= 2 * old(self)@.bound,
    {
        proof {
            use_type_invariant(&*self);
        }
        let count = self.frontier.len();
        if count > self.bound && count - self.bound > self.bound {
            let mut frontier = Frontier::new();
            core::mem::swap(&mut self.frontier, &mut frontier);
            frontier.retain_best(self.bound);
            self.frontier = frontier;
        }
    }

    /// The twelve nodes that one move each makes of `state`, in the moves'
    /// declaration order. Their costs are those of `state`.
    pub fn get_successors(&self, state: &CubeState) -> (successors: Vec<CubeState>)
        ensures
            successors@.len() == Actions::all().len(),
            forall|i: int|
                0 <= i < successors@.len() ==> (#[trigger] successors@[i])@ == moved(
                    state@,
                    Actions::all()[i],
                ),
    {
        let actions = state.actions();
        let mut successors: Vec<CubeState> = Vec::new();
        let mut i: usize = 0;
        while i < actions.len()
            invariant
                actions@ == Actions::all(),
                i <= actions@.len(),
                successors@.len() == i,
                forall|j: int|
                    0 <= j < i ==> (#[trigger] successors@[j])@ == moved(state@, Actions::all()[j]),
            decreases actions@.len() - i,
        {
            let mut new_state = state.clone();
            new_state.apply_action(actions[i]);
            successors.push(new_state);
            i += 1;
        }
        successors
    }

    /// Expands a cheapest node: takes it out of the frontier and puts its
    /// twelve children in, each one move further from the root and priced
    /// with the estimate of its own state.
    pub fn expand_frontier(&mut self)
        requires
            old(self)@.frontier.len() > 0,
        ensures
            old(self)@.expanded_to(final(self)@),
    {
        proof {
            use_type_invariant(&*self);
        }
        let mut frontier = Frontier::new();
        core::mem::swap(&mut self.frontier, &mut frontier);
        let promising = frontier.pop().unwrap();
        self.frontier = frontier;
        let successors = self.get_successors(&promising);
        let promising_path_cost = promising.path_cost.unwrap();
        let ghost rest = self.frontier@;
        let ghost mut children: Seq<CubeState> = Seq::empty();
        proof {
            assert(children.to_multiset() =~= Multiset::<CubeState>::empty()) by {
                broadcast use vstd::seq_lib::group_to_multiset_ensures;

            }
            assert(rest =~= rest.add(children.to_multiset()));
        }
        let mut i: usize = 0;
        while i < successors.len()
            invariant
                descends(promising@, self.start@, self.prefix@),
                promising@.path_cost == Some(promising_path_cost),
                successors@.len() == Actions::all().len(),
                forall|j: int|
                    0 <= j < successors@.len() ==> (#[trigger] successors@[j])@ == moved(
                        promising@,
                        Actions::all()[j],
                    ),
                i <= successors@.len(),
                children.len() == i,
                forall|j: int|
                    0 <= j < i ==> (#[trigger] children[j])@ == successor(
                        promising@,
                        Actions::all()[j],
                    ),
                self.frontier@ == rest.add(children.to_multiset()),
                self@ == (StateSpaceView { frontier: self@.frontier, ..old(self)@ }),
            decreases successors@.len() - i,
        {
            let mut new_state = successors[i].clone();
            assert(promising@.actions_taken.len() < usize::MAX) by {
                assert(new_state@.actions_taken.len() == promising@.actions_taken.len() + 1);
                assert(new_state.actions_taken.len() == new_state@.actions_taken.len());
            }
            new_state.set_path_cost(promising_path_cost + 1);
            new_state.update_heuristic_cost();
            proof {
                lemma_successor_descends(
                    promising@,
                    Actions::all()[i as int],
                    self.start@,
                    self.prefix@,
                );
                assert(new_state@ == successor(promising@, Actions::all()[i as int]));
                vstd::seq_lib::to_multiset_build(children, new_state);
                assert(rest.add(children.to_multiset()).insert(new_state) =~= rest.add(
                    children.push(new_state).to_multiset(),
                ));
                children = children.push(new_state);
            }
            self.add_to_frontier(new_state);
            i += 1;
        }
        proof {
            use_type_invariant(&*self);
            self.expanded@ = self.expanded@ + 1;
            assert(expansion(old(self)@.frontier, self@.frontier, promising, children));
        }
    }

    /// Looks at a cheapest node of the frontier: if its heuristic cost is
    /// zero, the search is over and the node's history is the answer.
    pub fn winner(&self) -> (solution: Option<Vec<Actions>>)
        ensures
            solution matches Some(moves) ==> self@.won_by(moves@) && self@.solved_by(moves@),
            solution is None ==> self@.undecided(),
    {
        proof {
            use_type_invariant(self);
        }
        match self.frontier.peek() {
            Some(state) => {
                if state.heuristic_cost.unwrap() == 0 {
                    let moves = state.actions_taken.clone();
                    proof {
                        assert(moves@ =~= state@.actions_taken);
                        assert(cheapest_of(*state, self@.frontier));
                        assert(self.frontier@.count(*state) > 0);
                        assert(descends(state@, self@.start, self@.prefix));
                    }
                    Some(moves)
                } else {
                    None
                }
            },
            None => None,
        }
    }

    /// Searches until a node with heuristic cost zero is a cheapest node of
    /// the frontier, and returns that node's history. See `solve_within`;
    /// this search gives up only after `usize::MAX` rounds.
    pub fn solve(&mut self) -> (solution: Option<Vec<Actions>>)
        ensures
            exists|rounds: nat| #[trigger]
                old(self)@.searched(final(self)@, rounds, usize::MAX as nat, answer(solution)),
            solution matches Some(moves) ==> old(self)@.solved_by(moves@),
    {
        self.solve_within(usize::MAX)
    }

    /// The search, for at most `max_expansions` rounds. A round prunes the
    /// frontier, expands a cheapest node, and then looks at a cheapest node
    /// of the new frontier: if its heuristic cost is zero, its history is
    /// the answer. The search stops on the estimate, not on a comparison
    /// with the goal; for a start that moves can reach from the solved
    /// state the two agree. `None` means that a prune left nothing to
    /// expand or that the rounds were used up.
    pub fn solve_within(&mut self, max_expansions: usize) -> (solution: Option<Vec<Actions>>)
        ensures
            exists|rounds: nat| #[trigger]
                old(self)@.searched(final(self)@, rounds, max_expansions as nat, answer(solution)),
            solution matches Some(moves) ==> old(self)@.solved_by(moves@),
    {
        let mut rounds: usize = 0;
        while rounds < max_expansions && !self.frontier.is_empty()
            invariant
                rounds <= max_expansions,
                old(self)@.runs_to(self@, rounds as nat),
                rounds > 0 ==> self@.undecided(),
                self@.start == old(self)@.start,
                self@.prefix == old(self)@.prefix,
            decreases max_expansions - rounds,
        {
            let ghost before = self@;
            self.prune_frontier();
            if self.frontier.is_empty() {
                assert(old(self)@.searched(self@, rounds as nat, max_expansions as nat, None));
                return None;
            }
            self.expand_frontier();
            rounds += 1;
            assert(before.round_to(self@));
            assert(old(self)@.runs_to(self@, rounds as nat));
            let solution = self.winner();
            if solution.is_some() {
                assert(old(self)@.searched(
                    self@,
                    rounds as nat,
                    max_expansions as nat,
                    answer(solution),
                ));
                return solution;
            }
        }
        proof {
            if rounds < max_expansions {
                assert(self@.pruned_to(self@));
            }
            assert(old(self)@.searched(self@, rounds as nat, max_expansions as nat, None));
        }
        None
    }
}

} // verus!
