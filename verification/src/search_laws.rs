use vstd::prelude::*;
use crate::action::Actions;
use crate::frontier::{cheapest_of, cost};
use crate::heuristic::{
    face_centres_home, heuristic_of, lemma_estimates_zero_iff_home, lemma_heuristic_bounds,
    lemma_heuristic_positive_off_goal, lemma_heuristic_zero_at_goal, lemma_moves_keep_face_centres,
    movable_cubies_home,
};
use crate::model::{
    lemma_moves_preserve_validity, lemma_only_opposite_restores, lemma_opposite_move_restores,
    lemma_solved_is_valid, solved_view, turned, turned_all, valid_state,
};
use crate::state_space::{
    children_of, expansion, successor, CubeState, CubeStateView, StateSpaceView,
};

verus! {

/// An answer of the search solves the puzzle: when the start satisfies the
/// puzzle-state invariant and has its face centres at home, as every state
/// does that moves reach from the solved one, the moves of the answer that
/// come after the initial history take the start to the solved state.
pub proof fn lemma_answer_restores_solved(search: StateSpaceView, moves: Seq<Actions>)
    requires
        search.solved_by(moves),
        valid_state(search.start),
        face_centres_home(search.start),
    ensures
        turned_all(search.start, moves.skip(search.prefix.len() as int)) == solved_view(),
{
    let taken = moves.skip(search.prefix.len() as int);
    let end = turned_all(search.start, taken);
    lemma_moves_preserve_validity(search.start, taken);
    lemma_moves_keep_face_centres(search.start, taken);
    if end != solved_view() {
        lemma_heuristic_positive_off_goal(end);
    }
}

/// A search that runs at least one round makes its first round from the
/// start, and when it runs more rounds it goes on after the first.
pub proof fn lemma_first_round(start: StateSpaceView, now: StateSpaceView, rounds: nat)
    requires
        rounds >= 1,
        start.runs_to(now, rounds),
    ensures
        exists|first: StateSpaceView| #[trigger]
            start.round_to(first) && (rounds == 1 ==> first == now) && (rounds > 1
                ==> first.undecided()),
    decreases rounds,
{
    let before = choose|before: StateSpaceView| #[trigger]
        before.round_to(now) && start.runs_to(before, (rounds - 1) as nat) && (rounds > 1
            ==> before.undecided());
    if rounds == 1 {
        assert(before == start);
        assert(start.round_to(now));
    } else {
        lemma_first_round(start, before, (rounds - 1) as nat);
        let first = choose|first: StateSpaceView| #[trigger]
            start.round_to(first) && (rounds - 1 == 1 ==> first == before) && (rounds - 1 > 1
                ==> first.undecided());
        assert(start.round_to(first) && first.undecided());
    }
}

/// The first round of a search that starts one move away from the solved
/// state: every cheapest node of the new frontier is the child that the
/// opposite move makes, and its heuristic cost is zero.
pub proof fn lemma_round_after_one_move(
    start: StateSpaceView,
    initial: CubeStateView,
    action: Actions,
    first: StateSpaceView,
)
    requires
        start.starts_from(initial),
        initial.model == turned(solved_view(), action),
        start.bound > 0,
        start.round_to(first),
    ensures
        !first.undecided(),
        forall|moves: Seq<Actions>|
            first.won_by(moves) ==> moves == initial.actions_taken.push(action.opposite()),
{
    let pruned = choose|pruned: StateSpaceView| #[trigger]
        start.pruned_to(pruned) && pruned.frontier.len() > 0 && pruned.expanded_to(first);
    assert(pruned.frontier == start.frontier);
    let (parent, children) = choose|parent: CubeState, children: Seq<CubeState>| #[trigger]
        expansion(pruned.frontier, first.frontier, parent, children);
    let root = CubeStateView {
        path_cost: Some(0usize),
        heuristic_cost: Some(crate::state_space::ROOT_HEURISTIC_COST),
        ..initial
    };
    assert(parent@ == root);
    assert(first.frontier =~= children.to_multiset()) by {
        let rest = start.frontier.remove(parent);
        assert(rest.len() == 0);
        assert forall|node: CubeState| rest.count(node) == 0 by {
            vstd::multiset::axiom_count_le_len(rest, node);
        }
    }
    lemma_solved_is_valid();
    lemma_heuristic_zero_at_goal();
    lemma_opposite_move_restores(solved_view(), action);
    let undo = choose|i: int| 0 <= i < 12 && Actions::all()[i] == action.opposite();
    assert(0 <= undo < 12 && Actions::all()[undo] == action.opposite()) by {
        lemma_every_action_listed(action.opposite());
    }
    let best = children[undo];
    assert(best@ == successor(root, action.opposite()));
    assert(cost(best) == 8);
    assert(first.frontier.count(best) > 0) by {
        assert(children.contains(best));
        vstd::seq_lib::to_multiset_contains(children, best);
    }
    assert forall|node: CubeState| cheapest_of(node, first.frontier) implies node@.heuristic_cost
        == Some(0usize) && node@.actions_taken == initial.actions_taken.push(
        action.opposite(),
    ) by {
        vstd::seq_lib::to_multiset_contains(children, node);
        let i = choose|i: int| 0 <= i < children.len() && children[i] == node;
        let tried = Actions::all()[i];
        let state = turned(initial.model, tried);
        assert(node@ == successor(root, tried));
        lemma_heuristic_bounds(state);
        assert(cost(node) == 8 + heuristic_of(state));
        assert(cost(node) <= cost(best));
        assert(heuristic_of(state) == 0);
        assert(state == turned_all(solved_view(), seq![action, tried])) by {
            reveal_with_fuel(turned_all, 3);
            assert(seq![action, tried].drop_last() =~= seq![action]);
            assert(seq![action].drop_last() =~= Seq::<Actions>::empty());
        }
        lemma_moves_preserve_validity(solved_view(), seq![action, tried]);
        lemma_moves_keep_face_centres(solved_view(), seq![action, tried]);
        if state != solved_view() {
            lemma_heuristic_positive_off_goal(state);
        }
        lemma_only_opposite_restores(action, tried);
    }
    assert(first.frontier.len() > 0) by {
        vstd::multiset::axiom_count_le_len(first.frontier, best);
    }
}

/// Every move occurs in the list of all moves.
pub proof fn lemma_every_action_listed(a: Actions)
    ensures
        exists|i: int| 0 <= i < 12 && Actions::all()[i] == a,
{
    let all = Actions::all();
    assert(all[0] == Actions::U);
    assert(all[1] == Actions::UC);
    assert(all[2] == Actions::D);
    assert(all[3] == Actions::DC);
    assert(all[4] == Actions::F);
    assert(all[5] == Actions::FC);
    assert(all[6] == Actions::B);
    assert(all[7] == Actions::BC);
    assert(all[8] == Actions::R);
    assert(all[9] == Actions::RC);
    assert(all[10] == Actions::L);
    assert(all[11] == Actions::LC);
}

/// A search that starts one move away from the solved state, keeps at
/// least one node when it prunes and may run at least one round answers
/// with the opposite move, appended to the history that the initial node
/// came with, and with nothing else.
pub proof fn lemma_one_move_is_undone(
    start: StateSpaceView,
    initial: CubeStateView,
    action: Actions,
    end: StateSpaceView,
    rounds: nat,
    limit: nat,
    solution: Option<Seq<Actions>>,
)
    requires
        start.starts_from(initial),
        initial.model == turned(solved_view(), action),
        start.bound > 0,
        limit > 0,
        start.searched(end, rounds, limit, solution),
    ensures
        solution == Some(initial.actions_taken.push(action.opposite())),
{
    if rounds == 0 {
        assert(solution is None);
        let last = choose|last: StateSpaceView| #[trigger]
            last.pruned_to(end) && end.frontier.len() == 0 && start.runs_to(last, rounds) && (
            rounds > 0 ==> last.undecided());
        assert(last == start);
        assert(end.frontier == start.frontier);
    } else {
        match solution {
            Some(moves) => {
                lemma_first_round(start, end, rounds);
                let first = choose|first: StateSpaceView| #[trigger]
                    start.round_to(first) && (rounds == 1 ==> first == end) && (rounds > 1
                        ==> first.undecided());
                lemma_round_after_one_move(start, initial, action, first);
            },
            None => {
                if rounds == limit && start.runs_to(end, rounds) && end.undecided() {
                    lemma_first_round(start, end, rounds);
                    let first = choose|first: StateSpaceView| #[trigger]
                        start.round_to(first) && (rounds == 1 ==> first == end) && (rounds > 1
                            ==> first.undecided());
                    lemma_round_after_one_move(start, initial, action, first);
                } else {
                    let last = choose|last: StateSpaceView| #[trigger]
                        last.pruned_to(end) && end.frontier.len() == 0 && start.runs_to(
                            last,
                            rounds,
                        ) && (rounds > 0 ==> last.undecided());
                    lemma_first_round(start, last, rounds);
                    let first = choose|first: StateSpaceView| #[trigger]
                        start.round_to(first) && (rounds == 1 ==> first == last) && (rounds > 1
                            ==> first.undecided());
                    lemma_round_after_one_move(start, initial, action, first);
                }
            },
        }
    }
}

} // verus!
