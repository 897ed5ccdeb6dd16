use cube_solver::state_space::{ROOT_HEURISTIC_COST, STATE_SPACE_BOUND};
use cube_solver::{
    make_random_moves_model, Actionable, Actions, CubeModel, CubeState, Frontier, Heuristic,
    StateSpace,
};

fn node(path: usize, estimate: usize) -> CubeState {
    let mut state = CubeState::from_model(CubeModel::solved());
    state.set_path_cost(path);
    state.set_heuristic_cost(estimate);
    state
}

fn scrambled(moves: &[Actions]) -> CubeModel {
    let mut cube = CubeModel::solved();
    for action in moves {
        cube.apply_action(*action);
    }
    cube
}

fn search_from(cube: CubeModel) -> StateSpace {
    StateSpace::new(CubeState::from_model(cube), CubeState::from_model(CubeModel::solved()))
}

#[test]
fn one_move_scramble_is_undone_by_the_opposite_move() {
    for action in Actions::every() {
        let mut space = search_from(scrambled(&[action]));
        assert_eq!(space.solve(), Some(vec![action.inverse()]));
    }
}

#[test]
fn front_clockwise_is_undone_by_front_counter_clockwise() {
    let mut cube = CubeModel::solved();
    cube.front_clockwise();
    let mut space = search_from(cube);
    assert_eq!(space.solve(), Some(vec![Actions::FC]));
}

#[test]
fn two_move_scramble_is_solved() {
    let start = scrambled(&[Actions::F, Actions::R]);
    let mut space = search_from(start);
    let solution = space.solve().unwrap();
    assert!(!solution.is_empty());
    let mut cube = start;
    for action in solution {
        cube.apply_action(action);
    }
    assert!(cube.is_solved());
    assert_eq!(cube, CubeModel::solved());
}

#[test]
fn every_two_move_scramble_is_solved() {
    for first in Actions::every() {
        for second in Actions::every() {
            if second == first.inverse() {
                continue;
            }
            let start = scrambled(&[first, second]);
            let mut space = search_from(start);
            let solution = space.solve().unwrap();
            assert!(!solution.is_empty());
            let mut cube = start;
            cube.apply_actions(&solution);
            assert!(cube.is_solved());
        }
    }
}

#[test]
fn three_move_scramble_is_solved() {
    let start = scrambled(&[Actions::U, Actions::R, Actions::FC]);
    let mut space = search_from(start);
    let solution = space.solve_within(10_000).unwrap();
    let mut cube = start;
    for action in solution {
        cube.apply_action(action);
    }
    assert!(cube.is_solved());
}

#[test]
fn solved_start_still_takes_moves() {
    let mut space = search_from(CubeModel::solved());
    let solution = space.solve().unwrap();
    assert!(!solution.is_empty());
    let mut cube = CubeModel::solved();
    for action in solution {
        cube.apply_action(action);
    }
    assert!(cube.is_solved());
}

#[test]
fn history_of_the_initial_node_is_kept() {
    let mut initial = CubeState::from_model(CubeModel::solved());
    initial.apply_action(Actions::L);
    let mut space = StateSpace::new(initial, CubeState::from_model(CubeModel::solved()));
    assert_eq!(space.solve(), Some(vec![Actions::L, Actions::LC]));
}

#[test]
fn no_rounds_no_answer() {
    let mut space = search_from(scrambled(&[Actions::F]));
    assert_eq!(space.solve_within(0), None);
    assert_eq!(space.frontier().len(), 1);
    assert_eq!(space.solve_within(1), Some(vec![Actions::FC]));
}

#[test]
fn winner_is_a_cheapest_node_with_estimate_zero() {
    let mut space = search_from(scrambled(&[Actions::U]));
    assert_eq!(space.winner(), None);
    space.expand_frontier();
    assert_eq!(space.winner(), Some(vec![Actions::UC]));
    let mut space = search_from(scrambled(&[Actions::U, Actions::B]));
    space.expand_frontier();
    assert_eq!(space.winner(), None);
}

#[test]
fn rounds_can_run_out() {
    let mut space = search_from(scrambled(&[Actions::F, Actions::R]));
    assert_eq!(space.solve_within(1), None);
    assert_eq!(space.frontier().len(), 12);
}

#[test]
fn a_search_that_keeps_nothing_fails() {
    let mut space = StateSpace::with_bound(
        CubeState::from_model(scrambled(&[Actions::F])),
        CubeState::from_model(CubeModel::solved()),
        0,
    );
    assert_eq!(space.solve(), None);
    assert!(space.frontier().is_empty());
}

#[test]
fn root_is_seeded() {
    let space = search_from(scrambled(&[Actions::D]));
    assert_eq!(space.frontier().len(), 1);
    let root = space.frontier().peek().unwrap();
    assert_eq!(root.path_cost(), Some(0));
    assert_eq!(root.heuristic_cost(), Some(ROOT_HEURISTIC_COST));
    assert_eq!(root.heuristic_cost(), Some(800));
    assert_eq!(root.total_cost(), Some(800));
    assert!(root.actions_taken().is_empty());
    assert_eq!(root.model, scrambled(&[Actions::D]));
    assert_eq!(STATE_SPACE_BOUND, 1_000_000);
}

#[test]
fn expanding_yields_twelve_children() {
    let start = scrambled(&[Actions::B, Actions::U]);
    let mut space = search_from(start);
    space.expand_frontier();
    let nodes = space.frontier().nodes();
    assert_eq!(nodes.len(), 12);
    for action in Actions::every() {
        let children: Vec<&CubeState> =
            nodes.iter().filter(|n| n.actions_taken() == &vec![action]).collect();
        assert_eq!(children.len(), 1);
        let child = children[0];
        let mut expected = start;
        expected.apply_action(action);
        assert_eq!(child.model, expected);
        assert_eq!(child.path_cost(), Some(1));
        assert_eq!(child.heuristic_cost(), Some(expected.heuristic()));
    }
    space.expand_frontier();
    let nodes = space.frontier().nodes();
    assert_eq!(nodes.len(), 23);
    assert_eq!(nodes.iter().filter(|n| n.path_cost() == Some(2)).count(), 12);
    assert_eq!(nodes.iter().filter(|n| n.path_cost() == Some(1)).count(), 11);
}

#[test]
fn successors_are_one_move_each() {
    let start = scrambled(&[Actions::R]);
    let space = search_from(start);
    let mut parent = CubeState::from_model(start);
    parent.set_path_cost(3);
    parent.set_heuristic_cost(7);
    let successors = space.get_successors(&parent);
    assert_eq!(successors.len(), 12);
    for (action, successor) in Actions::every().into_iter().zip(successors.iter()) {
        let mut expected = start;
        expected.apply_action(action);
        assert_eq!(successor.model, expected);
        assert_eq!(successor.actions_taken(), &vec![action]);
        assert_eq!(successor.path_cost(), Some(3));
        assert_eq!(successor.heuristic_cost(), Some(7));
    }
    assert_eq!(parent.actions(), Actions::every());
}

#[test]
fn is_goal_compares_puzzle_states() {
    let space = search_from(scrambled(&[Actions::R]));
    let mut state = CubeState::from_model(scrambled(&[Actions::R]));
    assert!(!space.is_goal(&state));
    state.apply_action(Actions::RC);
    assert!(space.is_goal(&state));
}

#[test]
fn pruning_keeps_the_cheapest() {
    let mut space = StateSpace::with_bound(
        CubeState::from_model(scrambled(&[Actions::F, Actions::R, Actions::U])),
        CubeState::from_model(CubeModel::solved()),
        5,
    );
    space.expand_frontier();
    space.expand_frontier();
    let mut all: Vec<u128> =
        space.frontier().nodes().iter().map(|n| n.total_cost().unwrap()).collect();
    all.sort();
    assert_eq!(all.len(), 23);
    space.prune_frontier();
    let mut kept: Vec<u128> =
        space.frontier().nodes().iter().map(|n| n.total_cost().unwrap()).collect();
    kept.sort();
    assert_eq!(kept.len(), 5);
    assert_eq!(kept, all[..5].to_vec());
}

#[test]
fn pruning_waits_until_twice_the_bound() {
    let mut space = StateSpace::with_bound(
        CubeState::from_model(scrambled(&[Actions::F])),
        CubeState::from_model(CubeModel::solved()),
        6,
    );
    space.expand_frontier();
    space.prune_frontier();
    assert_eq!(space.frontier().len(), 12);
    space.expand_frontier();
    assert_eq!(space.frontier().len(), 23);
    space.prune_frontier();
    assert_eq!(space.frontier().len(), 6);
}

#[test]
fn frontier_hands_out_cheapest_first() {
    let mut frontier = Frontier::new();
    assert!(frontier.is_empty());
    assert!(frontier.peek().is_none());
    assert!(frontier.pop().is_none());
    let costs = [(3usize, 5usize), (0, 800), (1, 0), (2, 40), (1, 32), (0, 7), (9, 9), (1, 1)];
    for (path, estimate) in costs {
        frontier.push(node(path, estimate));
    }
    assert_eq!(frontier.len(), 8);
    assert_eq!(frontier.peek().unwrap().total_cost(), Some(7));
    let mut out = Vec::new();
    while let Some(state) = frontier.pop() {
        out.push(state.total_cost().unwrap());
    }
    assert_eq!(out, vec![7, 8, 9, 29, 40, 56, 81, 800]);
    assert!(frontier.is_empty());
}

#[test]
fn frontier_keeps_the_best() {
    let mut frontier = Frontier::new();
    for estimate in [50usize, 10, 40, 20, 30, 60, 0] {
        frontier.push(node(1, estimate));
    }
    frontier.retain_best(3);
    assert_eq!(frontier.len(), 3);
    let mut kept: Vec<u128> = frontier.nodes().iter().map(|n| n.total_cost().unwrap()).collect();
    kept.sort();
    assert_eq!(kept, vec![8, 18, 28]);
    frontier.retain_best(10);
    assert_eq!(frontier.len(), 3);
    frontier.push(node(0, 1));
    assert_eq!(frontier.pop().unwrap().total_cost(), Some(1));
    frontier.retain_best(0);
    assert!(frontier.is_empty());
}

#[test]
fn total_cost_counts_moves_in_eighths() {
    assert_eq!(node(2, 5).total_cost(), Some(21));
    assert_eq!(node(usize::MAX, usize::MAX).total_cost(), Some(9 * (usize::MAX as u128)));
    let mut state = CubeState::from_model(CubeModel::solved());
    assert_eq!(state.total_cost(), None);
    state.set_path_cost(4);
    assert_eq!(state.total_cost(), None);
    state.update_heuristic_cost();
    assert_eq!(state.heuristic_cost(), Some(0));
    assert_eq!(state.total_cost(), Some(32));
}

#[test]
fn applying_a_move_to_a_node_records_it() {
    let mut state = node(2, 9);
    state.apply_action(Actions::U);
    state.apply_action(Actions::B);
    assert_eq!(state.actions_taken(), &vec![Actions::U, Actions::B]);
    assert_eq!(state.model, scrambled(&[Actions::U, Actions::B]));
    assert_eq!(state.elements(), scrambled(&[Actions::U, Actions::B]).cube_elements());
    assert_eq!(state.path_cost(), Some(2));
    assert_eq!(state.heuristic_cost(), Some(9));
    assert_eq!(state.heuristic(), state.model.heuristic());
    let copy = state.clone();
    assert_eq!(copy.actions_taken(), state.actions_taken());
    assert_eq!(copy.model, state.model);
    assert_eq!(copy.total_cost(), state.total_cost());
}

#[test]
fn random_scramble_is_a_reachable_state() {
    assert!(make_random_moves_model(0).is_solved());
    let once = make_random_moves_model(1);
    let reachable: Vec<CubeModel> = Actions::every().iter().map(|a| scrambled(&[*a])).collect();
    assert!(reachable.contains(&once));
    assert!(!once.is_solved());
    let cube = make_random_moves_model(10);
    let mut seen = Vec::new();
    for x in 0..3 {
        for y in 0..3 {
            for z in 0..3 {
                let element = cube.cube_elements()[x][y][z];
                assert!(!seen.contains(&element));
                seen.push(element);
                let middle = [x, y, z].iter().filter(|c| **c == 1).count();
                assert_eq!(element.to_tile_colors().len() + middle, 3);
            }
        }
    }
}

#[test]
fn random_scramble_is_solved_again() {
    let start = make_random_moves_model(2);
    let mut space = search_from(start);
    let solution = space.solve_within(100_000).unwrap();
    let mut cube = start;
    for action in solution {
        cube.apply_action(action);
    }
    assert!(cube.is_solved());
}
