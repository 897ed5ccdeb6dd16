use cube_solver::heuristic::{move_distance, piecewise_move_count, Estimator};
use cube_solver::{Actionable, Actions, CubeElement, CubeModel, Heuristic, TileColor};

fn holds_every_cubie_once_in_its_class(cube: &CubeModel) -> bool {
    let mut seen: Vec<CubeElement> = Vec::new();
    for x in 0..3 {
        for y in 0..3 {
            for z in 0..3 {
                let element = cube.cube_elements()[x][y][z];
                if seen.contains(&element) {
                    return false;
                }
                seen.push(element);
                let middle = [x, y, z].iter().filter(|c| **c == 1).count();
                if element.to_tile_colors().len() + middle != 3 {
                    return false;
                }
            }
        }
    }
    seen.len() == 27
}

#[test]
fn a_move_and_its_opposite_cancel() {
    for first in Actions::every() {
        for action in Actions::every() {
            let mut cube = CubeModel::solved();
            cube.apply_action(first);
            let before = cube;
            cube.apply_action(action);
            cube.apply_action(action.inverse());
            assert_eq!(cube, before);
            cube.apply_action(action.inverse());
            cube.apply_action(action);
            assert_eq!(cube, before);
        }
    }
}

#[test]
fn inverse_pairs_each_layer_with_itself() {
    assert_eq!(Actions::U.inverse(), Actions::UC);
    assert_eq!(Actions::UC.inverse(), Actions::U);
    assert_eq!(Actions::D.inverse(), Actions::DC);
    assert_eq!(Actions::F.inverse(), Actions::FC);
    assert_eq!(Actions::B.inverse(), Actions::BC);
    assert_eq!(Actions::R.inverse(), Actions::RC);
    assert_eq!(Actions::LC.inverse(), Actions::L);
}

#[test]
fn every_lists_the_twelve_moves_in_order() {
    assert_eq!(
        Actions::every(),
        vec![
            Actions::U,
            Actions::UC,
            Actions::D,
            Actions::DC,
            Actions::F,
            Actions::FC,
            Actions::B,
            Actions::BC,
            Actions::R,
            Actions::RC,
            Actions::L,
            Actions::LC,
        ]
    );
}

#[test]
fn four_equal_turns_are_the_identity() {
    for action in Actions::every() {
        let mut cube = CubeModel::solved();
        for _ in 0..4 {
            cube.apply_action(action);
        }
        assert!(cube.is_solved());
    }
}

#[test]
fn moves_keep_the_state_a_permutation() {
    assert!(holds_every_cubie_once_in_its_class(&CubeModel::solved()));
    let mut cube = CubeModel::solved();
    let walk = [Actions::R, Actions::U, Actions::F, Actions::LC, Actions::D, Actions::BC, Actions::U];
    for action in walk {
        cube.apply_action(action);
        assert!(holds_every_cubie_once_in_its_class(&cube));
    }
}

#[test]
fn estimators_are_zero_on_the_solved_state() {
    let cube = CubeModel::solved();
    assert_eq!(move_distance(&cube), 0);
    assert_eq!(piecewise_move_count(&cube), 0);
    assert_eq!(cube.heuristic(), 0);
}

#[test]
fn estimators_after_one_move() {
    for action in Actions::every() {
        let mut cube = CubeModel::solved();
        cube.apply_action(action);
        assert_eq!(move_distance(&cube), 32);
        assert_eq!(piecewise_move_count(&cube), 8);
        assert_eq!(cube.heuristic(), 32);
    }
}

#[test]
fn estimators_after_two_moves() {
    let mut cube = CubeModel::solved();
    cube.apply_action(Actions::F);
    cube.apply_action(Actions::R);
    assert_eq!(move_distance(&cube), 52);
    assert_eq!(piecewise_move_count(&cube), 13);
    assert_eq!(cube.heuristic(), 52);

    let mut cube = CubeModel::solved();
    cube.apply_action(Actions::R);
    cube.apply_action(Actions::L);
    assert_eq!(Estimator::PositionalDistance.estimate(&cube), 64);
    assert_eq!(Estimator::PiecewiseMoveCount.estimate(&cube), 16);
}

#[test]
fn cell_terms_follow_the_tables() {
    let corner = CubeElement::YellowRedBlue;
    let edge = CubeElement::YellowRed;
    assert_eq!(Estimator::PositionalDistance.cell_estimate(corner, 0, 0, 0), 0);
    assert_eq!(Estimator::PositionalDistance.cell_estimate(corner, 2, 2, 2), 12);
    assert_eq!(Estimator::PositionalDistance.cell_estimate(corner, 0, 2, 0), 4);
    assert_eq!(Estimator::PositionalDistance.cell_estimate(edge, 1, 0, 0), 4);
    assert_eq!(Estimator::PositionalDistance.cell_estimate(CubeElement::Red, 2, 1, 1), 0);
    assert_eq!(Estimator::PositionalDistance.cell_estimate(CubeElement::Kernel, 0, 0, 0), 0);

    assert_eq!(Estimator::PiecewiseMoveCount.cell_estimate(corner, 0, 0, 0), 0);
    assert_eq!(Estimator::PiecewiseMoveCount.cell_estimate(corner, 2, 2, 2), 3);
    assert_eq!(Estimator::PiecewiseMoveCount.cell_estimate(corner, 0, 0, 2), 1);
    assert_eq!(Estimator::PiecewiseMoveCount.cell_estimate(corner, 0, 2, 2), 2);
    assert_eq!(Estimator::PiecewiseMoveCount.cell_estimate(edge, 0, 0, 1), 0);
    assert_eq!(Estimator::PiecewiseMoveCount.cell_estimate(edge, 0, 0, 0), 2);
    assert_eq!(Estimator::PiecewiseMoveCount.cell_estimate(edge, 2, 2, 0), 4);
    assert_eq!(Estimator::PiecewiseMoveCount.cell_estimate(edge, 2, 0, 0), 1);
    assert_eq!(Estimator::PiecewiseMoveCount.cell_estimate(CubeElement::Red, 2, 1, 1), 0);
}

#[test]
fn heuristic_is_positive_off_the_goal() {
    let mut cube = CubeModel::solved();
    let walk = [Actions::R, Actions::U, Actions::RC, Actions::UC, Actions::F, Actions::D];
    for action in walk {
        cube.apply_action(action);
        assert!(!cube.is_solved());
        assert!(cube.heuristic() > 0);
    }
}

#[test]
fn heuristic_does_not_see_face_centres() {
    let mut elements = *CubeModel::solved().cube_elements();
    elements[0][1][1] = CubeElement::Orange;
    elements[2][1][1] = CubeElement::Red;
    let cube = CubeModel::from_elements(elements);
    assert!(!cube.is_solved());
    assert_eq!(cube.heuristic(), 0);
}

#[test]
fn tile_colors_follow_the_name() {
    assert_eq!(
        CubeElement::WhiteBlueOrange.to_tile_colors(),
        vec![TileColor::White, TileColor::Blue, TileColor::Orange]
    );
    assert_eq!(CubeElement::RedGreen.to_tile_colors(), vec![TileColor::Red, TileColor::Green]);
    assert_eq!(CubeElement::Yellow.to_tile_colors(), vec![TileColor::Yellow]);
    assert_eq!(CubeElement::Kernel.to_tile_colors(), vec![]);
}

#[test]
fn home_inverts_the_solved_mapping() {
    let cube = CubeModel::solved();
    for x in 0..3 {
        for y in 0..3 {
            for z in 0..3 {
                assert_eq!(cube.cube_elements()[x][y][z].home_position(), (x, y, z));
            }
        }
    }
    for i in 0..27 {
        let element = CubeElement::from_index(i);
        let (x, y, z) = element.home_position();
        assert_eq!(cube.cube_elements()[x][y][z], element);
    }
    assert_eq!(CubeElement::from_index(0), CubeElement::WhiteOrangeGreen);
    assert_eq!(CubeElement::from_index(26), CubeElement::Kernel);
}

#[test]
fn validity_check_follows_the_invariant() {
    let mut cube = CubeModel::solved();
    assert!(cube.is_valid());
    cube.apply_actions(&vec![Actions::R, Actions::U, Actions::FC, Actions::D]);
    assert!(cube.is_valid());
    assert!(holds_every_cubie_once_in_its_class(&cube));

    // two face centres exchanged: still every cubie once, each in its class
    let mut elements = *CubeModel::solved().cube_elements();
    elements[0][1][1] = CubeElement::Orange;
    elements[2][1][1] = CubeElement::Red;
    assert!(CubeModel::from_elements(elements).is_valid());

    // a cubie twice, another missing
    let mut elements = *CubeModel::solved().cube_elements();
    elements[0][0][0] = CubeElement::WhiteOrangeGreen;
    assert!(!CubeModel::from_elements(elements).is_valid());

    // a corner and an edge exchanged
    let mut elements = *CubeModel::solved().cube_elements();
    elements[0][0][0] = CubeElement::YellowRed;
    elements[0][0][1] = CubeElement::YellowRedBlue;
    assert!(!CubeModel::from_elements(elements).is_valid());

    // the core out of the middle
    let mut elements = *CubeModel::solved().cube_elements();
    elements[1][1][1] = CubeElement::Red;
    elements[0][1][1] = CubeElement::Kernel;
    assert!(!CubeModel::from_elements(elements).is_valid());
}

#[test]
fn apply_actions_applies_first_to_last() {
    let mut one_by_one = CubeModel::solved();
    one_by_one.front_clockwise();
    one_by_one.right_counter_clockwise();
    one_by_one.up_clockwise();
    let mut at_once = CubeModel::solved();
    at_once.apply_actions(&vec![Actions::F, Actions::RC, Actions::U]);
    assert_eq!(at_once, one_by_one);
    let mut reversed = CubeModel::solved();
    reversed.apply_actions(&vec![Actions::U, Actions::RC, Actions::F]);
    assert_ne!(reversed, one_by_one);
    let mut untouched = CubeModel::solved();
    untouched.apply_actions(&vec![]);
    assert!(untouched.is_solved());
}

#[test]
fn apply_action_calls_the_named_turn() {
    let turns: [(Actions, fn(&mut CubeModel)); 12] = [
        (Actions::U, CubeModel::up_clockwise),
        (Actions::UC, CubeModel::up_counter_clockwise),
        (Actions::D, CubeModel::down_clockwise),
        (Actions::DC, CubeModel::down_counter_clockwise),
        (Actions::F, CubeModel::front_clockwise),
        (Actions::FC, CubeModel::front_counter_clockwise),
        (Actions::B, CubeModel::back_clockwise),
        (Actions::BC, CubeModel::back_counter_clockwise),
        (Actions::R, CubeModel::right_clockwise),
        (Actions::RC, CubeModel::right_counter_clockwise),
        (Actions::L, CubeModel::left_clockwise),
        (Actions::LC, CubeModel::left_counter_clockwise),
    ];
    for (action, turn) in turns {
        let mut by_action = CubeModel::solved();
        by_action.apply_action(action);
        let mut by_name = CubeModel::solved();
        turn(&mut by_name);
        assert_eq!(by_action, by_name);
        assert!(!by_action.is_solved());
    }
}

#[test]
fn move_distance_leaves_face_centres_out() {
    // one right turn moves eight cubies by two steps each: a quarter of a
    // move for each step, four moves, counted in eighths
    let mut cube = CubeModel::solved();
    cube.right_clockwise();
    assert_eq!(move_distance(&cube), 32);
    // face centres off their homes add nothing
    let mut elements = *cube.cube_elements();
    elements[0][1][1] = CubeElement::White;
    elements[1][2][1] = CubeElement::Red;
    let moved = CubeModel::from_elements(elements);
    assert_eq!(move_distance(&moved), 32);
    let mut elements = *CubeModel::solved().cube_elements();
    elements[0][1][1] = CubeElement::Orange;
    elements[2][1][1] = CubeElement::Red;
    assert_eq!(move_distance(&CubeModel::from_elements(elements)), 0);
}
