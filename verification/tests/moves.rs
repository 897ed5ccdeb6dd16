use cube_solver::{CubeElement, CubeModel};

fn load_solved_cube() -> CubeModel {
    CubeModel::solved()
}

#[test]
fn right_clockwise() {
    let mut cube = load_solved_cube();
    cube.right_clockwise();
    assert_eq!(cube.cube_elements()[2][0][0], CubeElement::YellowOrangeGreen);
    assert_eq!(cube.cube_elements()[2][0][1], CubeElement::OrangeGreen);
    assert_eq!(cube.cube_elements()[2][0][2], CubeElement::WhiteOrangeGreen);
    assert_eq!(cube.cube_elements()[2][1][0], CubeElement::YellowOrange);
    assert_eq!(cube.cube_elements()[2][1][1], CubeElement::Orange);
    assert_eq!(cube.cube_elements()[2][1][2], CubeElement::WhiteOrange);
    assert_eq!(cube.cube_elements()[2][2][0], CubeElement::YellowBlueOrange);
    assert_eq!(cube.cube_elements()[2][2][1], CubeElement::OrangeBlue);
    assert_eq!(cube.cube_elements()[2][2][2], CubeElement::WhiteBlueOrange);
}

#[test]
fn right_counter_clockwise() {
    let mut cube = load_solved_cube();
    cube.right_counter_clockwise();
    assert_eq!(cube.cube_elements()[2][0][0], CubeElement::WhiteBlueOrange);
    assert_eq!(cube.cube_elements()[2][0][1], CubeElement::OrangeBlue);
    assert_eq!(cube.cube_elements()[2][0][2], CubeElement::YellowBlueOrange);
    assert_eq!(cube.cube_elements()[2][1][0], CubeElement::WhiteOrange);
    assert_eq!(cube.cube_elements()[2][1][1], CubeElement::Orange);
    assert_eq!(cube.cube_elements()[2][1][2], CubeElement::YellowOrange);
    assert_eq!(cube.cube_elements()[2][2][0], CubeElement::WhiteOrangeGreen);
    assert_eq!(cube.cube_elements()[2][2][1], CubeElement::OrangeGreen);
    assert_eq!(cube.cube_elements()[2][2][2], CubeElement::YellowOrangeGreen);
}

#[test]
fn left_clockwise() {
    let mut cube = load_solved_cube();
    cube.left_clockwise();
    assert_eq!(cube.cube_elements()[0][0][0], CubeElement::WhiteRedBlue);
    assert_eq!(cube.cube_elements()[0][0][1], CubeElement::RedBlue);
    assert_eq!(cube.cube_elements()[0][0][2], CubeElement::YellowRedBlue);
    assert_eq!(cube.cube_elements()[0][1][0], CubeElement::WhiteRed);
    assert_eq!(cube.cube_elements()[0][1][1], CubeElement::Red);
    assert_eq!(cube.cube_elements()[0][1][2], CubeElement::YellowRed);
    assert_eq!(cube.cube_elements()[0][2][0], CubeElement::WhiteGreenRed);
    assert_eq!(cube.cube_elements()[0][2][1], CubeElement::RedGreen);
    assert_eq!(cube.cube_elements()[0][2][2], CubeElement::YellowGreenRed);
}

#[test]
fn left_counter_clockwise() {
    let mut cube = load_solved_cube();
    cube.left_counter_clockwise();
    assert_eq!(cube.cube_elements()[0][0][0], CubeElement::YellowGreenRed);
    assert_eq!(cube.cube_elements()[0][0][1], CubeElement::RedGreen);
    assert_eq!(cube.cube_elements()[0][0][2], CubeElement::WhiteGreenRed);
    assert_eq!(cube.cube_elements()[0][1][0], CubeElement::YellowRed);
    assert_eq!(cube.cube_elements()[0][1][1], CubeElement::Red);
    assert_eq!(cube.cube_elements()[0][1][2], CubeElement::WhiteRed);
    assert_eq!(cube.cube_elements()[0][2][0], CubeElement::YellowRedBlue);
    assert_eq!(cube.cube_elements()[0][2][1], CubeElement::RedBlue);
    assert_eq!(cube.cube_elements()[0][2][2], CubeElement::WhiteRedBlue);
}

#[test]
fn up_clockwise() {
    let mut cube = load_solved_cube();
    cube.up_clockwise();
    assert_eq!(cube.cube_elements()[0][2][0], CubeElement::WhiteBlueOrange);
    assert_eq!(cube.cube_elements()[0][2][1], CubeElement::WhiteBlue);
    assert_eq!(cube.cube_elements()[0][2][2], CubeElement::WhiteRedBlue);
    assert_eq!(cube.cube_elements()[1][2][0], CubeElement::WhiteOrange);
    assert_eq!(cube.cube_elements()[1][2][1], CubeElement::White);
    assert_eq!(cube.cube_elements()[1][2][2], CubeElement::WhiteRed);
    assert_eq!(cube.cube_elements()[2][2][0], CubeElement::WhiteOrangeGreen);
    assert_eq!(cube.cube_elements()[2][2][1], CubeElement::WhiteGreen);
    assert_eq!(cube.cube_elements()[2][2][2], CubeElement::WhiteGreenRed);
}

#[test]
fn up_counter_clockwise() {
    let mut cube = load_solved_cube();
    cube.up_counter_clockwise();
    assert_eq!(cube.cube_elements()[0][2][0], CubeElement::WhiteGreenRed);
    assert_eq!(cube.cube_elements()[0][2][1], CubeElement::WhiteGreen);
    assert_eq!(cube.cube_elements()[0][2][2], CubeElement::WhiteOrangeGreen);
    assert_eq!(cube.cube_elements()[1][2][0], CubeElement::WhiteRed);
    assert_eq!(cube.cube_elements()[1][2][1], CubeElement::White);
    assert_eq!(cube.cube_elements()[1][2][2], CubeElement::WhiteOrange);
    assert_eq!(cube.cube_elements()[2][2][0], CubeElement::WhiteRedBlue);
    assert_eq!(cube.cube_elements()[2][2][1], CubeElement::WhiteBlue);
    assert_eq!(cube.cube_elements()[2][2][2], CubeElement::WhiteBlueOrange);
}

#[test]
fn down_clockwise() {
    let mut cube = load_solved_cube();
    cube.down_clockwise();
    assert_eq!(cube.cube_elements()[0][0][0], CubeElement::YellowGreenRed);
    assert_eq!(cube.cube_elements()[0][0][1], CubeElement::YellowGreen);
    assert_eq!(cube.cube_elements()[0][0][2], CubeElement::YellowOrangeGreen);
    assert_eq!(cube.cube_elements()[1][0][0], CubeElement::YellowRed);
    assert_eq!(cube.cube_elements()[1][0][1], CubeElement::Yellow);
    assert_eq!(cube.cube_elements()[1][0][2], CubeElement::YellowOrange);
    assert_eq!(cube.cube_elements()[2][0][0], CubeElement::YellowRedBlue);
    assert_eq!(cube.cube_elements()[2][0][1], CubeElement::YellowBlue);
    assert_eq!(cube.cube_elements()[2][0][2], CubeElement::YellowBlueOrange);
}

#[test]
fn down_counter_clockwise() {
    let mut cube = load_solved_cube();
    cube.down_counter_clockwise();
    assert_eq!(cube.cube_elements()[0][0][0], CubeElement::YellowBlueOrange);
    assert_eq!(cube.cube_elements()[0][0][1], CubeElement::YellowBlue);
    assert_eq!(cube.cube_elements()[0][0][2], CubeElement::YellowRedBlue);
    assert_eq!(cube.cube_elements()[1][0][0], CubeElement::YellowOrange);
    assert_eq!(cube.cube_elements()[1][0][1], CubeElement::Yellow);
    assert_eq!(cube.cube_elements()[1][0][2], CubeElement::YellowRed);
    assert_eq!(cube.cube_elements()[2][0][0], CubeElement::YellowOrangeGreen);
    assert_eq!(cube.cube_elements()[2][0][1], CubeElement::YellowGreen);
    assert_eq!(cube.cube_elements()[2][0][2], CubeElement::YellowGreenRed);
}

#[test]
fn front_clockwise() {
    let mut cube = load_solved_cube();
    cube.front_clockwise();
    assert_eq!(cube.cube_elements()[0][0][0], CubeElement::YellowBlueOrange);
    assert_eq!(cube.cube_elements()[0][1][0], CubeElement::YellowBlue);
    assert_eq!(cube.cube_elements()[0][2][0], CubeElement::YellowRedBlue);
    assert_eq!(cube.cube_elements()[1][0][0], CubeElement::OrangeBlue);
    assert_eq!(cube.cube_elements()[1][1][0], CubeElement::Blue);
    assert_eq!(cube.cube_elements()[1][2][0], CubeElement::RedBlue);
    assert_eq!(cube.cube_elements()[2][0][0], CubeElement::WhiteBlueOrange);
    assert_eq!(cube.cube_elements()[2][1][0], CubeElement::WhiteBlue);
    assert_eq!(cube.cube_elements()[2][2][0], CubeElement::WhiteRedBlue);
}

#[test]
fn front_counter_clockwise() {
    let mut cube = load_solved_cube();
    cube.front_counter_clockwise();
    assert_eq!(cube.cube_elements()[0][0][0], CubeElement::WhiteRedBlue);
    assert_eq!(cube.cube_elements()[0][1][0], CubeElement::WhiteBlue);
    assert_eq!(cube.cube_elements()[0][2][0], CubeElement::WhiteBlueOrange);
    assert_eq!(cube.cube_elements()[1][0][0], CubeElement::RedBlue);
    assert_eq!(cube.cube_elements()[1][1][0], CubeElement::Blue);
    assert_eq!(cube.cube_elements()[1][2][0], CubeElement::OrangeBlue);
    assert_eq!(cube.cube_elements()[2][0][0], CubeElement::YellowRedBlue);
    assert_eq!(cube.cube_elements()[2][1][0], CubeElement::YellowBlue);
    assert_eq!(cube.cube_elements()[2][2][0], CubeElement::YellowBlueOrange);
}

#[test]
fn back_clockwise() {
    let mut cube = load_solved_cube();
    cube.back_clockwise();
    assert_eq!(cube.cube_elements()[0][0][2], CubeElement::WhiteGreenRed);
    assert_eq!(cube.cube_elements()[0][1][2], CubeElement::WhiteGreen);
    assert_eq!(cube.cube_elements()[0][2][2], CubeElement::WhiteOrangeGreen);
    assert_eq!(cube.cube_elements()[1][0][2], CubeElement::RedGreen);
    assert_eq!(cube.cube_elements()[1][1][2], CubeElement::Green);
    assert_eq!(cube.cube_elements()[1][2][2], CubeElement::OrangeGreen);
    assert_eq!(cube.cube_elements()[2][0][2], CubeElement::YellowGreenRed);
    assert_eq!(cube.cube_elements()[2][1][2], CubeElement::YellowGreen);
    assert_eq!(cube.cube_elements()[2][2][2], CubeElement::YellowOrangeGreen);
}

#[test]
fn back_counter_clockwise() {
    let mut cube = load_solved_cube();
    cube.back_counter_clockwise();
    assert_eq!(cube.cube_elements()[0][0][2], CubeElement::YellowOrangeGreen);
    assert_eq!(cube.cube_elements()[0][1][2], CubeElement::YellowGreen);
    assert_eq!(cube.cube_elements()[0][2][2], CubeElement::YellowGreenRed);
    assert_eq!(cube.cube_elements()[1][0][2], CubeElement::OrangeGreen);
    assert_eq!(cube.cube_elements()[1][1][2], CubeElement::Green);
    assert_eq!(cube.cube_elements()[1][2][2], CubeElement::RedGreen);
    assert_eq!(cube.cube_elements()[2][0][2], CubeElement::WhiteOrangeGreen);
    assert_eq!(cube.cube_elements()[2][1][2], CubeElement::WhiteGreen);
    assert_eq!(cube.cube_elements()[2][2][2], CubeElement::WhiteGreenRed);
}

#[test]
fn print() {
    let cube = load_solved_cube();
    println!("{}", cube.render());
}

#[test]
fn render_lists_three_cubies_a_line() {
    let cube = load_solved_cube();
    assert_eq!(
        cube.render(),
        "YRB YR  YGR \nRB  R   RG  \nWRB WR  WGR \nYB  Y   YG  \nB   K   G   \nWB  W   WG  \nYBO YO  YOG \nOB  O   OG  \nWBO WO  WOG \n\n"
    );
}

#[test]
fn render_follows_a_move() {
    let mut cube = load_solved_cube();
    cube.right_clockwise();
    assert_eq!(
        cube.render(),
        "YRB YR  YGR \nRB  R   RG  \nWRB WR  WGR \nYB  Y   YG  \nB   K   G   \nWB  W   WG  \nYOG OG  WOG \nYO  O   WO  \nYBO OB  WBO \n\n"
    );
}

#[test]
fn element_names_join_initials_with_dashes() {
    assert_eq!(CubeElement::WhiteOrangeGreen.name(), "W-O-G");
    assert_eq!(CubeElement::YellowBlue.name(), "Y-B");
    assert_eq!(CubeElement::Red.name(), "R");
    assert_eq!(CubeElement::Kernel.name(), "K");
}

#[test]
fn solved_model_is_solved() {
    assert!(CubeModel::solved().is_solved());
    let mut cube = CubeModel::solved();
    cube.front_clockwise();
    assert!(!cube.is_solved());
}

#[test]
fn moves_leave_the_core_and_face_centres() {
    for action in cube_solver::Actions::every() {
        let mut cube = CubeModel::solved();
        cube_solver::Actionable::apply_action(&mut cube, action);
        assert_eq!(cube.cube_elements()[1][1][1], CubeElement::Kernel);
        assert_eq!(cube.cube_elements()[0][1][1], CubeElement::Red);
        assert_eq!(cube.cube_elements()[2][1][1], CubeElement::Orange);
        assert_eq!(cube.cube_elements()[1][0][1], CubeElement::Yellow);
        assert_eq!(cube.cube_elements()[1][2][1], CubeElement::White);
        assert_eq!(cube.cube_elements()[1][1][0], CubeElement::Blue);
        assert_eq!(cube.cube_elements()[1][1][2], CubeElement::Green);
    }
}

#[test]
fn from_elements_keeps_the_array() {
    let mut cube = CubeModel::solved();
    cube.up_clockwise();
    let copy = CubeModel::from_elements(*cube.cube_elements());
    assert_eq!(copy, cube);
    assert!(copy.same_elements(&cube));
    assert!(!copy.same_elements(&CubeModel::solved()));
}
