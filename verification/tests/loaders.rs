use cube_solver::loaders::{
    compose_grid, element_of_colors, parse_tiles, same_colors, CubeElementType,
};
use cube_solver::{CubeElement, CubeLoader, CubeModel, CubeState, CubeTextLoader, LoadError, TileColor};

const SOLVED_TEXT: &str = "B B B\nB B B\nB B B\nO O O\nO O O\nO O O\nY Y Y\nY Y Y\nY Y Y\nG G G\nG G G\nG G G\nR R R\nR R R\nR R R\nW W W\nW W W\nW W W\n";

fn load_solved_cube_elems() -> [[[CubeElement; 3]; 3]; 3] {
    let loader = CubeTextLoader::from_string(SOLVED_TEXT.to_string());
    assert!(loader.load().is_ok());
    loader.to_model_elements()
}

#[test]
fn solved_cube_loaded_from_file() {
    let cube_elems = load_solved_cube_elems();
    assert_eq!(cube_elems[0][0][0], CubeElement::YellowRedBlue);
    assert_eq!(cube_elems[0][0][1], CubeElement::YellowRed);
    assert_eq!(cube_elems[0][0][2], CubeElement::YellowGreenRed);
    assert_eq!(cube_elems[0][1][0], CubeElement::RedBlue);
    assert_eq!(cube_elems[0][1][1], CubeElement::Red);
    assert_eq!(cube_elems[0][1][2], CubeElement::RedGreen);
    assert_eq!(cube_elems[0][2][0], CubeElement::WhiteRedBlue);
    assert_eq!(cube_elems[0][2][1], CubeElement::WhiteRed);
    assert_eq!(cube_elems[0][2][2], CubeElement::WhiteGreenRed);
    assert_eq!(cube_elems[1][0][0], CubeElement::YellowBlue);
    assert_eq!(cube_elems[1][0][1], CubeElement::Yellow);
    assert_eq!(cube_elems[1][0][2], CubeElement::YellowGreen);
    assert_eq!(cube_elems[1][1][0], CubeElement::Blue);
    assert_eq!(cube_elems[1][1][1], CubeElement::Kernel);
    assert_eq!(cube_elems[1][1][2], CubeElement::Green);
    assert_eq!(cube_elems[1][2][0], CubeElement::WhiteBlue);
    assert_eq!(cube_elems[1][2][1], CubeElement::White);
    assert_eq!(cube_elems[1][2][2], CubeElement::WhiteGreen);
    assert_eq!(cube_elems[2][0][0], CubeElement::YellowBlueOrange);
    assert_eq!(cube_elems[2][0][1], CubeElement::YellowOrange);
    assert_eq!(cube_elems[2][0][2], CubeElement::YellowOrangeGreen);
    assert_eq!(cube_elems[2][1][0], CubeElement::OrangeBlue);
    assert_eq!(cube_elems[2][1][1], CubeElement::Orange);
    assert_eq!(cube_elems[2][1][2], CubeElement::OrangeGreen);
    assert_eq!(cube_elems[2][2][0], CubeElement::WhiteBlueOrange);
    assert_eq!(cube_elems[2][2][1], CubeElement::WhiteOrange);
    assert_eq!(cube_elems[2][2][2], CubeElement::WhiteOrangeGreen);
}

#[test]
fn loaded_model_is_the_solved_one() {
    let loader = CubeTextLoader::from_string(SOLVED_TEXT.to_string());
    let model = CubeModel::from_loader(loader);
    assert!(model.is_solved());
    let state = CubeState::from_loader(CubeTextLoader::from_string(SOLVED_TEXT.to_string()));
    assert!(state.model.is_solved());
    assert_eq!(state.path_cost(), None);
    assert_eq!(state.heuristic_cost(), None);
    assert!(state.actions_taken().is_empty());
}

#[test]
fn blanks_between_letters_do_not_count() {
    let dense: String = SOLVED_TEXT.chars().filter(|c| !c.is_whitespace()).collect();
    assert_eq!(dense.len(), 54);
    let loader = CubeTextLoader::from_string(dense);
    assert_eq!(loader.load(), Ok(*CubeModel::solved().cube_elements()));
    let spaced = SOLVED_TEXT.replace('\n', "\r\n\t ");
    assert_eq!(
        CubeTextLoader::from_string(spaced).load(),
        Ok(*CubeModel::solved().cube_elements())
    );
}

#[test]
fn each_facelet_is_read_on_its_own() {
    // The text of the solved puzzle after a clockwise turn of the white face:
    // the top rows of the four side faces move on by one face.
    let mut cube = CubeModel::solved();
    cube.up_clockwise();
    let tiles = parse_tiles(SOLVED_TEXT.as_bytes()).unwrap();
    let mut turned = tiles.clone();
    // facelets of the cubies of the white layer, taken from the turned model
    for x in 0..3 {
        for z in 0..3 {
            let kind = CubeElementType::at(x, 2, z);
            let indexes = kind.get_tiles_indexes();
            let home = CubeElementType::at(
                cube.cube_elements()[x][2][z].home_position().0,
                2,
                cube.cube_elements()[x][2][z].home_position().2,
            )
            .get_tiles_indexes();
            // the white facelet stays white; the side facelets take the
            // colours of the cubie that arrived
            for (slot, index) in indexes.iter().enumerate() {
                turned[*index] = tiles[home[slot]];
            }
        }
    }
    let elements = compose_grid(&turned).unwrap();
    let loaded = CubeModel::from_elements(elements);
    for x in 0..3 {
        for y in 0..3 {
            for z in 0..3 {
                let mut expected = cube.cube_elements()[x][y][z].to_tile_colors();
                let mut got = loaded.cube_elements()[x][y][z].to_tile_colors();
                expected.sort();
                got.sort();
                assert_eq!(got, expected);
            }
        }
    }
    assert_eq!(loaded, cube);
}

#[test]
fn an_unknown_letter_is_refused() {
    let text = SOLVED_TEXT.replacen('Y', "X", 1);
    assert_eq!(CubeTextLoader::from_string(text).load(), Err(LoadError::InvalidTileColor));
    assert_eq!(parse_tiles("B O b".as_bytes()), Err(LoadError::InvalidTileColor));
    // the first fault decides, also when letters are missing as well
    assert_eq!(parse_tiles("B ? O".as_bytes()), Err(LoadError::InvalidTileColor));
}

#[test]
fn too_few_letters_are_refused() {
    let text = &SOLVED_TEXT[..SOLVED_TEXT.len() - 2];
    assert_eq!(
        CubeTextLoader::from_string(text.to_string()).load(),
        Err(LoadError::MissingTiles)
    );
    assert_eq!(CubeTextLoader::from_string(String::new()).load(), Err(LoadError::MissingTiles));
}

#[test]
fn too_many_letters_are_refused() {
    let text = format!("{}W", SOLVED_TEXT);
    assert_eq!(CubeTextLoader::from_string(text).load(), Err(LoadError::ExtraTiles));
}

#[test]
fn facelets_that_make_no_corner_are_refused() {
    // all blue: the first cubie in walking order is a corner
    let text = "B".repeat(54);
    assert_eq!(CubeTextLoader::from_string(text).load(), Err(LoadError::InvalidVertex));
}

#[test]
fn facelets_that_make_no_edge_are_refused() {
    // facelet 25 belongs to the edge at (0, 0, 1), the second cubie in
    // walking order; orange and red, its colours then, are opposite faces
    let mut letters: Vec<char> = SOLVED_TEXT.chars().filter(|c| !c.is_whitespace()).collect();
    letters[25] = 'O';
    let text: String = letters.into_iter().collect();
    assert_eq!(CubeTextLoader::from_string(text).load(), Err(LoadError::InvalidEdge));
}

#[test]
fn parse_tiles_reads_colours_in_order() {
    assert_eq!(
        parse_tiles(SOLVED_TEXT.as_bytes()).map(|tiles| tiles.len()),
        Ok(54)
    );
    let tiles = parse_tiles(SOLVED_TEXT.as_bytes()).unwrap();
    assert_eq!(tiles[0], TileColor::Blue);
    assert_eq!(tiles[9], TileColor::Orange);
    assert_eq!(tiles[18], TileColor::Yellow);
    assert_eq!(tiles[27], TileColor::Green);
    assert_eq!(tiles[36], TileColor::Red);
    assert_eq!(tiles[53], TileColor::White);
}

#[test]
fn element_of_colors_ignores_the_order() {
    let colors = vec![TileColor::Blue, TileColor::Yellow, TileColor::Red];
    assert_eq!(element_of_colors(&colors), Ok(CubeElement::YellowRedBlue));
    let colors = vec![TileColor::Green, TileColor::Red];
    assert_eq!(element_of_colors(&colors), Ok(CubeElement::RedGreen));
    assert_eq!(element_of_colors(&vec![TileColor::White]), Ok(CubeElement::White));
    assert_eq!(element_of_colors(&vec![]), Ok(CubeElement::Kernel));
    assert_eq!(
        element_of_colors(&vec![TileColor::White, TileColor::Yellow]),
        Err(LoadError::InvalidEdge)
    );
    assert_eq!(
        element_of_colors(&vec![TileColor::White, TileColor::White, TileColor::Orange]),
        Err(LoadError::InvalidVertex)
    );
    assert_eq!(
        element_of_colors(&vec![TileColor::White, TileColor::Yellow, TileColor::Orange]),
        Err(LoadError::InvalidVertex)
    );
}

#[test]
fn same_colors_compares_as_multisets() {
    let a = vec![TileColor::White, TileColor::Red, TileColor::Blue];
    let b = vec![TileColor::Blue, TileColor::White, TileColor::Red];
    assert!(same_colors(&a, &b));
    assert!(!same_colors(&a, &vec![TileColor::Blue, TileColor::White]));
    assert!(!same_colors(
        &vec![TileColor::White, TileColor::White],
        &vec![TileColor::White, TileColor::Red]
    ));
    assert!(same_colors(&vec![], &vec![]));
}

#[test]
fn element_types_follow_the_facelet_map() {
    assert_eq!(CubeElementType::at(0, 0, 0).get_tiles_indexes(), vec![6, 24, 42]);
    assert_eq!(CubeElementType::at(1, 1, 1).get_tiles_indexes(), Vec::<usize>::new());
    assert_eq!(CubeElementType::at(1, 1, 0).get_tiles_indexes(), vec![4]);
    assert_eq!(CubeElementType::at(2, 2, 1).get_tiles_indexes(), vec![10, 50]);
    assert_eq!(CubeElementType::at(2, 2, 2).get_tiles_indexes(), vec![11, 29, 47]);
    let tiles = parse_tiles(SOLVED_TEXT.as_bytes()).unwrap();
    assert_eq!(
        CubeElementType::at(2, 2, 2).get_tiles(&tiles),
        vec![TileColor::Orange, TileColor::Green, TileColor::White]
    );
    assert_eq!(
        CubeElementType::at(2, 2, 2).compose_element(&tiles),
        CubeElement::WhiteOrangeGreen
    );
    assert_eq!(CubeElementType::at(1, 1, 1).compose_element(&tiles), CubeElement::Kernel);
    assert_eq!(CubeElementType::at(0, 0, 1).compose_element(&tiles), CubeElement::YellowRed);
}
