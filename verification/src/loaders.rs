use vstd::prelude::*;
use crate::element::{cell, in_cube, CubeElement, Position, TileColor, ELEMENT_COUNT};
use crate::model::{grid_view, CubeView, Grid};

verus! {

/// How many facelets a puzzle has: six faces of nine.
pub const TILE_COUNT: usize = 54;

/// Why a facelet description could not be loaded.
#[derive(Debug, Clone, Copy, PartialEq, Eq, Structural)]
pub enum LoadError {
    /// A character is neither blank nor one of the six colour letters.
    InvalidTileColor,
    /// The description holds fewer than 54 colour letters.
    MissingTiles,
    /// The description holds more than 54 colour letters.
    ExtraTiles,
    /// The three facelets of a corner do not make one of the eight corners.
    InvalidVertex,
    /// The two facelets of an edge do not make one of the twelve edges.
    InvalidEdge,
}

/// Blank characters separate facelets and are otherwise skipped: space,
/// tab, line feed and carriage return.
pub open spec fn is_blank(byte: u8) -> bool {
    byte == 32 || byte == 9 || byte == 10 || byte == 13
}

/// The colour that a letter stands for: `B`, `O`, `Y`, `G`, `R` or `W`.
pub open spec fn letter_color(byte: u8) -> Option<TileColor> {
    if byte == 66 {
        Some(TileColor::Blue)
    } else if byte == 79 {
        Some(TileColor::Orange)
    } else if byte == 89 {
        Some(TileColor::Yellow)
    } else if byte == 71 {
        Some(TileColor::Green)
    } else if byte == 82 {
        Some(TileColor::Red)
    } else if byte == 87 {
        Some(TileColor::White)
    } else {
        None
    }
}

/// The colours that a text spells, in order, or the error of its first
/// character that is neither blank nor a colour letter.
pub open spec fn spelled_tiles(text: Seq<u8>) -> Result<Seq<TileColor>, LoadError>
    decreases text.len(),
{
    if text.len() == 0 {
        Ok(Seq::empty())
    } else {
        match spelled_tiles(text.drop_last()) {
            Err(e) => Err(e),
            Ok(tiles) => if is_blank(text.last()) {
                Ok(tiles)
            } else {
                match letter_color(text.last()) {
                    Some(color) => Ok(tiles.push(color)),
                    None => Err(LoadError::InvalidTileColor),
                }
            },
        }
    }
}

/// The 54 facelets of a description: the colours it spells, if there are
/// exactly 54 of them.
pub open spec fn facelets(text: Seq<u8>) -> Result<Seq<TileColor>, LoadError> {
    match spelled_tiles(text) {
        Err(e) => Err(e),
        Ok(tiles) => if tiles.len() < TILE_COUNT {
            Err(LoadError::MissingTiles)
        } else if tiles.len() > TILE_COUNT {
            Err(LoadError::ExtraTiles)
        } else {
            Ok(tiles)
        },
    }
}

/// Which facelets of the description belong to the cubie at a coordinate.
/// The description lists the blue, orange, yellow, green, red and white
/// faces, nine facelets each.
pub open spec fn tile_indexes(p: Position) -> Seq<int> {
    if p == (0int, 0int, 0int) {
        seq![6, 24, 42]
    } else if p == (0int, 0int, 1int) {
        seq![25, 39]
    } else if p == (0int, 0int, 2int) {
        seq![26, 33, 36]
    } else if p == (0int, 1int, 0int) {
        seq![3, 43]
    } else if p == (0int, 1int, 1int) {
        seq![40]
    } else if p == (0int, 1int, 2int) {
        seq![34, 37]
    } else if p == (0int, 2int, 0int) {
        seq![0, 44, 51]
    } else if p == (0int, 2int, 1int) {
        seq![41, 48]
    } else if p == (0int, 2int, 2int) {
        seq![35, 38, 45]
    } else if p == (1int, 0int, 0int) {
        seq![7, 21]
    } else if p == (1int, 0int, 1int) {
        seq![22]
    } else if p == (1int, 0int, 2int) {
        seq![23, 30]
    } else if p == (1int, 1int, 0int) {
        seq![4]
    } else if p == (1int, 1int, 1int) {
        seq![]
    } else if p == (1int, 1int, 2int) {
        seq![31]
    } else if p == (1int, 2int, 0int) {
        seq![1, 52]
    } else if p == (1int, 2int, 1int) {
        seq![49]
    } else if p == (1int, 2int, 2int) {
        seq![32, 46]
    } else if p == (2int, 0int, 0int) {
        seq![8, 15, 18]
    } else if p == (2int, 0int, 1int) {
        seq![16, 19]
    } else if p == (2int, 0int, 2int) {
        seq![17, 20, 27]
    } else if p == (2int, 1int, 0int) {
        seq![5, 12]
    } else if p == (2int, 1int, 1int) {
        seq![13]
    } else if p == (2int, 1int, 2int) {
        seq![14, 28]
    } else if p == (2int, 2int, 0int) {
        seq![2, 9, 53]
    } else if p == (2int, 2int, 1int) {
        seq![10, 50]
    } else {
        seq![11, 29, 47]
    }
}

/// The colours of the facelets with the given indexes.
pub open spec fn tiles_at(tiles: Seq<TileColor>, indexes: Seq<int>) -> Seq<TileColor> {
    Seq::new(indexes.len(), |i: int| tiles[indexes[i]])
}

/// Whether the cubie `e` carries exactly the given colours, in any order.
pub open spec fn has_colors(e: CubeElement, colors: Seq<TileColor>) -> bool {
    e.colors().to_multiset() == colors.to_multiset()
}

/// The cubie that the given facelet colours make, whatever their order, or
/// the error that says which kind of cubie they fail to make.
pub open spec fn composed(colors: Seq<TileColor>) -> Result<CubeElement, LoadError> {
    if exists|e: CubeElement| has_colors(e, colors) {
        Ok(choose|e: CubeElement| has_colors(e, colors))
    } else if colors.len() == 2 {
        Err(LoadError::InvalidEdge)
    } else {
        Err(LoadError::InvalidVertex)
    }
}

/// The cubies of the first `n` coordinates in walking order, or the error
/// of the first coordinate whose facelets make no cubie.
pub open spec fn composed_cells(tiles: Seq<TileColor>, n: int) -> Result<
    Seq<CubeElement>,
    LoadError,
>
    decreases n,
{
    if n <= 0 {
        Ok(Seq::empty())
    } else {
        match composed_cells(tiles, n - 1) {
            Err(e) => Err(e),
            Ok(cells) => match composed(tiles_at(tiles, tile_indexes(cell(n - 1)))) {
                Err(e) => Err(e),
                Ok(element) => Ok(cells.push(element)),
            },
        }
    }
}

/// The puzzle state that a list of cubies in walking order stands for.
pub open spec fn cells_view(cells: Seq<CubeElement>) -> CubeView {
    Map::new(|p: Position| in_cube(p), |p: Position| cells[9 * p.0 + 3 * p.1 + p.2])
}

/// The puzzle state that a facelet description stands for, or the first
/// reason why it stands for none.
pub open spec fn described_state(text: Seq<u8>) -> Result<CubeView, LoadError> {
    match facelets(text) {
        Err(e) => Err(e),
        Ok(tiles) => match composed_cells(tiles, ELEMENT_COUNT as int) {
            Err(e) => Err(e),
            Ok(cells) => Ok(cells_view(cells)),
        },
    }
}

/// How often a colour occurs in a list of colours.
pub open spec fn occurrences(colors: Seq<TileColor>, color: TileColor) -> nat
    decreases colors.len(),
{
    if colors.len() == 0 {
        0
    } else {
        occurrences(colors.drop_last(), color) + if colors.last() == color {
            1nat
        } else {
            0
        }
    }
}

/// Counting by hand agrees with the multiset of the list.
proof fn lemma_occurrences(colors: Seq<TileColor>, color: TileColor)
    ensures
        colors.to_multiset().count(color) == occurrences(colors, color),
    decreases colors.len(),
{
    if colors.len() == 0 {
        assert(colors.to_multiset() =~= vstd::multiset::Multiset::<TileColor>::empty()) by {
            broadcast use vstd::seq_lib::group_to_multiset_ensures;

        }
    } else {
        lemma_occurrences(colors.drop_last(), color);
        vstd::seq_lib::to_multiset_build(colors.drop_last(), colors.last());
        assert(colors.drop_last().push(colors.last()) =~= colors);
    }
}

/// A number that tells the colours apart when added up: one bit each.
spec fn color_bit(color: TileColor) -> int {
    match color {
        TileColor::White => 1,
        TileColor::Orange => 2,
        TileColor::Green => 4,
        TileColor::Red => 8,
        TileColor::Blue => 16,
        TileColor::Yellow => 32,
    }
}

/// The sum of the bits of a list of colours.
spec fn color_sum(colors: Seq<TileColor>) -> int
    decreases colors.len(),
{
    if colors.len() == 0 {
        0
    } else {
        color_sum(colors.drop_last()) + color_bit(colors.last())
    }
}

/// The sum of the bits depends on how often each colour occurs, not on the
/// order.
proof fn lemma_color_sum(colors: Seq<TileColor>)
    ensures
        color_sum(colors) == occurrences(colors, TileColor::White) + 2 * occurrences(
            colors,
            TileColor::Orange,
        ) + 4 * occurrences(colors, TileColor::Green) + 8 * occurrences(colors, TileColor::Red)
            + 16 * occurrences(colors, TileColor::Blue) + 32 * occurrences(
            colors,
            TileColor::Yellow,
        ),
    decreases colors.len(),
{
    if colors.len() > 0 {
        lemma_color_sum(colors.drop_last());
    }
}

/// The sum of the bits of a cubie's colours.
spec fn element_sum(e: CubeElement) -> int {
    match e {
        CubeElement::WhiteOrangeGreen => 7,
        CubeElement::WhiteBlueOrange => 19,
        CubeElement::WhiteGreenRed => 13,
        CubeElement::WhiteRedBlue => 25,
        CubeElement::YellowOrangeGreen => 38,
        CubeElement::YellowBlueOrange => 50,
        CubeElement::YellowGreenRed => 44,
        CubeElement::YellowRedBlue => 56,
        CubeElement::WhiteOrange => 3,
        CubeElement::WhiteGreen => 5,
        CubeElement::WhiteRed => 9,
        CubeElement::WhiteBlue => 17,
        CubeElement::YellowOrange => 34,
        CubeElement::YellowGreen => 36,
        CubeElement::YellowRed => 40,
        CubeElement::YellowBlue => 48,
        CubeElement::RedBlue => 24,
        CubeElement::RedGreen => 12,
        CubeElement::OrangeBlue => 18,
        CubeElement::OrangeGreen => 6,
        CubeElement::White => 1,
        CubeElement::Orange => 2,
        CubeElement::Green => 4,
        CubeElement::Red => 8,
        CubeElement::Blue => 16,
        CubeElement::Yellow => 32,
        CubeElement::Kernel => 0,
    }
}

/// No two cubies carry the same colours: a set of colours names at most one
/// cubie.
pub proof fn lemma_colors_identify(e1: CubeElement, e2: CubeElement, colors: Seq<TileColor>)
    requires
        has_colors(e1, colors),
        has_colors(e2, colors),
    ensures
        e1 == e2,
{
    lemma_element_sum(e1);
    lemma_element_sum(e2);
    lemma_color_sum(e1.colors());
    lemma_color_sum(e2.colors());
    lemma_occurrences(e1.colors(), TileColor::White);
    lemma_occurrences(e1.colors(), TileColor::Orange);
    lemma_occurrences(e1.colors(), TileColor::Green);
    lemma_occurrences(e1.colors(), TileColor::Red);
    lemma_occurrences(e1.colors(), TileColor::Blue);
    lemma_occurrences(e1.colors(), TileColor::Yellow);
    lemma_occurrences(e2.colors(), TileColor::White);
    lemma_occurrences(e2.colors(), TileColor::Orange);
    lemma_occurrences(e2.colors(), TileColor::Green);
    lemma_occurrences(e2.colors(), TileColor::Red);
    lemma_occurrences(e2.colors(), TileColor::Blue);
    lemma_occurrences(e2.colors(), TileColor::Yellow);
}

/// The table of sums is the sum of each cubie's colours.
proof fn lemma_element_sum(e: CubeElement)
    ensures
        color_sum(e.colors()) == element_sum(e),
{
    reveal_with_fuel(color_sum, 4);
    let colors = e.colors();
    if colors.len() == 3 {
        assert(colors.drop_last() =~= seq![colors[0], colors[1]]);
        assert(colors.drop_last().drop_last() =~= seq![colors[0]]);
    } else if colors.len() == 2 {
        assert(colors.drop_last() =~= seq![colors[0]]);
    }
}

/// How often a colour occurs in a list.
fn count_color(colors: &Vec<TileColor>, color: TileColor) -> (count: usize)
    ensures
        count == occurrences(colors@, color),
{
    let mut count: usize = 0;
    let mut i: usize = 0;
    while i < colors.len()
        invariant
            i <= colors@.len(),
            count == occurrences(colors@.take(i as int), color),
            count <= i,
        decreases colors@.len() - i,
    {
        assert(colors@.take(i + 1).drop_last() =~= colors@.take(i as int));
        if colors[i] == color {
            count += 1;
        }
        i += 1;
    }
    assert(colors@.take(i as int) =~= colors@);
    count
}

/// Whether two lists hold the same colours, whatever their order.
pub fn same_colors(left: &Vec<TileColor>, right: &Vec<TileColor>) -> (same: bool)
    ensures
        same <==> left@.to_multiset() == right@.to_multiset(),
{
    proof {
        lemma_occurrences(left@, TileColor::White);
        lemma_occurrences(left@, TileColor::Orange);
        lemma_occurrences(left@, TileColor::Green);
        lemma_occurrences(left@, TileColor::Red);
        lemma_occurrences(left@, TileColor::Blue);
        lemma_occurrences(left@, TileColor::Yellow);
        lemma_occurrences(right@, TileColor::White);
        lemma_occurrences(right@, TileColor::Orange);
        lemma_occurrences(right@, TileColor::Green);
        lemma_occurrences(right@, TileColor::Red);
        lemma_occurrences(right@, TileColor::Blue);
        lemma_occurrences(right@, TileColor::Yellow);
    }
    let same = count_color(left, TileColor::White) == count_color(right, TileColor::White)
        && count_color(left, TileColor::Orange) == count_color(right, TileColor::Orange)
        && count_color(left, TileColor::Green) == count_color(right, TileColor::Green)
        && count_color(left, TileColor::Red) == count_color(right, TileColor::Red) && count_color(
        left,
        TileColor::Blue,
    ) == count_color(right, TileColor::Blue) && count_color(left, TileColor::Yellow)
        == count_color(right, TileColor::Yellow);
    proof {
        if same {
            assert forall|color: TileColor|
                left@.to_multiset().count(color) == right@.to_multiset().count(color) by {
                match color {
                    TileColor::White => {},
                    TileColor::Orange => {},
                    TileColor::Green => {},
                    TileColor::Red => {},
                    TileColor::Blue => {},
                    TileColor::Yellow => {},
                }
            }
            assert(left@.to_multiset() =~= right@.to_multiset());
        }
    }
    same
}

/// The cubie that carries exactly the given colours, in any order, or the
/// error that says which kind of cubie the colours fail to make.
pub fn element_of_colors(colors: &Vec<TileColor>) -> (element: Result<CubeElement, LoadError>)
    ensures
        element == composed(colors@),
{
    let mut i: usize = 0;
    while i < ELEMENT_COUNT
        invariant
            i <= ELEMENT_COUNT,
            forall|j: int| 0 <= j < i ==> !has_colors(#[trigger] CubeElement::all()[j], colors@),
        decreases ELEMENT_COUNT - i,
    {
        let candidate = CubeElement::from_index(i);
        let worn = candidate.to_tile_colors();
        if same_colors(&worn, colors) {
            proof {
                assert(has_colors(candidate, colors@));
                let chosen = choose|e: CubeElement| has_colors(e, colors@);
                lemma_colors_identify(candidate, chosen, colors@);
            }
            return Ok(candidate);
        }
        i += 1;
    }
    proof {
        crate::element::lemma_solved_mapping_bijective();
        assert forall|e: CubeElement| !has_colors(e, colors@) by {
            assert(CubeElement::all().contains(e));
            let j = choose|j: int| 0 <= j < CubeElement::all().len() && CubeElement::all()[j] == e;
            assert(!has_colors(CubeElement::all()[j], colors@));
        }
    }
    if colors.len() == 2 {
        Err(LoadError::InvalidEdge)
    } else {
        Err(LoadError::InvalidVertex)
    }
}

/// The kind of cubie at a coordinate, with the indexes of its facelets in
/// the description.
#[derive(Debug, Clone, Copy)]
pub enum CubeElementType {
    Vertex(usize, usize, usize),
    Edge(usize, usize),
    Face(usize),
    Kernel,
}

impl CubeElementType {
    /// The indexes of the cubie's facelets.
    pub open spec fn indexes(self) -> Seq<int> {
        match self {
            CubeElementType::Vertex(a, b, c) => seq![a as int, b as int, c as int],
            CubeElementType::Edge(a, b) => seq![a as int, b as int],
            CubeElementType::Face(a) => seq![a as int],
            CubeElementType::Kernel => seq![],
        }
    }

    /// The kind and facelets of the cubie at a coordinate.
    pub fn at(x: usize, y: usize, z: usize) -> (kind: CubeElementType)
        requires
            x < 3,
            y < 3,
            z < 3,
        ensures
            kind.indexes() == tile_indexes((x as int, y as int, z as int)),
            forall|i: int|
                0 <= i < kind.indexes().len() ==> 0 <= #[trigger] kind.indexes()[i] < TILE_COUNT,
    {
        let kind = match (x, y, z) {
            (0, 0, 0) => CubeElementType::Vertex(6, 24, 42),
            (0, 0, 1) => CubeElementType::Edge(25, 39),
            (0, 0, 2) => CubeElementType::Vertex(26, 33, 36),
            (0, 1, 0) => CubeElementType::Edge(3, 43),
            (0, 1, 1) => CubeElementType::Face(40),
            (0, 1, 2) => CubeElementType::Edge(34, 37),
            (0, 2, 0) => CubeElementType::Vertex(0, 44, 51),
            (0, 2, 1) => CubeElementType::Edge(41, 48),
            (0, 2, 2) => CubeElementType::Vertex(35, 38, 45),
            (1, 0, 0) => CubeElementType::Edge(7, 21),
            (1, 0, 1) => CubeElementType::Face(22),
            (1, 0, 2) => CubeElementType::Edge(23, 30),
            (1, 1, 0) => CubeElementType::Face(4),
            (1, 1, 1) => CubeElementType::Kernel,
            (1, 1, 2) => CubeElementType::Face(31),
            (1, 2, 0) => CubeElementType::Edge(1, 52),
            (1, 2, 1) => CubeElementType::Face(49),
            (1, 2, 2) => CubeElementType::Edge(32, 46),
            (2, 0, 0) => CubeElementType::Vertex(8, 15, 18),
            (2, 0, 1) => CubeElementType::Edge(16, 19),
            (2, 0, 2) => CubeElementType::Vertex(17, 20, 27),
            (2, 1, 0) => CubeElementType::Edge(5, 12),
            (2, 1, 1) => CubeElementType::Face(13),
            (2, 1, 2) => CubeElementType::Edge(14, 28),
            (2, 2, 0) => CubeElementType::Vertex(2, 9, 53),
            (2, 2, 1) => CubeElementType::Edge(10, 50),
            _ => CubeElementType::Vertex(11, 29, 47),
        };
        assert(kind.indexes() =~= tile_indexes((x as int, y as int, z as int)));
        kind
    }

    pub fn get_tiles_indexes(&self) -> (indexes: Vec<usize>)
        ensures
            indexes@.len() == self.indexes().len(),
            forall|i: int| 0 <= i < indexes@.len() ==> #[trigger] indexes@[i] == self.indexes()[i],
    {
        match self {
            CubeElementType::Vertex(a, b, c) => vec![*a, *b, *c],
            CubeElementType::Edge(a, b) => vec![*a, *b],
            CubeElementType::Face(a) => vec![*a],
            CubeElementType::Kernel => vec![],
        }
    }

    /// The colours of the cubie's facelets, in the order of their indexes.
    pub fn get_tiles(&self, tiles: &Vec<TileColor>) -> (colors: Vec<TileColor>)
        requires
            forall|i: int|
                0 <= i < self.indexes().len() ==> 0 <= #[trigger] self.indexes()[i] < tiles@.len(),
        ensures
            colors@ == tiles_at(tiles@, self.indexes()),
    {
        let indexes = self.get_tiles_indexes();
        let mut colors: Vec<TileColor> = Vec::new();
        let mut i: usize = 0;
        while i < indexes.len()
            invariant
                i <= indexes@.len(),
                indexes@.len() == self.indexes().len(),
                forall|j: int|
                    0 <= j < indexes@.len() ==> #[trigger] indexes@[j] == self.indexes()[j],
                forall|j: int|
                    0 <= j < self.indexes().len() ==> 0 <= #[trigger] self.indexes()[j]
                        < tiles@.len(),
                colors@.len() == i,
                forall|j: int| 0 <= j < i ==> colors@[j] == tiles@[self.indexes()[j]],
            decreases indexes@.len() - i,
        {
            assert(indexes@[i as int] == self.indexes()[i as int]);
            colors.push(tiles[indexes[i]]);
            i += 1;
        }
        assert(colors@ =~= tiles_at(tiles@, self.indexes()));
        colors
    }

    /// The cubie that this coordinate's facelets make. The facelets have to
    /// make one: `element_of_colors` tells whether they do.
    pub fn compose_element(&self, tiles: &Vec<TileColor>) -> (element: CubeElement)
        requires
            forall|i: int|
                0 <= i < self.indexes().len() ==> 0 <= #[trigger] self.indexes()[i] < tiles@.len(),
            composed(tiles_at(tiles@, self.indexes())) is Ok,
        ensures
            composed(tiles_at(tiles@, self.indexes())) == Ok::<CubeElement, LoadError>(element),
    {
        let colors = self.get_tiles(tiles);
        element_of_colors(&colors).unwrap()
    }
}

/// Once a text has spelled an error, no continuation mends it.
proof fn lemma_spelling_error_stays(text: Seq<u8>, n: int)
    requires
        0 <= n <= text.len(),
        spelled_tiles(text.take(n)) is Err,
    ensures
        spelled_tiles(text) == spelled_tiles(text.take(n)),
    decreases text.len() - n,
{
    if n < text.len() {
        assert(text.take(n + 1).drop_last() =~= text.take(n));
        lemma_spelling_error_stays(text, n + 1);
    } else {
        assert(text.take(n) =~= text);
    }
}

/// Reads the colour letters of a description.
pub fn parse_tiles(text: &[u8]) -> (tiles: Result<Vec<TileColor>, LoadError>)
    ensures
        match facelets(text@) {
            Ok(colors) => tiles matches Ok(read) && read@ == colors,
            Err(e) => tiles == Err::<Vec<TileColor>, LoadError>(e),
        },
{
    let mut tiles: Vec<TileColor> = Vec::new();
    let mut i: usize = 0;
    while i < text.len()
        invariant
            i <= text@.len(),
            spelled_tiles(text@.take(i as int)) == Ok::<Seq<TileColor>, LoadError>(tiles@),
        decreases text@.len() - i,
    {
        let byte = text[i];
        assert(text@.take(i + 1).drop_last() =~= text@.take(i as int));
        if !(byte == 32 || byte == 9 || byte == 10 || byte == 13) {
            let color = if byte == 66 {
                TileColor::Blue
            } else if byte == 79 {
                TileColor::Orange
            } else if byte == 89 {
                TileColor::Yellow
            } else if byte == 71 {
                TileColor::Green
            } else if byte == 82 {
                TileColor::Red
            } else if byte == 87 {
                TileColor::White
            } else {
                proof {
                    lemma_spelling_error_stays(text@, i + 1);
                }
                return Err(LoadError::InvalidTileColor);
            };
            tiles.push(color);
        }
        i += 1;
    }
    assert(text@.take(i as int) =~= text@);
    if tiles.len() < TILE_COUNT {
        Err(LoadError::MissingTiles)
    } else if tiles.len() > TILE_COUNT {
        Err(LoadError::ExtraTiles)
    } else {
        Ok(tiles)
    }
}

/// Composes the 27 cubies from the 54 facelets.
pub fn compose_grid(tiles: &Vec<TileColor>) -> (grid: Result<Grid, LoadError>)
    requires
        tiles@.len() == TILE_COUNT,
    ensures
        match composed_cells(tiles@, ELEMENT_COUNT as int) {
            Ok(cells) => grid matches Ok(elements) && grid_view(elements) == cells_view(cells),
            Err(e) => grid == Err::<Grid, LoadError>(e),
        },
{
    let mut cells: Vec<CubeElement> = Vec::new();
    let mut i: usize = 0;
    while i < ELEMENT_COUNT
        invariant
            i <= ELEMENT_COUNT,
            tiles@.len() == TILE_COUNT,
            composed_cells(tiles@, i as int) == Ok::<Seq<CubeElement>, LoadError>(cells@),
            cells@.len() == i,
        decreases ELEMENT_COUNT - i,
    {
        let (x, y, z) = (i / 9, (i / 3) % 3, i % 3);
        let kind = CubeElementType::at(x, y, z);
        assert(cell(i as int) == (x as int, y as int, z as int));
        let colors = kind.get_tiles(tiles);
        match element_of_colors(&colors) {
            Ok(_) => {
                cells.push(kind.compose_element(tiles));
            },
            Err(e) => {
                proof {
                    lemma_composing_error_stays(tiles@, i as int + 1);
                }
                return Err(e);
            },
        }
        i += 1;
    }
    let elements = [
        [
            [cells[0], cells[1], cells[2]],
            [cells[3], cells[4], cells[5]],
            [cells[6], cells[7], cells[8]],
        ],
        [
            [cells[9], cells[10], cells[11]],
            [cells[12], cells[13], cells[14]],
            [cells[15], cells[16], cells[17]],
        ],
        [
            [cells[18], cells[19], cells[20]],
            [cells[21], cells[22], cells[23]],
            [cells[24], cells[25], cells[26]],
        ],
    ];
    assert(grid_view(elements) =~= cells_view(cells@));
    Ok(elements)
}

/// Once a coordinate's facelets have failed to make a cubie, the error
/// stands for the whole grid.
proof fn lemma_composing_error_stays(tiles: Seq<TileColor>, n: int)
    requires
        0 <= n <= ELEMENT_COUNT,
        composed_cells(tiles, n) is Err,
    ensures
        composed_cells(tiles, ELEMENT_COUNT as int) == composed_cells(tiles, n),
    decreases ELEMENT_COUNT - n,
{
    if n < ELEMENT_COUNT {
        lemma_composing_error_stays(tiles, n + 1);
    }
}

/// Something that a puzzle state can be loaded from.
pub trait CubeLoader {
    /// Whether the loader describes a grid at all.
    spec fn loadable(&self) -> bool;

    /// The puzzle state that the loader describes.
    spec fn loaded(&self) -> CubeView;

    fn to_model_elements(self) -> (elements: Grid)
        requires
            self.loadable(),
        ensures
            grid_view(elements) == self.loaded(),
    ;
}

/// A loader for the text form of a puzzle: the 54 facelets as colour
/// letters, face by face in the order blue, orange, yellow, green, red,
/// white, nine letters a face. Blanks and line breaks between the letters
/// do not count.
pub struct CubeTextLoader {
    text: String,
}

impl View for CubeTextLoader {
    type V = Seq<u8>;

    /// The bytes of the text.
    closed spec fn view(&self) -> Seq<u8> {
        vstd::utf8::encode_utf8(self.text@)
    }
}

impl CubeTextLoader {
    pub fn from_string(text: String) -> (loader: Self)
        ensures
            loader@ == vstd::utf8::encode_utf8(text@),
    {
        Self { text }
    }

    /// The grid that the text describes, or the first reason why it
    /// describes none.
    pub fn load(&self) -> (grid: Result<Grid, LoadError>)
        ensures
            match described_state(self@) {
                Ok(state) => grid matches Ok(elements) && grid_view(elements) == state,
                Err(e) => grid == Err::<Grid, LoadError>(e),
            },
    {
        let bytes = self.text.as_str().as_bytes();
        match parse_tiles(bytes) {
            Err(e) => Err(e),
            Ok(tiles) => compose_grid(&tiles),
        }
    }
}

impl CubeLoader for CubeTextLoader {
    open spec fn loadable(&self) -> bool {
        described_state(self@) is Ok
    }

    open spec fn loaded(&self) -> CubeView {
        described_state(self@)->Ok_0
    }

    fn to_model_elements(self) -> (elements: Grid) {
        self.load().unwrap()
    }
}

} // verus!
