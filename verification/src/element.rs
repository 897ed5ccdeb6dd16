use vstd::prelude::*;

verus! {

/// A coordinate of the 3x3x3 grid. The x axis runs from the red face to the
/// orange face, the y axis from yellow to white, the z axis from blue to green.
pub type Position = (int, int, int);

/// The 27 coordinates of the grid.
pub open spec fn in_cube(p: Position) -> bool {
    0 <= p.0 < 3 && 0 <= p.1 < 3 && 0 <= p.2 < 3
}

/// The `i`-th coordinate in the order in which the grid is walked: x
/// outermost, z innermost.
pub open spec fn cell(i: int) -> Position {
    (i / 9, (i / 3) % 3, i % 3)
}

/// Every coordinate of the cube is a cell of the walk.
pub proof fn lemma_cell_of_position(p: Position)
    requires
        in_cube(p),
    ensures
        0 <= 9 * p.0 + 3 * p.1 + p.2 < 27,
        cell(9 * p.0 + 3 * p.1 + p.2) == p,
{
}

/// How many of the three coordinates lie on a middle slice. Corners have
/// none, edges one, face centres two and the hidden core all three.
pub open spec fn middle_axes(p: Position) -> int {
    (if p.0 == 1 { 1int } else { 0 }) + (if p.1 == 1 { 1int } else { 0 }) + (if p.2 == 1 {
        1int
    } else {
        0
    })
}

/// One of the six sticker colours.
#[derive(Debug, Clone, Copy, PartialEq, Eq, PartialOrd, Ord, Hash, Structural)]
pub enum TileColor {
    White,
    Orange,
    Green,
    Red,
    Blue,
    Yellow,
}

/// The identity of a cubie: the set of colours fused on it. Eight corners,
/// twelve edges, six face centres and the colourless core.
#[derive(Debug, Clone, Copy, PartialEq, Eq, Hash, Structural)]
pub enum CubeElement {
    WhiteOrangeGreen,
    WhiteBlueOrange,
    WhiteGreenRed,
    WhiteRedBlue,
    YellowOrangeGreen,
    YellowBlueOrange,
    YellowGreenRed,
    YellowRedBlue,
    WhiteOrange,
    WhiteGreen,
    WhiteRed,
    WhiteBlue,
    YellowOrange,
    YellowGreen,
    YellowRed,
    YellowBlue,
    RedBlue,
    RedGreen,
    OrangeBlue,
    OrangeGreen,
    White,
    Orange,
    Green,
    Red,
    Blue,
    Yellow,
    Kernel,
}

/// Number of distinct cubie identities.
pub const ELEMENT_COUNT: usize = 27;

impl CubeElement {
    /// The colours of the cubie, in the order in which its name lists them.
    pub open spec fn colors(self) -> Seq<TileColor> {
        match self {
            CubeElement::WhiteOrangeGreen => seq![
                TileColor::White,
                TileColor::Orange,
                TileColor::Green,
            ],
            CubeElement::WhiteBlueOrange => seq![
                TileColor::White,
                TileColor::Blue,
                TileColor::Orange,
            ],
            CubeElement::WhiteGreenRed => seq![TileColor::White, TileColor::Green, TileColor::Red],
            CubeElement::WhiteRedBlue => seq![TileColor::White, TileColor::Red, TileColor::Blue],
            CubeElement::YellowOrangeGreen => seq![
                TileColor::Yellow,
                TileColor::Orange,
                TileColor::Green,
            ],
            CubeElement::YellowBlueOrange => seq![
                TileColor::Yellow,
                TileColor::Blue,
                TileColor::Orange,
            ],
            CubeElement::YellowGreenRed => seq![
                TileColor::Yellow,
                TileColor::Green,
                TileColor::Red,
            ],
            CubeElement::YellowRedBlue => seq![TileColor::Yellow, TileColor::Red, TileColor::Blue],
            CubeElement::WhiteOrange => seq![TileColor::White, TileColor::Orange],
            CubeElement::WhiteGreen => seq![TileColor::White, TileColor::Green],
            CubeElement::WhiteRed => seq![TileColor::White, TileColor::Red],
            CubeElement::WhiteBlue => seq![TileColor::White, TileColor::Blue],
            CubeElement::YellowOrange => seq![TileColor::Yellow, TileColor::Orange],
            CubeElement::YellowGreen => seq![TileColor::Yellow, TileColor::Green],
            CubeElement::YellowRed => seq![TileColor::Yellow, TileColor::Red],
            CubeElement::YellowBlue => seq![TileColor::Yellow, TileColor::Blue],
            CubeElement::RedBlue => seq![TileColor::Red, TileColor::Blue],
            CubeElement::RedGreen => seq![TileColor::Red, TileColor::Green],
            CubeElement::OrangeBlue => seq![TileColor::Orange, TileColor::Blue],
            CubeElement::OrangeGreen => seq![TileColor::Orange, TileColor::Green],
            CubeElement::White => seq![TileColor::White],
            CubeElement::Orange => seq![TileColor::Orange],
            CubeElement::Green => seq![TileColor::Green],
            CubeElement::Red => seq![TileColor::Red],
            CubeElement::Blue => seq![TileColor::Blue],
            CubeElement::Yellow => seq![TileColor::Yellow],
            CubeElement::Kernel => seq![],
        }
    }

    /// The coordinate that holds this cubie when the puzzle is solved.
    pub open spec fn home(self) -> Position {
        match self {
            CubeElement::WhiteOrangeGreen => (2, 2, 2),
            CubeElement::WhiteBlueOrange => (2, 2, 0),
            CubeElement::WhiteGreenRed => (0, 2, 2),
            CubeElement::WhiteRedBlue => (0, 2, 0),
            CubeElement::YellowOrangeGreen => (2, 0, 2),
            CubeElement::YellowBlueOrange => (2, 0, 0),
            CubeElement::YellowGreenRed => (0, 0, 2),
            CubeElement::YellowRedBlue => (0, 0, 0),
            CubeElement::WhiteOrange => (2, 2, 1),
            CubeElement::WhiteGreen => (1, 2, 2),
            CubeElement::WhiteRed => (0, 2, 1),
            CubeElement::WhiteBlue => (1, 2, 0),
            CubeElement::YellowOrange => (2, 0, 1),
            CubeElement::YellowGreen => (1, 0, 2),
            CubeElement::YellowRed => (0, 0, 1),
            CubeElement::YellowBlue => (1, 0, 0),
            CubeElement::RedBlue => (0, 1, 0),
            CubeElement::RedGreen => (0, 1, 2),
            CubeElement::OrangeBlue => (2, 1, 0),
            CubeElement::OrangeGreen => (2, 1, 2),
            CubeElement::White => (1, 2, 1),
            CubeElement::Orange => (2, 1, 1),
            CubeElement::Green => (1, 1, 2),
            CubeElement::Red => (0, 1, 1),
            CubeElement::Blue => (1, 1, 0),
            CubeElement::Yellow => (1, 0, 1),
            CubeElement::Kernel => (1, 1, 1),
        }
    }

    /// Every identity once, in declaration order.
    pub open spec fn all() -> Seq<CubeElement> {
        seq![
            CubeElement::WhiteOrangeGreen,
            CubeElement::WhiteBlueOrange,
            CubeElement::WhiteGreenRed,
            CubeElement::WhiteRedBlue,
            CubeElement::YellowOrangeGreen,
            CubeElement::YellowBlueOrange,
            CubeElement::YellowGreenRed,
            CubeElement::YellowRedBlue,
            CubeElement::WhiteOrange,
            CubeElement::WhiteGreen,
            CubeElement::WhiteRed,
            CubeElement::WhiteBlue,
            CubeElement::YellowOrange,
            CubeElement::YellowGreen,
            CubeElement::YellowRed,
            CubeElement::YellowBlue,
            CubeElement::RedBlue,
            CubeElement::RedGreen,
            CubeElement::OrangeBlue,
            CubeElement::OrangeGreen,
            CubeElement::White,
            CubeElement::Orange,
            CubeElement::Green,
            CubeElement::Red,
            CubeElement::Blue,
            CubeElement::Yellow,
            CubeElement::Kernel,
        ]
    }

    pub fn to_tile_colors(&self) -> (tiles: Vec<TileColor>)
        ensures
            tiles@ == self.colors(),
    {
        match self {
            CubeElement::WhiteOrangeGreen => vec![
                TileColor::White,
                TileColor::Orange,
                TileColor::Green,
            ],
            CubeElement::WhiteBlueOrange => vec![
                TileColor::White,
                TileColor::Blue,
                TileColor::Orange,
            ],
            CubeElement::WhiteGreenRed => vec![TileColor::White, TileColor::Green, TileColor::Red],
            CubeElement::WhiteRedBlue => vec![TileColor::White, TileColor::Red, TileColor::Blue],
            CubeElement::YellowOrangeGreen => vec![
                TileColor::Yellow,
                TileColor::Orange,
                TileColor::Green,
            ],
            CubeElement::YellowBlueOrange => vec![
                TileColor::Yellow,
                TileColor::Blue,
                TileColor::Orange,
            ],
            CubeElement::YellowGreenRed => vec![
                TileColor::Yellow,
                TileColor::Green,
                TileColor::Red,
            ],
            CubeElement::YellowRedBlue => vec![TileColor::Yellow, TileColor::Red, TileColor::Blue],
            CubeElement::WhiteOrange => vec![TileColor::White, TileColor::Orange],
            CubeElement::WhiteGreen => vec![TileColor::White, TileColor::Green],
            CubeElement::WhiteRed => vec![TileColor::White, TileColor::Red],
            CubeElement::WhiteBlue => vec![TileColor::White, TileColor::Blue],
            CubeElement::YellowOrange => vec![TileColor::Yellow, TileColor::Orange],
            CubeElement::YellowGreen => vec![TileColor::Yellow, TileColor::Green],
            CubeElement::YellowRed => vec![TileColor::Yellow, TileColor::Red],
            CubeElement::YellowBlue => vec![TileColor::Yellow, TileColor::Blue],
            CubeElement::RedBlue => vec![TileColor::Red, TileColor::Blue],
            CubeElement::RedGreen => vec![TileColor::Red, TileColor::Green],
            CubeElement::OrangeBlue => vec![TileColor::Orange, TileColor::Blue],
            CubeElement::OrangeGreen => vec![TileColor::Orange, TileColor::Green],
            CubeElement::White => vec![TileColor::White],
            CubeElement::Orange => vec![TileColor::Orange],
            CubeElement::Green => vec![TileColor::Green],
            CubeElement::Red => vec![TileColor::Red],
            CubeElement::Blue => vec![TileColor::Blue],
            CubeElement::Yellow => vec![TileColor::Yellow],
            CubeElement::Kernel => vec![],
        }
    }

    /// Where the cubie belongs: the inverse of the solved mapping.
    pub fn home_position(&self) -> (p: (usize, usize, usize))
        ensures
            (p.0 as int, p.1 as int, p.2 as int) == self.home(),
            p.0 < 3 && p.1 < 3 && p.2 < 3,
    {
        match self {
            CubeElement::WhiteOrangeGreen => (2, 2, 2),
            CubeElement::WhiteBlueOrange => (2, 2, 0),
            CubeElement::WhiteGreenRed => (0, 2, 2),
            CubeElement::WhiteRedBlue => (0, 2, 0),
            CubeElement::YellowOrangeGreen => (2, 0, 2),
            CubeElement::YellowBlueOrange => (2, 0, 0),
            CubeElement::YellowGreenRed => (0, 0, 2),
            CubeElement::YellowRedBlue => (0, 0, 0),
            CubeElement::WhiteOrange => (2, 2, 1),
            CubeElement::WhiteGreen => (1, 2, 2),
            CubeElement::WhiteRed => (0, 2, 1),
            CubeElement::WhiteBlue => (1, 2, 0),
            CubeElement::YellowOrange => (2, 0, 1),
            CubeElement::YellowGreen => (1, 0, 2),
            CubeElement::YellowRed => (0, 0, 1),
            CubeElement::YellowBlue => (1, 0, 0),
            CubeElement::RedBlue => (0, 1, 0),
            CubeElement::RedGreen => (0, 1, 2),
            CubeElement::OrangeBlue => (2, 1, 0),
            CubeElement::OrangeGreen => (2, 1, 2),
            CubeElement::White => (1, 2, 1),
            CubeElement::Orange => (2, 1, 1),
            CubeElement::Green => (1, 1, 2),
            CubeElement::Red => (0, 1, 1),
            CubeElement::Blue => (1, 1, 0),
            CubeElement::Yellow => (1, 0, 1),
            CubeElement::Kernel => (1, 1, 1),
        }
    }

    /// The identity with index `i` in declaration order.
    pub fn from_index(i: usize) -> (e: CubeElement)
        requires
            i < ELEMENT_COUNT,
        ensures
            e == CubeElement::all()[i as int],
    {
        match i {
            0 => CubeElement::WhiteOrangeGreen,
            1 => CubeElement::WhiteBlueOrange,
            2 => CubeElement::WhiteGreenRed,
            3 => CubeElement::WhiteRedBlue,
            4 => CubeElement::YellowOrangeGreen,
            5 => CubeElement::YellowBlueOrange,
            6 => CubeElement::YellowGreenRed,
            7 => CubeElement::YellowRedBlue,
            8 => CubeElement::WhiteOrange,
            9 => CubeElement::WhiteGreen,
            10 => CubeElement::WhiteRed,
            11 => CubeElement::WhiteBlue,
            12 => CubeElement::YellowOrange,
            13 => CubeElement::YellowGreen,
            14 => CubeElement::YellowRed,
            15 => CubeElement::YellowBlue,
            16 => CubeElement::RedBlue,
            17 => CubeElement::RedGreen,
            18 => CubeElement::OrangeBlue,
            19 => CubeElement::OrangeGreen,
            20 => CubeElement::White,
            21 => CubeElement::Orange,
            22 => CubeElement::Green,
            23 => CubeElement::Red,
            24 => CubeElement::Blue,
            25 => CubeElement::Yellow,
            _ => CubeElement::Kernel,
        }
    }
    /// The printed name of the cubie: the initials of its colours, joined
    /// by dashes, or `K` for the core.
    pub open spec fn label(self) -> Seq<char> {
        match self {
            CubeElement::WhiteOrangeGreen => "W-O-G"@,
            CubeElement::WhiteBlueOrange => "W-B-O"@,
            CubeElement::WhiteGreenRed => "W-G-R"@,
            CubeElement::WhiteRedBlue => "W-R-B"@,
            CubeElement::YellowOrangeGreen => "Y-O-G"@,
            CubeElement::YellowBlueOrange => "Y-B-O"@,
            CubeElement::YellowGreenRed => "Y-G-R"@,
            CubeElement::YellowRedBlue => "Y-R-B"@,
            CubeElement::WhiteOrange => "W-O"@,
            CubeElement::WhiteGreen => "W-G"@,
            CubeElement::WhiteRed => "W-R"@,
            CubeElement::WhiteBlue => "W-B"@,
            CubeElement::YellowOrange => "Y-O"@,
            CubeElement::YellowGreen => "Y-G"@,
            CubeElement::YellowRed => "Y-R"@,
            CubeElement::YellowBlue => "Y-B"@,
            CubeElement::RedBlue => "R-B"@,
            CubeElement::RedGreen => "R-G"@,
            CubeElement::OrangeBlue => "O-B"@,
            CubeElement::OrangeGreen => "O-G"@,
            CubeElement::White => "W"@,
            CubeElement::Orange => "O"@,
            CubeElement::Green => "G"@,
            CubeElement::Red => "R"@,
            CubeElement::Blue => "B"@,
            CubeElement::Yellow => "Y"@,
            CubeElement::Kernel => "K"@,
        }
    }

    /// The printed name of the cubie.
    pub fn name(&self) -> (name: &'static str)
        ensures
            name@ == self.label(),
    {
        match self {
            CubeElement::WhiteOrangeGreen => "W-O-G",
            CubeElement::WhiteBlueOrange => "W-B-O",
            CubeElement::WhiteGreenRed => "W-G-R",
            CubeElement::WhiteRedBlue => "W-R-B",
            CubeElement::YellowOrangeGreen => "Y-O-G",
            CubeElement::YellowBlueOrange => "Y-B-O",
            CubeElement::YellowGreenRed => "Y-G-R",
            CubeElement::YellowRedBlue => "Y-R-B",
            CubeElement::WhiteOrange => "W-O",
            CubeElement::WhiteGreen => "W-G",
            CubeElement::WhiteRed => "W-R",
            CubeElement::WhiteBlue => "W-B",
            CubeElement::YellowOrange => "Y-O",
            CubeElement::YellowGreen => "Y-G",
            CubeElement::YellowRed => "Y-R",
            CubeElement::YellowBlue => "Y-B",
            CubeElement::RedBlue => "R-B",
            CubeElement::RedGreen => "R-G",
            CubeElement::OrangeBlue => "O-B",
            CubeElement::OrangeGreen => "O-G",
            CubeElement::White => "W",
            CubeElement::Orange => "O",
            CubeElement::Green => "G",
            CubeElement::Red => "R",
            CubeElement::Blue => "B",
            CubeElement::Yellow => "Y",
            CubeElement::Kernel => "K",
        }
    }
}

/// The solved mapping: the identity that each coordinate holds when the
/// puzzle is solved.
pub open spec fn solved_element(p: Position) -> CubeElement {
    if p == (0int, 0int, 0int) { CubeElement::YellowRedBlue } else
    if p == (0int, 0int, 1int) { CubeElement::YellowRed } else
    if p == (0int, 0int, 2int) { CubeElement::YellowGreenRed } else
    if p == (0int, 1int, 0int) { CubeElement::RedBlue } else
    if p == (0int, 1int, 1int) { CubeElement::Red } else
    if p == (0int, 1int, 2int) { CubeElement::RedGreen } else
    if p == (0int, 2int, 0int) { CubeElement::WhiteRedBlue } else
    if p == (0int, 2int, 1int) { CubeElement::WhiteRed } else
    if p == (0int, 2int, 2int) { CubeElement::WhiteGreenRed } else
    if p == (1int, 0int, 0int) { CubeElement::YellowBlue } else
    if p == (1int, 0int, 1int) { CubeElement::Yellow } else
    if p == (1int, 0int, 2int) { CubeElement::YellowGreen } else
    if p == (1int, 1int, 0int) { CubeElement::Blue } else
    if p == (1int, 1int, 1int) { CubeElement::Kernel } else
    if p == (1int, 1int, 2int) { CubeElement::Green } else
    if p == (1int, 2int, 0int) { CubeElement::WhiteBlue } else
    if p == (1int, 2int, 1int) { CubeElement::White } else
    if p == (1int, 2int, 2int) { CubeElement::WhiteGreen } else
    if p == (2int, 0int, 0int) { CubeElement::YellowBlueOrange } else
    if p == (2int, 0int, 1int) { CubeElement::YellowOrange } else
    if p == (2int, 0int, 2int) { CubeElement::YellowOrangeGreen } else
    if p == (2int, 1int, 0int) { CubeElement::OrangeBlue } else
    if p == (2int, 1int, 1int) { CubeElement::Orange } else
    if p == (2int, 1int, 2int) { CubeElement::OrangeGreen } else
    if p == (2int, 2int, 0int) { CubeElement::WhiteBlueOrange } else
    if p == (2int, 2int, 1int) { CubeElement::WhiteOrange } else
    { CubeElement::WhiteOrangeGreen }
}

/// The solved mapping and `home` are inverse bijections between the 27
/// coordinates and the 27 identities, and a cubie with `n` colours lives
/// where `3 - n` coordinates are on a middle slice.
pub proof fn lemma_solved_mapping_bijective()
    ensures
        forall|e: CubeElement| in_cube(#[trigger] e.home()) && solved_element(e.home()) == e,
        forall|p: Position| in_cube(p) ==> (#[trigger] solved_element(p)).home() == p,
        forall|e: CubeElement| #[trigger] e.colors().len() + middle_axes(e.home()) == 3,
        CubeElement::all().len() == ELEMENT_COUNT,
        forall|e: CubeElement| #[trigger] CubeElement::all().contains(e),
{
    assert forall|e: CubeElement| #[trigger] CubeElement::all().contains(e) by {
        let all = CubeElement::all();
        assert(all[0] == CubeElement::WhiteOrangeGreen);
        assert(all[1] == CubeElement::WhiteBlueOrange);
        assert(all[2] == CubeElement::WhiteGreenRed);
        assert(all[3] == CubeElement::WhiteRedBlue);
        assert(all[4] == CubeElement::YellowOrangeGreen);
        assert(all[5] == CubeElement::YellowBlueOrange);
        assert(all[6] == CubeElement::YellowGreenRed);
        assert(all[7] == CubeElement::YellowRedBlue);
        assert(all[8] == CubeElement::WhiteOrange);
        assert(all[9] == CubeElement::WhiteGreen);
        assert(all[10] == CubeElement::WhiteRed);
        assert(all[11] == CubeElement::WhiteBlue);
        assert(all[12] == CubeElement::YellowOrange);
        assert(all[13] == CubeElement::YellowGreen);
        assert(all[14] == CubeElement::YellowRed);
        assert(all[15] == CubeElement::YellowBlue);
        assert(all[16] == CubeElement::RedBlue);
        assert(all[17] == CubeElement::RedGreen);
        assert(all[18] == CubeElement::OrangeBlue);
        assert(all[19] == CubeElement::OrangeGreen);
        assert(all[20] == CubeElement::White);
        assert(all[21] == CubeElement::Orange);
        assert(all[22] == CubeElement::Green);
        assert(all[23] == CubeElement::Red);
        assert(all[24] == CubeElement::Blue);
        assert(all[25] == CubeElement::Yellow);
        assert(all[26] == CubeElement::Kernel);
    }
}

} // verus!
