use vstd::prelude::*;
use crate::element::{cell, in_cube, CubeElement, Position, TileColor};
use crate::heuristic::matching_axes;
use crate::model::{grid_view, CubeModel, CubeView, Grid};

verus! {

/// Plain counts of how many cubies, or axes of cubies, are off their homes.
/// They count every cubie, face centres and the core included, and are not
/// scaled to moves. The search does not use them.
#[derive(Debug, Clone, Copy, PartialEq, Eq, Structural)]
pub enum Measure {
    /// How many cubies are not at home.
    MisplacedTiles,
    /// For every cubie, on how many axes it is off its home, added up.
    ColorDistance,
}

impl Measure {
    /// What the cubie `e` at coordinate `p` adds to this measure.
    pub open spec fn term(self, e: CubeElement, p: Position) -> int {
        match self {
            Measure::MisplacedTiles => if p == e.home() {
                0
            } else {
                1
            },
            Measure::ColorDistance => 3 - matching_axes(p, e.home()),
        }
    }

    /// The sum of the measure's terms over the first `n` cells of the state.
    pub open spec fn sum(self, s: CubeView, n: int) -> int
        decreases n,
    {
        if n <= 0 {
            0
        } else {
            self.sum(s, n - 1) + self.term(s[cell(n - 1)], cell(n - 1))
        }
    }

    /// The measure of a state: the sum of the terms of its 27 cells.
    pub open spec fn total_of(self, s: CubeView) -> int {
        self.sum(s, 27)
    }

    /// The term of one cell.
    pub fn cell_measure(&self, element: CubeElement, x: usize, y: usize, z: usize) -> (t: usize)
        requires
            x < 3,
            y < 3,
            z < 3,
        ensures
            t == self.term(element, (x as int, y as int, z as int)),
            t <= 3,
    {
        let (l, m, n) = element.home_position();
        match self {
            Measure::MisplacedTiles => {
                if x != l || y != m || z != n {
                    1
                } else {
                    0
                }
            },
            Measure::ColorDistance => {
                let mut off: usize = 0;
                if x != l {
                    off += 1;
                }
                if y != m {
                    off += 1;
                }
                if z != n {
                    off += 1;
                }
                off
            },
        }
    }

    /// The measure of a model.
    pub fn total(&self, model: &CubeModel) -> (total: usize)
        ensures
            total == self.total_of(model@),
    {
        let elements = model.cube_elements();
        let mut total: usize = 0;
        let mut i: usize = 0;
        while i < 27
            invariant
                i <= 27,
                grid_view(*elements) == model@,
                total == self.sum(model@, i as int),
                total <= 3 * i,
            decreases 27 - i,
        {
            let (x, y, z) = (i / 9, (i / 3) % 3, i % 3);
            let element = elements[x][y][z];
            proof {
                assert(cell(i as int) == (x as int, y as int, z as int));
                assert(grid_view(*elements)[(x as int, y as int, z as int)] == element);
            }
            total += self.cell_measure(element, x, y, z);
            i += 1;
        }
        total
    }
}

/// How many cubies are not at home.
pub fn misplaced_tiles(model: &CubeModel) -> (total: usize)
    ensures
        total == Measure::MisplacedTiles.total_of(model@),
{
    Measure::MisplacedTiles.total(model)
}

/// For every cubie, on how many axes it is off its home, added up.
pub fn color_distance(model: &CubeModel) -> (total: usize)
    ensures
        total == Measure::ColorDistance.total_of(model@),
{
    Measure::ColorDistance.total(model)
}

/// How many of the first `n` colours of `e` the cubie `other` carries too.
pub open spec fn shared_among(e: CubeElement, other: CubeElement, n: int) -> int
    decreases n,
{
    if n <= 0 {
        0
    } else {
        shared_among(e, other, n - 1) + if other.colors().contains(e.colors()[n - 1]) {
            1int
        } else {
            0
        }
    }
}

/// How many colours two cubies have in common.
pub open spec fn shared_colors_of(e: CubeElement, other: CubeElement) -> int {
    shared_among(e, other, e.colors().len() as int)
}

/// The coordinate next to `p` on one of its six sides: towards lower x,
/// higher x, lower y, higher y, lower z, higher z.
pub open spec fn beside(p: Position, side: int) -> Position {
    if side == 0 {
        (p.0 - 1, p.1, p.2)
    } else if side == 1 {
        (p.0 + 1, p.1, p.2)
    } else if side == 2 {
        (p.0, p.1 - 1, p.2)
    } else if side == 3 {
        (p.0, p.1 + 1, p.2)
    } else if side == 4 {
        (p.0, p.1, p.2 - 1)
    } else {
        (p.0, p.1, p.2 + 1)
    }
}

/// The colours that the cubie at `p` shares with its neighbour on one
/// side. A side on which the cube ends adds nothing.
pub open spec fn shared_beside(s: CubeView, p: Position, side: int) -> int {
    if in_cube(beside(p, side)) {
        shared_colors_of(s[p], s[beside(p, side)])
    } else {
        0
    }
}

/// The colours that the cubie at `p` shares with its neighbours on the
/// first `sides` sides, each neighbour counted on its own.
pub open spec fn shared_with_sides(s: CubeView, p: Position, sides: int) -> int
    decreases sides,
{
    if sides <= 0 {
        0
    } else {
        shared_with_sides(s, p, sides - 1) + shared_beside(s, p, sides - 1)
    }
}

/// The colours that the first `n` cells share with their neighbours.
pub open spec fn shared_with_neighbours(s: CubeView, n: int) -> int
    decreases n,
{
    if n <= 0 {
        0
    } else {
        shared_with_neighbours(s, n - 1) + shared_with_sides(s, cell(n - 1), 6)
    }
}

/// The colour disparity of a state: for every cubie and every neighbour
/// of it, the number of colours that the two have in common, added up.
pub open spec fn color_disparity_of(s: CubeView) -> int {
    shared_with_neighbours(s, 27)
}

/// Whether the colour is in the list.
fn has_color(colors: &Vec<TileColor>, color: TileColor) -> (found: bool)
    ensures
        found <==> colors@.contains(color),
{
    let mut i: usize = 0;
    while i < colors.len()
        invariant
            i <= colors@.len(),
            forall|j: int| 0 <= j < i ==> colors@[j] != color,
        decreases colors@.len() - i,
    {
        if colors[i] == color {
            return true;
        }
        i += 1;
    }
    false
}

/// How many colours two cubies have in common.
pub fn shared_colors(element: CubeElement, other: CubeElement) -> (shared: usize)
    ensures
        shared == shared_colors_of(element, other),
        shared <= 3,
{
    let colors = element.to_tile_colors();
    let other_colors = other.to_tile_colors();
    let mut shared: usize = 0;
    let mut i: usize = 0;
    while i < colors.len()
        invariant
            i <= colors@.len(),
            colors@ == element.colors(),
            other_colors@ == other.colors(),
            colors@.len() <= 3,
            shared == shared_among(element, other, i as int),
            shared <= i,
        decreases colors@.len() - i,
    {
        if has_color(&other_colors, colors[i]) {
            shared += 1;
        }
        i += 1;
    }
    shared
}

/// The cubie next to `(x, y, z)` on the given side, if the cube goes on
/// there.
fn cubie_beside(elements: &Grid, x: usize, y: usize, z: usize, side: usize) -> (next: Option<
    CubeElement,
>)
    requires
        x < 3,
        y < 3,
        z < 3,
        side < 6,
    ensures
        next is Some <==> in_cube(beside((x as int, y as int, z as int), side as int)),
        next is Some ==> next->0 == grid_view(*elements)[beside(
            (x as int, y as int, z as int),
            side as int,
        )],
{
    if side == 0 {
        if x > 0 {
            Some(elements[x - 1][y][z])
        } else {
            None
        }
    } else if side == 1 {
        if x < 2 {
            Some(elements[x + 1][y][z])
        } else {
            None
        }
    } else if side == 2 {
        if y > 0 {
            Some(elements[x][y - 1][z])
        } else {
            None
        }
    } else if side == 3 {
        if y < 2 {
            Some(elements[x][y + 1][z])
        } else {
            None
        }
    } else if side == 4 {
        if z > 0 {
            Some(elements[x][y][z - 1])
        } else {
            None
        }
    } else {
        if z < 2 {
            Some(elements[x][y][z + 1])
        } else {
            None
        }
    }
}

/// The colours that the cubie at `(x, y, z)` shares with its neighbours.
fn shared_around(elements: &Grid, x: usize, y: usize, z: usize) -> (around: usize)
    requires
        x < 3,
        y < 3,
        z < 3,
    ensures
        around == shared_with_sides(grid_view(*elements), (x as int, y as int, z as int), 6),
        around <= 18,
{
    let element = elements[x][y][z];
    let ghost p = (x as int, y as int, z as int);
    assert(grid_view(*elements)[p] == element);
    let mut around: usize = 0;
    let mut side: usize = 0;
    while side < 6
        invariant
            side <= 6,
            x < 3,
            y < 3,
            z < 3,
            p == (x as int, y as int, z as int),
            grid_view(*elements)[p] == element,
            around == shared_with_sides(grid_view(*elements), p, side as int),
            around <= 3 * side,
        decreases 6 - side,
    {
        match cubie_beside(elements, x, y, z, side) {
            Some(other) => {
                around += shared_colors(element, other);
            },
            None => {},
        }
        side += 1;
    }
    around
}

/// The colour disparity of a model: for every cubie and every neighbour of
/// it, the number of colours that the two have in common, added up.
pub fn color_disparity(model: &CubeModel) -> (total: usize)
    ensures
        total == color_disparity_of(model@),
{
    let elements = model.cube_elements();
    let mut total: usize = 0;
    let mut n: usize = 0;
    while n < 27
        invariant
            n <= 27,
            grid_view(*elements) == model@,
            total == shared_with_neighbours(model@, n as int),
            total <= 18 * n,
        decreases 27 - n,
    {
        let (x, y, z) = (n / 9, (n / 3) % 3, n % 3);
        assert(cell(n as int) == (x as int, y as int, z as int));
        total += shared_around(elements, x, y, z);
        n += 1;
    }
    total
}

} // verus!
