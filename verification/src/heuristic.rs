use vstd::prelude::*;
use crate::action::Actions;
use crate::element::{
    cell, in_cube, lemma_cell_of_position, lemma_solved_mapping_bijective, middle_axes,
    solved_element, CubeElement, Position,
};
use crate::model::{
    grid_view, lemma_moves_preserve_validity, lemma_solved_is_valid, solved_view, turned,
    turned_all, valid_state, CubeModel, CubeView,
};

verus! {

/// Estimates are whole numbers of eighths of a move, so that the quarter and
/// eighth weights of the two estimators add up exactly.
pub const COST_SCALE: usize = 8;

/// The distance between two values of one coordinate.
pub open spec fn axis_gap(a: int, b: int) -> int {
    if a <= b {
        b - a
    } else {
        a - b
    }
}

/// The taxicab distance between two coordinates.
pub open spec fn taxicab(p: Position, q: Position) -> int {
    axis_gap(p.0, q.0) + axis_gap(p.1, q.1) + axis_gap(p.2, q.2)
}

/// On how many of the three axes two coordinates agree.
pub open spec fn matching_axes(p: Position, q: Position) -> int {
    (if p.0 == q.0 { 1int } else { 0 }) + (if p.1 == q.1 { 1int } else { 0 }) + (if p.2 == q.2 {
        1int
    } else {
        0
    })
}

/// What the cubie `e` at coordinate `p` adds to the positional-distance
/// estimate: a quarter of a move for each step of taxicab distance to its
/// home, for corners and edges; nothing for face centres and the core.
pub open spec fn positional_term(e: CubeElement, p: Position) -> int {
    if middle_axes(e.home()) <= 1 {
        2 * taxicab(p, e.home())
    } else {
        0
    }
}

/// What the cubie `e` at coordinate `p` adds to the piecewise move-count
/// estimate, in eighths of a move. A cubie at home adds nothing. A corner
/// adds 3 when no axis agrees with its home, 2 when one does, 1 when two do.
/// An edge adds 4 when no axis agrees, 1 when one does, 2 when two do. Face
/// centres and the core add nothing.
pub open spec fn piecewise_term(e: CubeElement, p: Position) -> int {
    let same = matching_axes(p, e.home());
    if same == 3 {
        0
    } else if middle_axes(e.home()) == 0 {
        if same == 0 {
            3
        } else if same == 2 {
            1
        } else {
            2
        }
    } else if middle_axes(e.home()) == 1 {
        if same == 2 {
            2
        } else if same == 0 {
            4
        } else {
            1
        }
    } else {
        0
    }
}

/// The two estimators that the combined heuristic is made of.
#[derive(Debug, Clone, Copy, PartialEq, Eq, Structural)]
pub enum Estimator {
    PositionalDistance,
    PiecewiseMoveCount,
}

impl Estimator {
    /// What the cubie `e` at coordinate `p` adds to this estimate.
    pub open spec fn term(self, e: CubeElement, p: Position) -> int {
        match self {
            Estimator::PositionalDistance => positional_term(e, p),
            Estimator::PiecewiseMoveCount => piecewise_term(e, p),
        }
    }

    /// The estimate of a state: the sum of the terms of its 27 cells.
    pub open spec fn estimate_of(self, s: CubeView) -> int {
        sum_cells(self, s, 27)
    }

    /// The term of one cell.
    pub fn cell_estimate(&self, element: CubeElement, x: usize, y: usize, z: usize) -> (t: usize)
        requires
            x < 3,
            y < 3,
            z < 3,
        ensures
            t == self.term(element, (x as int, y as int, z as int)),
            t <= 12,
    {
        let (l, m, n) = element.home_position();
        let on_middle = count(l == 1) + count(m == 1) + count(n == 1);
        match self {
            Estimator::PositionalDistance => {
                if on_middle <= 1 {
                    2 * (gap(x, l) + gap(y, m) + gap(z, n))
                } else {
                    0
                }
            },
            Estimator::PiecewiseMoveCount => {
                let same = count(x == l) + count(y == m) + count(z == n);
                if same == 3 {
                    0
                } else if on_middle == 0 {
                    if same == 0 {
                        3
                    } else if same == 2 {
                        1
                    } else {
                        2
                    }
                } else if on_middle == 1 {
                    if same == 2 {
                        2
                    } else if same == 0 {
                        4
                    } else {
                        1
                    }
                } else {
                    0
                }
            },
        }
    }

    /// The estimate of a model, in eighths of a move.
    pub fn estimate(&self, model: &CubeModel) -> (d: usize)
        ensures
            d == self.estimate_of(model@),
            d <= 324,
    {
        let elements = model.cube_elements();
        let mut distance: usize = 0;
        for i in 0..3usize
            invariant
                grid_view(*elements) == model@,
                distance == sum_cells(*self, model@, 9 * i),
                distance <= 108 * i,
        {
            for j in 0..3usize
                invariant
                    i < 3,
                    grid_view(*elements) == model@,
                    distance == sum_cells(*self, model@, 9 * i + 3 * j),
                    distance <= 108 * i + 36 * j,
            {
                for k in 0..3usize
                    invariant
                        i < 3,
                        j < 3,
                        grid_view(*elements) == model@,
                        distance == sum_cells(*self, model@, 9 * i + 3 * j + k),
                        distance <= 108 * i + 36 * j + 12 * k,
                {
                    let element = elements[i][j][k];
                    proof {
                        lemma_sum_cells_step(*self, model@, i as int, j as int, k as int);
                        assert(grid_view(*elements)[(i as int, j as int, k as int)] == element);
                    }
                    distance += self.cell_estimate(element, i, j, k);
                }
            }
        }
        distance
    }
}

/// The sum of the estimator's terms over the first `n` cells of the state.
pub open spec fn sum_cells(kind: Estimator, s: CubeView, n: int) -> int
    decreases n,
{
    if n <= 0 {
        0
    } else {
        sum_cells(kind, s, n - 1) + kind.term(s[cell(n - 1)], cell(n - 1))
    }
}

/// Walking one cell further adds that cell's term to the sum.
pub proof fn lemma_sum_cells_step(kind: Estimator, s: CubeView, x: int, y: int, z: int)
    requires
        in_cube((x, y, z)),
    ensures
        sum_cells(kind, s, 9 * x + 3 * y + z + 1) == sum_cells(kind, s, 9 * x + 3 * y + z)
            + kind.term(s[(x, y, z)], (x, y, z)),
{
    let n = 9 * x + 3 * y + z;
    assert(n / 9 == x && (n / 3) % 3 == y && n % 3 == z);
    assert(cell(n) == (x, y, z));
}

/// The positional-distance estimate of a state, in eighths of a move.
pub open spec fn positional_distance_of(s: CubeView) -> int {
    Estimator::PositionalDistance.estimate_of(s)
}

/// The piecewise move-count estimate of a state, in eighths of a move.
pub open spec fn piecewise_move_count_of(s: CubeView) -> int {
    Estimator::PiecewiseMoveCount.estimate_of(s)
}

/// The combined estimate: the larger of the two.
pub open spec fn heuristic_of(s: CubeView) -> int {
    if positional_distance_of(s) >= piecewise_move_count_of(s) {
        positional_distance_of(s)
    } else {
        piecewise_move_count_of(s)
    }
}

/// Every corner and every edge sits at its home coordinate.
pub open spec fn movable_cubies_home(s: CubeView) -> bool {
    forall|p: Position| in_cube(p) && middle_axes(p) <= 1 ==> #[trigger] s[p] == solved_element(p)
}

/// An estimate is never negative and never more than 324 eighths of a
/// move, whatever the state.
pub proof fn lemma_estimate_bounds(kind: Estimator, s: CubeView, n: int)
    requires
        0 <= n <= 27,
    ensures
        0 <= sum_cells(kind, s, n) <= 12 * n,
    decreases n,
{
    if n > 0 {
        lemma_estimate_bounds(kind, s, n - 1);
        lemma_solved_mapping_bijective();
        let p = cell(n - 1);
        assert(in_cube(p));
        assert(in_cube(s[p].home()));
    }
}

/// The combined heuristic is never negative and never more than 324.
pub proof fn lemma_heuristic_bounds(s: CubeView)
    ensures
        0 <= heuristic_of(s) <= 324,
{
    lemma_estimate_bounds(Estimator::PositionalDistance, s, 27);
    lemma_estimate_bounds(Estimator::PiecewiseMoveCount, s, 27);
}

/// Every face centre sits at its home coordinate.
pub open spec fn face_centres_home(s: CubeView) -> bool {
    forall|p: Position| in_cube(p) && middle_axes(p) == 2 ==> #[trigger] s[p] == solved_element(p)
}

/// A partial sum of an estimator is never negative, and it is zero exactly
/// when every cell it covers adds nothing.
pub proof fn lemma_sum_cells_zero(kind: Estimator, s: CubeView, n: int)
    requires
        0 <= n <= 27,
    ensures
        sum_cells(kind, s, n) >= 0,
        sum_cells(kind, s, n) == 0 <==> forall|i: int|
            0 <= i < n ==> kind.term(s[#[trigger] cell(i)], cell(i)) == 0,
    decreases n,
{
    if n > 0 {
        lemma_sum_cells_zero(kind, s, n - 1);
        if sum_cells(kind, s, n) == 0 {
            assert forall|i: int| 0 <= i < n implies kind.term(s[#[trigger] cell(i)], cell(i))
                == 0 by {
                if i < n - 1 {
                } else {
                    assert(i == n - 1);
                }
            }
        }
    }
}

/// In a valid state a cell adds nothing to either estimator exactly when it
/// is a face centre, the core, or a corner or edge that holds its own cubie.
pub proof fn lemma_term_zero_iff_home(kind: Estimator, s: CubeView, p: Position)
    requires
        valid_state(s),
        in_cube(p),
    ensures
        kind.term(s[p], p) >= 0,
        kind.term(s[p], p) == 0 <==> (middle_axes(p) <= 1 ==> s[p] == solved_element(p)),
{
    lemma_solved_mapping_bijective();
    let e = s[p];
    assert(in_cube(e.home()) && solved_element(e.home()) == e);
    assert(middle_axes(e.home()) == middle_axes(p));
    if s[p] == solved_element(p) {
        assert(solved_element(p).home() == p);
    }
}

/// Both estimators and the combined heuristic are never negative, and on a
/// state that satisfies the puzzle-state invariant each of them is zero
/// exactly when every corner and every edge is at home.
pub proof fn lemma_estimates_zero_iff_home(s: CubeView)
    requires
        valid_state(s),
    ensures
        positional_distance_of(s) >= 0,
        piecewise_move_count_of(s) >= 0,
        heuristic_of(s) >= 0,
        positional_distance_of(s) == 0 <==> movable_cubies_home(s),
        piecewise_move_count_of(s) == 0 <==> movable_cubies_home(s),
        heuristic_of(s) == 0 <==> movable_cubies_home(s),
{
    lemma_estimate_zero_iff_home(Estimator::PositionalDistance, s);
    lemma_estimate_zero_iff_home(Estimator::PiecewiseMoveCount, s);
}

/// One estimator is never negative, and on a valid state it is zero exactly
/// when every corner and every edge is at home.
pub proof fn lemma_estimate_zero_iff_home(kind: Estimator, s: CubeView)
    requires
        valid_state(s),
    ensures
        kind.estimate_of(s) >= 0,
        kind.estimate_of(s) == 0 <==> movable_cubies_home(s),
{
    lemma_sum_cells_zero(kind, s, 27);
    if kind.estimate_of(s) == 0 {
        assert forall|p: Position| in_cube(p) && middle_axes(p) <= 1 implies #[trigger] s[p]
            == solved_element(p) by {
            lemma_cell_of_position(p);
            lemma_term_zero_iff_home(kind, s, p);
        }
    }
    if movable_cubies_home(s) {
        assert forall|i: int| 0 <= i < 27 implies kind.term(s[#[trigger] cell(i)], cell(i))
            == 0 by {
            lemma_term_zero_iff_home(kind, s, cell(i));
        }
    }
}

/// On the solved state both estimators and the combined heuristic are
/// exactly zero.
pub proof fn lemma_heuristic_zero_at_goal()
    ensures
        positional_distance_of(solved_view()) == 0,
        piecewise_move_count_of(solved_view()) == 0,
        heuristic_of(solved_view()) == 0,
{
    lemma_solved_is_valid();
    lemma_estimates_zero_iff_home(solved_view());
}

/// A valid state whose face centres are at home and that differs from the
/// solved state has a strictly positive heuristic. (The estimators look at
/// corners and edges only, so a state that differs from the solved one in
/// face centres alone is not told apart from it.)
pub proof fn lemma_heuristic_positive_off_goal(s: CubeView)
    requires
        valid_state(s),
        face_centres_home(s),
        s != solved_view(),
    ensures
        heuristic_of(s) > 0,
{
    lemma_estimates_zero_iff_home(s);
    lemma_solved_mapping_bijective();
    if movable_cubies_home(s) {
        assert forall|p: Position| in_cube(p) implies #[trigger] s[p] == solved_view()[p] by {
            if middle_axes(p) == 3 {
                assert(in_cube(s[p].home()) && solved_element(s[p].home()) == s[p]);
                assert(middle_axes(s[p].home()) == 3);
            }
        }
        assert(s =~= solved_view());
    }
}

/// No move touches a face centre: face centres that are at home stay there.
pub proof fn lemma_moves_keep_face_centres(s: CubeView, moves: Seq<Actions>)
    requires
        face_centres_home(s),
    ensures
        face_centres_home(turned_all(s, moves)),
    decreases moves.len(),
{
    if moves.len() > 0 {
        let before = turned_all(s, moves.drop_last());
        lemma_moves_keep_face_centres(s, moves.drop_last());
        assert forall|p: Position| in_cube(p) && middle_axes(p) == 2 implies #[trigger] turned(
            before,
            moves.last(),
        )[p] == solved_element(p) by {
            assert(moves.last().source(p) == p);
            assert(before[p] == solved_element(p));
        }
    }
}

/// For every state that moves can reach from the solved one, the heuristic
/// is zero exactly when the state is the solved state.
pub proof fn lemma_reachable_zero_iff_solved(moves: Seq<Actions>)
    ensures
        heuristic_of(turned_all(solved_view(), moves)) == 0 <==> turned_all(solved_view(), moves)
            == solved_view(),
{
    let s = turned_all(solved_view(), moves);
    lemma_solved_is_valid();
    lemma_moves_preserve_validity(solved_view(), moves);
    lemma_moves_keep_face_centres(solved_view(), moves);
    lemma_heuristic_zero_at_goal();
    if s != solved_view() {
        lemma_heuristic_positive_off_goal(s);
    }
}

/// Something that can estimate how far it is from the solved puzzle.
pub trait Heuristic {
    /// The estimate, in eighths of a move.
    spec fn estimate(&self) -> int;

    fn heuristic(&self) -> (h: usize)
        ensures
            h == self.estimate(),
    ;
}

impl Heuristic for CubeModel {
    open spec fn estimate(&self) -> int {
        heuristic_of(self@)
    }

    /// The larger of the positional-distance and the piecewise move-count
    /// estimates.
    fn heuristic(&self) -> (h: usize) {
        let positional = move_distance(self);
        let piecewise = piecewise_move_count(self);
        if positional >= piecewise {
            positional
        } else {
            piecewise
        }
    }
}

/// The positional-distance estimator: a quarter of a move for every step
/// of taxicab distance that a corner or an edge is away from its home,
/// summed over the grid. Face centres and the core add nothing. The result
/// is in eighths of a move.
pub fn move_distance(model: &CubeModel) -> (d: usize)
    ensures
        d == positional_distance_of(model@),
{
    Estimator::PositionalDistance.estimate(model)
}

/// The piecewise move-count estimator: a table weight for every corner and
/// edge that is not at home, summed over the grid, in eighths of a move.
pub fn piecewise_move_count(model: &CubeModel) -> (d: usize)
    ensures
        d == piecewise_move_count_of(model@),
{
    Estimator::PiecewiseMoveCount.estimate(model)
}

/// The distance between two coordinate values.
fn gap(a: usize, b: usize) -> (d: usize)
    ensures
        d == axis_gap(a as int, b as int),
{
    if a <= b {
        b - a
    } else {
        a - b
    }
}

/// One if the condition holds, zero if not.
fn count(condition: bool) -> (n: usize)
    ensures
        n == if condition { 1int } else { 0 },
{
    if condition {
        1
    } else {
        0
    }
}

} // verus!
