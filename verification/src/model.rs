use vstd::prelude::*;
use crate::action::{Actionable, Actions};
use crate::element::{
    cell, in_cube, lemma_cell_of_position, lemma_solved_mapping_bijective, middle_axes,
    solved_element, CubeElement, Position, ELEMENT_COUNT,
};
use crate::loaders::CubeLoader;

verus! {

/// The raw 3x3x3 array of cubie identities, indexed `[x][y][z]`.
pub type Grid = [[[CubeElement; 3]; 3]; 3];

/// The mathematical state of the puzzle: which identity sits at each of the
/// 27 coordinates.
pub type CubeView = Map<Position, CubeElement>;

/// The state that a raw array stands for.
pub open spec fn grid_view(g: Grid) -> CubeView {
    Map::new(|p: Position| in_cube(p), |p: Position| g[p.0][p.1][p.2])
}

/// The solved state.
pub open spec fn solved_view() -> CubeView {
    Map::new(|p: Position| in_cube(p), |p: Position| solved_element(p))
}

/// The state after one move: every coordinate receives the cubie that the
/// move carries to it.
pub open spec fn turned(s: CubeView, a: Actions) -> CubeView {
    Map::new(|p: Position| in_cube(p), |p: Position| s[a.source(p)])
}

/// The state after a sequence of moves, applied first to last.
pub open spec fn turned_all(s: CubeView, moves: Seq<Actions>) -> CubeView
    decreases moves.len(),
{
    if moves.len() == 0 {
        s
    } else {
        turned(turned_all(s, moves.drop_last()), moves.last())
    }
}

/// The state is defined on the 27 coordinates and nowhere else.
pub open spec fn covers_cube(s: CubeView) -> bool {
    forall|p: Position| s.dom().contains(p) <==> in_cube(p)
}

/// Whether the identity `e` occurs somewhere in the state.
pub open spec fn holds(s: CubeView, e: CubeElement) -> bool {
    exists|p: Position| in_cube(p) && #[trigger] s[p] == e
}

/// The puzzle-state invariant: the state covers exactly the 27 coordinates,
/// every identity occurs exactly once, and each sits at a coordinate of its
/// own class (corners at corners, edges at edges, face centres at face
/// centres, the core in the middle).
pub open spec fn valid_state(s: CubeView) -> bool {
    &&& covers_cube(s)
    &&& forall|p: Position| in_cube(p) ==> middle_axes((#[trigger] s[p]).home()) == middle_axes(p)
    &&& forall|p: Position, q: Position|
        in_cube(p) && in_cube(q) && #[trigger] s[p] == #[trigger] s[q] ==> p == q
    &&& forall|e: CubeElement| #[trigger] holds(s, e)
}

/// A move keeps the turned layer's cells inside the cube and inside their
/// class, and the opposite move carries every coordinate back.
pub proof fn lemma_source_is_permutation(a: Actions, p: Position)
    requires
        in_cube(p),
    ensures
        in_cube(a.source(p)),
        middle_axes(a.source(p)) == middle_axes(p),
        a.source(a.opposite().source(p)) == p,
        a.opposite().source(a.source(p)) == p,
        a.opposite().opposite() == a,
{
}

/// A move followed by the opposite turn of the same layer, in either order,
/// gives back the state it started from.
pub proof fn lemma_opposite_move_restores(s: CubeView, a: Actions)
    requires
        covers_cube(s),
    ensures
        turned(turned(s, a), a.opposite()) == s,
        turned(turned(s, a.opposite()), a) == s,
{
    assert forall|p: Position| in_cube(p) implies turned(turned(s, a), a.opposite())[p] == s[p]
        && turned(turned(s, a.opposite()), a)[p] == s[p] by {
        lemma_source_is_permutation(a, p);
        lemma_source_is_permutation(a.opposite(), p);
    }
    assert(turned(turned(s, a), a.opposite()) =~= s);
    assert(turned(turned(s, a.opposite()), a) =~= s);
}

/// A move permutes the cubies and never relabels them: a state that
/// satisfies the puzzle-state invariant still satisfies it after any move.
pub proof fn lemma_move_preserves_validity(s: CubeView, a: Actions)
    requires
        valid_state(s),
    ensures
        valid_state(turned(s, a)),
{
    let t = turned(s, a);
    assert forall|p: Position| in_cube(p) implies middle_axes((#[trigger] t[p]).home())
        == middle_axes(p) by {
        lemma_source_is_permutation(a, p);
    }
    assert forall|p: Position, q: Position|
        in_cube(p) && in_cube(q) && #[trigger] t[p] == #[trigger] t[q] implies p == q by {
        lemma_source_is_permutation(a, p);
        lemma_source_is_permutation(a, q);
        assert(s[a.source(p)] == s[a.source(q)]);
    }
    assert forall|e: CubeElement| #[trigger] holds(t, e) by {
        assert(holds(s, e));
        let p = choose|p: Position| in_cube(p) && s[p] == e;
        let q = a.opposite().source(p);
        lemma_source_is_permutation(a, p);
        lemma_source_is_permutation(a.opposite(), p);
        assert(t[q] == e);
    }
}

/// The solved state satisfies the puzzle-state invariant.
pub proof fn lemma_solved_is_valid()
    ensures
        valid_state(solved_view()),
{
    let s = solved_view();
    lemma_solved_mapping_bijective();
    assert forall|e: CubeElement| #[trigger] holds(s, e) by {
        assert(s[e.home()] == e);
    }
}

/// Every state reached from a valid state by a sequence of moves is valid;
/// so is every state reachable from the solved one.
pub proof fn lemma_moves_preserve_validity(s: CubeView, moves: Seq<Actions>)
    requires
        valid_state(s),
    ensures
        valid_state(turned_all(s, moves)),
    decreases moves.len(),
{
    if moves.len() > 0 {
        lemma_moves_preserve_validity(s, moves.drop_last());
        lemma_move_preserves_validity(turned_all(s, moves.drop_last()), moves.last());
    }
}

/// Applying `moves` and then one more move `a` is applying `moves.push(a)`.
pub proof fn lemma_turned_all_push(s: CubeView, moves: Seq<Actions>, a: Actions)
    ensures
        turned_all(s, moves.push(a)) == turned(turned_all(s, moves), a),
{
    assert(moves.push(a).drop_last() =~= moves);
}

/// An edge coordinate of the layer that the move turns.
pub open spec fn edge_of_layer(a: Actions) -> Position {
    match a {
        Actions::U | Actions::UC => (0, 2, 1),
        Actions::D | Actions::DC => (0, 0, 1),
        Actions::F | Actions::FC => (0, 1, 0),
        Actions::B | Actions::BC => (0, 1, 2),
        Actions::R | Actions::RC => (2, 0, 1),
        Actions::L | Actions::LC => (0, 0, 1),
    }
}

/// No two moves do the same to the solved state.
pub proof fn lemma_moves_differ_on_solved(a: Actions, b: Actions)
    requires
        turned(solved_view(), a) == turned(solved_view(), b),
    ensures
        a == b,
{
    lemma_solved_mapping_bijective();
    let w = edge_of_layer(a);
    assert(in_cube(w));
    lemma_source_is_permutation(a, w);
    lemma_source_is_permutation(b, w);
    assert(turned(solved_view(), a)[w] == solved_element(a.source(w)));
    assert(turned(solved_view(), b)[w] == solved_element(b.source(w)));
    assert(solved_element(a.source(w)).home() == a.source(w));
    assert(solved_element(b.source(w)).home() == b.source(w));
    assert(a.source(w) == b.source(w));
}

/// After one move from the solved state, only the opposite move leads back
/// to it.
pub proof fn lemma_only_opposite_restores(a: Actions, b: Actions)
    requires
        turned(turned(solved_view(), a), b) == solved_view(),
    ensures
        b == a.opposite(),
{
    let once = turned(solved_view(), a);
    lemma_opposite_move_restores(once, b);
    lemma_moves_differ_on_solved(a, b.opposite());
    assert(b.opposite().opposite() == b);
}

/// The puzzle: a 3x3x3 grid of cubie identities. `(0, 0, 0)` is the
/// yellow-red-blue corner.
#[derive(Debug, Clone, Copy, PartialEq, Eq)]
pub struct CubeModel {
    cube_elements: Grid,
}

impl View for CubeModel {
    type V = CubeView;

    closed spec fn view(&self) -> CubeView {
        grid_view(self.cube_elements)
    }
}

impl CubeModel {
    /// The state of a model is defined on the 27 coordinates and nowhere else.
    pub proof fn lemma_view_covers_cube(&self)
        ensures
            covers_cube(self@),
    {
    }

    pub fn cube_elements(&self) -> (elements: &Grid)
        ensures
            grid_view(*elements) == self@,
    {
        &self.cube_elements
    }

    /// The model that a loader describes.
    pub fn from_loader(loader: impl CubeLoader) -> (model: Self)
        requires
            loader.loadable(),
        ensures
            model@ == loader.loaded(),
    {
        Self { cube_elements: loader.to_model_elements() }
    }

    /// A model that holds the given array as it is.
    pub fn from_elements(elements: Grid) -> (model: Self)
        ensures
            model@ == grid_view(elements),
    {
        Self { cube_elements: elements }
    }

    /// Turns the orange (x = 2) layer a quarter turn clockwise.
    pub fn right_clockwise(&mut self)
        ensures
            final(self)@ == turned(old(self)@, Actions::R),
    {
        let mut temp = self.cube_elements[2][0][0];
        self.cube_elements[2][0][0] = self.cube_elements[2][0][2];
        self.cube_elements[2][0][2] = self.cube_elements[2][2][2];
        self.cube_elements[2][2][2] = self.cube_elements[2][2][0];
        self.cube_elements[2][2][0] = temp;

        temp = self.cube_elements[2][0][1];
        self.cube_elements[2][0][1] = self.cube_elements[2][1][2];
        self.cube_elements[2][1][2] = self.cube_elements[2][2][1];
        self.cube_elements[2][2][1] = self.cube_elements[2][1][0];
        self.cube_elements[2][1][0] = temp;
        assert(self@ =~= turned(old(self)@, Actions::R));
    }

    /// Turns the orange (x = 2) layer a quarter turn counter-clockwise.
    pub fn right_counter_clockwise(&mut self)
        ensures
            final(self)@ == turned(old(self)@, Actions::RC),
    {
        let mut temp = self.cube_elements[2][0][0];
        self.cube_elements[2][0][0] = self.cube_elements[2][2][0];
        self.cube_elements[2][2][0] = self.cube_elements[2][2][2];
        self.cube_elements[2][2][2] = self.cube_elements[2][0][2];
        self.cube_elements[2][0][2] = temp;

        temp = self.cube_elements[2][0][1];
        self.cube_elements[2][0][1] = self.cube_elements[2][1][0];
        self.cube_elements[2][1][0] = self.cube_elements[2][2][1];
        self.cube_elements[2][2][1] = self.cube_elements[2][1][2];
        self.cube_elements[2][1][2] = temp;
        assert(self@ =~= turned(old(self)@, Actions::RC));
    }

    /// Turns the red (x = 0) layer a quarter turn clockwise.
    pub fn left_clockwise(&mut self)
        ensures
            final(self)@ == turned(old(self)@, Actions::L),
    {
        let mut temp = self.cube_elements[0][0][0];
        self.cube_elements[0][0][0] = self.cube_elements[0][2][0];
        self.cube_elements[0][2][0] = self.cube_elements[0][2][2];
        self.cube_elements[0][2][2] = self.cube_elements[0][0][2];
        self.cube_elements[0][0][2] = temp;

        temp = self.cube_elements[0][0][1];
        self.cube_elements[0][0][1] = self.cube_elements[0][1][0];
        self.cube_elements[0][1][0] = self.cube_elements[0][2][1];
        self.cube_elements[0][2][1] = self.cube_elements[0][1][2];
        self.cube_elements[0][1][2] = temp;
        assert(self@ =~= turned(old(self)@, Actions::L));
    }

    /// Turns the red (x = 0) layer a quarter turn counter-clockwise.
    pub fn left_counter_clockwise(&mut self)
        ensures
            final(self)@ == turned(old(self)@, Actions::LC),
    {
        let mut temp = self.cube_elements[0][0][0];
        self.cube_elements[0][0][0] = self.cube_elements[0][0][2];
        self.cube_elements[0][0][2] = self.cube_elements[0][2][2];
        self.cube_elements[0][2][2] = self.cube_elements[0][2][0];
        self.cube_elements[0][2][0] = temp;

        temp = self.cube_elements[0][0][1];
        self.cube_elements[0][0][1] = self.cube_elements[0][1][2];
        self.cube_elements[0][1][2] = self.cube_elements[0][2][1];
        self.cube_elements[0][2][1] = self.cube_elements[0][1][0];
        self.cube_elements[0][1][0] = temp;
        assert(self@ =~= turned(old(self)@, Actions::LC));
    }

    /// Turns the white (y = 2) layer a quarter turn clockwise.
    pub fn up_clockwise(&mut self)
        ensures
            final(self)@ == turned(old(self)@, Actions::U),
    {
        let mut temp = self.cube_elements[0][2][0];
        self.cube_elements[0][2][0] = self.cube_elements[2][2][0];
        self.cube_elements[2][2][0] = self.cube_elements[2][2][2];
        self.cube_elements[2][2][2] = self.cube_elements[0][2][2];
        self.cube_elements[0][2][2] = temp;

        temp = self.cube_elements[0][2][1];
        self.cube_elements[0][2][1] = self.cube_elements[1][2][0];
        self.cube_elements[1][2][0] = self.cube_elements[2][2][1];
        self.cube_elements[2][2][1] = self.cube_elements[1][2][2];
        self.cube_elements[1][2][2] = temp;
        assert(self@ =~= turned(old(self)@, Actions::U));
    }

    /// Turns the white (y = 2) layer a quarter turn counter-clockwise.
    pub fn up_counter_clockwise(&mut self)
        ensures
            final(self)@ == turned(old(self)@, Actions::UC),
    {
        let mut temp = self.cube_elements[0][2][0];
        self.cube_elements[0][2][0] = self.cube_elements[0][2][2];
        self.cube_elements[0][2][2] = self.cube_elements[2][2][2];
        self.cube_elements[2][2][2] = self.cube_elements[2][2][0];
        self.cube_elements[2][2][0] = temp;

        temp = self.cube_elements[0][2][1];
        self.cube_elements[0][2][1] = self.cube_elements[1][2][2];
        self.cube_elements[1][2][2] = self.cube_elements[2][2][1];
        self.cube_elements[2][2][1] = self.cube_elements[1][2][0];
        self.cube_elements[1][2][0] = temp;
        assert(self@ =~= turned(old(self)@, Actions::UC));
    }

    /// Turns the yellow (y = 0) layer a quarter turn clockwise.
    pub fn down_clockwise(&mut self)
        ensures
            final(self)@ == turned(old(self)@, Actions::D),
    {
        let mut temp = self.cube_elements[0][0][0];
        self.cube_elements[0][0][0] = self.cube_elements[0][0][2];
        self.cube_elements[0][0][2] = self.cube_elements[2][0][2];
        self.cube_elements[2][0][2] = self.cube_elements[2][0][0];
        self.cube_elements[2][0][0] = temp;

        temp = self.cube_elements[0][0][1];
        self.cube_elements[0][0][1] = self.cube_elements[1][0][2];
        self.cube_elements[1][0][2] = self.cube_elements[2][0][1];
        self.cube_elements[2][0][1] = self.cube_elements[1][0][0];
        self.cube_elements[1][0][0] = temp;
        assert(self@ =~= turned(old(self)@, Actions::D));
    }

    /// Turns the yellow (y = 0) layer a quarter turn counter-clockwise.
    pub fn down_counter_clockwise(&mut self)
        ensures
            final(self)@ == turned(old(self)@, Actions::DC),
    {
        let mut temp = self.cube_elements[0][0][0];
        self.cube_elements[0][0][0] = self.cube_elements[2][0][0];
        self.cube_elements[2][0][0] = self.cube_elements[2][0][2];
        self.cube_elements[2][0][2] = self.cube_elements[0][0][2];
        self.cube_elements[0][0][2] = temp;

        temp = self.cube_elements[0][0][1];
        self.cube_elements[0][0][1] = self.cube_elements[1][0][0];
        self.cube_elements[1][0][0] = self.cube_elements[2][0][1];
        self.cube_elements[2][0][1] = self.cube_elements[1][0][2];
        self.cube_elements[1][0][2] = temp;
        assert(self@ =~= turned(old(self)@, Actions::DC));
    }

    /// Turns the blue (z = 0) layer a quarter turn clockwise.
    pub fn front_clockwise(&mut self)
        ensures
            final(self)@ == turned(old(self)@, Actions::F),
    {
        let mut temp = self.cube_elements[0][0][0];
        self.cube_elements[0][0][0] = self.cube_elements[2][0][0];
        self.cube_elements[2][0][0] = self.cube_elements[2][2][0];
        self.cube_elements[2][2][0] = self.cube_elements[0][2][0];
        self.cube_elements[0][2][0] = temp;

        temp = self.cube_elements[0][1][0];
        self.cube_elements[0][1][0] = self.cube_elements[1][0][0];
        self.cube_elements[1][0][0] = self.cube_elements[2][1][0];
        self.cube_elements[2][1][0] = self.cube_elements[1][2][0];
        self.cube_elements[1][2][0] = temp;
        assert(self@ =~= turned(old(self)@, Actions::F));
    }

    /// Turns the blue (z = 0) layer a quarter turn counter-clockwise.
    pub fn front_counter_clockwise(&mut self)
        ensures
            final(self)@ == turned(old(self)@, Actions::FC),
    {
        let mut temp = self.cube_elements[0][0][0];
        self.cube_elements[0][0][0] = self.cube_elements[0][2][0];
        self.cube_elements[0][2][0] = self.cube_elements[2][2][0];
        self.cube_elements[2][2][0] = self.cube_elements[2][0][0];
        self.cube_elements[2][0][0] = temp;

        temp = self.cube_elements[0][1][0];
        self.cube_elements[0][1][0] = self.cube_elements[1][2][0];
        self.cube_elements[1][2][0] = self.cube_elements[2][1][0];
        self.cube_elements[2][1][0] = self.cube_elements[1][0][0];
        self.cube_elements[1][0][0] = temp;
        assert(self@ =~= turned(old(self)@, Actions::FC));
    }

    /// Turns the green (z = 2) layer a quarter turn clockwise.
    pub fn back_clockwise(&mut self)
        ensures
            final(self)@ == turned(old(self)@, Actions::B),
    {
        let mut temp = self.cube_elements[0][0][2];
        self.cube_elements[0][0][2] = self.cube_elements[0][2][2];
        self.cube_elements[0][2][2] = self.cube_elements[2][2][2];
        self.cube_elements[2][2][2] = self.cube_elements[2][0][2];
        self.cube_elements[2][0][2] = temp;

        temp = self.cube_elements[0][1][2];
        self.cube_elements[0][1][2] = self.cube_elements[1][2][2];
        self.cube_elements[1][2][2] = self.cube_elements[2][1][2];
        self.cube_elements[2][1][2] = self.cube_elements[1][0][2];
        self.cube_elements[1][0][2] = temp;
        assert(self@ =~= turned(old(self)@, Actions::B));
    }

    /// Turns the green (z = 2) layer a quarter turn counter-clockwise.
    pub fn back_counter_clockwise(&mut self)
        ensures
            final(self)@ == turned(old(self)@, Actions::BC),
    {
        let mut temp = self.cube_elements[0][0][2];
        self.cube_elements[0][0][2] = self.cube_elements[2][0][2];
        self.cube_elements[2][0][2] = self.cube_elements[2][2][2];
        self.cube_elements[2][2][2] = self.cube_elements[0][2][2];
        self.cube_elements[0][2][2] = temp;

        temp = self.cube_elements[0][1][2];
        self.cube_elements[0][1][2] = self.cube_elements[1][0][2];
        self.cube_elements[1][0][2] = self.cube_elements[2][1][2];
        self.cube_elements[2][1][2] = self.cube_elements[1][2][2];
        self.cube_elements[1][2][2] = temp;
        assert(self@ =~= turned(old(self)@, Actions::BC));
    }

    /// The solved puzzle.
    pub fn solved() -> (model: Self)
        ensures
            model@ == solved_view(),
    {
        let cube_elements = [
            [
                [CubeElement::YellowRedBlue, CubeElement::YellowRed, CubeElement::YellowGreenRed],
                [CubeElement::RedBlue, CubeElement::Red, CubeElement::RedGreen],
                [CubeElement::WhiteRedBlue, CubeElement::WhiteRed, CubeElement::WhiteGreenRed],
            ],
            [
                [CubeElement::YellowBlue, CubeElement::Yellow, CubeElement::YellowGreen],
                [CubeElement::Blue, CubeElement::Kernel, CubeElement::Green],
                [CubeElement::WhiteBlue, CubeElement::White, CubeElement::WhiteGreen],
            ],
            [
                [
                    CubeElement::YellowBlueOrange,
                    CubeElement::YellowOrange,
                    CubeElement::YellowOrangeGreen,
                ],
                [CubeElement::OrangeBlue, CubeElement::Orange, CubeElement::OrangeGreen],
                [
                    CubeElement::WhiteBlueOrange,
                    CubeElement::WhiteOrange,
                    CubeElement::WhiteOrangeGreen,
                ],
            ],
        ];
        let model = Self { cube_elements };
        assert(model@ =~= solved_view());
        model
    }

    /// Whether every coordinate holds the identity that the solved mapping
    /// gives it.
    pub fn is_solved(&self) -> (solved: bool)
        ensures
            solved <==> self@ == solved_view(),
    {
        let reference = Self::solved();
        self.same_elements(&reference)
    }

    /// Structural equality: the two grids hold the same identity at every
    /// coordinate.
    pub fn same_elements(&self, other: &CubeModel) -> (same: bool)
        ensures
            same <==> self@ == other@,
    {
        let mut i: usize = 0;
        while i < 27
            invariant
                i <= 27,
                forall|b: int| 0 <= b < i ==> self@[#[trigger] cell(b)] == other@[cell(b)],
            decreases 27 - i,
        {
            if self.cubie(i) != other.cubie(i) {
                return false;
            }
            i += 1;
        }
        proof {
            assert forall|p: Position| in_cube(p) implies self@[p] == other@[p] by {
                lemma_cell_of_position(p);
            }
            assert(self@ =~= other@);
        }
        true
    }

    /// Applies the moves one after another, first to last.
    pub fn apply_actions(&mut self, moves: &Vec<Actions>)
        ensures
            final(self)@ == turned_all(old(self)@, moves@),
    {
        let mut i: usize = 0;
        while i < moves.len()
            invariant
                i <= moves@.len(),
                self@ == turned_all(old(self)@, moves@.take(i as int)),
            decreases moves@.len() - i,
        {
            proof {
                lemma_turned_all_push(old(self)@, moves@.take(i as int), moves@[i as int]);
                assert(moves@.take(i as int).push(moves@[i as int]) =~= moves@.take(i + 1));
            }
            self.apply_action(moves[i]);
            i += 1;
        }
        assert(moves@.take(i as int) =~= moves@);
    }

    /// Whether the grid satisfies the puzzle-state invariant: every cubie
    /// occurs exactly once and sits at a coordinate of its own class.
    pub fn is_valid(&self) -> (valid: bool)
        ensures
            valid <==> valid_state(self@),
    {
        if !self.cubies_in_their_class() {
            return false;
        }
        if !self.no_cubie_twice() {
            return false;
        }
        self.every_cubie_present()
    }

    /// Whether every cubie sits at a coordinate of its own class.
    fn cubies_in_their_class(&self) -> (fits: bool)
        ensures
            fits <==> forall|p: Position|
                in_cube(p) ==> middle_axes((#[trigger] self@[p]).home()) == middle_axes(p),
    {
        let mut i: usize = 0;
        while i < 27
            invariant
                i <= 27,
                forall|b: int|
                    0 <= b < i ==> middle_axes(self@[#[trigger] cell(b)].home()) == middle_axes(
                        cell(b),
                    ),
            decreases 27 - i,
        {
            let (l, m, n) = self.cubie(i).home_position();
            if middle_count(i / 9, (i / 3) % 3, i % 3) != middle_count(l, m, n) {
                return false;
            }
            i += 1;
        }
        proof {
            assert forall|p: Position| in_cube(p) implies middle_axes(
                (#[trigger] self@[p]).home(),
            ) == middle_axes(p) by {
                lemma_cell_of_position(p);
            }
        }
        true
    }

    /// The cubie at the `i`-th coordinate in walking order.
    fn cubie(&self, i: usize) -> (e: CubeElement)
        requires
            i < 27,
        ensures
            e == self@[cell(i as int)],
            in_cube(cell(i as int)),
    {
        self.cube_elements[i / 9][(i / 3) % 3][i % 3]
    }

    /// Whether no cubie occurs at two coordinates.
    fn no_cubie_twice(&self) -> (distinct: bool)
        ensures
            distinct <==> forall|p: Position, q: Position|
                in_cube(p) && in_cube(q) && #[trigger] self@[p] == #[trigger] self@[q] ==> p == q,
    {
        let mut i: usize = 0;
        while i < 27
            invariant
                i <= 27,
                forall|a: int, b: int|
                    0 <= a < i && 0 <= b < 27 && a != b ==> self@[#[trigger] cell(a)]
                        != self@[#[trigger] cell(b)],
            decreases 27 - i,
        {
            let mut j: usize = 0;
            while j < 27
                invariant
                    i < 27,
                    j <= 27,
                    forall|b: int|
                        0 <= b < j && b != i ==> self@[cell(i as int)] != self@[#[trigger] cell(b)],
                decreases 27 - j,
            {
                if i != j && self.cubie(i) == self.cubie(j) {
                    proof {
                        lemma_cell_is_one_to_one(i as int, j as int);
                    }
                    return false;
                }
                j += 1;
            }
            i += 1;
        }
        proof {
            lemma_distinct_cells(self@);
        }
        true
    }

    /// Whether every cubie occurs somewhere.
    fn every_cubie_present(&self) -> (complete: bool)
        ensures
            complete <==> forall|e: CubeElement| #[trigger] holds(self@, e),
    {
        let mut k: usize = 0;
        while k < ELEMENT_COUNT
            invariant
                k <= ELEMENT_COUNT,
                forall|n: int| 0 <= n < k ==> holds(self@, #[trigger] CubeElement::all()[n]),
            decreases ELEMENT_COUNT - k,
        {
            let wanted = CubeElement::from_index(k);
            let mut found = false;
            let mut i: usize = 0;
            while i < 27 && !found
                invariant
                    i <= 27,
                    found ==> holds(self@, wanted),
                    !found ==> forall|b: int| 0 <= b < i ==> self@[#[trigger] cell(b)] != wanted,
                decreases 27 - i + if found { 0int } else { 1 },
            {
                if self.cubie(i) == wanted {
                    found = true;
                } else {
                    i += 1;
                }
            }
            if !found {
                proof {
                    assert forall|p: Position| in_cube(p) implies #[trigger] self@[p] != wanted by {
                        lemma_cell_of_position(p);
                    }
                    assert(!holds(self@, wanted));
                }
                return false;
            }
            k += 1;
        }
        proof {
            lemma_solved_mapping_bijective();
            assert forall|e: CubeElement| #[trigger] holds(self@, e) by {
                assert(CubeElement::all().contains(e));
                let all = CubeElement::all();
                let n = choose|n: int| 0 <= n < all.len() && all[n] == e;
                assert(holds(self@, CubeElement::all()[n]));
            }
        }
        true
    }
}

/// A state whose cells differ pairwise along the walk holds no cubie at
/// two coordinates.
proof fn lemma_distinct_cells(s: CubeView)
    requires
        forall|a: int, b: int|
            0 <= a < 27 && 0 <= b < 27 && a != b ==> s[#[trigger] cell(a)] != s[#[trigger] cell(b)],
    ensures
        forall|p: Position, q: Position|
            in_cube(p) && in_cube(q) && #[trigger] s[p] == #[trigger] s[q] ==> p == q,
{
    assert forall|p: Position, q: Position|
        in_cube(p) && in_cube(q) && #[trigger] s[p] == #[trigger] s[q] implies p == q by {
        lemma_cell_of_position(p);
        lemma_cell_of_position(q);
        let a = 9 * p.0 + 3 * p.1 + p.2;
        let b = 9 * q.0 + 3 * q.1 + q.2;
        if a != b {
            assert(s[cell(a)] != s[cell(b)]);
        }
    }
}

/// Different indexes in walking order are different coordinates.
proof fn lemma_cell_is_one_to_one(a: int, b: int)
    requires
        0 <= a < 27,
        0 <= b < 27,
        a != b,
    ensures
        cell(a) != cell(b),
        in_cube(cell(a)),
        in_cube(cell(b)),
{
}

/// How many of the three coordinates are the middle one.
fn middle_count(x: usize, y: usize, z: usize) -> (count: usize)
    ensures
        count == middle_axes((x as int, y as int, z as int)),
{
    let mut count: usize = 0;
    if x == 1 {
        count += 1;
    }
    if y == 1 {
        count += 1;
    }
    if z == 1 {
        count += 1;
    }
    count
}

impl Actionable for CubeModel {
    fn apply_action(&mut self, action: Actions)
        ensures
            final(self)@ == turned(old(self)@, action),
    {
        match action {
            Actions::U => self.up_clockwise(),
            Actions::UC => self.up_counter_clockwise(),
            Actions::D => self.down_clockwise(),
            Actions::DC => self.down_counter_clockwise(),
            Actions::F => self.front_clockwise(),
            Actions::FC => self.front_counter_clockwise(),
            Actions::B => self.back_clockwise(),
            Actions::BC => self.back_counter_clockwise(),
            Actions::R => self.right_clockwise(),
            Actions::RC => self.right_counter_clockwise(),
            Actions::L => self.left_clockwise(),
            Actions::LC => self.left_counter_clockwise(),
        }
    }
}

} // verus!
