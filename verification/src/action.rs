use vstd::prelude::*;
use crate::element::Position;

verus! {

/// The twelve quarter turns: each outer layer, clockwise and (with a
/// trailing `C`) counter-clockwise.
#[derive(Debug, Clone, Copy, PartialEq, Eq, Hash, Structural)]
pub enum Actions {
    U,
    UC,
    D,
    DC,
    F,
    FC,
    B,
    BC,
    R,
    RC,
    L,
    LC,
}

/// A quarter turn of a 3x3 layer: the cell `(a, b)` receives what `(b, 2 - a)`
/// held.
pub open spec fn quarter(a: int, b: int) -> (int, int) {
    (b, 2 - a)
}

/// The quarter turn in the other direction: `(a, b)` receives what
/// `(2 - b, a)` held.
pub open spec fn quarter_back(a: int, b: int) -> (int, int) {
    (2 - b, a)
}

impl Actions {
    /// The coordinate whose cubie the turn carries to `p`. Cells outside the
    /// turned layer stay where they are.
    pub open spec fn source(self, p: Position) -> Position {
        match self {
            Actions::U => if p.1 == 2 {
                (quarter_back(p.0, p.2).0, 2, quarter_back(p.0, p.2).1)
            } else {
                p
            },
            Actions::UC => if p.1 == 2 {
                (quarter(p.0, p.2).0, 2, quarter(p.0, p.2).1)
            } else {
                p
            },
            Actions::D => if p.1 == 0 {
                (quarter(p.0, p.2).0, 0, quarter(p.0, p.2).1)
            } else {
                p
            },
            Actions::DC => if p.1 == 0 {
                (quarter_back(p.0, p.2).0, 0, quarter_back(p.0, p.2).1)
            } else {
                p
            },
            Actions::F => if p.2 == 0 {
                (quarter_back(p.0, p.1).0, quarter_back(p.0, p.1).1, 0)
            } else {
                p
            },
            Actions::FC => if p.2 == 0 {
                (quarter(p.0, p.1).0, quarter(p.0, p.1).1, 0)
            } else {
                p
            },
            Actions::B => if p.2 == 2 {
                (quarter(p.0, p.1).0, quarter(p.0, p.1).1, 2)
            } else {
                p
            },
            Actions::BC => if p.2 == 2 {
                (quarter_back(p.0, p.1).0, quarter_back(p.0, p.1).1, 2)
            } else {
                p
            },
            Actions::R => if p.0 == 2 {
                (2, quarter(p.1, p.2).0, quarter(p.1, p.2).1)
            } else {
                p
            },
            Actions::RC => if p.0 == 2 {
                (2, quarter_back(p.1, p.2).0, quarter_back(p.1, p.2).1)
            } else {
                p
            },
            Actions::L => if p.0 == 0 {
                (0, quarter_back(p.1, p.2).0, quarter_back(p.1, p.2).1)
            } else {
                p
            },
            Actions::LC => if p.0 == 0 {
                (0, quarter(p.1, p.2).0, quarter(p.1, p.2).1)
            } else {
                p
            },
        }
    }

    /// The same layer turned the other way.
    pub open spec fn opposite(self) -> Actions {
        match self {
            Actions::U => Actions::UC,
            Actions::UC => Actions::U,
            Actions::D => Actions::DC,
            Actions::DC => Actions::D,
            Actions::F => Actions::FC,
            Actions::FC => Actions::F,
            Actions::B => Actions::BC,
            Actions::BC => Actions::B,
            Actions::R => Actions::RC,
            Actions::RC => Actions::R,
            Actions::L => Actions::LC,
            Actions::LC => Actions::L,
        }
    }

    /// All twelve moves, in declaration order.
    pub open spec fn all() -> Seq<Actions> {
        seq![
            Actions::U,
            Actions::UC,
            Actions::D,
            Actions::DC,
            Actions::F,
            Actions::FC,
            Actions::B,
            Actions::BC,
            Actions::R,
            Actions::RC,
            Actions::L,
            Actions::LC,
        ]
    }

    /// The move that undoes this one.
    pub fn inverse(&self) -> (undo: Actions)
        ensures
            undo == self.opposite(),
    {
        match self {
            Actions::U => Actions::UC,
            Actions::UC => Actions::U,
            Actions::D => Actions::DC,
            Actions::DC => Actions::D,
            Actions::F => Actions::FC,
            Actions::FC => Actions::F,
            Actions::B => Actions::BC,
            Actions::BC => Actions::B,
            Actions::R => Actions::RC,
            Actions::RC => Actions::R,
            Actions::L => Actions::LC,
            Actions::LC => Actions::L,
        }
    }

    /// Every move once, in declaration order.
    pub fn every() -> (moves: Vec<Actions>)
        ensures
            moves@ == Actions::all(),
    {
        vec![
            Actions::U,
            Actions::UC,
            Actions::D,
            Actions::DC,
            Actions::F,
            Actions::FC,
            Actions::B,
            Actions::BC,
            Actions::R,
            Actions::RC,
            Actions::L,
            Actions::LC,
        ]
    }
}

/// A type whose state a move can be applied to.
pub trait Actionable {
    fn apply_action(&mut self, action: Actions);
}

} // verus!
