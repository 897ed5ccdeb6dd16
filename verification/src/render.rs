use vstd::prelude::*;
use crate::element::{cell, CubeElement};
use crate::model::{grid_view, CubeModel, CubeView};

verus! {

/// `String::push` of the standard library appends one character to the end
/// of the string and leaves the rest as it was.
pub assume_specification[ String::push ](text: &mut String, ch: char)
    ensures
        final(text)@ == old(text)@.push(ch),
;

/// How wide a cubie is printed.
pub const CELL_WIDTH: usize = 4;

/// The text without its dashes.
pub open spec fn without_dashes(text: Seq<char>) -> Seq<char>
    decreases text.len(),
{
    if text.len() == 0 {
        text
    } else if text.last() == '-' {
        without_dashes(text.drop_last())
    } else {
        without_dashes(text.drop_last()).push(text.last())
    }
}

/// The text with blanks added at its end until it is `width` long. A text
/// that is longer stays as it is.
pub open spec fn padded(text: Seq<char>, width: int) -> Seq<char>
    decreases width - text.len(),
{
    if text.len() >= width {
        text
    } else {
        padded(text.push(' '), width)
    }
}

/// How one cubie is printed: its name without the dashes, in a column four
/// wide.
pub open spec fn cell_text(e: CubeElement) -> Seq<char> {
    padded(without_dashes(e.label()), CELL_WIDTH as int)
}

/// The first `n` cubies in walking order as they are printed: three to a
/// line.
pub open spec fn rendered_cells(s: CubeView, n: int) -> Seq<char>
    decreases n,
{
    if n <= 0 {
        Seq::empty()
    } else {
        let line = rendered_cells(s, n - 1) + cell_text(s[cell(n - 1)]);
        if n % 3 == 0 {
            line.push('\n')
        } else {
            line
        }
    }
}

/// The printed form of a puzzle state: nine lines of three cubies, and an
/// empty line after them.
pub open spec fn rendered(s: CubeView) -> Seq<char> {
    rendered_cells(s, 27).push('\n')
}

/// Appends a cubie's name without its dashes, then blanks up to the
/// column's width.
fn push_cell(text: &mut String, element: CubeElement)
    ensures
        final(text)@ == old(text)@ + cell_text(element),
{
    let name = element.name();
    let length = name.unicode_len();
    let mut written: usize = 0;
    let mut i: usize = 0;
    while i < length
        invariant
            i <= length,
            length == name@.len(),
            written == without_dashes(name@.take(i as int)).len(),
            written <= i,
            text@ == old(text)@ + without_dashes(name@.take(i as int)),
        decreases length - i,
    {
        let ch = name.get_char(i);
        assert(name@.take(i + 1).drop_last() =~= name@.take(i as int));
        if ch != '-' {
            text.push(ch);
            written += 1;
        }
        i += 1;
    }
    assert(name@.take(i as int) =~= name@);
    let ghost mut column = without_dashes(name@);
    while written < CELL_WIDTH
        invariant
            written == column.len(),
            text@ == old(text)@ + column,
            padded(column, CELL_WIDTH as int) == cell_text(element),
        decreases CELL_WIDTH - written,
    {
        text.push(' ');
        written += 1;
        proof {
            column = column.push(' ');
        }
    }
}

impl CubeModel {
    /// The puzzle as text, one line for each row of three cubies.
    pub fn render(&self) -> (text: String)
        ensures
            text@ == rendered(self@),
    {
        let elements = self.cube_elements();
        let mut text = String::new();
        let mut i: usize = 0;
        while i < 27
            invariant
                i <= 27,
                grid_view(*elements) == self@,
                text@ == rendered_cells(self@, i as int),
            decreases 27 - i,
        {
            let (x, y, z) = (i / 9, (i / 3) % 3, i % 3);
            assert(cell(i as int) == (x as int, y as int, z as int));
            assert(grid_view(*elements)[(x as int, y as int, z as int)]
                == elements[x as int][y as int][z as int]);
            push_cell(&mut text, elements[x][y][z]);
            i += 1;
            if i % 3 == 0 {
                text.push('\n');
            }
        }
        text.push('\n');
        text
    }
}

} // verus!
