//! Plain-text pictures of a board.
use crate::board::{cell_at, in_grid, Board};
use crate::piece::Piece;
use vstd::prelude::*;

verus! {

/// The character shown for a cell: the role's letter, or a space.
pub open spec fn glyph(c: Option<Piece>) -> Seq<char> {
    match c {
        Some(Piece::X) => "X"@,
        Some(Piece::O) => "O"@,
        None => " "@,
    }
}

/// Row `i` of a board as a grid line: cells padded by spaces and parted by bars.
pub open spec fn grid_row(b: Seq<Option<Piece>>, i: int) -> Seq<char> {
    " "@ + glyph(b[3 * i]) + " "@ + "|"@ + " "@ + glyph(b[3 * i + 1]) + " "@ + "|"@ + " "@ + glyph(
        b[3 * i + 2],
    ) + " "@
}

pub open spec fn rule_line() -> Seq<char> {
    " - + - + - "@
}

/// The board as a grid of three lines parted by rules, ending in a newline.
pub open spec fn grid_spec(b: Seq<Option<Piece>>) -> Seq<char> {
    grid_row(b, 0) + "\n"@ + rule_line() + "\n"@ + grid_row(b, 1) + "\n"@ + rule_line() + "\n"@
        + grid_row(b, 2) + "\n"@
}

/// The board as a grid, with `msg` to the right of the middle row.
pub open spec fn framed_spec(b: Seq<Option<Piece>>, msg: Seq<char>) -> Seq<char> {
    grid_row(b, 0) + "\n"@ + rule_line() + "\n"@ + grid_row(b, 1) + "   "@ + msg + "\n"@
        + rule_line() + "\n"@ + grid_row(b, 2) + "\n"@
}

/// The colour in which a terminal shows a mark.
#[derive(Debug, Clone, Copy, PartialEq, Eq, Structural)]
pub enum Tint {
    White,
    Red,
    Blue,
    Yellow,
}

/// The colour of a role: red for X, blue for O.
pub open spec fn tint_spec(p: Piece) -> Tint {
    match p {
        Piece::X => Tint::Red,
        Piece::O => Tint::Blue,
    }
}

/// How a terminal shows a cell. The cell under the cursor is white, and
/// shows `_` when empty; another cell shows its role's letter in the role's
/// colour, or a yellow space.
pub open spec fn mark_spec(c: Option<Piece>, under_cursor: bool) -> (Seq<char>, Tint) {
    if under_cursor {
        (
            match c {
                Some(_) => glyph(c),
                None => "_"@,
            },
            Tint::White,
        )
    } else {
        match c {
            Some(p) => (glyph(c), tint_spec(p)),
            None => (" "@, Tint::Yellow),
        }
    }
}

pub fn tint(p: Piece) -> (r: Tint)
    ensures
        r == tint_spec(p),
{
    match p {
        Piece::X => Tint::Red,
        Piece::O => Tint::Blue,
    }
}

/// How a terminal shows the cell at `idx` when the cursor is at `cursor`.
pub fn cell_mark(board: &Board, idx: (usize, usize), cursor: (usize, usize)) -> (r: (
    &'static str,
    Tint,
))
    requires
        in_grid(idx),
    ensures
        (r.0@, r.1) == mark_spec(board@[cell_at(idx)], idx == cursor),
{
    let c = board.get(idx);
    if idx.0 == cursor.0 && idx.1 == cursor.1 {
        match c {
            Some(p) => (p.symbol(), Tint::White),
            None => ("_", Tint::White),
        }
    } else {
        match c {
            Some(p) => (p.symbol(), tint(p)),
            None => (" ", Tint::Yellow),
        }
    }
}

fn glyph_of(c: Option<Piece>) -> (r: &'static str)
    ensures
        r@ == glyph(c),
{
    match c {
        Some(p) => p.symbol(),
        None => " ",
    }
}

fn row_text(board: &Board, i: usize) -> (r: String)
    requires
        i < 3,
    ensures
        r@ == grid_row(board@, i as int),
{
    let mut s = String::from_str(" ");
    s.append(glyph_of(board.get((i, 0))));
    s.append(" ");
    s.append("|");
    s.append(" ");
    s.append(glyph_of(board.get((i, 1))));
    s.append(" ");
    s.append("|");
    s.append(" ");
    s.append(glyph_of(board.get((i, 2))));
    s.append(" ");
    s
}

/// The board as a grid, with `msg` to the right of the middle row.
pub fn print_str(board: &Board, msg: &str) -> (r: String)
    ensures
        r@ == framed_spec(board@, msg@),
{
    let mut s = row_text(board, 0);
    s.append("\n");
    s.append(" - + - + - ");
    s.append("\n");
    s.append(row_text(board, 1).as_str());
    s.append("   ");
    s.append(msg);
    s.append("\n");
    s.append(" - + - + - ");
    s.append("\n");
    s.append(row_text(board, 2).as_str());
    s.append("\n");
    s
}

impl Board {
    /// The board as a grid of three lines parted by rules.
    pub fn render(&self) -> (r: String)
        ensures
            r@ == grid_spec(self@),
    {
        let mut s = row_text(self, 0);
        s.append("\n");
        s.append(" - + - + - ");
        s.append("\n");
        s.append(row_text(self, 1).as_str());
        s.append("\n");
        s.append(" - + - + - ");
        s.append("\n");
        s.append(row_text(self, 2).as_str());
        s.append("\n");
        s
    }
}

} // verus!
