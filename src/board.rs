use crate::piece::{piece_of_text, Piece};
use crate::state::GameState;
use crate::text::{word_spans, words};
use vstd::prelude::*;

verus! {

/// A 3×3 grid of cells, row by row; a cell is empty or holds a role's marker.
#[derive(Clone, Copy, Debug, PartialEq, Eq)]
pub struct Board(pub [Option<Piece>; 9]);

impl View for Board {
    type V = Seq<Option<Piece>>;

    open spec fn view(&self) -> Seq<Option<Piece>> {
        self.0@
    }
}

/// Position in the row-by-row cell sequence of the cell at (row, col).
pub open spec fn cell_at(idx: (usize, usize)) -> int {
    3 * idx.0 + idx.1
}

pub open spec fn in_grid(idx: (usize, usize)) -> bool {
    idx.0 < 3 && idx.1 < 3
}

/// The role that holds all three cells x, y and z, if one does.
pub open spec fn line_owner(b: Seq<Option<Piece>>, x: int, y: int, z: int) -> Option<Piece> {
    if b[x] is Some && b[x] == b[y] && b[y] == b[z] {
        b[x]
    } else {
        None
    }
}

/// The owner of the first complete line, looking at row and column 0, row
/// and column 1, row and column 2, then the two diagonals.
pub open spec fn first_line(b: Seq<Option<Piece>>) -> Option<Piece> {
    if line_owner(b, 0, 1, 2) is Some {
        line_owner(b, 0, 1, 2)
    } else if line_owner(b, 0, 3, 6) is Some {
        line_owner(b, 0, 3, 6)
    } else if line_owner(b, 3, 4, 5) is Some {
        line_owner(b, 3, 4, 5)
    } else if line_owner(b, 1, 4, 7) is Some {
        line_owner(b, 1, 4, 7)
    } else if line_owner(b, 6, 7, 8) is Some {
        line_owner(b, 6, 7, 8)
    } else if line_owner(b, 2, 5, 8) is Some {
        line_owner(b, 2, 5, 8)
    } else if line_owner(b, 0, 4, 8) is Some {
        line_owner(b, 0, 4, 8)
    } else {
        line_owner(b, 2, 4, 6)
    }
}

pub open spec fn holds(b: Seq<Option<Piece>>, p: Piece, x: int, y: int, z: int) -> bool {
    b[x] == Some(p) && b[y] == Some(p) && b[z] == Some(p)
}

/// Role `p` holds a whole row, column or diagonal.
pub open spec fn has_line(b: Seq<Option<Piece>>, p: Piece) -> bool {
    ||| holds(b, p, 0, 1, 2)
    ||| holds(b, p, 3, 4, 5)
    ||| holds(b, p, 6, 7, 8)
    ||| holds(b, p, 0, 3, 6)
    ||| holds(b, p, 1, 4, 7)
    ||| holds(b, p, 2, 5, 8)
    ||| holds(b, p, 0, 4, 8)
    ||| holds(b, p, 2, 4, 6)
}

pub open spec fn full(b: Seq<Option<Piece>>) -> bool {
    forall|i: int| 0 <= i < 9 ==> #[trigger] b[i] is Some
}

pub open spec fn empty_board() -> Seq<Option<Piece>> {
    Seq::new(9, |i: int| None)
}

/// The round-end classification of a board.
pub open spec fn classify_spec(b: Seq<Option<Piece>>) -> GameState {
    match first_line(b) {
        Some(p) => GameState::Win(p),
        None => if full(b) {
            GameState::Stalemate
        } else {
            GameState::Playing
        },
    }
}

/// The board that a line of text describes: its first nine words, one per
/// cell, each naming a role or, failing that, leaving the cell empty.
pub open spec fn board_of_text(s: Seq<char>) -> Seq<Option<Piece>> {
    Seq::new(
        9,
        |k: int|
            if k < words(s).len() {
                piece_of_text(words(s)[k])
            } else {
                None
            },
    )
}

/// A board is won by `p` exactly when `p` holds a line, drawn exactly when it
/// is full with no line, and in play otherwise; the one board that this
/// cannot describe, where both roles hold a line, is left out.
pub proof fn lemma_classify_lines(b: Board)
    requires
        !(has_line(b@, Piece::X) && has_line(b@, Piece::O)),
    ensures
        forall|p: Piece| classify_spec(b@) == GameState::Win(p) <==> has_line(b@, p),
        classify_spec(b@) == GameState::Stalemate <==> full(b@) && !has_line(b@, Piece::X)
            && !has_line(b@, Piece::O),
        classify_spec(b@) == GameState::Playing <==> !full(b@) && !has_line(b@, Piece::X)
            && !has_line(b@, Piece::O),
{
}

impl Board {
    pub fn new() -> (r: Board)
        ensures
            r@ == empty_board(),
    {
        let r = Board([None, None, None, None, None, None, None, None, None]);
        assert(r@ =~= empty_board());
        r
    }

    pub fn is_full(&self) -> (r: bool)
        ensures
            r == full(self@),
    {
        let mut i: usize = 0;
        while i < 9
            invariant
                i <= 9,
                forall|k: int| 0 <= k < i ==> #[trigger] self@[k] is Some,
            decreases 9 - i,
        {
            if self.0[i].is_none() {
                return false;
            }
            i = i + 1;
        }
        true
    }

    pub fn data(&self) -> (r: &[Option<Piece>])
        ensures
            r@ == self@,
    {
        self.0.as_slice()
    }

    /// The marker at (row, col).
    pub fn get(&self, idx: (usize, usize)) -> (r: Option<Piece>)
        requires
            in_grid(idx),
        ensures
            r == self@[cell_at(idx)],
    {
        self.0[3 * idx.0 + idx.1]
    }

    /// Puts `v` at (row, col), leaving the other cells as they are.
    pub fn set(&mut self, idx: (usize, usize), v: Option<Piece>)
        requires
            in_grid(idx),
        ensures
            final(self)@ == old(self)@.update(cell_at(idx), v),
    {
        self.0[3 * idx.0 + idx.1] = v;
    }

    /// Empties every cell.
    pub fn clear(&mut self)
        ensures
            final(self)@ == empty_board(),
    {
        *self = Board::new();
    }

    fn line(&self, x: usize, y: usize, z: usize) -> (r: Option<Piece>)
        requires
            x < 9,
            y < 9,
            z < 9,
        ensures
            r == line_owner(self@, x as int, y as int, z as int),
    {
        match (self.0[x], self.0[y], self.0[z]) {
            (Some(a), Some(b), Some(c)) => {
                if a == b && b == c {
                    Some(a)
                } else {
                    None
                }
            },
            _ => None,
        }
    }

    fn first_line(&self) -> (r: Option<Piece>)
        ensures
            r == first_line(self@),
    {
        let mut i: usize = 0;
        while i < 3
            invariant
                i <= 3,
                i > 0 ==> line_owner(self@, 0, 1, 2) is None && line_owner(self@, 0, 3, 6) is None,
                i > 1 ==> line_owner(self@, 3, 4, 5) is None && line_owner(self@, 1, 4, 7) is None,
                i > 2 ==> line_owner(self@, 6, 7, 8) is None && line_owner(self@, 2, 5, 8) is None,
            decreases 3 - i,
        {
            let row = self.line(3 * i, 3 * i + 1, 3 * i + 2);
            if row.is_some() {
                return row;
            }
            let col = self.line(i, i + 3, i + 6);
            if col.is_some() {
                return col;
            }
            i = i + 1;
        }
        let diag = self.line(0, 4, 8);
        if diag.is_some() {
            return diag;
        }
        self.line(2, 4, 6)
    }

    /// The classification of this board after `piece` has moved; a win is
    /// credited to the role that holds the line.
    pub fn check_end(&self, piece: Piece) -> (r: GameState)
        ensures
            r == classify_spec(self@),
    {
        self.classify()
    }

    /// The classification of this board, with a win credited to the role
    /// that holds the line.
    pub fn classify(&self) -> (r: GameState)
        ensures
            r == classify_spec(self@),
    {
        match self.first_line() {
            Some(p) => GameState::Win(p),
            None => if self.is_full() {
                GameState::Stalemate
            } else {
                GameState::Playing
            },
        }
    }

    /// Reads a board from text: the first nine whitespace-separated words
    /// fill the cells row by row, a word other than `x` or `o` (in either
    /// case) and a missing word leaving the cell empty.
    pub fn parse(s: &str) -> (r: Board)
        ensures
            r@ == board_of_text(s@),
    {
        let spans = word_spans(s);
        let mut cells: [Option<Piece>; 9] = Board::new().0;
        let mut k: usize = 0;
        while k < 9 && k < spans.len()
            invariant
                spans@.len() == words(s@).len(),
                forall|j: int| 0 <= j < spans@.len() ==> (#[trigger] spans@[j]).0 <= spans@[j].1 <= s@.len(),
                forall|j: int|
                    0 <= j < spans@.len() ==> #[trigger] s@.subrange(
                        spans@[j].0 as int,
                        spans@[j].1 as int,
                    ) == words(s@)[j],
                k <= 9,
                k <= spans@.len(),
                forall|j: int| 0 <= j < k ==> cells@[j] == piece_of_text(words(s@)[j]),
                forall|j: int| k <= j < 9 ==> cells@[j] is None,
            decreases 9 - k,
        {
            let (a, b) = spans[k];
            assert(s@.subrange(a as int, b as int) == words(s@)[k as int]);
            let word = s.substring_char(a, b);
            cells[k] = Piece::parse(word);
            k = k + 1;
        }
        let r = Board(cells);
        assert(r@ == board_of_text(s@));
        r
    }
}

impl std::str::FromStr for Board {
    type Err = &'static str;

    fn from_str(s: &str) -> Result<Board, &'static str> {
        Ok(Board::parse(s))
    }
}

impl Default for Board {
    fn default() -> (r: Board)
        ensures
            r@ == empty_board(),
    {
        Board::new()
    }
}

} // verus!
