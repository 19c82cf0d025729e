use crate::board::{cell_at, classify_spec, empty_board, in_grid, Board};
use crate::message::{refuses, Response};
use crate::piece::{opponent, Piece};
use crate::state::GameState;
use vstd::prelude::*;

verus! {

pub open spec fn not_your_turn() -> Seq<char> {
    "Not your turn"@
}

pub open spec fn cell_occupied() -> Seq<char> {
    "Cell already occupied"@
}

pub open spec fn out_of_range() -> Seq<char> {
    "Cell out of range"@
}

/// The authoritative state of the one session: the board, the connection
/// handle held for each seated role, whose move it is, and which role opened
/// the current round. The board of a round in progress is never won or full.
pub struct Game<C> {
    board: Board,
    x: Option<C>,
    o: Option<C>,
    turn: Piece,
    started: Piece,
}

impl<C> Game<C> {
    pub closed spec fn cells(&self) -> Seq<Option<Piece>> {
        self.board@
    }

    /// The connection held for role `p`, if `p` is seated.
    pub closed spec fn seat(&self, p: Piece) -> Option<C> {
        match p {
            Piece::X => self.x,
            Piece::O => self.o,
        }
    }

    /// The role whose move it is.
    pub closed spec fn turn_of(&self) -> Piece {
        self.turn
    }

    /// The role that opened the current round.
    pub closed spec fn starter_of(&self) -> Piece {
        self.started
    }

    /// The board of a round in progress is neither won nor full.
    #[verifier::type_invariant]
    pub open spec fn wf(&self) -> bool {
        classify_spec(self.cells()) == GameState::Playing
    }

    pub open spec fn seats_kept(&self, other: &Game<C>) -> bool {
        self.seat(Piece::X) == other.seat(Piece::X) && self.seat(Piece::O) == other.seat(Piece::O)
    }

    /// A fresh session: empty board, nobody seated, X to open.
    pub fn new() -> (r: Game<C>)
        ensures
            r.wf(),
            r.cells() == empty_board(),
            r.seat(Piece::X) is None,
            r.seat(Piece::O) is None,
            r.turn_of() == Piece::X,
            r.starter_of() == Piece::X,
    {
        let g = Game { board: Board::new(), x: None, o: None, turn: Piece::X, started: Piece::X };
        assert(!crate::board::full(g.board@)) by {
            assert(g.board@[0] is None);
        }
        g
    }

    pub fn board(&self) -> (r: &Board)
        ensures
            r@ == self.cells(),
    {
        &self.board
    }

    pub fn turn(&self) -> (r: Piece)
        ensures
            r == self.turn_of(),
    {
        self.turn
    }

    pub fn started(&self) -> (r: Piece)
        ensures
            r == self.starter_of(),
    {
        self.started
    }

    /// The connection held for role `p`.
    pub fn player(&self, p: Piece) -> (r: Option<&C>)
        ensures
            r == match self.seat(p) {
                Some(c) => Some(&c),
                None => None,
            },
    {
        match p {
            Piece::X => self.x.as_ref(),
            Piece::O => self.o.as_ref(),
        }
    }

    pub fn is_seated(&self, p: Piece) -> (r: bool)
        ensures
            r == self.seat(p) is Some,
    {
        match p {
            Piece::X => self.x.is_some(),
            Piece::O => self.o.is_some(),
        }
    }

    /// How many roles are seated.
    pub fn count(&self) -> (r: usize)
        ensures
            r == (if self.seat(Piece::X) is Some { 1int } else { 0 }) + (if self.seat(
                Piece::O,
            ) is Some {
                1int
            } else {
                0
            }),
    {
        let mut n: usize = 0;
        if self.x.is_some() {
            n = n + 1;
        }
        if self.o.is_some() {
            n = n + 1;
        }
        n
    }

    /// Seats `conn` in the first free role, X before O. A full session seats
    /// nobody and changes nothing.
    pub fn assign_piece(&mut self, conn: C) -> (r: Option<Piece>)
        ensures
            old(self).seat(Piece::X) is Some && old(self).seat(Piece::O) is Some ==> r is None
                && *final(self) == *old(self),
            !(old(self).seat(Piece::X) is Some && old(self).seat(Piece::O) is Some) ==> {
                let p = if old(self).seat(Piece::X) is Some {
                    Piece::O
                } else {
                    Piece::X
                };
                &&& r == Some(p)
                &&& final(self).seat(p) == Some(conn)
                &&& final(self).seat(opponent(p)) == old(self).seat(opponent(p))
                &&& final(self).cells() == old(self).cells()
                &&& final(self).turn_of() == old(self).turn_of()
                &&& final(self).starter_of() == old(self).starter_of()
            },
            final(self).wf() == old(self).wf(),
    {
        proof {
            use_type_invariant(&*self);
        }
        if self.x.is_none() {
            self.x = Some(conn);
            Some(Piece::X)
        } else if self.o.is_none() {
            self.o = Some(conn);
            Some(Piece::O)
        } else {
            None
        }
    }

    /// Frees the seat of `piece`; freeing a free seat changes nothing.
    pub fn disconnect(&mut self, piece: Piece)
        ensures
            final(self).seat(piece) is None,
            final(self).seat(opponent(piece)) == old(self).seat(opponent(piece)),
            final(self).cells() == old(self).cells(),
            final(self).turn_of() == old(self).turn_of(),
            final(self).starter_of() == old(self).starter_of(),
    {
        proof {
            use_type_invariant(&*self);
        }
        match piece {
            Piece::X => {
                self.x = None;
            },
            Piece::O => {
                self.o = None;
            },
        }
    }

    /// Places `piece` at `idx` if it is that role's move and the cell is on
    /// the grid and empty. An accepted placement hands the move over; when it ends the
    /// round the board is cleared and the role that did not open this round
    /// opens the next.
    pub fn play(&mut self, piece: Piece, idx: (usize, usize)) -> (r: Response)
        ensures
            final(self).wf(),
            play_post(*old(self), *final(self), piece, idx, r),
    {
        proof {
            use_type_invariant(&*self);
        }
        if piece != self.turn {
            return Response::invalid("Not your turn");
        }
        if !(idx.0 < 3 && idx.1 < 3) {
            return Response::invalid("Cell out of range");
        }
        if self.board.get(idx).is_some() {
            return Response::invalid("Cell already occupied");
        }
        let mut board = self.board;
        board.set(idx, Some(piece));
        proof {
            lemma_placed_line(self.board@, cell_at(idx), piece);
        }
        let state = board.check_end(piece);
        if state.is_end() {
            board.clear();
            assert(!crate::board::full(board@)) by {
                assert(board@[0] is None);
            }
            self.board = board;
            self.turn = self.started.other();
            self.started = self.turn;
        } else {
            self.board = board;
            self.turn = self.turn.other();
        }
        Response::Valid { piece, idx, state }
    }
}

/// What a placement of `piece` at `idx` on `g` leaves (`h`) and answers (`r`).
pub open spec fn play_post<C>(g: Game<C>, h: Game<C>, piece: Piece, idx: (usize, usize), r: Response) -> bool {
    if g.turn_of() != piece {
        refuses(r, not_your_turn()) && h == g
    } else if !in_grid(idx) {
        refuses(r, out_of_range()) && h == g
    } else if g.cells()[cell_at(idx)] is Some {
        refuses(r, cell_occupied()) && h == g
    } else {
        let placed = g.cells().update(cell_at(idx), Some(piece));
        let state = classify_spec(placed);
        &&& r == (Response::Valid { piece, idx, state })
        &&& h.seats_kept(&g)
        &&& if state == GameState::Playing {
            &&& h.cells() == placed
            &&& h.turn_of() == opponent(piece)
            &&& h.starter_of() == g.starter_of()
        } else {
            &&& h.cells() == empty_board()
            &&& h.starter_of() == opponent(g.starter_of())
            &&& h.turn_of() == h.starter_of()
        }
    }
}

/// A placement by a role whose move it is not is refused as out of turn and
/// changes nothing.
pub proof fn lemma_out_of_turn<C>(g: Game<C>, h: Game<C>, piece: Piece, idx: (usize, usize), r: Response)
    requires
        play_post(g, h, piece, idx, r),
        piece != g.turn_of(),
    ensures
        refuses(r, not_your_turn()),
        h == g,
{
}

/// A placement off the grid is refused and changes nothing.
pub proof fn lemma_off_grid<C>(g: Game<C>, h: Game<C>, piece: Piece, idx: (usize, usize), r: Response)
    requires
        play_post(g, h, piece, idx, r),
        !in_grid(idx),
    ensures
        r is Invalid,
        h == g,
{
}

/// A placement on a cell that is not empty is refused and changes nothing.
pub proof fn lemma_occupied<C>(g: Game<C>, h: Game<C>, piece: Piece, idx: (usize, usize), r: Response)
    requires
        play_post(g, h, piece, idx, r),
        in_grid(idx),
        g.cells()[cell_at(idx)] is Some,
    ensures
        r is Invalid,
        h == g,
{
}

/// When a placement ends a round, the next round is opened by the role that
/// did not open this one, and that role has the move.
pub proof fn lemma_round_robin<C>(g: Game<C>, h: Game<C>, piece: Piece, idx: (usize, usize), r: Response)
    requires
        play_post(g, h, piece, idx, r),
        r matches Response::Valid { state, .. } && state != GameState::Playing,
    ensures
        h.starter_of() == opponent(g.starter_of()),
        h.turn_of() == h.starter_of(),
        h.cells() == empty_board(),
{
}

/// Two placements by the two roles on the same empty cell, served one after
/// the other under the session lock in either order: exactly one is
/// accepted. Served first, the refused one is out of turn; served second, it
/// finds the cell taken. Left out: the order in which the accepted placement
/// ends the round, which empties the board for the second.
pub proof fn lemma_race<C>(
    g0: Game<C>,
    g1: Game<C>,
    g2: Game<C>,
    first: Piece,
    idx: (usize, usize),
    r1: Response,
    r2: Response,
)
    requires
        g0.wf(),
        in_grid(idx),
        g0.cells()[cell_at(idx)] is None,
        first == g0.turn_of() ==> classify_spec(g0.cells().update(cell_at(idx), Some(first)))
            == GameState::Playing,
        play_post(g0, g1, first, idx, r1),
        play_post(g1, g2, opponent(first), idx, r2),
    ensures
        r1 is Valid <==> !(r2 is Valid),
        !(r1 is Valid) ==> refuses(r1, not_your_turn()),
        !(r2 is Valid) ==> refuses(r2, cell_occupied()),
{
}

/// On a board with no complete line, a line after one placement belongs to
/// the role that placed.
proof fn lemma_placed_line(b: Seq<Option<Piece>>, k: int, piece: Piece)
    requires
        b.len() == 9,
        0 <= k < 9,
        crate::board::first_line(b) is None,
    ensures
        crate::board::first_line(b.update(k, Some(piece))) is Some ==> crate::board::first_line(
            b.update(k, Some(piece)),
        ) == Some(piece),
{
}

impl<C> Default for Game<C> {
    fn default() -> (r: Game<C>)
        ensures
            r.wf(),
            r.cells() == empty_board(),
            r.seat(Piece::X) is None,
            r.seat(Piece::O) is None,
            r.turn_of() == Piece::X,
            r.starter_of() == Piece::X,
    {
        Game::new()
    }
}

} // verus!
