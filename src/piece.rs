use vstd::prelude::*;

verus! {

/// One of the two roles of a session.
#[derive(Debug, Clone, Copy, PartialEq, Eq, Structural, PartialOrd, Ord, Hash)]
pub enum Piece {
    X,
    O,
}

/// The role opposite to `p`.
pub open spec fn opponent(p: Piece) -> Piece {
    match p {
        Piece::X => Piece::O,
        Piece::O => Piece::X,
    }
}

/// The role that a token of text names, compared without regard to case.
pub open spec fn piece_of_text(t: Seq<char>) -> Option<Piece> {
    if t == seq!['x'] || t == seq!['X'] {
        Some(Piece::X)
    } else if t == seq!['o'] || t == seq!['O'] {
        Some(Piece::O)
    } else {
        None
    }
}

impl Piece {
    /// Hands the move to the other role.
    pub fn next(&mut self)
        ensures
            *final(self) == opponent(*old(self)),
    {
        *self = match *self {
            Piece::X => Piece::O,
            Piece::O => Piece::X,
        };
    }

    pub fn other(&self) -> (r: Piece)
        ensures
            r == opponent(*self),
    {
        match self {
            Piece::X => Piece::O,
            Piece::O => Piece::X,
        }
    }

    /// The one-letter name of the role.
    pub fn symbol(&self) -> (r: &'static str)
        ensures
            *self == Piece::X ==> r@ == "X"@,
            *self == Piece::O ==> r@ == "O"@,
    {
        match self {
            Piece::X => "X",
            Piece::O => "O",
        }
    }

    /// Reads a role from text: `x` or `o`, in either case, and nothing else.
    pub fn parse(s: &str) -> (r: Option<Piece>)
        ensures
            r == piece_of_text(s@),
    {
        if s.unicode_len() != 1 {
            return None;
        }
        let c = s.get_char(0);
        proof {
            assert(s@ == seq![c]);
        }
        if c == 'x' || c == 'X' {
            Some(Piece::X)
        } else if c == 'o' || c == 'O' {
            Some(Piece::O)
        } else {
            None
        }
    }
}

impl Default for Piece {
    fn default() -> (r: Piece)
        ensures
            r == Piece::X,
    {
        Piece::X
    }
}

impl std::str::FromStr for Piece {
    type Err = &'static str;

    fn from_str(s: &str) -> Result<Piece, &'static str> {
        match Piece::parse(s) {
            Some(p) => Ok(p),
            None => Err("Invalid Piece representation"),
        }
    }
}

} // verus!
