use crate::board::Board;
use crate::piece::Piece;
use crate::state::GameState;
use vstd::prelude::*;

verus! {

/// What a peer asks of the server.
#[derive(Debug, Clone, Copy, PartialEq, Eq)]
pub enum Request {
    Disconnect,
    Play { idx: (usize, usize) },
}

/// What the server tells a peer.
#[derive(Debug, PartialEq, Eq)]
pub enum Response {
    /// A placement was accepted; `state` is the round's classification after it.
    Valid { piece: Piece, idx: (usize, usize), state: GameState },
    /// A request was refused, for the reason given.
    Invalid(String),
    /// The peer's seat, with the board as it stands.
    Init { board: Board, piece: Piece },
    /// The other peer has joined.
    Connect,
    /// The other peer has left.
    Disconnect,
}

/// `r` refuses a request for the reason `why`.
pub open spec fn refuses(r: Response, why: Seq<char>) -> bool {
    r matches Response::Invalid(m) && m@ == why
}

/// The short human-readable line that stands for a response.
pub open spec fn describe_spec(r: Response) -> Seq<char> {
    match r {
        Response::Valid { .. } => "Valid move"@,
        Response::Invalid(m) => "Invalid move: "@ + m@,
        Response::Init { .. } => "Init"@,
        Response::Connect => "The other player connected"@,
        Response::Disconnect => "The other player disconnected"@,
    }
}

impl Response {
    /// A refusal that carries `why`.
    pub fn invalid(why: &str) -> (r: Response)
        ensures
            refuses(r, why@),
    {
        Response::Invalid(String::from_str(why))
    }

    /// The short human-readable line that stands for this response.
    pub fn describe(&self) -> (r: String)
        ensures
            r@ == describe_spec(*self),
    {
        match self {
            Response::Valid { .. } => String::from_str("Valid move"),
            Response::Invalid(m) => {
                let mut s = String::from_str("Invalid move: ");
                s.append(m.as_str());
                s
            },
            Response::Init { .. } => String::from_str("Init"),
            Response::Connect => String::from_str("The other player connected"),
            Response::Disconnect => String::from_str("The other player disconnected"),
        }
    }
}

} // verus!
