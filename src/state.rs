use crate::piece::Piece;
use vstd::prelude::*;

verus! {

/// Where a round stands after a placement.
#[derive(Debug, Clone, Copy, PartialEq, Eq, Structural)]
pub enum GameState {
    Playing,
    Win(Piece),
    Stalemate,
}

impl GameState {
    /// Whether the round is over: won, or drawn.
    pub fn is_end(&self) -> (r: bool)
        ensures
            r == (*self is Win || *self is Stalemate),
    {
        match self {
            GameState::Playing => false,
            GameState::Win(_) => true,
            GameState::Stalemate => true,
        }
    }
}

} // verus!
