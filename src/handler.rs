//! The decisions of a connection handler. The handler's loop reads a frame,
//! hands the event to the session under its lock, delivers what comes back,
//! and stops when told to; this module decides, the loop does the I/O.
use crate::game::{play_post, Game};
use crate::message::{refuses, Request, Response};
use crate::piece::{opponent, Piece};
use vstd::prelude::*;

verus! {

/// What a connection handler saw on its connection.
#[derive(Debug, Clone, Copy, PartialEq, Eq)]
pub enum Event {
    /// A well-formed request.
    Request(Request),
    /// A frame whose payload is not a request.
    Garbled,
    /// The connection failed or was closed by the peer.
    Lost,
}

/// One response for the peer seated as `to`.
#[derive(Debug, PartialEq, Eq)]
pub struct Delivery {
    pub to: Piece,
    pub response: Response,
}

/// What the handler must deliver, and whether its loop ends.
#[derive(Debug, PartialEq, Eq)]
pub struct Reaction {
    pub deliveries: Vec<Delivery>,
    pub done: bool,
}

pub open spec fn malformed() -> Seq<char> {
    "Malformed request"@
}

/// `d` is a single refusal, for `why`, sent to `to`.
pub open spec fn refusal_to(d: Seq<Delivery>, to: Piece, why: Seq<char>) -> bool {
    d.len() == 1 && d[0].to == to && refuses(d[0].response, why)
}

/// `r` sent to every seated role, X first.
pub open spec fn to_seated<C>(g: Game<C>, r: Response) -> Seq<Delivery> {
    (if g.seat(Piece::X) is Some {
        seq![Delivery { to: Piece::X, response: r }]
    } else {
        Seq::empty()
    }) + (if g.seat(Piece::O) is Some {
        seq![Delivery { to: Piece::O, response: r }]
    } else {
        Seq::empty()
    })
}

/// `r` sent to the opponent of `p` if that role is seated.
pub open spec fn to_opponent<C>(g: Game<C>, p: Piece, r: Response) -> Seq<Delivery> {
    if g.seat(opponent(p)) is Some {
        seq![Delivery { to: opponent(p), response: r }]
    } else {
        Seq::empty()
    }
}

/// What `piece` leaving `g` leaves behind.
pub open spec fn left<C>(g: Game<C>, h: Game<C>, piece: Piece) -> bool {
    &&& h.seat(piece) is None
    &&& h.seat(opponent(piece)) == g.seat(opponent(piece))
    &&& h.cells() == g.cells()
    &&& h.turn_of() == g.turn_of()
    &&& h.starter_of() == g.starter_of()
}

impl<C> Game<C> {
    /// What a peer that has just been seated as `piece` causes: the other
    /// peer, if seated, hears of it, and the newcomer gets its role and the
    /// board.
    pub fn on_join(&self, piece: Piece) -> (r: Vec<Delivery>)
        ensures
            r@.len() == to_opponent(*self, piece, Response::Connect).len() + 1,
            r@.drop_last() == to_opponent(*self, piece, Response::Connect),
            r@.last().to == piece,
            r@.last().response matches Response::Init { board, piece: p } && board@ == self.cells()
                && p == piece,
    {
        let mut out: Vec<Delivery> = Vec::new();
        if self.is_seated(piece.other()) {
            out.push(Delivery { to: piece.other(), response: Response::Connect });
        }
        out.push(Delivery { to: piece, response: Response::Init { board: *self.board(), piece } });
        assert(out@.drop_last() == to_opponent(*self, piece, Response::Connect));
        out
    }

    /// Applies what the handler of the peer seated as `piece` saw.
    /// A payload that is not a request is refused to the sender alone and
    /// changes nothing. A placement is played: if accepted every seated peer
    /// hears it, if refused only the sender. A request to leave, or a lost connection, frees the
    /// seat, tells the other peer, and ends the loop.
    pub fn on_event(&mut self, piece: Piece, event: Event) -> (r: Reaction)
        ensures
            final(self).wf(),
            match event {
                Event::Request(Request::Play { idx }) => {
                    &&& !r.done
                    &&& exists|res: Response|
                        {
                            &&& #[trigger] play_post(*old(self), *final(self), piece, idx, res)
                            &&& res is Valid ==> r.deliveries@ == to_seated(*final(self), res)
                            &&& res matches Response::Invalid(m) ==> refusal_to(
                                r.deliveries@,
                                piece,
                                m@,
                            )
                        }
                },
                Event::Garbled => {
                    &&& !r.done
                    &&& *final(self) == *old(self)
                    &&& refusal_to(r.deliveries@, piece, malformed())
                },
                _ => {
                    &&& r.done
                    &&& left(*old(self), *final(self), piece)
                    &&& r.deliveries@ == to_opponent(*final(self), piece, Response::Disconnect)
                },
            },
    {
        proof {
            use_type_invariant(&*self);
        }
        match event {
            Event::Request(Request::Play { idx }) => {
                let ghost before = *self;
                let res = self.play(piece, idx);
                let ghost answer = res;
                let mut out: Vec<Delivery> = Vec::new();
                match res {
                    Response::Valid { piece: p, idx: i, state } => {
                        if self.is_seated(Piece::X) {
                            out.push(
                                Delivery {
                                    to: Piece::X,
                                    response: Response::Valid { piece: p, idx: i, state },
                                },
                            );
                        }
                        if self.is_seated(Piece::O) {
                            out.push(
                                Delivery {
                                    to: Piece::O,
                                    response: Response::Valid { piece: p, idx: i, state },
                                },
                            );
                        }
                        assert(out@ == to_seated(*self, Response::Valid { piece: p, idx: i, state }));
                    },
                    other => {
                        out.push(Delivery { to: piece, response: other });
                    },
                }
                assert(play_post(before, *self, piece, idx, answer));
                Reaction { deliveries: out, done: false }
            },
            Event::Garbled => {
                let mut out: Vec<Delivery> = Vec::new();
                out.push(Delivery { to: piece, response: Response::invalid("Malformed request") });
                Reaction { deliveries: out, done: false }
            },
            _ => {
                self.disconnect(piece);
                let mut out: Vec<Delivery> = Vec::new();
                if self.is_seated(piece.other()) {
                    out.push(Delivery { to: piece.other(), response: Response::Disconnect });
                }
                assert(out@ == to_opponent(*self, piece, Response::Disconnect));
                Reaction { deliveries: out, done: true }
            },
        }
    }
}

} // verus!
