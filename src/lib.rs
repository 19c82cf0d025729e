//! Session core of a two-player noughts-and-crosses server: the board and
//! its rules, the shared game state, the messages exchanged with peers, the
//! frame codec that carries them, and the decisions of a connection handler.

pub mod address;
pub mod board;
pub mod codec;
pub mod game;
pub mod handler;
pub mod message;
pub mod piece;
pub mod render;
pub mod state;
pub mod text;

pub use address::validate_address;
pub use board::Board;
pub use codec::{decode_payload, encode_frame, frame_len, length_header};
pub use game::Game;
pub use handler::{Delivery, Event, Reaction};
pub use message::{Request, Response};
pub use piece::Piece;
pub use render::{cell_mark, print_str, tint, Tint};
pub use state::GameState;
