//! A bitboard model of a chess position: six piece-type planes and two
//! color planes over the 64 squares, with an ASCII rendering of the board.
pub mod bits;
pub mod position;
pub mod render;

pub use bits::{has_bit, popcount};
pub use position::{Bitboard, Color, Piece, Position};
pub use render::{glyph, piece_char};
