//! The coordinate types of the board, the bitboard, and a position made of
//! bitboards.

use crate::{Color, NUM_PIECES};
use vstd::prelude::*;

pub use self::bitboard::BitBoard;
pub use self::file::File;
pub use self::rank::Rank;
pub use self::square::Square;

mod bitboard;
mod file;
mod rank;
mod square;

verus! {

/// The pieces of both sides, and who moves next.
pub struct Position {
    /// The squares of each kind of white piece, in the order of
    /// [`crate::Piece`].
    pub white_pieces: [BitBoard; NUM_PIECES],
    /// The squares of each kind of black piece, in the same order.
    pub black_pieces: [BitBoard; NUM_PIECES],
    /// The side that moves next.
    pub side_to_move: Color,
}

} // verus!
