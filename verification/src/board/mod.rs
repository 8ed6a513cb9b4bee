//! The board as bitboards by piece and by color.

use crate::{Color, NUM_COLORS, NUM_PIECES};
use vstd::prelude::*;

pub use crate::position::{BitBoard, File, Rank, Square};

verus! {

/// Where the pieces stand, and who moves next.
///
/// Each bitboard holds the squares of one kind of piece, whatever its color,
/// or of one color, whatever the piece: a white knight's square is in the
/// knights' bitboard and in white's.
pub struct Board {
    /// The squares of each kind of piece, in the order of [`crate::Piece`].
    pub pieces_positions: [BitBoard; NUM_PIECES],
    /// The squares of each color's pieces, in the order of [`Color`].
    pub color_positions: [BitBoard; NUM_COLORS],
    /// The side that moves next.
    pub color_to_move: Color,
}

} // verus!
