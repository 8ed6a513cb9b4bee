//! The coordinates of a chess board and the bitboards that sets of its
//! squares are kept in.
//!
//! [`position`] holds the ranks, files and squares with the steps between
//! them, and the bitboard with its set algebra. [`board`] and
//! [`position::Position`] lay bitboards out by piece and by color.

use std::ops::Not;
use vstd::prelude::*;
use vstd::std_specs::ops::NotSpec;

pub mod board;
pub mod position;

verus! {

/// The number of different piece variants.
pub const NUM_PIECES: usize = 6;

/// The number of different colors.
pub const NUM_COLORS: usize = 2;

/// The color of a piece, and of the side that moves it.
#[derive(PartialEq, Eq, Debug, Clone, Copy, Structural)]
pub enum Color {
    Black,
    White,
}

/// A chess piece, without its color.
#[derive(PartialEq, Eq, PartialOrd, Ord, Debug, Clone, Copy, Structural)]
pub enum Piece {
    Pawn,
    Knight,
    Bishop,
    Rook,
    Queen,
    King,
}

impl vstd::std_specs::ops::NotSpecImpl for Color {
    open spec fn obeys_not_spec() -> bool {
        true
    }

    open spec fn not_req(self) -> bool {
        true
    }

    open spec fn not_spec(self) -> Self {
        match self {
            Color::Black => Color::White,
            Color::White => Color::Black,
        }
    }
}

impl Not for Color {
    type Output = Self;

    /// The other color.
    fn not(self) -> (r: Self)
        ensures
            r != self,
            r == Color::White <==> self == Color::Black,
    {
        match self {
            Color::Black => Color::White,
            Color::White => Color::Black,
        }
    }
}

impl Color {
    /// The other color is never the same color, and the other of the other
    /// color is the color itself.
    pub proof fn lemma_not_involution(color: Color)
        ensures
            color.not_spec() != color,
            color.not_spec().not_spec() == color,
    {
    }
}

} // verus!
