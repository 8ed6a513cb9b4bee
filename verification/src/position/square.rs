//! The cells of the board.

use crate::position::{File, Rank};
use vstd::prelude::*;

verus! {

/// A square on the chess board.
///
/// The squares are listed rank by rank from A1, so that a square's place in
/// the list is its index: A1 has 0, B1 has 1, and so on up to H8 with 63.
/// Eight times the index of the rank plus the index of the file gives the
/// index of the square.
#[derive(PartialEq, Eq, PartialOrd, Ord, Debug, Clone, Copy, Structural)]
pub enum Square {
    A1,
    B1,
    C1,
    D1,
    E1,
    F1,
    G1,
    H1,
    A2,
    B2,
    C2,
    D2,
    E2,
    F2,
    G2,
    H2,
    A3,
    B3,
    C3,
    D3,
    E3,
    F3,
    G3,
    H3,
    A4,
    B4,
    C4,
    D4,
    E4,
    F4,
    G4,
    H4,
    A5,
    B5,
    C5,
    D5,
    E5,
    F5,
    G5,
    H5,
    A6,
    B6,
    C6,
    D6,
    E6,
    F6,
    G6,
    H6,
    A7,
    B7,
    C7,
    D7,
    E7,
    F7,
    G7,
    H7,
    A8,
    B8,
    C8,
    D8,
    E8,
    F8,
    G8,
    H8,
}

impl Square {
    /// The index of the square, from 0 for A1 to 63 for H8.
    pub open spec fn index(self) -> int {
        match self {
            Square::A1 => 0,
            Square::B1 => 1,
            Square::C1 => 2,
            Square::D1 => 3,
            Square::E1 => 4,
            Square::F1 => 5,
            Square::G1 => 6,
            Square::H1 => 7,
            Square::A2 => 8,
            Square::B2 => 9,
            Square::C2 => 10,
            Square::D2 => 11,
            Square::E2 => 12,
            Square::F2 => 13,
            Square::G2 => 14,
            Square::H2 => 15,
            Square::A3 => 16,
            Square::B3 => 17,
            Square::C3 => 18,
            Square::D3 => 19,
            Square::E3 => 20,
            Square::F3 => 21,
            Square::G3 => 22,
            Square::H3 => 23,
            Square::A4 => 24,
            Square::B4 => 25,
            Square::C4 => 26,
            Square::D4 => 27,
            Square::E4 => 28,
            Square::F4 => 29,
            Square::G4 => 30,
            Square::H4 => 31,
            Square::A5 => 32,
            Square::B5 => 33,
            Square::C5 => 34,
            Square::D5 => 35,
            Square::E5 => 36,
            Square::F5 => 37,
            Square::G5 => 38,
            Square::H5 => 39,
            Square::A6 => 40,
            Square::B6 => 41,
            Square::C6 => 42,
            Square::D6 => 43,
            Square::E6 => 44,
            Square::F6 => 45,
            Square::G6 => 46,
            Square::H6 => 47,
            Square::A7 => 48,
            Square::B7 => 49,
            Square::C7 => 50,
            Square::D7 => 51,
            Square::E7 => 52,
            Square::F7 => 53,
            Square::G7 => 54,
            Square::H7 => 55,
            Square::A8 => 56,
            Square::B8 => 57,
            Square::C8 => 58,
            Square::D8 => 59,
            Square::E8 => 60,
            Square::F8 => 61,
            Square::G8 => 62,
            Square::H8 => 63,
        }
    }

    /// The square with index `i`. Indices outside 0..=63 name no square, and
    /// nothing should be read into the value given for them.
    pub open spec fn of_index(i: int) -> Square
        recommends
            0 <= i <= 63,
    {
        if i == 0 {
            Square::A1
        } else if i == 1 {
            Square::B1
        } else if i == 2 {
            Square::C1
        } else if i == 3 {
            Square::D1
        } else if i == 4 {
            Square::E1
        } else if i == 5 {
            Square::F1
        } else if i == 6 {
            Square::G1
        } else if i == 7 {
            Square::H1
        } else if i == 8 {
            Square::A2
        } else if i == 9 {
            Square::B2
        } else if i == 10 {
            Square::C2
        } else if i == 11 {
            Square::D2
        } else if i == 12 {
            Square::E2
        } else if i == 13 {
            Square::F2
        } else if i == 14 {
            Square::G2
        } else if i == 15 {
            Square::H2
        } else if i == 16 {
            Square::A3
        } else if i == 17 {
            Square::B3
        } else if i == 18 {
            Square::C3
        } else if i == 19 {
            Square::D3
        } else if i == 20 {
            Square::E3
        } else if i == 21 {
            Square::F3
        } else if i == 22 {
            Square::G3
        } else if i == 23 {
            Square::H3
        } else if i == 24 {
            Square::A4
        } else if i == 25 {
            Square::B4
        } else if i == 26 {
            Square::C4
        } else if i == 27 {
            Square::D4
        } else if i == 28 {
            Square::E4
        } else if i == 29 {
            Square::F4
        } else if i == 30 {
            Square::G4
        } else if i == 31 {
            Square::H4
        } else if i == 32 {
            Square::A5
        } else if i == 33 {
            Square::B5
        } else if i == 34 {
            Square::C5
        } else if i == 35 {
            Square::D5
        } else if i == 36 {
            Square::E5
        } else if i == 37 {
            Square::F5
        } else if i == 38 {
            Square::G5
        } else if i == 39 {
            Square::H5
        } else if i == 40 {
            Square::A6
        } else if i == 41 {
            Square::B6
        } else if i == 42 {
            Square::C6
        } else if i == 43 {
            Square::D6
        } else if i == 44 {
            Square::E6
        } else if i == 45 {
            Square::F6
        } else if i == 46 {
            Square::G6
        } else if i == 47 {
            Square::H6
        } else if i == 48 {
            Square::A7
        } else if i == 49 {
            Square::B7
        } else if i == 50 {
            Square::C7
        } else if i == 51 {
            Square::D7
        } else if i == 52 {
            Square::E7
        } else if i == 53 {
            Square::F7
        } else if i == 54 {
            Square::G7
        } else if i == 55 {
            Square::H7
        } else if i == 56 {
            Square::A8
        } else if i == 57 {
            Square::B8
        } else if i == 58 {
            Square::C8
        } else if i == 59 {
            Square::D8
        } else if i == 60 {
            Square::E8
        } else if i == 61 {
            Square::F8
        } else if i == 62 {
            Square::G8
        } else {
            Square::H8
        }
    }

    /// The rank that the square lies on.
    pub open spec fn rank(self) -> Rank {
        Rank::of_index(self.index() / 8)
    }

    /// The file that the square lies on.
    pub open spec fn file(self) -> File {
        File::of_index(self.index() % 8)
    }

    /// The square where `rank` and `file` cross.
    pub open spec fn at(rank: Rank, file: File) -> Square {
        Square::of_index(rank.index() * 8 + file.index())
    }

    /// The square one rank up on the same file, absent on the eighth rank.
    pub open spec fn above(self) -> Option<Square> {
        match self.rank().above() {
            Some(rank) => Some(Square::at(rank, self.file())),
            None => None,
        }
    }

    /// The square one rank down on the same file, absent on the first rank.
    pub open spec fn below(self) -> Option<Square> {
        match self.rank().below() {
            Some(rank) => Some(Square::at(rank, self.file())),
            None => None,
        }
    }

    /// The square one file to the right on the same rank, absent on the
    /// H-file.
    pub open spec fn to_right(self) -> Option<Square> {
        match self.file().to_right() {
            Some(file) => Some(Square::at(self.rank(), file)),
            None => None,
        }
    }

    /// The square one file to the left on the same rank, absent on the
    /// A-file.
    pub open spec fn to_left(self) -> Option<Square> {
        match self.file().to_left() {
            Some(file) => Some(Square::at(self.rank(), file)),
            None => None,
        }
    }

    /// Creates the square with the given index.
    ///
    /// An index greater than 63 names no square: the precondition rules it
    /// out, and code that is not verified and passes one anyway is stopped.
    pub fn new(square: u8) -> (r: Square)
        requires
            square <= 63,
        ensures
            r == Square::of_index(square as int),
            r.index() == square,
    {
        match square {
            0 => Square::A1,
            1 => Square::B1,
            2 => Square::C1,
            3 => Square::D1,
            4 => Square::E1,
            5 => Square::F1,
            6 => Square::G1,
            7 => Square::H1,
            8 => Square::A2,
            9 => Square::B2,
            10 => Square::C2,
            11 => Square::D2,
            12 => Square::E2,
            13 => Square::F2,
            14 => Square::G2,
            15 => Square::H2,
            16 => Square::A3,
            17 => Square::B3,
            18 => Square::C3,
            19 => Square::D3,
            20 => Square::E3,
            21 => Square::F3,
            22 => Square::G3,
            23 => Square::H3,
            24 => Square::A4,
            25 => Square::B4,
            26 => Square::C4,
            27 => Square::D4,
            28 => Square::E4,
            29 => Square::F4,
            30 => Square::G4,
            31 => Square::H4,
            32 => Square::A5,
            33 => Square::B5,
            34 => Square::C5,
            35 => Square::D5,
            36 => Square::E5,
            37 => Square::F5,
            38 => Square::G5,
            39 => Square::H5,
            40 => Square::A6,
            41 => Square::B6,
            42 => Square::C6,
            43 => Square::D6,
            44 => Square::E6,
            45 => Square::F6,
            46 => Square::G6,
            47 => Square::H6,
            48 => Square::A7,
            49 => Square::B7,
            50 => Square::C7,
            51 => Square::D7,
            52 => Square::E7,
            53 => Square::F7,
            54 => Square::G7,
            55 => Square::H7,
            56 => Square::A8,
            57 => Square::B8,
            58 => Square::C8,
            59 => Square::D8,
            60 => Square::E8,
            61 => Square::F8,
            62 => Square::G8,
            63 => Square::H8,
            _ => vstd::pervasive::unreached(),
        }
    }

    /// Converts the square to its index.
    pub fn to_index(&self) -> (r: u8)
        ensures
            r == self.index(),
            r <= 63,
    {
        match self {
            Square::A1 => 0,
            Square::B1 => 1,
            Square::C1 => 2,
            Square::D1 => 3,
            Square::E1 => 4,
            Square::F1 => 5,
            Square::G1 => 6,
            Square::H1 => 7,
            Square::A2 => 8,
            Square::B2 => 9,
            Square::C2 => 10,
            Square::D2 => 11,
            Square::E2 => 12,
            Square::F2 => 13,
            Square::G2 => 14,
            Square::H2 => 15,
            Square::A3 => 16,
            Square::B3 => 17,
            Square::C3 => 18,
            Square::D3 => 19,
            Square::E3 => 20,
            Square::F3 => 21,
            Square::G3 => 22,
            Square::H3 => 23,
            Square::A4 => 24,
            Square::B4 => 25,
            Square::C4 => 26,
            Square::D4 => 27,
            Square::E4 => 28,
            Square::F4 => 29,
            Square::G4 => 30,
            Square::H4 => 31,
            Square::A5 => 32,
            Square::B5 => 33,
            Square::C5 => 34,
            Square::D5 => 35,
            Square::E5 => 36,
            Square::F5 => 37,
            Square::G5 => 38,
            Square::H5 => 39,
            Square::A6 => 40,
            Square::B6 => 41,
            Square::C6 => 42,
            Square::D6 => 43,
            Square::E6 => 44,
            Square::F6 => 45,
            Square::G6 => 46,
            Square::H6 => 47,
            Square::A7 => 48,
            Square::B7 => 49,
            Square::C7 => 50,
            Square::D7 => 51,
            Square::E7 => 52,
            Square::F7 => 53,
            Square::G7 => 54,
            Square::H7 => 55,
            Square::A8 => 56,
            Square::B8 => 57,
            Square::C8 => 58,
            Square::D8 => 59,
            Square::E8 => 60,
            Square::F8 => 61,
            Square::G8 => 62,
            Square::H8 => 63,
        }
    }
    /// Creates the square where a rank and a file cross.
    pub fn from_intersection(rank: Rank, file: File) -> (r: Square)
        ensures
            r == Square::at(rank, file),
            r.index() == rank.index() * 8 + file.index(),
            r.rank() == rank,
            r.file() == file,
    {
        let rank_index: u8 = rank.to_index();
        let file_index: u8 = file.to_index();
        assert(rank_index << 3 == rank_index * 8) by (bit_vector)
            requires
                rank_index <= 7,
        ;
        Square::new((rank_index << 3) + file_index)
    }

    /// Returns the rank of the square.
    pub fn get_rank(&self) -> (r: Rank)
        ensures
            r == self.rank(),
    {
        let index: u8 = self.to_index();
        assert(index >> 3 == index / 8) by (bit_vector);
        Rank::from_index(index >> 3)
    }

    /// Returns the file of the square.
    pub fn get_file(&self) -> (r: File)
        ensures
            r == self.file(),
    {
        let index: u8 = self.to_index();
        assert(index & 7 == index % 8) by (bit_vector);
        File::from_index(index & 7)
    }

    /// Returns the rank and the file of the square.
    pub fn get_rank_and_file(&self) -> (r: (Rank, File))
        ensures
            r == (self.rank(), self.file()),
    {
        (self.get_rank(), self.get_file())
    }

    /// Gets the square above this one, or `None` on the eighth rank.
    pub fn up(&self) -> (r: Option<Square>)
        ensures
            r == self.above(),
            r is None <==> self.rank() == Rank::Eighth,
            r matches Some(next) ==> next.index() == self.index() + 8 && next.file()
                == self.file() && Some(next.rank()) == self.rank().above(),
    {
        if self.get_rank() == Rank::Eighth {
            None
        } else {
            Some(Square::from_intersection(self.get_rank().up().unwrap(), self.get_file()))
        }
    }

    /// Gets the square below this one, or `None` on the first rank.
    pub fn down(&self) -> (r: Option<Square>)
        ensures
            r == self.below(),
            r is None <==> self.rank() == Rank::First,
            r matches Some(next) ==> next.index() == self.index() - 8 && next.file()
                == self.file() && Some(next.rank()) == self.rank().below(),
    {
        if self.get_rank() == Rank::First {
            None
        } else {
            Some(Square::from_intersection(self.get_rank().down().unwrap(), self.get_file()))
        }
    }

    /// Gets the square to the right of this one, or `None` on the H-file.
    pub fn right(&self) -> (r: Option<Square>)
        ensures
            r == self.to_right(),
            r is None <==> self.file() == File::H,
            r matches Some(next) ==> next.index() == self.index() + 1 && next.rank()
                == self.rank() && Some(next.file()) == self.file().to_right(),
    {
        if self.get_file() == File::H {
            None
        } else {
            Some(Square::from_intersection(self.get_rank(), self.get_file().right().unwrap()))
        }
    }

    /// Gets the square to the left of this one, or `None` on the A-file.
    pub fn left(&self) -> (r: Option<Square>)
        ensures
            r == self.to_left(),
            r is None <==> self.file() == File::A,
            r matches Some(next) ==> next.index() == self.index() - 1 && next.rank()
                == self.rank() && Some(next.file()) == self.file().to_left(),
    {
        if self.get_file() == File::A {
            None
        } else {
            Some(Square::from_intersection(self.get_rank(), self.get_file().left().unwrap()))
        }
    }

    /// Every index in 0..=63 names a square, and that square has this index.
    pub proof fn lemma_index_of_index(i: int)
        requires
            0 <= i <= 63,
        ensures
            Square::of_index(i).index() == i,
    {
    }

    /// Every square is the one that its own index names, and that index lies
    /// in 0..=63.
    pub proof fn lemma_of_index_index(square: Square)
        ensures
            0 <= square.index() <= 63,
            Square::of_index(square.index()) == square,
    {
    }

    /// Two squares with the same index are the same square.
    pub proof fn lemma_index_injective(a: Square, b: Square)
        requires
            a.index() == b.index(),
        ensures
            a == b,
    {
    }

    /// Taking a square apart into rank and file and crossing the two again
    /// gives the square back.
    pub proof fn lemma_rank_file_round_trip(square: Square)
        ensures
            Square::at(square.rank(), square.file()) == square,
            square.index() == square.rank().index() * 8 + square.file().index(),
    {
    }

    /// The square where a rank and a file cross lies on that rank and on that
    /// file, and its index is eight times the rank's plus the file's.
    pub proof fn lemma_at_rank_file(rank: Rank, file: File)
        ensures
            Square::at(rank, file).rank() == rank,
            Square::at(rank, file).file() == file,
            Square::at(rank, file).index() == rank.index() * 8 + file.index(),
    {
    }

    /// In the six bits of a square's index the upper three hold the rank and
    /// the lower three hold the file.
    pub proof fn lemma_index_bit_layout(square: Square)
        ensures
            (square.index() as u8) >> 3 == square.rank().index(),
            (square.index() as u8) & 7 == square.file().index(),
            ((square.rank().index() as u8) << 3) | (square.file().index() as u8)
                == square.index(),
    {
        let index = square.index() as u8;
        let high = square.rank().index() as u8;
        let low = square.file().index() as u8;
        Square::lemma_rank_file_round_trip(square);
        assert(index == high * 8 + low);
        assert(index >> 3 == high && index & 7 == low && (high << 3) | low == index)
            by (bit_vector)
            requires
                high <= 7,
                low <= 7,
                index == high * 8 + low,
        ;
    }

    /// A step sideways never leaves the rank, and a step up or down never
    /// leaves the file: no step wraps round an edge of the board.
    pub proof fn lemma_steps_stay_in_line(square: Square)
        ensures
            square.to_right() matches Some(next) ==> next.rank() == square.rank()
                && next.index() == square.index() + 1,
            square.to_left() matches Some(next) ==> next.rank() == square.rank()
                && next.index() == square.index() - 1,
            square.above() matches Some(next) ==> next.file() == square.file()
                && next.index() == square.index() + 8,
            square.below() matches Some(next) ==> next.file() == square.file()
                && next.index() == square.index() - 8,
    {
        let rank = square.rank();
        let file = square.file();
        Square::lemma_rank_file_round_trip(square);
        match file.to_right() {
            Some(next) => Square::lemma_at_rank_file(rank, next),
            None => {},
        }
        match file.to_left() {
            Some(next) => Square::lemma_at_rank_file(rank, next),
            None => {},
        }
        match rank.above() {
            Some(next) => Square::lemma_at_rank_file(next, file),
            None => {},
        }
        match rank.below() {
            Some(next) => Square::lemma_at_rank_file(next, file),
            None => {},
        }
    }

    /// A step is absent exactly on the edge that it would cross.
    pub proof fn lemma_steps_absent_on_edges(square: Square)
        ensures
            square.to_right() is None <==> square.file() == File::H,
            square.to_left() is None <==> square.file() == File::A,
            square.above() is None <==> square.rank() == Rank::Eighth,
            square.below() is None <==> square.rank() == Rank::First,
    {
    }

    /// A step and the step in the opposite direction lead back to the square
    /// they started from.
    pub proof fn lemma_opposite_steps_inverse(square: Square)
        ensures
            square.above() matches Some(next) ==> next.below() == Some(square),
            square.below() matches Some(next) ==> next.above() == Some(square),
            square.to_right() matches Some(next) ==> next.to_left() == Some(square),
            square.to_left() matches Some(next) ==> next.to_right() == Some(square),
    {
        let rank = square.rank();
        let file = square.file();
        Square::lemma_rank_file_round_trip(square);
        match square.above() {
            Some(next) => {
                let mid = rank.above().unwrap();
                Square::lemma_at_rank_file(mid, file);
                assert(next.rank() == mid);
                assert(next.file() == file);
                assert(mid.below() == Some(rank));
                assert(next.below() == Some(Square::at(rank, file)));
            },
            None => {},
        }
        match square.below() {
            Some(next) => {
                let mid = rank.below().unwrap();
                Square::lemma_at_rank_file(mid, file);
                assert(next.rank() == mid);
                assert(next.file() == file);
                assert(mid.above() == Some(rank));
                assert(next.above() == Some(Square::at(rank, file)));
            },
            None => {},
        }
        match square.to_right() {
            Some(next) => {
                let mid = file.to_right().unwrap();
                Square::lemma_at_rank_file(rank, mid);
                assert(next.rank() == rank);
                assert(next.file() == mid);
                assert(mid.to_left() == Some(file));
                assert(next.to_left() == Some(Square::at(rank, file)));
            },
            None => {},
        }
        match square.to_left() {
            Some(next) => {
                let mid = file.to_left().unwrap();
                Square::lemma_at_rank_file(rank, mid);
                assert(next.rank() == rank);
                assert(next.file() == mid);
                assert(mid.to_right() == Some(file));
                assert(next.to_right() == Some(Square::at(rank, file)));
            },
            None => {},
        }
    }
}

} // verus!
