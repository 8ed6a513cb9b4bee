//! The columns of the board.

use vstd::prelude::*;

verus! {

/// A file (column) on a chess board.
#[derive(PartialEq, Eq, PartialOrd, Ord, Clone, Copy, Debug, Structural)]
pub enum File {
    A,
    B,
    C,
    D,
    E,
    F,
    G,
    H,
}

impl File {
    /// The position of the file counted from the A-file, which is 0.
    pub open spec fn index(self) -> int {
        match self {
            File::A => 0,
            File::B => 1,
            File::C => 2,
            File::D => 3,
            File::E => 4,
            File::F => 5,
            File::G => 6,
            File::H => 7,
        }
    }

    /// The file at position `i`. Positions outside 0..=7 name no file, and
    /// nothing should be read into the value given for them.
    pub open spec fn of_index(i: int) -> File
        recommends
            0 <= i <= 7,
    {
        if i == 0 {
            File::A
        } else if i == 1 {
            File::B
        } else if i == 2 {
            File::C
        } else if i == 3 {
            File::D
        } else if i == 4 {
            File::E
        } else if i == 5 {
            File::F
        } else if i == 6 {
            File::G
        } else {
            File::H
        }
    }

    /// The file one step towards the H-file, absent on the H-file.
    pub open spec fn to_right(self) -> Option<File> {
        if self == File::H {
            None
        } else {
            Some(File::of_index(self.index() + 1))
        }
    }

    /// The file one step towards the A-file, absent on the A-file.
    pub open spec fn to_left(self) -> Option<File> {
        if self == File::A {
            None
        } else {
            Some(File::of_index(self.index() - 1))
        }
    }

    /// Converts an index to its corresponding file.
    ///
    /// An index greater than 7 names no file: the precondition rules it out,
    /// and code that is not verified and passes one anyway is stopped.
    pub fn from_index(index: u8) -> (r: File)
        requires
            index <= 7,
        ensures
            r == File::of_index(index as int),
            r.index() == index,
    {
        match index {
            0 => File::A,
            1 => File::B,
            2 => File::C,
            3 => File::D,
            4 => File::E,
            5 => File::F,
            6 => File::G,
            7 => File::H,
            _ => vstd::pervasive::unreached(),
        }
    }

    /// Converts a file to its index, from 0 for the A-file to 7 for the
    /// H-file.
    pub fn to_index(&self) -> (r: u8)
        ensures
            r == self.index(),
            r <= 7,
    {
        match self {
            File::A => 0,
            File::B => 1,
            File::C => 2,
            File::D => 3,
            File::E => 4,
            File::F => 5,
            File::G => 6,
            File::H => 7,
        }
    }

    /// Returns the file to the right of this one, or `None` on the H-file.
    pub fn right(&self) -> (r: Option<File>)
        ensures
            r == self.to_right(),
            r is None <==> *self == File::H,
            r matches Some(next) ==> next.index() == self.index() + 1,
    {
        match self {
            File::H => None,
            _ => Some(File::from_index(self.to_index() + 1)),
        }
    }

    /// Returns the file to the left of this one, or `None` on the A-file.
    pub fn left(&self) -> (r: Option<File>)
        ensures
            r == self.to_left(),
            r is None <==> *self == File::A,
            r matches Some(next) ==> next.index() == self.index() - 1,
    {
        match self {
            File::A => None,
            _ => Some(File::from_index(self.to_index() - 1)),
        }
    }

    /// Every index in 0..=7 names a file, and that file has this index.
    pub proof fn lemma_index_of_index(i: int)
        requires
            0 <= i <= 7,
        ensures
            File::of_index(i).index() == i,
    {
    }

    /// Every file is the one that its own index names.
    pub proof fn lemma_of_index_index(file: File)
        ensures
            0 <= file.index() <= 7,
            File::of_index(file.index()) == file,
    {
    }

    /// A step right adds one to the index and a step left takes one from it, and
    /// a step is absent exactly where the index has no room for it: at 7
    /// going right, at 0 going left.
    pub proof fn lemma_step_moves_index_by_one(file: File)
        ensures
            file.to_right() is None <==> file.index() == 7,
            file.to_left() is None <==> file.index() == 0,
            file.to_right() matches Some(next) ==> next.index() == file.index() + 1,
            file.to_left() matches Some(next) ==> next.index() == file.index() - 1,
    {
    }

    /// Two files with the same index are the same file.
    pub proof fn lemma_index_injective(a: File, b: File)
        requires
            a.index() == b.index(),
        ensures
            a == b,
    {
    }

    /// A step right followed by a step left, or a step left followed by a
    /// step right, leads back to the file it started from.
    pub proof fn lemma_right_left_inverse(file: File)
        ensures
            file.to_right() matches Some(next) ==> next.to_left() == Some(file),
            file.to_left() matches Some(next) ==> next.to_right() == Some(file),
    {
    }
}

} // verus!
