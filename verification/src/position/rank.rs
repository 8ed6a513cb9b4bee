//! The rows of the board.

use vstd::prelude::*;

verus! {

/// A rank (row) on a chess board.
#[derive(PartialEq, Eq, PartialOrd, Ord, Clone, Copy, Debug, Structural)]
pub enum Rank {
    First,
    Second,
    Third,
    Fourth,
    Fifth,
    Sixth,
    Seventh,
    Eighth,
}

impl Rank {
    /// The position of the rank counted from the first rank, which is 0.
    pub open spec fn index(self) -> int {
        match self {
            Rank::First => 0,
            Rank::Second => 1,
            Rank::Third => 2,
            Rank::Fourth => 3,
            Rank::Fifth => 4,
            Rank::Sixth => 5,
            Rank::Seventh => 6,
            Rank::Eighth => 7,
        }
    }

    /// The rank at position `i`. Positions outside 0..=7 name no rank, and
    /// nothing should be read into the value given for them.
    pub open spec fn of_index(i: int) -> Rank
        recommends
            0 <= i <= 7,
    {
        if i == 0 {
            Rank::First
        } else if i == 1 {
            Rank::Second
        } else if i == 2 {
            Rank::Third
        } else if i == 3 {
            Rank::Fourth
        } else if i == 4 {
            Rank::Fifth
        } else if i == 5 {
            Rank::Sixth
        } else if i == 6 {
            Rank::Seventh
        } else {
            Rank::Eighth
        }
    }

    /// The rank one step towards the eighth rank, absent on the eighth.
    pub open spec fn above(self) -> Option<Rank> {
        if self == Rank::Eighth {
            None
        } else {
            Some(Rank::of_index(self.index() + 1))
        }
    }

    /// The rank one step towards the first rank, absent on the first.
    pub open spec fn below(self) -> Option<Rank> {
        if self == Rank::First {
            None
        } else {
            Some(Rank::of_index(self.index() - 1))
        }
    }

    /// Converts an integer value to the corresponding rank.
    ///
    /// An index greater than 7 names no rank: the precondition rules it out,
    /// and code that is not verified and passes one anyway is stopped.
    pub fn from_index(index: u8) -> (r: Rank)
        requires
            index <= 7,
        ensures
            r == Rank::of_index(index as int),
            r.index() == index,
    {
        match index {
            0 => Rank::First,
            1 => Rank::Second,
            2 => Rank::Third,
            3 => Rank::Fourth,
            4 => Rank::Fifth,
            5 => Rank::Sixth,
            6 => Rank::Seventh,
            7 => Rank::Eighth,
            _ => vstd::pervasive::unreached(),
        }
    }

    /// Converts the rank to its index, from 0 for the first rank to 7 for
    /// the eighth.
    pub fn to_index(&self) -> (r: u8)
        ensures
            r == self.index(),
            r <= 7,
    {
        match self {
            Rank::First => 0,
            Rank::Second => 1,
            Rank::Third => 2,
            Rank::Fourth => 3,
            Rank::Fifth => 4,
            Rank::Sixth => 5,
            Rank::Seventh => 6,
            Rank::Eighth => 7,
        }
    }

    /// Gets the rank above this one, or `None` on the eighth rank.
    pub fn up(&self) -> (r: Option<Rank>)
        ensures
            r == self.above(),
            r is None <==> *self == Rank::Eighth,
            r matches Some(next) ==> next.index() == self.index() + 1,
    {
        match self {
            Rank::Eighth => None,
            _ => Some(Rank::from_index(self.to_index() + 1)),
        }
    }

    /// Gets the rank below this one, or `None` on the first rank.
    pub fn down(&self) -> (r: Option<Rank>)
        ensures
            r == self.below(),
            r is None <==> *self == Rank::First,
            r matches Some(next) ==> next.index() == self.index() - 1,
    {
        match self {
            Rank::First => None,
            _ => Some(Rank::from_index(self.to_index() - 1)),
        }
    }

    /// Every index in 0..=7 names a rank, and that rank has this index.
    pub proof fn lemma_index_of_index(i: int)
        requires
            0 <= i <= 7,
        ensures
            Rank::of_index(i).index() == i,
    {
    }

    /// Every rank is the one that its own index names.
    pub proof fn lemma_of_index_index(rank: Rank)
        ensures
            0 <= rank.index() <= 7,
            Rank::of_index(rank.index()) == rank,
    {
    }

    /// A step up adds one to the index and a step down takes one from it, and
    /// a step is absent exactly where the index has no room for it: at 7
    /// going up, at 0 going down.
    pub proof fn lemma_step_moves_index_by_one(rank: Rank)
        ensures
            rank.above() is None <==> rank.index() == 7,
            rank.below() is None <==> rank.index() == 0,
            rank.above() matches Some(next) ==> next.index() == rank.index() + 1,
            rank.below() matches Some(next) ==> next.index() == rank.index() - 1,
    {
    }

    /// Two ranks with the same index are the same rank.
    pub proof fn lemma_index_injective(a: Rank, b: Rank)
        requires
            a.index() == b.index(),
        ensures
            a == b,
    {
    }

    /// A step up followed by a step down, or a step down followed by a step
    /// up, leads back to the rank it started from.
    pub proof fn lemma_up_down_inverse(rank: Rank)
        ensures
            rank.above() matches Some(next) ==> next.below() == Some(rank),
            rank.below() matches Some(next) ==> next.above() == Some(rank),
    {
    }
}

} // verus!
