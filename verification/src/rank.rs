//! The eight rows of the board.

use vstd::prelude::*;
use crate::error::Error;

verus! {

/// A row of the board, from `One` at the bottom to `Eight` at the top.
#[derive(PartialOrd, PartialEq, Eq, Copy, Clone, Debug, Hash, Structural)]
pub enum Rank {
    One,
    Two,
    Three,
    Four,
    Five,
    Six,
    Seven,
    Eight,
}

pub const RANKS_LEN: usize = 8;

/// All ranks in canonical order.
pub const RANKS: [Rank; RANKS_LEN] = [
    Rank::One,
    Rank::Two,
    Rank::Three,
    Rank::Four,
    Rank::Five,
    Rank::Six,
    Rank::Seven,
    Rank::Eight,
];

impl Rank {
    /// Position in canonical order: `One` is 0, `Eight` is 7.
    pub open spec fn spec_to_index(self) -> nat {
        match self {
            Rank::One => 0,
            Rank::Two => 1,
            Rank::Three => 2,
            Rank::Four => 3,
            Rank::Five => 4,
            Rank::Six => 5,
            Rank::Seven => 6,
            Rank::Eight => 7,
        }
    }

    /// The rank at position `i / 8` modulo 8, so that the index of a square
    /// selects the rank of that square.
    pub open spec fn spec_from_index(i: nat) -> Rank {
        RANKS[(i as int / 8) % 8]
    }

    /// The rank that the digit `c` denotes.
    pub open spec fn spec_from_char(c: char) -> Option<Rank> {
        match c {
            '1' => Some(Rank::One),
            '2' => Some(Rank::Two),
            '3' => Some(Rank::Three),
            '4' => Some(Rank::Four),
            '5' => Some(Rank::Five),
            '6' => Some(Rank::Six),
            '7' => Some(Rank::Seven),
            '8' => Some(Rank::Eight),
            _ => None,
        }
    }

    /// The digit of this rank.
    pub open spec fn spec_to_char(self) -> char {
        match self {
            Rank::One => '1',
            Rank::Two => '2',
            Rank::Three => '3',
            Rank::Four => '4',
            Rank::Five => '5',
            Rank::Six => '6',
            Rank::Seven => '7',
            Rank::Eight => '8',
        }
    }

    /// The notation of this rank: its digit.
    pub open spec fn spec_to_string(self) -> Seq<char> {
        seq![self.spec_to_char()]
    }

    /// The rank that `s` denotes: the one of its first character. What
    /// follows the first character is not looked at.
    pub open spec fn spec_from_str(s: Seq<char>) -> Result<Rank, Error> {
        if s.len() == 0 {
            Err(Error::InvalidRank)
        } else {
            match Rank::spec_from_char(s[0]) {
                Some(r) => Ok(r),
                None => Err(Error::InvalidRank),
            }
        }
    }

    /// Returns the position of this rank in [`RANKS`].
    #[inline]
    pub fn to_index(&self) -> (i: usize)
        ensures
            i == self.spec_to_index(),
            i < RANKS_LEN,
            RANKS[i as int] == *self,
    {
        match *self {
            Rank::One => 0,
            Rank::Two => 1,
            Rank::Three => 2,
            Rank::Four => 3,
            Rank::Five => 4,
            Rank::Six => 5,
            Rank::Seven => 6,
            Rank::Eight => 7,
        }
    }

    /// Returns the rank selected by bits 3 to 5 of `i`.
    #[inline]
    pub fn from_index(i: usize) -> (r: Rank)
        ensures
            r == Rank::spec_from_index(i as nat),
            r.spec_to_index() == (i >> 3) & 7,
            r.spec_to_index() == (i / 8) % 8,
    {
        assert((i >> 3) & 7 == (i / 8) % 8) by (bit_vector);
        RANKS[(i >> 3) & 7]
    }

    /// Returns the rank that the digit `c` denotes, if it is one of `1` to
    /// `8`.
    pub fn from_char(c: char) -> (r: Option<Rank>)
        ensures
            r == Rank::spec_from_char(c),
    {
        match c {
            '1' => Some(Rank::One),
            '2' => Some(Rank::Two),
            '3' => Some(Rank::Three),
            '4' => Some(Rank::Four),
            '5' => Some(Rank::Five),
            '6' => Some(Rank::Six),
            '7' => Some(Rank::Seven),
            '8' => Some(Rank::Eight),
            _ => None,
        }
    }

    /// Renders this rank as its digit.
    pub fn to_string(&self) -> (s: String)
        ensures
            s@ == self.spec_to_string(),
            Rank::spec_from_str(s@) == Ok::<Rank, Error>(*self),
    {
        proof {
            reveal_strlit("1");
            reveal_strlit("2");
            reveal_strlit("3");
            reveal_strlit("4");
            reveal_strlit("5");
            reveal_strlit("6");
            reveal_strlit("7");
            reveal_strlit("8");
            Rank::lemma_from_str_to_string(*self);
        }
        let text = match *self {
            Rank::One => "1",
            Rank::Two => "2",
            Rank::Three => "3",
            Rank::Four => "4",
            Rank::Five => "5",
            Rank::Six => "6",
            Rank::Seven => "7",
            Rank::Eight => "8",
        };
        text.to_owned()
    }

    /// The rank selected by `i` has position `i / 8` modulo 8; below 64
    /// that is `i / 8` itself.
    pub proof fn lemma_to_index_from_index(i: nat)
        ensures
            Rank::spec_from_index(i).spec_to_index() == (i / 8) % 8,
            i < 64 ==> Rank::spec_from_index(i).spec_to_index() == i / 8,
    {
    }

    /// Every rank has a position below 8 and is the one selected by eight
    /// times that position, whatever is added to it below eight.
    pub proof fn lemma_from_index_to_index(r: Rank, low: nat)
        requires
            low < 8,
        ensures
            r.spec_to_index() < 8,
            Rank::spec_from_index(8 * r.spec_to_index() + low) == r,
    {
    }

    /// Positions that differ by a multiple of 64 select the same rank.
    pub proof fn lemma_from_index_wraps(i: nat, k: nat)
        ensures
            Rank::spec_from_index(i + 64 * k) == Rank::spec_from_index(i),
    {
        assert(((i + 64 * k) as int / 8) % 8 == (i as int / 8) % 8) by (nonlinear_arith);
    }

    /// The digit of a rank denotes that rank.
    pub proof fn lemma_from_char_to_char(r: Rank)
        ensures
            Rank::spec_from_char(r.spec_to_char()) == Some(r),
    {
    }

    /// Reading the notation of a rank gives that rank back.
    pub proof fn lemma_from_str_to_string(r: Rank)
        ensures
            Rank::spec_from_str(r.spec_to_string()) == Ok::<Rank, Error>(r),
    {
        Rank::lemma_from_char_to_char(r);
    }
}

impl std::str::FromStr for Rank {
    type Err = Error;

    /// Reads the first character of `s` as a rank digit.
    fn from_str(s: &str) -> (r: Result<Rank, Error>)
        ensures
            r == Rank::spec_from_str(s@),
            r is Ok <==> s@.len() > 0 && Rank::spec_from_char(s@[0]) is Some,
            r is Err ==> r == Err::<Rank, Error>(Error::InvalidRank),
    {
        broadcast use vstd::string::group_string_axioms;

        let mut chars = s.chars();
        match chars.next() {
            Some(c) => match Rank::from_char(c) {
                Some(r) => Ok(r),
                None => Err(Error::InvalidRank),
            },
            None => Err(Error::InvalidRank),
        }
    }
}

} // verus!
