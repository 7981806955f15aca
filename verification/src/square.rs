//! The sixty-four squares of the board.

use vstd::prelude::*;
use crate::error::Error;
use crate::file::File;
use crate::rank::Rank;

verus! {

/// A square of the board, named by its file and its rank. The squares are
/// counted rank by rank from `A1`, the files of a rank from `A` to `H`.
#[derive(PartialOrd, PartialEq, Eq, Copy, Clone, Debug, Hash, Structural)]
pub enum Square {
    A1,
    B1,
    C1,
    D1,
    E1,
    F1,
    G1,
    H1,
    A2,
    B2,
    C2,
    D2,
    E2,
    F2,
    G2,
    H2,
    A3,
    B3,
    C3,
    D3,
    E3,
    F3,
    G3,
    H3,
    A4,
    B4,
    C4,
    D4,
    E4,
    F4,
    G4,
    H4,
    A5,
    B5,
    C5,
    D5,
    E5,
    F5,
    G5,
    H5,
    A6,
    B6,
    C6,
    D6,
    E6,
    F6,
    G6,
    H6,
    A7,
    B7,
    C7,
    D7,
    E7,
    F7,
    G7,
    H7,
    A8,
    B8,
    C8,
    D8,
    E8,
    F8,
    G8,
    H8,
}

pub const SQUARES_LEN: usize = 64;

/// All squares in canonical order.
pub const SQUARES: [Square; SQUARES_LEN] = [
    Square::A1,
    Square::B1,
    Square::C1,
    Square::D1,
    Square::E1,
    Square::F1,
    Square::G1,
    Square::H1,
    Square::A2,
    Square::B2,
    Square::C2,
    Square::D2,
    Square::E2,
    Square::F2,
    Square::G2,
    Square::H2,
    Square::A3,
    Square::B3,
    Square::C3,
    Square::D3,
    Square::E3,
    Square::F3,
    Square::G3,
    Square::H3,
    Square::A4,
    Square::B4,
    Square::C4,
    Square::D4,
    Square::E4,
    Square::F4,
    Square::G4,
    Square::H4,
    Square::A5,
    Square::B5,
    Square::C5,
    Square::D5,
    Square::E5,
    Square::F5,
    Square::G5,
    Square::H5,
    Square::A6,
    Square::B6,
    Square::C6,
    Square::D6,
    Square::E6,
    Square::F6,
    Square::G6,
    Square::H6,
    Square::A7,
    Square::B7,
    Square::C7,
    Square::D7,
    Square::E7,
    Square::F7,
    Square::G7,
    Square::H7,
    Square::A8,
    Square::B8,
    Square::C8,
    Square::D8,
    Square::E8,
    Square::F8,
    Square::G8,
    Square::H8,
];

impl Square {
    /// Position in canonical order: `A1` is 0, `B1` is 1, `A2` is 8, `H8`
    /// is 63.
    pub open spec fn spec_to_index(self) -> nat {
        match self {
            Square::A1 => 0,
            Square::B1 => 1,
            Square::C1 => 2,
            Square::D1 => 3,
            Square::E1 => 4,
            Square::F1 => 5,
            Square::G1 => 6,
            Square::H1 => 7,
            Square::A2 => 8,
            Square::B2 => 9,
            Square::C2 => 10,
            Square::D2 => 11,
            Square::E2 => 12,
            Square::F2 => 13,
            Square::G2 => 14,
            Square::H2 => 15,
            Square::A3 => 16,
            Square::B3 => 17,
            Square::C3 => 18,
            Square::D3 => 19,
            Square::E3 => 20,
            Square::F3 => 21,
            Square::G3 => 22,
            Square::H3 => 23,
            Square::A4 => 24,
            Square::B4 => 25,
            Square::C4 => 26,
            Square::D4 => 27,
            Square::E4 => 28,
            Square::F4 => 29,
            Square::G4 => 30,
            Square::H4 => 31,
            Square::A5 => 32,
            Square::B5 => 33,
            Square::C5 => 34,
            Square::D5 => 35,
            Square::E5 => 36,
            Square::F5 => 37,
            Square::G5 => 38,
            Square::H5 => 39,
            Square::A6 => 40,
            Square::B6 => 41,
            Square::C6 => 42,
            Square::D6 => 43,
            Square::E6 => 44,
            Square::F6 => 45,
            Square::G6 => 46,
            Square::H6 => 47,
            Square::A7 => 48,
            Square::B7 => 49,
            Square::C7 => 50,
            Square::D7 => 51,
            Square::E7 => 52,
            Square::F7 => 53,
            Square::G7 => 54,
            Square::H7 => 55,
            Square::A8 => 56,
            Square::B8 => 57,
            Square::C8 => 58,
            Square::D8 => 59,
            Square::E8 => 60,
            Square::F8 => 61,
            Square::G8 => 62,
            Square::H8 => 63,
        }
    }

    /// The square at position `i` modulo 64.
    pub open spec fn spec_from_index(i: nat) -> Square {
        SQUARES[i as int % 64]
    }

    /// The square on file `f` and rank `r`.
    pub open spec fn spec_from_file_rank(f: File, r: Rank) -> Square {
        Square::spec_from_index(r.spec_to_index() * 8 + f.spec_to_index())
    }

    /// The file of this square, selected by its position.
    pub open spec fn spec_file_of(self) -> File {
        File::spec_from_index(self.spec_to_index())
    }

    /// The rank of this square, selected by its position.
    pub open spec fn spec_rank_of(self) -> Rank {
        Rank::spec_from_index(self.spec_to_index())
    }

    /// The notation of this square: the letter of its file, then the digit
    /// of its rank.
    pub open spec fn spec_to_string(self) -> Seq<char> {
        self.spec_file_of().spec_to_string() + self.spec_rank_of().spec_to_string()
    }

    /// The square that `s` denotes: its first character names the file, its
    /// second the rank. What follows the second character is not looked at.
    pub open spec fn spec_from_str(s: Seq<char>) -> Result<Square, Error> {
        if s.len() < 2 {
            Err(Error::InvalidSquare)
        } else {
            match (File::spec_from_char(s[0]), Rank::spec_from_char(s[1])) {
                (Some(f), Some(r)) => Ok(Square::spec_from_file_rank(f, r)),
                _ => Err(Error::InvalidSquare),
            }
        }
    }

    /// Returns the position of this square in [`SQUARES`].
    #[inline]
    pub fn to_index(&self) -> (i: usize)
        ensures
            i == self.spec_to_index(),
            i < SQUARES_LEN,
            SQUARES[i as int] == *self,
    {
        match *self {
            Square::A1 => 0,
            Square::B1 => 1,
            Square::C1 => 2,
            Square::D1 => 3,
            Square::E1 => 4,
            Square::F1 => 5,
            Square::G1 => 6,
            Square::H1 => 7,
            Square::A2 => 8,
            Square::B2 => 9,
            Square::C2 => 10,
            Square::D2 => 11,
            Square::E2 => 12,
            Square::F2 => 13,
            Square::G2 => 14,
            Square::H2 => 15,
            Square::A3 => 16,
            Square::B3 => 17,
            Square::C3 => 18,
            Square::D3 => 19,
            Square::E3 => 20,
            Square::F3 => 21,
            Square::G3 => 22,
            Square::H3 => 23,
            Square::A4 => 24,
            Square::B4 => 25,
            Square::C4 => 26,
            Square::D4 => 27,
            Square::E4 => 28,
            Square::F4 => 29,
            Square::G4 => 30,
            Square::H4 => 31,
            Square::A5 => 32,
            Square::B5 => 33,
            Square::C5 => 34,
            Square::D5 => 35,
            Square::E5 => 36,
            Square::F5 => 37,
            Square::G5 => 38,
            Square::H5 => 39,
            Square::A6 => 40,
            Square::B6 => 41,
            Square::C6 => 42,
            Square::D6 => 43,
            Square::E6 => 44,
            Square::F6 => 45,
            Square::G6 => 46,
            Square::H6 => 47,
            Square::A7 => 48,
            Square::B7 => 49,
            Square::C7 => 50,
            Square::D7 => 51,
            Square::E7 => 52,
            Square::F7 => 53,
            Square::G7 => 54,
            Square::H7 => 55,
            Square::A8 => 56,
            Square::B8 => 57,
            Square::C8 => 58,
            Square::D8 => 59,
            Square::E8 => 60,
            Square::F8 => 61,
            Square::G8 => 62,
            Square::H8 => 63,
        }
    }

    /// Returns the square selected by the low six bits of `i`.
    #[inline]
    pub fn from_index(i: usize) -> (s: Square)
        ensures
            s == Square::spec_from_index(i as nat),
            s.spec_to_index() == i & 63,
            s.spec_to_index() == i % 64,
    {
        assert(i & 63 == i % 64) by (bit_vector);
        SQUARES[i & 63]
    }

    /// Returns the square on file `f` and rank `r`.
    #[inline]
    pub fn from_file_rank(f: File, r: Rank) -> (s: Square)
        ensures
            s == Square::spec_from_file_rank(f, r),
            s.spec_to_index() == r.spec_to_index() * 8 + f.spec_to_index(),
            s.spec_file_of() == f,
            s.spec_rank_of() == r,
    {
        SQUARES[r.to_index() * 8 + f.to_index()]
    }

    /// Returns the file of this square.
    #[inline]
    pub fn file_of(&self) -> (f: File)
        ensures
            f == self.spec_file_of(),
            f.spec_to_index() == self.spec_to_index() % 8,
    {
        File::from_index(self.to_index())
    }

    /// Returns the rank of this square.
    #[inline]
    pub fn rank_of(&self) -> (r: Rank)
        ensures
            r == self.spec_rank_of(),
            r.spec_to_index() == self.spec_to_index() / 8,
    {
        Rank::from_index(self.to_index())
    }

    /// Renders this square as the letter of its file and the digit of its
    /// rank.
    pub fn to_string(&self) -> (s: String)
        ensures
            s@ == self.spec_to_string(),
            Square::spec_from_str(s@) == Ok::<Square, Error>(*self),
    {
        proof {
            Square::lemma_from_str_to_string(*self);
        }
        let mut text = self.file_of().to_string();
        let rank = self.rank_of().to_string();
        text.append(rank.as_str());
        text
    }

    /// The square at position `i` has position `i` modulo 64; below 64 that
    /// is `i` itself.
    pub proof fn lemma_to_index_from_index(i: nat)
        ensures
            Square::spec_from_index(i).spec_to_index() == i % 64,
            i < 64 ==> Square::spec_from_index(i).spec_to_index() == i,
    {
    }

    /// Every square has a position below 64 and is the one at that
    /// position.
    pub proof fn lemma_from_index_to_index(s: Square)
        ensures
            s.spec_to_index() < 64,
            Square::spec_from_index(s.spec_to_index()) == s,
    {
    }

    /// Positions that differ by a multiple of 64 select the same square.
    pub proof fn lemma_from_index_wraps(i: nat, k: nat)
        ensures
            Square::spec_from_index(i + 64 * k) == Square::spec_from_index(i),
    {
        assert((i + 64 * k) as int % 64 == i as int % 64) by (nonlinear_arith);
    }

    /// The square selected by `i` lies on the file and on the rank that `i`
    /// selects: one index serves all three.
    pub proof fn lemma_file_rank_of_from_index(i: nat)
        ensures
            Square::spec_from_index(i).spec_file_of() == File::spec_from_index(i),
            Square::spec_from_index(i).spec_rank_of() == Rank::spec_from_index(i),
    {
    }

    /// The square on a file and a rank lies on that file and that rank.
    pub proof fn lemma_file_rank_of_from_file_rank(f: File, r: Rank)
        ensures
            Square::spec_from_file_rank(f, r).spec_file_of() == f,
            Square::spec_from_file_rank(f, r).spec_rank_of() == r,
    {
    }

    /// Every square is the one on its own file and its own rank.
    pub proof fn lemma_from_file_rank_of(s: Square)
        ensures
            Square::spec_from_file_rank(s.spec_file_of(), s.spec_rank_of()) == s,
    {
    }

    /// A text of two or more characters denotes a square exactly when its
    /// first character alone denotes a file and its second alone a rank;
    /// the square is then the one on that file and that rank.
    pub proof fn lemma_from_str_by_parts(s: Seq<char>)
        requires
            s.len() >= 2,
        ensures
            Square::spec_from_str(s) == match (
                File::spec_from_str(s.subrange(0, 1)),
                Rank::spec_from_str(s.subrange(1, 2)),
            ) {
                (Ok(f), Ok(r)) => Ok::<Square, Error>(Square::spec_from_file_rank(f, r)),
                _ => Err(Error::InvalidSquare),
            },
    {
    }

    /// Reading the notation of a square gives that square back.
    pub proof fn lemma_from_str_to_string(s: Square)
        ensures
            Square::spec_from_str(s.spec_to_string()) == Ok::<Square, Error>(s),
    {
        File::lemma_from_char_to_char(s.spec_file_of());
        Rank::lemma_from_char_to_char(s.spec_rank_of());
        Square::lemma_from_file_rank_of(s);
    }
}

impl std::str::FromStr for Square {
    type Err = Error;

    /// Reads the first character of `s` as a file letter and the second as
    /// a rank digit.
    fn from_str(s: &str) -> (r: Result<Square, Error>)
        ensures
            r == Square::spec_from_str(s@),
            r is Ok <==> s@.len() >= 2 && File::spec_from_char(s@[0]) is Some
                && Rank::spec_from_char(s@[1]) is Some,
            r is Err ==> r == Err::<Square, Error>(Error::InvalidSquare),
    {
        broadcast use vstd::string::group_string_axioms;

        let mut chars = s.chars();
        let first = chars.next();
        let second = chars.next();
        match (first, second) {
            (Some(c), Some(d)) => match (File::from_char(c), Rank::from_char(d)) {
                (Some(f), Some(r)) => Ok(Square::from_file_rank(f, r)),
                _ => Err(Error::InvalidSquare),
            },
            _ => Err(Error::InvalidSquare),
        }
    }
}

} // verus!
