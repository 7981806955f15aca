//! The eight columns of the board.

use vstd::prelude::*;
use crate::error::Error;

verus! {

/// A column of the board, from `A` on the left to `H` on the right.
#[derive(PartialOrd, PartialEq, Eq, Copy, Clone, Debug, Hash, Structural)]
pub enum File {
    A,
    B,
    C,
    D,
    E,
    F,
    G,
    H,
}

pub const FILES_LEN: usize = 8;

/// All files in canonical order.
pub const FILES: [File; FILES_LEN] = [
    File::A,
    File::B,
    File::C,
    File::D,
    File::E,
    File::F,
    File::G,
    File::H,
];

impl File {
    /// Position in canonical order: `A` is 0, `H` is 7.
    pub open spec fn spec_to_index(self) -> nat {
        match self {
            File::A => 0,
            File::B => 1,
            File::C => 2,
            File::D => 3,
            File::E => 4,
            File::F => 5,
            File::G => 6,
            File::H => 7,
        }
    }

    /// The file at position `i` modulo 8, so that the index of a square
    /// selects the file of that square.
    pub open spec fn spec_from_index(i: nat) -> File {
        FILES[i as int % 8]
    }

    /// The file that the letter `c` denotes, in either case.
    pub open spec fn spec_from_char(c: char) -> Option<File> {
        match c {
            'a' | 'A' => Some(File::A),
            'b' | 'B' => Some(File::B),
            'c' | 'C' => Some(File::C),
            'd' | 'D' => Some(File::D),
            'e' | 'E' => Some(File::E),
            'f' | 'F' => Some(File::F),
            'g' | 'G' => Some(File::G),
            'h' | 'H' => Some(File::H),
            _ => None,
        }
    }

    /// The lower-case letter of this file.
    pub open spec fn spec_to_char(self) -> char {
        match self {
            File::A => 'a',
            File::B => 'b',
            File::C => 'c',
            File::D => 'd',
            File::E => 'e',
            File::F => 'f',
            File::G => 'g',
            File::H => 'h',
        }
    }

    /// The notation of this file: its lower-case letter.
    pub open spec fn spec_to_string(self) -> Seq<char> {
        seq![self.spec_to_char()]
    }

    /// The file that `s` denotes: the one of its first character. What
    /// follows the first character is not looked at.
    pub open spec fn spec_from_str(s: Seq<char>) -> Result<File, Error> {
        if s.len() == 0 {
            Err(Error::InvalidFile)
        } else {
            match File::spec_from_char(s[0]) {
                Some(f) => Ok(f),
                None => Err(Error::InvalidFile),
            }
        }
    }

    /// Returns the position of this file in [`FILES`].
    #[inline]
    pub fn to_index(&self) -> (i: usize)
        ensures
            i == self.spec_to_index(),
            i < FILES_LEN,
            FILES[i as int] == *self,
    {
        match *self {
            File::A => 0,
            File::B => 1,
            File::C => 2,
            File::D => 3,
            File::E => 4,
            File::F => 5,
            File::G => 6,
            File::H => 7,
        }
    }

    /// Returns the file selected by the low three bits of `i`.
    #[inline]
    pub fn from_index(i: usize) -> (f: File)
        ensures
            f == File::spec_from_index(i as nat),
            f.spec_to_index() == i & 7,
            f.spec_to_index() == i % 8,
    {
        assert(i & 7 == i % 8) by (bit_vector);
        FILES[i & 7]
    }

    /// Returns the file that the letter `c` denotes, if it is one of
    /// `a` to `h` in either case.
    pub fn from_char(c: char) -> (f: Option<File>)
        ensures
            f == File::spec_from_char(c),
    {
        match c {
            'a' | 'A' => Some(File::A),
            'b' | 'B' => Some(File::B),
            'c' | 'C' => Some(File::C),
            'd' | 'D' => Some(File::D),
            'e' | 'E' => Some(File::E),
            'f' | 'F' => Some(File::F),
            'g' | 'G' => Some(File::G),
            'h' | 'H' => Some(File::H),
            _ => None,
        }
    }

    /// Renders this file as its lower-case letter.
    pub fn to_string(&self) -> (s: String)
        ensures
            s@ == self.spec_to_string(),
            File::spec_from_str(s@) == Ok::<File, Error>(*self),
    {
        proof {
            reveal_strlit("a");
            reveal_strlit("b");
            reveal_strlit("c");
            reveal_strlit("d");
            reveal_strlit("e");
            reveal_strlit("f");
            reveal_strlit("g");
            reveal_strlit("h");
            File::lemma_from_str_to_string(*self);
        }
        let text = match *self {
            File::A => "a",
            File::B => "b",
            File::C => "c",
            File::D => "d",
            File::E => "e",
            File::F => "f",
            File::G => "g",
            File::H => "h",
        };
        text.to_owned()
    }

    /// The file at position `i` has position `i` modulo 8; below 8 that is
    /// `i` itself.
    pub proof fn lemma_to_index_from_index(i: nat)
        ensures
            File::spec_from_index(i).spec_to_index() == i % 8,
            i < 8 ==> File::spec_from_index(i).spec_to_index() == i,
    {
    }

    /// Every file has a position below 8 and is the one at that position.
    pub proof fn lemma_from_index_to_index(f: File)
        ensures
            f.spec_to_index() < 8,
            File::spec_from_index(f.spec_to_index()) == f,
    {
    }

    /// Positions that differ by a multiple of 8 select the same file.
    pub proof fn lemma_from_index_wraps(i: nat, k: nat)
        ensures
            File::spec_from_index(i + 8 * k) == File::spec_from_index(i),
    {
        assert((i + 8 * k) as int % 8 == i as int % 8) by (nonlinear_arith);
    }

    /// The letter of a file denotes that file.
    pub proof fn lemma_from_char_to_char(f: File)
        ensures
            File::spec_from_char(f.spec_to_char()) == Some(f),
    {
    }

    /// Reading the notation of a file gives that file back.
    pub proof fn lemma_from_str_to_string(f: File)
        ensures
            File::spec_from_str(f.spec_to_string()) == Ok::<File, Error>(f),
    {
        File::lemma_from_char_to_char(f);
    }
}

impl std::str::FromStr for File {
    type Err = Error;

    /// Reads the first character of `s` as a file letter, in either case.
    fn from_str(s: &str) -> (r: Result<File, Error>)
        ensures
            r == File::spec_from_str(s@),
            r is Ok <==> s@.len() > 0 && File::spec_from_char(s@[0]) is Some,
            r is Err ==> r == Err::<File, Error>(Error::InvalidFile),
    {
        broadcast use vstd::string::group_string_axioms;

        let mut chars = s.chars();
        match chars.next() {
            Some(c) => match File::from_char(c) {
                Some(f) => Ok(f),
                None => Err(Error::InvalidFile),
            },
            None => Err(Error::InvalidFile),
        }
    }
}

} // verus!
