//! The two sides of the board.

use vstd::prelude::*;
use crate::error::Error;

verus! {

/// One of the two sides.
#[derive(PartialOrd, PartialEq, Eq, Copy, Clone, Debug, Hash, Structural)]
pub enum Color {
    White,
    Black,
}

pub const COLORS_LEN: usize = 2;

/// Both colors in canonical order.
pub const COLORS: [Color; COLORS_LEN] = [Color::White, Color::Black];

impl Color {
    /// Position in canonical order: white is 0, black is 1.
    pub open spec fn spec_index(self) -> nat {
        match self {
            Color::White => 0,
            Color::Black => 1,
        }
    }

    /// The other side.
    pub open spec fn spec_flip(self) -> Color {
        match self {
            Color::White => Color::Black,
            Color::Black => Color::White,
        }
    }

    /// The way this side moves up the board: +1 for white, -1 for black.
    pub open spec fn spec_direction(self) -> int {
        match self {
            Color::White => 1,
            Color::Black => -1,
        }
    }

    /// The notation of this color: `w` or `b`.
    pub open spec fn spec_to_string(self) -> Seq<char> {
        match self {
            Color::White => seq!['w'],
            Color::Black => seq!['b'],
        }
    }

    /// The color that `s` denotes. Only the one-letter texts `w` and `b`
    /// denote one.
    pub open spec fn spec_from_str(s: Seq<char>) -> Result<Color, Error> {
        if s.len() == 1 && s[0] == 'w' {
            Ok(Color::White)
        } else if s.len() == 1 && s[0] == 'b' {
            Ok(Color::Black)
        } else {
            Err(Error::InvalidColor)
        }
    }

    /// Returns the position of this color in [`COLORS`].
    #[inline]
    pub fn index(&self) -> (i: usize)
        ensures
            i == self.spec_index(),
            i < COLORS_LEN,
            COLORS[i as int] == *self,
    {
        match *self {
            Color::White => 0,
            Color::Black => 1,
        }
    }

    /// Returns the other color.
    #[inline]
    pub fn flip(&self) -> (c: Color)
        ensures
            c == self.spec_flip(),
            c != *self,
    {
        match *self {
            Color::White => Color::Black,
            Color::Black => Color::White,
        }
    }

    /// Returns +1 for white and -1 for black.
    #[inline]
    pub fn direction(&self) -> (d: i32)
        ensures
            d == self.spec_direction(),
    {
        match *self {
            Color::White => 1,
            Color::Black => -1,
        }
    }

    /// Renders this color as `w` or `b`.
    pub fn to_string(&self) -> (s: String)
        ensures
            s@ == self.spec_to_string(),
            Color::spec_from_str(s@) == Ok::<Color, Error>(*self),
    {
        proof {
            reveal_strlit("w");
            reveal_strlit("b");
            Color::lemma_from_str_to_string(*self);
        }
        let text = match *self {
            Color::White => "w",
            Color::Black => "b",
        };
        text.to_owned()
    }

    /// Flipping a color gives the other one, and flipping twice gives the
    /// color back.
    pub proof fn lemma_flip_involution(c: Color)
        ensures
            c.spec_flip() != c,
            c.spec_flip().spec_flip() == c,
    {
    }

    /// Flipping a color reverses its direction.
    pub proof fn lemma_flip_reverses_direction(c: Color)
        ensures
            c.spec_flip().spec_direction() == -c.spec_direction(),
    {
    }

    /// Reading the notation of a color gives that color back.
    pub proof fn lemma_from_str_to_string(c: Color)
        ensures
            Color::spec_from_str(c.spec_to_string()) == Ok::<Color, Error>(c),
    {
    }
}

impl std::str::FromStr for Color {
    type Err = Error;

    /// Reads `w` as white and `b` as black; any other text is not a color.
    fn from_str(s: &str) -> (r: Result<Color, Error>)
        ensures
            r == Color::spec_from_str(s@),
            r is Ok <==> s@.len() == 1 && (s@[0] == 'w' || s@[0] == 'b'),
            r is Err ==> r == Err::<Color, Error>(Error::InvalidColor),
    {
        broadcast use vstd::string::group_string_axioms;

        let mut chars = s.chars();
        let first = chars.next();
        let second = chars.next();
        match (first, second) {
            (Some('w'), None) => Ok(Color::White),
            (Some('b'), None) => Ok(Color::Black),
            _ => Err(Error::InvalidColor),
        }
    }
}

} // verus!
