use vstd::prelude::*;

verus! {

/// Why a piece of notation could not be read.
#[derive(Clone, Copy, Debug, PartialEq, Eq, Structural)]
pub enum Error {
    /// The text is neither `"w"` nor `"b"`.
    InvalidColor,
    /// The text does not start with a file letter `a`-`h`.
    InvalidFile,
    /// The text does not start with a rank digit `1`-`8`.
    InvalidRank,
    /// The text does not start with a file letter followed by a rank digit.
    InvalidSquare,
}

} // verus!
