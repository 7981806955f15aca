//! Coordinate primitives of an eight by eight board: colors, files, ranks and squares.

pub mod color;
pub mod error;
pub mod file;
pub mod rank;
pub mod square;

pub use crate::color::{Color, COLORS, COLORS_LEN};
pub use crate::error::Error;
pub use crate::file::{File, FILES, FILES_LEN};
pub use crate::rank::{Rank, RANKS, RANKS_LEN};
pub use crate::square::{Square, SQUARES, SQUARES_LEN};
