use vstd::prelude::*;

verus! {

/// Why a piece of puzzle text was rejected.
#[derive(Debug, Copy, Clone, Hash, Eq, PartialEq, Structural)]
pub enum ParseError {
    /// A character that names no facelet.
    InvalidFacelet,
    /// A token that names no move.
    InvalidMove,
    /// Cube text whose length is not exactly 24 characters.
    InvalidLength,
    /// Cube text that does not keep the reference corner in its home slots.
    InvalidAnchor,
}

} // verus!
