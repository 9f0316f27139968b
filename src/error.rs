//! The ways a parse can fail.
use vstd::prelude::*;

verus! {

/// Why a parse stopped.
#[derive(Clone, Copy, Debug, PartialEq, Eq, Structural)]
pub enum ParseError {
    /// A read went past the end of the input.
    UnexpectedEnd,
    /// A decoder consumed neither its chunk's declared size nor exactly the
    /// rest of the enclosing span, or a header declared an impossible size.
    Structure,
    /// A compressed payload is not a valid zlib stream.
    Decompress,
    /// A localized string was read from a localized file.
    Unsupported,
}

} // verus!
