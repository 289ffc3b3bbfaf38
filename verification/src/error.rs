//! The ways a parse can fail.

use vstd::prelude::*;

verus! {

/// Why a parse stopped. Every failure is final: once a chunk boundary is in
/// doubt, the offsets of all later siblings are too.
#[derive(Clone, Copy, Debug, PartialEq, Eq, Structural)]
pub enum Error {
    /// A read asked for bytes that the buffer does not hold, or a forward
    /// move would leave the range of positions.
    Truncated,
    /// The cursor stands where the declared sizes do not allow: a handler
    /// under- or over-read its chunk, a group is shorter than its own
    /// header, or a rewind would pass the start of the buffer.
    ParseError,
    /// A header of one kind stood where another kind was required.
    UnexpectedChunkShape,
    /// The payload of a compressed record could not be inflated.
    DecompressionFailure,
    /// The input needs what is not supported: localised strings, quest
    /// entries, or a nesting deeper than the depth can count.
    Unimplemented,
}

} // verus!
