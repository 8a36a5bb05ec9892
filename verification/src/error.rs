use vstd::prelude::*;

verus! {

/// Why a decode was given up. Every failure is final for its call.
#[derive(Clone, Copy, Debug, PartialEq, Eq, Structural)]
pub enum DecodeError {
    /// The source ran out while another byte was still owed.
    UnexpectedEndOfInput,
    /// The third byte still asks for a successor, which sixteen bits cannot hold.
    EncodingOutOfBounds,
    /// A fixed buffer held further bytes behind the encoded value.
    TrailingData,
}

} // verus!
