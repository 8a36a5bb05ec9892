//! The format as mathematics: what a byte sequence means and which sequence
//! stands for a value.

use vstd::prelude::*;
use crate::error::DecodeError;

verus! {

/// The seven value bits that a byte carries.
pub open spec fn payload(b: u8) -> nat {
    (b % 128) as nat
}

/// Whether a byte announces that another one follows it.
pub open spec fn continues(b: u8) -> bool {
    b >= 128
}

/// What the front of `bytes` decodes to: the value and the number of bytes it
/// occupies, or the reason why there is none.
///
/// The first byte gives bits 0 to 6, the second bits 7 to 13, the third bits
/// 14 and 15. Of the third byte only the two lowest bits count; a third byte
/// that announces a fourth is refused without looking any further.
pub open spec fn spec_decode(bytes: Seq<u8>) -> Result<(u16, nat), DecodeError> {
    if bytes.len() == 0 {
        Err(DecodeError::UnexpectedEndOfInput)
    } else if !continues(bytes[0]) {
        Ok((payload(bytes[0]) as u16, 1))
    } else if bytes.len() == 1 {
        Err(DecodeError::UnexpectedEndOfInput)
    } else if !continues(bytes[1]) {
        Ok(((payload(bytes[0]) + 128 * payload(bytes[1])) as u16, 2))
    } else if bytes.len() == 2 {
        Err(DecodeError::UnexpectedEndOfInput)
    } else if !continues(bytes[2]) {
        Ok(((payload(bytes[0]) + 128 * payload(bytes[1]) + 16384 * (bytes[2] % 4)) as u16, 3))
    } else {
        Err(DecodeError::EncodingOutOfBounds)
    }
}

/// How many bytes a decoder takes from the front of `bytes`, whether it
/// succeeds or not: those of the value, all there are when they run out, and
/// three when the third byte is refused.
pub open spec fn spec_taken(bytes: Seq<u8>) -> nat {
    match spec_decode(bytes) {
        Ok((_, n)) => n,
        Err(DecodeError::EncodingOutOfBounds) => 3,
        Err(_) => bytes.len(),
    }
}

/// What a fixed buffer decodes to when it must hold the value and nothing else.
pub open spec fn spec_decode_strict(bytes: Seq<u8>) -> Result<u16, DecodeError> {
    match spec_decode(bytes) {
        Ok((v, n)) => if n == bytes.len() {
            Ok(v)
        } else {
            Err(DecodeError::TrailingData)
        },
        Err(e) => Err(e),
    }
}

/// The canonical encoding of `v`: base 128, least significant digit first,
/// every byte but the last marked as continued.
pub open spec fn spec_encode(v: nat) -> Seq<u8>
    decreases v,
{
    if v < 128 {
        seq![v as u8]
    } else {
        seq![(128 + v % 128) as u8] + spec_encode(v / 128)
    }
}

} // verus!
