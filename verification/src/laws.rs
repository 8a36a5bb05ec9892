//! What holds between encoding and decoding, for every value and every input.

use vstd::prelude::*;
use crate::error::DecodeError;
use crate::wire::{continues, spec_decode, spec_decode_strict, spec_encode};

verus! {

/// The canonical encoding of a 16-bit value has one byte below `0x80`, two
/// bytes from there to below `0x4000`, and three bytes from there on.
pub proof fn lemma_encoded_len(v: u16)
    ensures
        spec_encode(v as nat).len() == 1 <==> v < 0x80,
        spec_encode(v as nat).len() == 2 <==> 0x80 <= v < 0x4000,
        spec_encode(v as nat).len() == 3 <==> 0x4000 <= v,
{
    reveal_with_fuel(spec_encode, 3);
}

/// Decoding the canonical encoding of a value gives the value back and takes
/// exactly the bytes of the encoding, so that a strict decode accepts it too.
pub proof fn lemma_round_trip(v: u16)
    ensures
        spec_decode(spec_encode(v as nat)) == Ok::<(u16, nat), DecodeError>(
            (v, spec_encode(v as nat).len()),
        ),
        spec_decode_strict(spec_encode(v as nat)) == Ok::<u16, DecodeError>(v),
{
    reveal_with_fuel(spec_encode, 3);
}

/// Two values with the same canonical encoding are the same value.
pub proof fn lemma_encode_injective(a: u16, b: u16)
    requires
        spec_encode(a as nat) == spec_encode(b as nat),
    ensures
        a == b,
{
    lemma_round_trip(a);
    lemma_round_trip(b);
}

/// Once the front of an input has decided a decode, with a value or with a
/// refusal of the third byte, whatever follows changes nothing: no byte behind
/// the last one taken is looked at.
pub proof fn lemma_decode_front(front: Seq<u8>, rest: Seq<u8>)
    requires
        spec_decode(front) != Err::<(u16, nat), DecodeError>(DecodeError::UnexpectedEndOfInput),
    ensures
        spec_decode(front + rest) == spec_decode(front),
{
}

/// A decode is refused as out of bounds exactly when each of the first three
/// bytes announces a successor, so that a fourth byte would be needed.
pub proof fn lemma_out_of_bounds(bytes: Seq<u8>)
    ensures
        spec_decode(bytes) == Err::<(u16, nat), DecodeError>(DecodeError::EncodingOutOfBounds) <==> (
        bytes.len() >= 3 && continues(bytes[0]) && continues(bytes[1]) && continues(bytes[2])),
{
}

/// A decode runs out of input exactly when there are fewer than three bytes
/// and each of them announces a successor.
pub proof fn lemma_truncated(bytes: Seq<u8>)
    ensures
        spec_decode(bytes) == Err::<(u16, nat), DecodeError>(DecodeError::UnexpectedEndOfInput) <==> (
        bytes.len() < 3 && forall|i: int| 0 <= i < bytes.len() ==> continues(#[trigger] bytes[i])),
{
}

/// No input that decodes to a value is shorter than the canonical encoding of
/// that value.
pub proof fn lemma_canonical_is_shortest(bytes: Seq<u8>)
    requires
        spec_decode(bytes) is Ok,
    ensures
        spec_encode(spec_decode(bytes)->Ok_0.0 as nat).len() <= spec_decode(bytes)->Ok_0.1,
        spec_decode(bytes)->Ok_0.1 <= bytes.len(),
{
    lemma_encoded_len(spec_decode(bytes)->Ok_0.0);
}

} // verus!
