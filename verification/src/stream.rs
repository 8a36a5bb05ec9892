//! Decoding from a source that hands over one byte at a time.
//!
//! The decoder makes the decisions and leaves the reading to its caller: it is
//! told what the source gave and answers what to do next.

use vstd::prelude::*;
use crate::codec::CompactU16;
use crate::error::DecodeError;
use crate::wire::spec_decode;

verus! {

/// A decode in progress. Its view is the sequence of bytes taken so far, each
/// of which announced a successor.
#[derive(Clone, Copy, Debug, PartialEq, Eq)]
pub struct Decoder {
    acc: u16,
    shift: u8,
}

/// What the caller of a [`Decoder`] is to do next.
#[derive(Clone, Copy, Debug, PartialEq, Eq)]
pub enum Action {
    /// Read another byte and hand it to the decoder given here.
    Read(Decoder),
    /// Stop: the value is complete.
    Done(CompactU16),
    /// Stop: the input is not an encoding.
    Fail(DecodeError),
}

impl View for Decoder {
    type V = Seq<u8>;

    closed spec fn view(&self) -> Seq<u8> {
        if self.shift == 0 {
            Seq::empty()
        } else if self.shift == 7 {
            seq![(128 + self.acc % 128) as u8]
        } else {
            seq![(128 + self.acc % 128) as u8, (128 + (self.acc / 128) % 128) as u8]
        }
    }
}

impl Decoder {
    /// The shift is that of the next byte, and the bits gathered so far lie
    /// below it.
    #[verifier::type_invariant]
    spec fn inv(self) -> bool {
        ||| self.shift == 0 && self.acc == 0
        ||| self.shift == 7 && self.acc < 128
        ||| self.shift == 14 && self.acc < 16384
    }

    /// A decoder that has taken nothing yet.
    pub fn new() -> (d: Self)
        ensures
            d@ == Seq::<u8>::empty(),
    {
        Decoder { acc: 0, shift: 0 }
    }

    /// Takes what the source gave, a byte or `None` at its end, and says how
    /// to go on.
    ///
    /// The answer is what the bytes taken so far, followed by the new one,
    /// decode to: a value, a refusal, or a request to read on while they are
    /// still a proper beginning. A source that ends here ends too early.
    pub fn step(self, event: Option<u8>) -> (a: Action)
        ensures
            match event {
                None => a == Action::Fail(DecodeError::UnexpectedEndOfInput),
                Some(byte) => match spec_decode(self@.push(byte)) {
                    Ok((v, _)) => a == Action::Done(CompactU16(v)),
                    Err(DecodeError::UnexpectedEndOfInput) => a is Read && a->Read_0@ == self@.push(
                        byte,
                    ),
                    Err(e) => a == Action::Fail(e),
                },
            },
    {
        proof {
            use_type_invariant(&self);
        }
        match event {
            None => Action::Fail(DecodeError::UnexpectedEndOfInput),
            Some(byte) => {
                let bits: u16 = (byte & 0x7f) as u16;
                let shift: u8 = self.shift;
                let before: u16 = self.acc;
                let acc: u16 = before | (bits << shift);
                proof {
                    assert(byte & 0x7f == byte % 128) by (bit_vector);
                    assert((byte & 0x80 == 0) <==> byte < 128) by (bit_vector);
                    assert(0u16 | (bits << 0u8) == bits) by (bit_vector);
                    assert(before < 128 && bits < 128 ==> before | (bits << 7u8) == before + 128
                        * bits) by (bit_vector);
                    assert(before < 16384 && bits < 128 ==> before | (bits << 14u8) == before
                        + 16384 * (bits % 4)) by (bit_vector);
                }
                if byte & 0x80 == 0 {
                    Action::Done(CompactU16(acc))
                } else if shift + 7 >= 16 {
                    Action::Fail(DecodeError::EncodingOutOfBounds)
                } else {
                    Action::Read(Decoder { acc, shift: shift + 7 })
                }
            },
        }
    }
}

} // verus!
