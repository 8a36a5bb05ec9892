//! The value type and its operations on buffers.

use vstd::prelude::*;
use borsh::BorshDeserialize;
use crate::error::DecodeError;
use crate::laws::{lemma_encoded_len, lemma_round_trip};
use crate::stream::{Action, Decoder};
use crate::wire::{spec_decode, spec_decode_strict, spec_encode, spec_taken};

verus! {

/// An unsigned 16-bit value that travels in the compact form.
#[derive(Clone, Copy, Debug, PartialEq, Eq, Structural)]
pub struct CompactU16(pub u16);

/// `std::io::Error`, the failure that `borsh` reports. It is carried through
/// unopened: nothing here depends on what it holds.
#[verifier::external_type_specification]
#[verifier::external_body]
pub struct ExIoError(std::io::Error);

/// Takes one byte off the front of a slice with `borsh`'s
/// `BorshDeserialize::deserialize` for `u8`.
///
/// Trusted, not proved: on an empty slice the call fails and leaves the slice
/// empty; on any other it returns the first byte and moves the slice on to the
/// bytes behind it.
#[verifier::external_body]
fn read_u8(buf: &mut &[u8]) -> (r: Result<u8, std::io::Error>)
    ensures
        old(buf)@.len() == 0 ==> r is Err && final(buf)@ == old(buf)@,
        old(buf)@.len() > 0 ==> r is Ok && r->Ok_0 == old(buf)@[0] && final(buf)@ == old(buf)@.skip(
            1,
        ),
{
    u8::deserialize(buf)
}

impl CompactU16 {
    /// Decodes a value from the front of `buf` and moves `buf` past the bytes
    /// that were taken.
    ///
    /// The bytes behind the value are neither read nor required to be absent.
    /// On failure too `buf` has moved: to its end where the bytes ran out, and
    /// past the third byte where that one was refused.
    pub fn try_from_bytes(buf: &mut &[u8]) -> (r: Result<Self, DecodeError>)
        ensures
            match spec_decode(old(buf)@) {
                Ok((v, _)) => r == Ok::<Self, DecodeError>(CompactU16(v)),
                Err(e) => r == Err::<Self, DecodeError>(e),
            },
            final(buf)@ == old(buf)@.skip(spec_taken(old(buf)@) as int),
    {
        let mut state: Decoder = Decoder::new();
        loop
            invariant
                state@.len() <= old(buf)@.len(),
                state@ == old(buf)@.take(state@.len() as int),
                buf@ == old(buf)@.skip(state@.len() as int),
                spec_decode(state@) == Err::<(u16, nat), DecodeError>(
                    DecodeError::UnexpectedEndOfInput,
                ),
            decreases 3 - state@.len(),
        {
            let ghost taken = state@;
            let event: Option<u8> = match read_u8(buf) {
                Ok(byte) => Some(byte),
                Err(_) => None,
            };
            proof {
                if let Some(byte) = event {
                    assert(taken.push(byte) =~= old(buf)@.take(taken.len() + 1 as int));
                } else {
                    assert(taken =~= old(buf)@);
                }
            }
            match state.step(event) {
                Action::Read(next) => {
                    state = next;
                },
                Action::Done(value) => {
                    return Ok(value);
                },
                Action::Fail(e) => {
                    return Err(e);
                },
            }
        }
    }

    /// Decodes a value from the front of `buf` and moves `buf` past it: the
    /// operation a framework for structured messages asks of a field's type.
    /// It is [`CompactU16::try_from_bytes`] under that name.
    pub fn deserialize(buf: &mut &[u8]) -> (r: Result<Self, DecodeError>)
        ensures
            match spec_decode(old(buf)@) {
                Ok((v, _)) => r == Ok::<Self, DecodeError>(CompactU16(v)),
                Err(e) => r == Err::<Self, DecodeError>(e),
            },
            final(buf)@ == old(buf)@.skip(spec_taken(old(buf)@) as int),
    {
        Self::try_from_bytes(buf)
    }

    /// Decodes a value from the front of `bytes` and reports how many bytes it
    /// occupies there. `bytes` may be longer than the value.
    pub fn decode_from_bytes(bytes: &[u8]) -> (r: Result<(Self, usize), DecodeError>)
        ensures
            match spec_decode(bytes@) {
                Ok((v, n)) => r == Ok::<(Self, usize), DecodeError>((CompactU16(v), n as usize)),
                Err(e) => r == Err::<(Self, usize), DecodeError>(e),
            },
    {
        let mut rest: &[u8] = bytes;
        match Self::try_from_bytes(&mut rest) {
            Ok(value) => Ok((value, bytes.len() - rest.len())),
            Err(e) => Err(e),
        }
    }

    /// Decodes a buffer that must hold one value and nothing behind it.
    pub fn try_from_slice(v: &[u8]) -> (r: Result<Self, DecodeError>)
        ensures
            match spec_decode_strict(v@) {
                Ok(x) => r == Ok::<Self, DecodeError>(CompactU16(x)),
                Err(e) => r == Err::<Self, DecodeError>(e),
            },
    {
        let mut rest: &[u8] = v;
        match Self::try_from_bytes(&mut rest) {
            Ok(value) => value.require_end(rest.is_empty()),
            Err(e) => Err(e),
        }
    }

    /// Strict decoding's last decision: a value stands only if its source was
    /// at its end behind it. `at_end` says whether it was.
    pub fn require_end(self, at_end: bool) -> (r: Result<Self, DecodeError>)
        ensures
            r == (if at_end {
                Ok::<Self, DecodeError>(self)
            } else {
                Err::<Self, DecodeError>(DecodeError::TrailingData)
            }),
    {
        if at_end {
            Ok(self)
        } else {
            Err(DecodeError::TrailingData)
        }
    }

    /// The canonical encoding of the value: the shortest there is, one to
    /// three bytes, which decodes to the value again.
    pub fn encode(&self) -> (out: Vec<u8>)
        ensures
            out@ == spec_encode(self.0 as nat),
            out@.len() == (if self.0 < 0x80 {
                1nat
            } else if self.0 < 0x4000 {
                2nat
            } else {
                3nat
            }),
            spec_decode(out@) == Ok::<(u16, nat), DecodeError>((self.0, out@.len())),
    {
        let mut out: Vec<u8> = Vec::new();
        let mut value: u16 = self.0;
        while value >= 0x80
            invariant
                out@ + spec_encode(value as nat) == spec_encode(self.0 as nat),
            decreases value,
        {
            let low: u8 = ((value & 0x7f) as u8) | 0x80;
            proof {
                assert(value & 0x7f == value % 128) by (bit_vector);
                assert(value >> 7 == value / 128) by (bit_vector);
                let digit: u8 = (value & 0x7f) as u8;
                assert(digit < 128 ==> digit | 0x80 == 128 + digit) by (bit_vector);
                assert(out@.push(low) + spec_encode((value / 128) as nat) =~= out@ + spec_encode(
                    value as nat,
                ));
            }
            out.push(low);
            value = value >> 7;
        }
        out.push(value as u8);
        proof {
            assert(out@ =~= spec_encode(self.0 as nat));
            lemma_encoded_len(self.0);
            lemma_round_trip(self.0);
        }
        out
    }
}

} // verus!
