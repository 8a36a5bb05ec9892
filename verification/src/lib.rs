//! Compact encoding of unsigned 16-bit integers in one to three bytes.
//!
//! Each byte carries seven bits of the value, lowest bits first; its high bit
//! says whether another byte follows. [`wire`] holds the mathematical model of
//! the format, [`stream`] a decoder that is fed byte by byte, [`codec`] the
//! value type with its operations on buffers, and [`laws`] what holds between
//! encoding and decoding.

pub mod codec;
pub mod error;
pub mod laws;
pub mod stream;
pub mod wire;

pub use crate::codec::CompactU16;
pub use crate::error::DecodeError;
pub use crate::stream::{Action, Decoder};
