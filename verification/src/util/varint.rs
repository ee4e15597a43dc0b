//! Variable-length numbers.

pub use crate::protocol::wire::{decode_unsigned_varint, encode_unsigned_varint};
