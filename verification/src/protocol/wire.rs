//! How values are laid out on the wire.
//!
//! [`Reader`] and [`Writer`] are models of decoding and encoding. A reader is the
//! bytes that are left and the first error, a writer the bytes so far and the
//! first error. Once an error has been met, every further step leaves the model
//! as it is. A message is a chain of steps, and the functions of this module that
//! run are proved against one step each.

use crate::error::{KrafkaError, ProtocolErrorKind, Reason};
use vstd::prelude::*;

mod reader;
mod writer;

pub use self::reader::{
    consumes, decode_unsigned_varint, decoded, group_consumes, group_cut, group_followed,
    law_reads_what_it_takes, lemma_moved, need_bytes, no_items, read_array, read_array_len,
    read_array_or_empty, read_bool, read_bytes, read_bytes_len, read_bytes_or_empty,
    read_error_code, read_i16, read_i32, read_i64, read_i8, read_items, read_nullable_bytes,
    read_nullable_string, read_optional_array, read_optional_array_len, read_present_string,
    read_raw, read_string, read_string_array, read_string_or_empty, read_tagged_field,
    read_tagged_fields, read_tags, read_text_len, read_uuid, result_view, taken, Reader,
    TaggedField, WireDecode,
};
pub use self::writer::{
    appends, encode_unsigned_varint, encoded, fits, group_appends, group_grows,
    law_oversized_string_is_refused, write_array, write_array_len, write_bool, write_bounded_array,
    write_bytes, write_i16, write_i32, write_i64, write_i8, write_items, write_null_array,
    write_nullable_bytes, write_nullable_string, write_optional_array, write_raw, write_string,
    write_tags, write_u64, WireEncode, Writer,
};

verus! {

/// Which form of a message is on the wire.
#[derive(Debug, Clone, Copy, PartialEq, Eq, Structural)]
pub struct Format {
    /// Version of the message.
    pub version: i16,
    /// Whether lengths are compact and tagged fields follow each structure.
    pub flexible: bool,
}

impl Format {
    /// A version with fixed-width lengths.
    #[verifier::allow_in_spec]
    pub fn plain(version: i16) -> Self
        returns
            (Format { version, flexible: false }),
    {
        Format { version, flexible: false }
    }

    /// A version with compact lengths and tagged fields.
    #[verifier::allow_in_spec]
    pub fn flexible(version: i16) -> Self
        returns
            (Format { version, flexible: true }),
    {
        Format { version, flexible: true }
    }
}

/// The characters of an optional text.
pub open spec fn optional_text(s: Option<String>) -> Option<Seq<char>> {
    match s {
        Some(s) => Some(s@),
        None => None,
    }
}

/// A length as a mathematical number.
pub open spec fn optional_len(n: Option<usize>) -> Option<nat> {
    match n {
        Some(n) => Some(n as nat),
        None => None,
    }
}

/// The views of the elements of a sequence.
pub open spec fn views<T: View>(items: Seq<T>) -> Seq<T::V> {
    Seq::new(items.len(), |i: int| items[i]@)
}

/// The views of the elements of an optional list.
pub open spec fn optional_views<T: View>(items: Option<Vec<T>>) -> Option<Seq<T::V>> {
    match items {
        Some(items) => Some(views(items@)),
        None => None,
    }
}

/// The bytes of an optional identifier.
pub open spec fn optional_id(id: Option<[u8; 16]>) -> Option<Seq<u8>> {
    match id {
        Some(id) => Some(id@),
        None => None,
    }
}

/// The bytes of an unsigned number, seven bits at a time from the lowest, with
/// the top bit of each byte but the last one set.
pub open spec fn varint_bytes(n: nat) -> Seq<u8>
    decreases n,
{
    if n < 0x80 {
        seq![n as u8]
    } else {
        seq![(n % 0x80 + 0x80) as u8] + varint_bytes(n / 0x80)
    }
}

/// The error of a field that needs more bytes than are left.
pub open spec fn truncated(needed: nat, available: nat) -> KrafkaError {
    KrafkaError::Protocol(
        ProtocolErrorKind::TruncatedFrame,
        Reason::Truncated(needed as usize, available as usize),
    )
}

/// The error of a length that is negative.
pub open spec fn negative_length(what: &'static str, n: i64) -> KrafkaError {
    KrafkaError::Protocol(ProtocolErrorKind::InvalidLength, Reason::Number(what, n))
}

/// The error of a length that has no place on the wire.
pub open spec fn too_long(what: &'static str, n: nat, max: nat) -> KrafkaError {
    KrafkaError::Protocol(
        ProtocolErrorKind::InvalidLength,
        Reason::Exceeds(what, n as usize, max as usize),
    )
}

/// The error of bytes that do not form a value.
pub open spec fn malformed(text: &'static str) -> KrafkaError {
    KrafkaError::Protocol(ProtocolErrorKind::Malformed, Reason::Text(text))
}

/// The error of a field that is null where a value is needed.
pub open spec fn null_field(what: &'static str) -> KrafkaError {
    KrafkaError::Protocol(
        ProtocolErrorKind::Malformed,
        Reason::Named(what, " must not be null"),
    )
}

} // verus!
