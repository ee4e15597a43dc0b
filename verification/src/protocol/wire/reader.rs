//! Reading: the model, the functions that run, and what holds of every reading.

use crate::buffer::{
    as_slice, be_i16, be_i32, be_i64, be_i8, copy_to_array, copy_to_bytes, get_i16, get_i32,
    get_i64, get_i8, get_u8, no_bytes, optional_bytes, remaining, string_from_utf8, Octets,
};
use crate::error::{ErrorCode, KrafkaError, ProtocolErrorKind, Reason, Result};
use crate::protocol::wire::{
    malformed, negative_length, null_field, optional_len, optional_text, optional_views, truncated,
    views, Format,
};
use bytes::Bytes;
use vstd::prelude::*;
use vstd::slice::slice_to_vec;
use vstd::utf8::{decode_utf8, valid_utf8};

verus! {

/// The model of decoding.
pub struct Reader {
    /// The bytes that are left.
    pub rest: Seq<u8>,
    /// The first error.
    pub failure: Option<KrafkaError>,
}

impl Reader {
    /// A reader at the start of some bytes.
    pub open spec fn on(bytes: Seq<u8>) -> Reader {
        Reader { rest: bytes, failure: None }
    }

    /// Whether an error was met.
    pub open spec fn failed(self) -> bool {
        self.failure is Some
    }

    /// The reader after an error, unless it has met one before.
    pub open spec fn raise(self, e: KrafkaError) -> Reader {
        if self.failed() {
            self
        } else {
            Reader { rest: self.rest, failure: Some(e) }
        }
    }

    /// The reader with more bytes behind the ones that are left.
    pub open spec fn followed_by(self, more: Seq<u8>) -> Reader {
        Reader { rest: self.rest + more, failure: self.failure }
    }

    /// The reader without the last `k` of the bytes that are left.
    pub open spec fn cut(self, k: nat) -> Reader {
        Reader { rest: self.rest.take(self.rest.len() - k), failure: self.failure }
    }

    /// The reader after `n` more bytes.
    pub open spec fn advance(self, n: nat) -> Reader {
        Reader { rest: self.rest.skip(n as int), failure: self.failure }
    }

    /// The reader where at least `n` bytes are left; `text` is the error where not.
    pub open spec fn need(self, n: nat, text: &'static str) -> Reader {
        if self.rest.len() < n {
            self.raise(malformed(text))
        } else {
            self
        }
    }

    /// `n` bytes as they are.
    pub open spec fn raw(self, n: nat) -> (Seq<u8>, Reader) {
        if self.failed() {
            (Seq::empty(), self)
        } else if self.rest.len() < n {
            (Seq::empty(), self.raise(truncated(n, self.rest.len())))
        } else {
            (self.rest.take(n as int), self.advance(n))
        }
    }

    /// Sixteen bytes, as a topic identifier has them.
    pub open spec fn uuid(self) -> (Seq<u8>, Reader) {
        if self.failed() {
            (Seq::empty(), self)
        } else if self.rest.len() < 16 {
            (Seq::empty(), self.raise(malformed("short buf for topic_id")))
        } else {
            (self.rest.take(16), self.advance(16))
        }
    }

    /// A signed byte.
    pub open spec fn i8(self) -> (i8, Reader) {
        if self.failed() {
            (0, self)
        } else if self.rest.len() < 1 {
            (0, self.raise(truncated(1, self.rest.len())))
        } else {
            (be_i8(self.rest), self.advance(1))
        }
    }

    /// A big-endian 16-bit number.
    pub open spec fn i16(self) -> (i16, Reader) {
        if self.failed() {
            (0, self)
        } else if self.rest.len() < 2 {
            (0, self.raise(truncated(2, self.rest.len())))
        } else {
            (be_i16(self.rest), self.advance(2))
        }
    }

    /// A big-endian 32-bit number.
    pub open spec fn i32(self) -> (i32, Reader) {
        if self.failed() {
            (0, self)
        } else if self.rest.len() < 4 {
            (0, self.raise(truncated(4, self.rest.len())))
        } else {
            (be_i32(self.rest), self.advance(4))
        }
    }

    /// A big-endian 64-bit number.
    pub open spec fn i64(self) -> (i64, Reader) {
        if self.failed() {
            (0, self)
        } else if self.rest.len() < 8 {
            (0, self.raise(truncated(8, self.rest.len())))
        } else {
            (be_i64(self.rest), self.advance(8))
        }
    }

    /// A byte that is zero for `false`.
    pub open spec fn bool(self) -> (bool, Reader) {
        let (b, r) = self.i8();
        (b != 0, r)
    }

    /// An unsigned number in at most five bytes, seven bits in each.
    pub open spec fn varint(self) -> (u32, Reader) {
        self.varint_tail(0, 1, 0)
    }

    /// The rest of such a number after `count` bytes that make up `sum`, where the
    /// next byte counts for `scale`.
    pub open spec fn varint_tail(self, count: nat, scale: nat, sum: nat) -> (u32, Reader)
        decreases 5 - count,
    {
        if self.failed() {
            (0, self)
        } else if count >= 5 {
            (0, self.raise(malformed("varint is longer than 5 bytes")))
        } else if self.rest.len() == 0 {
            (0, self.raise(truncated(1, 0)))
        } else {
            let b = self.rest[0];
            let total = sum + (b % 0x80) as nat * scale;
            if b >= 0x80 {
                self.advance(1).varint_tail(count + 1, scale * 0x80, total)
            } else if total > u32::MAX {
                (0, self.advance(1).raise(malformed("varint exceeds 32 bits")))
            } else {
                (total as u32, self.advance(1))
            }
        }
    }

    /// The length of a text, or none for null: a 16-bit number, `-1` for null, or
    /// a varint that is one more than the length, 0 for null.
    pub open spec fn text_len(self, flexible: bool) -> (Option<nat>, Reader) {
        if flexible {
            let (n, r) = self.varint();
            (if n == 0 { None } else { Some((n - 1) as nat) }, r)
        } else {
            let (n, r) = self.i16();
            if n < -1 {
                (None, r.raise(negative_length("invalid string length: ", n as i64)))
            } else if n == -1 {
                (None, r)
            } else {
                (Some(n as nat), r)
            }
        }
    }

    /// The length of a byte string, or none for null, likewise with 32 bits.
    pub open spec fn bytes_len(self, flexible: bool) -> (Option<nat>, Reader) {
        if flexible {
            let (n, r) = self.varint();
            (if n == 0 { None } else { Some((n - 1) as nat) }, r)
        } else {
            let (n, r) = self.i32();
            if n < -1 {
                (None, r.raise(negative_length("invalid bytes length: ", n as i64)))
            } else if n == -1 {
                (None, r)
            } else {
                (Some(n as nat), r)
            }
        }
    }

    /// `n` bytes of UTF-8.
    pub open spec fn text(self, n: nat) -> (Seq<char>, Reader) {
        let (b, r) = self.raw(n);
        if r.failed() {
            (Seq::empty(), r)
        } else if valid_utf8(b) {
            (decode_utf8(b), r)
        } else {
            (Seq::empty(), r.raise(malformed("string is not valid UTF-8")))
        }
    }

    /// A text or null.
    pub open spec fn nullable_string(self, flexible: bool) -> (Option<Seq<char>>, Reader) {
        let (len, r) = self.text_len(flexible);
        if r.failed() {
            (None, r)
        } else {
            match len {
                None => (None, r),
                Some(n) => {
                    let (s, r) = r.text(n);
                    (Some(s), r)
                },
            }
        }
    }

    /// A text; `what` names the field where it is null.
    pub open spec fn string(self, what: &'static str, flexible: bool) -> (Seq<char>, Reader) {
        let (s, r) = self.nullable_string(flexible);
        match s {
            Some(s) => (s, r),
            None => (Seq::empty(), r.raise(null_field(what))),
        }
    }

    /// A text; `text` is the error where it is null.
    pub open spec fn present_string(self, text: &'static str, flexible: bool) -> (
        Seq<char>,
        Reader,
    ) {
        let (s, r) = self.nullable_string(flexible);
        match s {
            Some(s) => (s, r),
            None => (Seq::empty(), r.raise(malformed(text))),
        }
    }

    /// A text, where null stands for the empty one.
    pub open spec fn string_or_empty(self, flexible: bool) -> (Seq<char>, Reader) {
        let (s, r) = self.nullable_string(flexible);
        match s {
            Some(s) => (s, r),
            None => (Seq::empty(), r),
        }
    }

    /// A byte string or null.
    pub open spec fn nullable_bytes(self, flexible: bool) -> (Option<Seq<u8>>, Reader) {
        let (len, r) = self.bytes_len(flexible);
        if r.failed() {
            (None, r)
        } else {
            match len {
                None => (None, r),
                Some(n) => {
                    let (b, r) = r.raw(n);
                    (Some(b), r)
                },
            }
        }
    }

    /// A byte string; `what` names the field where it is null.
    pub open spec fn bytes(self, what: &'static str, flexible: bool) -> (Seq<u8>, Reader) {
        let (b, r) = self.nullable_bytes(flexible);
        match b {
            Some(b) => (b, r),
            None => (Seq::empty(), r.raise(null_field(what))),
        }
    }

    /// A byte string, where null stands for the empty one.
    pub open spec fn bytes_or_empty(self, flexible: bool) -> (Seq<u8>, Reader) {
        let (b, r) = self.nullable_bytes(flexible);
        match b {
            Some(b) => (b, r),
            None => (Seq::empty(), r),
        }
    }

    /// The error code of a broker.
    pub open spec fn error_code(self) -> (ErrorCode, Reader) {
        let (n, r) = self.i16();
        (ErrorCode::of(n), r)
    }

    /// The number of elements of an array: a 32-bit number, or a varint that is
    /// one more, where 0 stands for an array that is not there.
    pub open spec fn array_len(self, flexible: bool) -> (nat, Reader) {
        if flexible {
            let (n, r) = self.varint();
            (if n == 0 { 0 } else { (n - 1) as nat }, r)
        } else {
            let (n, r) = self.i32();
            if n < 0 {
                (0, r.raise(negative_length("invalid array length: ", n as i64)))
            } else {
                (n as nat, r)
            }
        }
    }

    /// The number of elements of an array, or none for an array that is not there:
    /// a 32-bit number, `-1` for none, or a varint that is one more, 0 for none.
    pub open spec fn optional_array_len(self, flexible: bool) -> (Option<nat>, Reader) {
        if flexible {
            let (n, r) = self.varint();
            (if n == 0 { None } else { Some((n - 1) as nat) }, r)
        } else {
            let (n, r) = self.i32();
            if n < -1 {
                (None, r.raise(negative_length("invalid array length: ", n as i64)))
            } else if n == -1 {
                (None, r)
            } else {
                (Some(n as nat), r)
            }
        }
    }

    /// An array, or none where it is not there.
    pub open spec fn optional_array<T: WireDecode>(self, f: Format) -> (Option<Seq<T::V>>, Reader) {
        let (n, r) = self.optional_array_len(f.flexible);
        match n {
            None => (None, r),
            Some(n) => {
                let (items, r) = r.items::<T>(f, n);
                (Some(items), r)
            },
        }
    }

    /// One tagged field: its tag and its bytes.
    pub open spec fn tagged_field(self) -> ((u32, Seq<u8>), Reader) {
        let (tag, r) = self.varint();
        let (n, r) = r.varint();
        let (data, r) = r.raw(n as nat);
        ((tag, data), r)
    }

    /// The first `n` tagged fields.
    pub open spec fn tagged_items(self, n: nat) -> (Seq<(u32, Seq<u8>)>, Reader)
        decreases n,
    {
        if n == 0 || self.failed() {
            (Seq::empty(), self)
        } else {
            let (items, r) = self.tagged_items((n - 1) as nat);
            if r.failed() {
                (items, r)
            } else {
                let (item, r) = r.tagged_field();
                (items.push(item), r)
            }
        }
    }

    /// A section of tagged fields: how many, and each.
    pub open spec fn tagged_fields(self) -> (Seq<(u32, Seq<u8>)>, Reader) {
        let (n, r) = self.varint();
        r.tagged_items(n as nat)
    }

    /// The reader behind the section of tagged fields that ends a structure in
    /// the flexible formats.
    pub open spec fn tags(self, flexible: bool) -> Reader {
        if flexible {
            self.tagged_fields().1
        } else {
            self
        }
    }

    /// The first `n` elements of an array.
    pub open spec fn items<T: WireDecode>(self, f: Format, n: nat) -> (Seq<T::V>, Reader)
        decreases n,
    {
        if n == 0 || self.failed() {
            (Seq::empty(), self)
        } else {
            let (items, r) = self.items::<T>(f, (n - 1) as nat);
            if r.failed() {
                (items, r)
            } else {
                let (item, r) = T::read(f, r);
                (items.push(item), r)
            }
        }
    }

    /// An array.
    pub open spec fn array<T: WireDecode>(self, f: Format) -> (Seq<T::V>, Reader) {
        let (n, r) = self.array_len(f.flexible);
        r.items::<T>(f, n)
    }

    /// An array, where one that is not there stands for the empty one.
    pub open spec fn array_or_empty<T: WireDecode>(self, f: Format) -> (Seq<T::V>, Reader) {
        let (items, r) = self.optional_array::<T>(f);
        match items {
            None => (Seq::empty(), r),
            Some(items) => (items, r),
        }
    }

    /// The first `n` texts of an array.
    pub open spec fn string_items(self, what: &'static str, flexible: bool, n: nat) -> (
        Seq<Seq<char>>,
        Reader,
    )
        decreases n,
    {
        if n == 0 || self.failed() {
            (Seq::empty(), self)
        } else {
            let (items, r) = self.string_items(what, flexible, (n - 1) as nat);
            if r.failed() {
                (items, r)
            } else {
                let (item, r) = r.string(what, flexible);
                (items.push(item), r)
            }
        }
    }

    /// An array of texts; `what` names an element where it is null.
    pub open spec fn string_array(self, what: &'static str, flexible: bool) -> (
        Seq<Seq<char>>,
        Reader,
    ) {
        let (n, r) = self.array_len(flexible);
        r.string_items(what, flexible, n)
    }

    /// One structure.
    pub open spec fn one<T: WireDecode>(self, f: Format) -> (T::V, Reader) {
        if self.failed() {
            (arbitrary(), self)
        } else {
            T::read(f, self)
        }
    }
}

/// What a decoding function returns and leaves in the buffer: the value and the
/// bytes behind it, or the first error and the bytes where it was met.
pub open spec fn decoded<V>(
    value: core::result::Result<V, KrafkaError>,
    buf: Seq<u8>,
    model: (V, Reader),
) -> bool {
    &&& buf == model.1.rest
    &&& match value {
        Ok(v) => model.1.failure is None && v == model.0,
        Err(e) => model.1.failure == Some(e),
    }
}

/// The view of a result.
pub open spec fn result_view<T: View>(res: Result<T>) -> Result<T::V> {
    match res {
        Ok(x) => Ok(x@),
        Err(e) => Err(e),
    }
}

/// A structure that can be read off the wire.
pub trait WireDecode: View + Sized {
    /// The structure at the front of a reader.
    spec fn read(f: Format, r: Reader) -> (Self::V, Reader);

    /// Reads the structure.
    fn decode_wire(f: Format, buf: &mut Bytes) -> (res: Result<Self>)
        ensures
            decoded(result_view(res), final(buf)@, Self::read(f, Reader::on(old(buf)@))),
    ;

    /// What follows a structure changes nothing of how it is read.
    proof fn law_ignores_what_follows(f: Format, r: Reader, more: Seq<u8>)
        requires
            !Self::read(f, r).1.failed(),
        ensures
            Self::read(f, r.followed_by(more)) == (
                Self::read(f, r).0,
                Self::read(f, r).1.followed_by(more),
            ),
    ;

    /// A structure is read the same where bytes behind it are missing.
    proof fn law_needs_only_what_it_takes(f: Format, r: Reader, k: nat)
        requires
            !Self::read(f, r).1.failed(),
            k <= Self::read(f, r).1.rest.len(),
        ensures
            Self::read(f, r.cut(k)) == (Self::read(f, r).0, Self::read(f, r).1.cut(k)),
    ;

    /// Reading takes bytes off the front, leaves those behind as they are, and
    /// stays at the first error.
    proof fn law_consumes(f: Format, r: Reader)
        ensures
            consumes(r, Self::read(f, r).1),
    ;
}

/// Reads a signed byte.
pub fn read_i8(buf: &mut Bytes) -> (res: Result<i8>)
    ensures
        decoded(res, final(buf)@, Reader::on(old(buf)@).i8()),
{
    let available = remaining(buf);
    if available < 1 {
        return Err(
            KrafkaError::Protocol(
                ProtocolErrorKind::TruncatedFrame,
                Reason::Truncated(1, available),
            ),
        );
    }
    Ok(get_i8(buf))
}

/// Reads a big-endian 16-bit number.
pub fn read_i16(buf: &mut Bytes) -> (res: Result<i16>)
    ensures
        decoded(res, final(buf)@, Reader::on(old(buf)@).i16()),
{
    let available = remaining(buf);
    if available < 2 {
        return Err(
            KrafkaError::Protocol(
                ProtocolErrorKind::TruncatedFrame,
                Reason::Truncated(2, available),
            ),
        );
    }
    Ok(get_i16(buf))
}

/// Reads a big-endian 32-bit number.
pub fn read_i32(buf: &mut Bytes) -> (res: Result<i32>)
    ensures
        decoded(res, final(buf)@, Reader::on(old(buf)@).i32()),
{
    let available = remaining(buf);
    if available < 4 {
        return Err(
            KrafkaError::Protocol(
                ProtocolErrorKind::TruncatedFrame,
                Reason::Truncated(4, available),
            ),
        );
    }
    Ok(get_i32(buf))
}

/// Reads a big-endian 64-bit number.
pub fn read_i64(buf: &mut Bytes) -> (res: Result<i64>)
    ensures
        decoded(res, final(buf)@, Reader::on(old(buf)@).i64()),
{
    let available = remaining(buf);
    if available < 8 {
        return Err(
            KrafkaError::Protocol(
                ProtocolErrorKind::TruncatedFrame,
                Reason::Truncated(8, available),
            ),
        );
    }
    Ok(get_i64(buf))
}

/// Reads a byte that is zero for `false`.
pub fn read_bool(buf: &mut Bytes) -> (res: Result<bool>)
    ensures
        decoded(res, final(buf)@, Reader::on(old(buf)@).bool()),
{
    let value = read_i8(buf)?;
    Ok(value != 0)
}

/// Checks that at least `n` bytes are left; `text` is the error where not.
pub fn need_bytes(n: usize, text: &'static str, buf: &Bytes) -> (res: Result<()>)
    ensures
        match res {
            Ok(_) => Reader::on(buf@).need(n as nat, text) == Reader::on(buf@),
            Err(e) => Reader::on(buf@).need(n as nat, text) == Reader::on(buf@).raise(e),
        },
{
    if remaining(buf) < n {
        return Err(KrafkaError::protocol(text));
    }
    Ok(())
}

/// Takes `n` bytes as they are.
pub fn read_raw(n: usize, buf: &mut Bytes) -> (res: Result<Bytes>)
    ensures
        ({
            let (bytes, r) = Reader::on(old(buf)@).raw(n as nat);
            &&& final(buf)@ == r.rest
            &&& match res {
                Ok(b) => r.failure is None && b@ == bytes,
                Err(e) => r.failure == Some(e),
            }
        }),
{
    let available = remaining(buf);
    if available < n {
        return Err(
            KrafkaError::Protocol(
                ProtocolErrorKind::TruncatedFrame,
                Reason::Truncated(n, available),
            ),
        );
    }
    Ok(copy_to_bytes(buf, n))
}

/// Reads an unsigned number in at most five bytes, seven bits in each.
pub fn decode_unsigned_varint(buf: &mut Bytes) -> (res: Result<u32>)
    ensures
        decoded(res, final(buf)@, Reader::on(old(buf)@).varint()),
{
    let mut sum: u64 = 0;
    let mut scale: u64 = 1;
    let mut count: usize = 0;
    while count < 5
        invariant
            count <= 5,
            count == 0 ==> scale == 1 && sum == 0,
            count == 1 ==> scale == 0x80 && sum < 0x80,
            count == 2 ==> scale == 0x4000 && sum < 0x4000,
            count == 3 ==> scale == 0x20_0000 && sum < 0x20_0000,
            count == 4 ==> scale == 0x1000_0000 && sum < 0x1000_0000,
            count == 5 ==> scale == 0x8_0000_0000 && sum < 0x8_0000_0000,
            Reader::on(old(buf)@).varint() == Reader::on(buf@).varint_tail(
                count as nat,
                scale as nat,
                sum as nat,
            ),
        decreases 5 - count,
    {
        if remaining(buf) == 0 {
            return Err(
                KrafkaError::Protocol(ProtocolErrorKind::TruncatedFrame, Reason::Truncated(1, 0)),
            );
        }
        let b = get_u8(buf);
        let total: u64 = sum + (b % 0x80) as u64 * scale;
        if b < 0x80 {
            if total > u32::MAX as u64 {
                return Err(KrafkaError::protocol("varint exceeds 32 bits"));
            }
            return Ok(total as u32);
        }
        sum = total;
        scale = scale * 0x80;
        count = count + 1;
    }
    Err(KrafkaError::protocol("varint is longer than 5 bytes"))
}

/// Reads sixteen bytes, as a topic identifier has them.
pub fn read_uuid(buf: &mut Bytes) -> (res: Result<[u8; 16]>)
    ensures
        ({
            let (id, r) = Reader::on(old(buf)@).uuid();
            &&& final(buf)@ == r.rest
            &&& match res {
                Ok(x) => r.failure is None && x@ == id,
                Err(e) => r.failure == Some(e),
            }
        }),
{
    if remaining(buf) < 16 {
        return Err(KrafkaError::protocol("short buf for topic_id"));
    }
    let mut id: [u8; 16] = [0u8; 16];
    copy_to_array(buf, &mut id);
    Ok(id)
}

/// Reads the error code of a broker.
pub fn read_error_code(buf: &mut Bytes) -> (res: Result<ErrorCode>)
    ensures
        decoded(res, final(buf)@, Reader::on(old(buf)@).error_code()),
{
    let code = read_i16(buf)?;
    Ok(ErrorCode::from_i16(code))
}

/// Reads the length of a text, or none for null.
pub fn read_text_len(flexible: bool, buf: &mut Bytes) -> (res: Result<Option<usize>>)
    ensures
        ({
            let (len, r) = Reader::on(old(buf)@).text_len(flexible);
            &&& final(buf)@ == r.rest
            &&& match res {
                Ok(n) => r.failure is None && optional_len(n) == len,
                Err(e) => r.failure == Some(e),
            }
        }),
{
    if flexible {
        let n = decode_unsigned_varint(buf)?;
        if n == 0 {
            Ok(None)
        } else {
            Ok(Some((n - 1) as usize))
        }
    } else {
        let n = read_i16(buf)?;
        if n < -1 {
            Err(
                KrafkaError::Protocol(
                    ProtocolErrorKind::InvalidLength,
                    Reason::Number("invalid string length: ", n as i64),
                ),
            )
        } else if n == -1 {
            Ok(None)
        } else {
            Ok(Some(n as usize))
        }
    }
}

/// Reads the length of a byte string, or none for null.
pub fn read_bytes_len(flexible: bool, buf: &mut Bytes) -> (res: Result<Option<usize>>)
    ensures
        ({
            let (len, r) = Reader::on(old(buf)@).bytes_len(flexible);
            &&& final(buf)@ == r.rest
            &&& match res {
                Ok(n) => r.failure is None && optional_len(n) == len,
                Err(e) => r.failure == Some(e),
            }
        }),
{
    if flexible {
        let n = decode_unsigned_varint(buf)?;
        if n == 0 {
            Ok(None)
        } else {
            Ok(Some((n - 1) as usize))
        }
    } else {
        let n = read_i32(buf)?;
        if n < -1 {
            Err(
                KrafkaError::Protocol(
                    ProtocolErrorKind::InvalidLength,
                    Reason::Number("invalid bytes length: ", n as i64),
                ),
            )
        } else if n == -1 {
            Ok(None)
        } else {
            Ok(Some(n as usize))
        }
    }
}

/// Reads a text or null.
pub fn read_nullable_string(flexible: bool, buf: &mut Bytes) -> (res: Result<Option<String>>)
    ensures
        ({
            let (s, r) = Reader::on(old(buf)@).nullable_string(flexible);
            &&& final(buf)@ == r.rest
            &&& match res {
                Ok(x) => r.failure is None && optional_text(x) == s,
                Err(e) => r.failure == Some(e),
            }
        }),
{
    match read_text_len(flexible, buf)? {
        None => Ok(None),
        Some(n) => {
            let bytes = read_raw(n, buf)?;
            match string_from_utf8(slice_to_vec(as_slice(&bytes))) {
                Some(text) => Ok(Some(text)),
                None => Err(KrafkaError::protocol("string is not valid UTF-8")),
            }
        },
    }
}

/// Reads a text; `what` names the field where it is null.
pub fn read_string(what: &'static str, flexible: bool, buf: &mut Bytes) -> (res: Result<String>)
    ensures
        decoded(result_view(res), final(buf)@, Reader::on(old(buf)@).string(what, flexible)),
{
    match read_nullable_string(flexible, buf)? {
        Some(text) => Ok(text),
        None => Err(
            KrafkaError::Protocol(
                ProtocolErrorKind::Malformed,
                Reason::Named(what, " must not be null"),
            ),
        ),
    }
}

/// Reads a text; `text` is the error where it is null.
pub fn read_present_string(text: &'static str, flexible: bool, buf: &mut Bytes) -> (res: Result<
    String,
>)
    ensures
        decoded(
            result_view(res),
            final(buf)@,
            Reader::on(old(buf)@).present_string(text, flexible),
        ),
{
    match read_nullable_string(flexible, buf)? {
        Some(s) => Ok(s),
        None => Err(KrafkaError::protocol(text)),
    }
}

/// Reads a text, where null stands for the empty one.
pub fn read_string_or_empty(flexible: bool, buf: &mut Bytes) -> (res: Result<String>)
    ensures
        decoded(result_view(res), final(buf)@, Reader::on(old(buf)@).string_or_empty(flexible)),
{
    match read_nullable_string(flexible, buf)? {
        Some(text) => Ok(text),
        None => Ok(String::new()),
    }
}

/// Reads a byte string or null.
pub fn read_nullable_bytes(flexible: bool, buf: &mut Bytes) -> (res: Result<Option<Bytes>>)
    ensures
        ({
            let (b, r) = Reader::on(old(buf)@).nullable_bytes(flexible);
            &&& final(buf)@ == r.rest
            &&& match res {
                Ok(x) => r.failure is None && optional_bytes(x) == b,
                Err(e) => r.failure == Some(e),
            }
        }),
{
    match read_bytes_len(flexible, buf)? {
        None => Ok(None),
        Some(n) => {
            let bytes = read_raw(n, buf)?;
            Ok(Some(bytes))
        },
    }
}

/// Reads a byte string; `what` names the field where it is null.
pub fn read_bytes(what: &'static str, flexible: bool, buf: &mut Bytes) -> (res: Result<Bytes>)
    ensures
        ({
            let (b, r) = Reader::on(old(buf)@).bytes(what, flexible);
            &&& final(buf)@ == r.rest
            &&& match res {
                Ok(x) => r.failure is None && x@ == b,
                Err(e) => r.failure == Some(e),
            }
        }),
{
    match read_nullable_bytes(flexible, buf)? {
        Some(bytes) => Ok(bytes),
        None => Err(
            KrafkaError::Protocol(
                ProtocolErrorKind::Malformed,
                Reason::Named(what, " must not be null"),
            ),
        ),
    }
}

/// Reads a byte string, where null stands for the empty one.
pub fn read_bytes_or_empty(flexible: bool, buf: &mut Bytes) -> (res: Result<Bytes>)
    ensures
        ({
            let (b, r) = Reader::on(old(buf)@).bytes_or_empty(flexible);
            &&& final(buf)@ == r.rest
            &&& match res {
                Ok(x) => r.failure is None && x@ == b,
                Err(e) => r.failure == Some(e),
            }
        }),
{
    match read_nullable_bytes(flexible, buf)? {
        Some(bytes) => Ok(bytes),
        None => Ok(no_bytes()),
    }
}

/// An array without elements.
pub fn no_items<T: View>() -> (items: Vec<T>)
    ensures
        views(items@) == Seq::<T::V>::empty(),
{
    let items: Vec<T> = Vec::new();
    assert(views(items@) =~= Seq::<T::V>::empty());
    items
}

/// Reads the number of elements of an array.
pub fn read_array_len(flexible: bool, buf: &mut Bytes) -> (res: Result<usize>)
    ensures
        ({
            let (n, r) = Reader::on(old(buf)@).array_len(flexible);
            &&& final(buf)@ == r.rest
            &&& match res {
                Ok(x) => r.failure is None && x == n,
                Err(e) => r.failure == Some(e),
            }
        }),
{
    if flexible {
        let n = decode_unsigned_varint(buf)?;
        if n == 0 {
            Ok(0)
        } else {
            Ok((n - 1) as usize)
        }
    } else {
        let n = read_i32(buf)?;
        if n < 0 {
            Err(
                KrafkaError::Protocol(
                    ProtocolErrorKind::InvalidLength,
                    Reason::Number("invalid array length: ", n as i64),
                ),
            )
        } else {
            Ok(n as usize)
        }
    }
}

/// Reads the number of elements of an array, or none where it is not there.
pub fn read_optional_array_len(flexible: bool, buf: &mut Bytes) -> (res: Result<Option<usize>>)
    ensures
        ({
            let (n, r) = Reader::on(old(buf)@).optional_array_len(flexible);
            &&& final(buf)@ == r.rest
            &&& match res {
                Ok(x) => r.failure is None && optional_len(x) == n,
                Err(e) => r.failure == Some(e),
            }
        }),
{
    if flexible {
        let n = decode_unsigned_varint(buf)?;
        if n == 0 {
            Ok(None)
        } else {
            Ok(Some((n - 1) as usize))
        }
    } else {
        let n = read_i32(buf)?;
        if n < -1 {
            Err(
                KrafkaError::Protocol(
                    ProtocolErrorKind::InvalidLength,
                    Reason::Number("invalid array length: ", n as i64),
                ),
            )
        } else if n == -1 {
            Ok(None)
        } else {
            Ok(Some(n as usize))
        }
    }
}

/// An error among the first elements is the error of the whole array.
proof fn lemma_items_failed<T: WireDecode>(r: Reader, f: Format, k: nat, n: nat)
    requires
        k <= n,
        r.items::<T>(f, k).1.failed(),
    ensures
        r.items::<T>(f, n).1 == r.items::<T>(f, k).1,
    decreases n,
{
    if k < n {
        lemma_items_failed::<T>(r, f, k, (n - 1) as nat);
    }
}

/// Reads the first `n` elements of an array.
pub fn read_items<T: WireDecode>(n: usize, f: Format, buf: &mut Bytes) -> (res: Result<Vec<T>>)
    ensures
        ({
            let (items, r) = Reader::on(old(buf)@).items::<T>(f, n as nat);
            &&& final(buf)@ == r.rest
            &&& match res {
                Ok(x) => r.failure is None && views(x@) == items,
                Err(e) => r.failure == Some(e),
            }
        }),
{
    let mut out: Vec<T> = Vec::new();
    let mut i: usize = 0;
    assert(views(out@) =~= Seq::<T::V>::empty());
    while i < n
        invariant
            i <= n,
            Reader::on(old(buf)@).items::<T>(f, i as nat) == (views(out@), Reader::on(buf@)),
        decreases n - i,
    {
        let ghost before = buf@;
        match T::decode_wire(f, buf) {
            Err(e) => {
                proof {
                    lemma_items_failed::<T>(
                        Reader::on(old(buf)@),
                        f,
                        (i + 1) as nat,
                        n as nat,
                    );
                }
                return Err(e);
            },
            Ok(item) => {
                let ghost seen = out@;
                out.push(item);
                assert(views(out@) =~= views(seen).push(item@));
                i = i + 1;
            },
        }
    }
    Ok(out)
}

/// Reads an array.
pub fn read_array<T: WireDecode>(f: Format, buf: &mut Bytes) -> (res: Result<Vec<T>>)
    ensures
        ({
            let (items, r) = Reader::on(old(buf)@).array::<T>(f);
            &&& final(buf)@ == r.rest
            &&& match res {
                Ok(x) => r.failure is None && views(x@) == items,
                Err(e) => r.failure == Some(e),
            }
        }),
{
    match read_array_len(f.flexible, buf) {
        Err(e) => Err(e),
        Ok(n) => read_items(n, f, buf),
    }
}

/// Reads an array, or none where it is not there.
pub fn read_optional_array<T: WireDecode>(f: Format, buf: &mut Bytes) -> (res: Result<
    Option<Vec<T>>,
>)
    ensures
        ({
            let (items, r) = Reader::on(old(buf)@).optional_array::<T>(f);
            &&& final(buf)@ == r.rest
            &&& match res {
                Ok(x) => r.failure is None && optional_views(x) == items,
                Err(e) => r.failure == Some(e),
            }
        }),
{
    match read_optional_array_len(f.flexible, buf) {
        Err(e) => Err(e),
        Ok(None) => Ok(None),
        Ok(Some(n)) => match read_items(n, f, buf) {
            Err(e) => Err(e),
            Ok(items) => Ok(Some(items)),
        },
    }
}

/// Reads an array, where one that is not there stands for the empty one.
pub fn read_array_or_empty<T: WireDecode>(f: Format, buf: &mut Bytes) -> (res: Result<Vec<T>>)
    ensures
        ({
            let (items, r) = Reader::on(old(buf)@).array_or_empty::<T>(f);
            &&& final(buf)@ == r.rest
            &&& match res {
                Ok(x) => r.failure is None && views(x@) == items,
                Err(e) => r.failure == Some(e),
            }
        }),
{
    match read_optional_array(f, buf) {
        Err(e) => Err(e),
        Ok(None) => {
            let none: Vec<T> = Vec::new();
            assert(views(none@) =~= Seq::<T::V>::empty());
            Ok(none)
        },
        Ok(Some(items)) => Ok(items),
    }
}

/// An error among the first texts is the error of the whole array.
proof fn lemma_string_items_failed(
    r: Reader,
    what: &'static str,
    flexible: bool,
    k: nat,
    n: nat,
)
    requires
        k <= n,
        r.string_items(what, flexible, k).1.failed(),
    ensures
        r.string_items(what, flexible, n).1 == r.string_items(what, flexible, k).1,
    decreases n,
{
    if k < n {
        lemma_string_items_failed(r, what, flexible, k, (n - 1) as nat);
    }
}

/// Reads an array of texts; `what` names an element where it is null.
pub fn read_string_array(what: &'static str, flexible: bool, buf: &mut Bytes) -> (res: Result<
    Vec<String>,
>)
    ensures
        ({
            let (items, r) = Reader::on(old(buf)@).string_array(what, flexible);
            &&& final(buf)@ == r.rest
            &&& match res {
                Ok(x) => r.failure is None && views(x@) == items,
                Err(e) => r.failure == Some(e),
            }
        }),
{
    let n = read_array_len(flexible, buf)?;
    let ghost start = buf@;
    let mut out: Vec<String> = Vec::new();
    let mut i: usize = 0;
    assert(views(out@) =~= Seq::<Seq<char>>::empty());
    while i < n
        invariant
            i <= n,
            Reader::on(old(buf)@).array_len(flexible) == (n as nat, Reader::on(start)),
            Reader::on(start).string_items(what, flexible, i as nat) == (
                views(out@),
                Reader::on(buf@),
            ),
        decreases n - i,
    {
        match read_string(what, flexible, buf) {
            Err(e) => {
                proof {
                    lemma_string_items_failed(
                        Reader::on(start),
                        what,
                        flexible,
                        (i + 1) as nat,
                        n as nat,
                    );
                }
                return Err(e);
            },
            Ok(item) => {
                let ghost seen = out@;
                out.push(item);
                assert(views(out@) =~= views(seen).push(item@));
                i = i + 1;
            },
        }
    }
    Ok(out)
}

/// An error among the first tagged fields is the error of the whole section.
proof fn lemma_tagged_items_failed(r: Reader, k: nat, n: nat)
    requires
        k <= n,
        r.tagged_items(k).1.failed(),
    ensures
        r.tagged_items(n).1 == r.tagged_items(k).1,
    decreases n,
{
    if k < n {
        lemma_tagged_items_failed(r, k, (n - 1) as nat);
    }
}

/// A field that is identified by a number.
#[derive(Debug, Clone)]
pub struct TaggedField {
    /// The tag.
    pub tag: u32,
    /// The content.
    pub data: Bytes,
}

impl View for TaggedField {
    type V = (u32, Seq<u8>);

    open spec fn view(&self) -> (u32, Seq<u8>) {
        (self.tag, self.data@)
    }
}

/// Reads a section of tagged fields.
pub fn read_tagged_fields(buf: &mut Bytes) -> (res: Result<Vec<TaggedField>>)
    ensures
        ({
            let (items, r) = Reader::on(old(buf)@).tagged_fields();
            &&& final(buf)@ == r.rest
            &&& match res {
                Ok(x) => r.failure is None && views(x@) == items,
                Err(e) => r.failure == Some(e),
            }
        }),
{
    let n = decode_unsigned_varint(buf)?;
    let ghost start = buf@;
    let mut out: Vec<TaggedField> = Vec::new();
    let mut i: u32 = 0;
    assert(views(out@) =~= Seq::<(u32, Seq<u8>)>::empty());
    while i < n
        invariant
            i <= n,
            Reader::on(old(buf)@).varint() == (n, Reader::on(start)),
            Reader::on(start).tagged_items(i as nat) == (views(out@), Reader::on(buf@)),
        decreases n - i,
    {
        match read_tagged_field(buf) {
            Err(e) => {
                proof {
                    lemma_tagged_items_failed(Reader::on(start), (i + 1) as nat, n as nat);
                }
                return Err(e);
            },
            Ok(item) => {
                let ghost seen = out@;
                out.push(item);
                assert(views(out@) =~= views(seen).push(item@));
                i = i + 1;
            },
        }
    }
    Ok(out)
}

/// Reads one tagged field.
pub fn read_tagged_field(buf: &mut Bytes) -> (res: Result<TaggedField>)
    ensures
        decoded(result_view(res), final(buf)@, Reader::on(old(buf)@).tagged_field()),
{
    let tag = decode_unsigned_varint(buf)?;
    let n = decode_unsigned_varint(buf)?;
    let data = read_raw(n as usize, buf)?;
    Ok(TaggedField { tag, data })
}

/// Reads the section of tagged fields that ends a structure in the flexible
/// formats.
pub fn read_tags(flexible: bool, buf: &mut Bytes) -> (res: Result<()>)
    ensures
        ({
            let r = Reader::on(old(buf)@).tags(flexible);
            &&& final(buf)@ == r.rest
            &&& match res {
                Ok(_) => r.failure is None,
                Err(e) => r.failure == Some(e),
            }
        }),
{
    if flexible {
        read_tagged_fields(buf)?;
    }
    Ok(())
}

impl WireDecode for i32 {
    open spec fn read(f: Format, r: Reader) -> (i32, Reader) {
        r.i32()
    }

    fn decode_wire(f: Format, buf: &mut Bytes) -> (res: Result<i32>) {
        read_i32(buf)
    }

    proof fn law_consumes(f: Format, r: Reader) {
        broadcast use group_consumes;

    }

    proof fn law_ignores_what_follows(f: Format, r: Reader, more: Seq<u8>) {
        broadcast use group_consumes, group_followed;

    }

    proof fn law_needs_only_what_it_takes(f: Format, r: Reader, k: nat) {
        broadcast use group_consumes, group_cut;

    }
}

impl WireDecode for i8 {
    open spec fn read(f: Format, r: Reader) -> (i8, Reader) {
        r.i8()
    }

    fn decode_wire(f: Format, buf: &mut Bytes) -> (res: Result<i8>) {
        read_i8(buf)
    }

    proof fn law_consumes(f: Format, r: Reader) {
        broadcast use group_consumes;

    }

    proof fn law_ignores_what_follows(f: Format, r: Reader, more: Seq<u8>) {
        broadcast use group_consumes, group_followed;

    }

    proof fn law_needs_only_what_it_takes(f: Format, r: Reader, k: nat) {
        broadcast use group_consumes, group_cut;

    }
}

impl WireDecode for i16 {
    open spec fn read(f: Format, r: Reader) -> (i16, Reader) {
        r.i16()
    }

    fn decode_wire(f: Format, buf: &mut Bytes) -> (res: Result<i16>) {
        read_i16(buf)
    }

    proof fn law_consumes(f: Format, r: Reader) {
        broadcast use group_consumes;

    }

    proof fn law_ignores_what_follows(f: Format, r: Reader, more: Seq<u8>) {
        broadcast use group_consumes, group_followed;

    }

    proof fn law_needs_only_what_it_takes(f: Format, r: Reader, k: nat) {
        broadcast use group_consumes, group_cut;

    }
}

impl WireDecode for i64 {
    open spec fn read(f: Format, r: Reader) -> (i64, Reader) {
        r.i64()
    }

    fn decode_wire(f: Format, buf: &mut Bytes) -> (res: Result<i64>) {
        read_i64(buf)
    }

    proof fn law_consumes(f: Format, r: Reader) {
        broadcast use group_consumes;

    }

    proof fn law_ignores_what_follows(f: Format, r: Reader, more: Seq<u8>) {
        broadcast use group_consumes, group_followed;

    }

    proof fn law_needs_only_what_it_takes(f: Format, r: Reader, k: nat) {
        broadcast use group_consumes, group_cut;

    }
}

impl WireDecode for bool {
    open spec fn read(f: Format, r: Reader) -> (bool, Reader) {
        r.bool()
    }

    fn decode_wire(f: Format, buf: &mut Bytes) -> (res: Result<bool>) {
        read_bool(buf)
    }

    proof fn law_consumes(f: Format, r: Reader) {
        broadcast use group_consumes;

    }

    proof fn law_ignores_what_follows(f: Format, r: Reader, more: Seq<u8>) {
        broadcast use group_consumes, group_followed;

    }

    proof fn law_needs_only_what_it_takes(f: Format, r: Reader, k: nat) {
        broadcast use group_consumes, group_cut;

    }
}

/// Whether reading took bytes off the front and stayed at the first error.
#[verifier::opaque]
pub open spec fn consumes(before: Reader, after: Reader) -> bool {
    &&& after.rest.len() <= before.rest.len()
    &&& after.rest == before.rest.skip(before.rest.len() - after.rest.len())
    &&& before.failed() ==> after == before
}

/// Nothing read leaves everything.
pub broadcast proof fn lemma_consumes_nothing(r: Reader)
    ensures
        #[trigger] consumes(r, r),
{
    reveal(consumes);
    assert(r.rest.skip(0) =~= r.rest);
}

/// What holds of two steps holds of both.
pub broadcast proof fn lemma_consumes_in_turn(a: Reader, b: Reader, c: Reader)
    requires
        #[trigger] consumes(a, b),
        #[trigger] consumes(b, c),
    ensures
        consumes(a, c),
{
    reveal(consumes);
    assert(c.rest =~= a.rest.skip(a.rest.len() - c.rest.len()));
}

/// Bytes are taken off the front.
proof fn lemma_advance_consumes(r: Reader, n: nat)
    requires
        !r.failed(),
        n <= r.rest.len(),
    ensures
        consumes(r, r.advance(n)),
{
    reveal(consumes);
}

/// An error takes nothing.
pub broadcast proof fn lemma_raise_consumes(r: Reader, e: KrafkaError)
    ensures
        consumes(r, #[trigger] r.raise(e)),
{
    lemma_consumes_nothing(r);
    reveal(consumes);
}

/// Bytes are taken off the front.
pub broadcast proof fn lemma_raw_consumes(r: Reader, n: nat)
    ensures
        consumes(r, (#[trigger] r.raw(n)).1),
{
    broadcast use lemma_consumes_nothing, lemma_raise_consumes;

    if !r.failed() && r.rest.len() >= n {
        lemma_advance_consumes(r, n);
    }
}

/// An identifier is taken off the front.
pub broadcast proof fn lemma_uuid_consumes(r: Reader)
    ensures
        consumes(r, (#[trigger] r.uuid()).1),
{
    broadcast use lemma_consumes_nothing, lemma_raise_consumes;

    if !r.failed() && r.rest.len() >= 16 {
        lemma_advance_consumes(r, 16);
    }
}

/// A number is taken off the front.
pub broadcast proof fn lemma_i8_consumes(r: Reader)
    ensures
        consumes(r, (#[trigger] r.i8()).1),
{
    broadcast use lemma_consumes_nothing, lemma_raise_consumes;

    if !r.failed() && r.rest.len() >= 1 {
        lemma_advance_consumes(r, 1);
    }
}

/// A number is taken off the front.
pub broadcast proof fn lemma_i16_consumes(r: Reader)
    ensures
        consumes(r, (#[trigger] r.i16()).1),
{
    broadcast use lemma_consumes_nothing, lemma_raise_consumes;

    if !r.failed() && r.rest.len() >= 2 {
        lemma_advance_consumes(r, 2);
    }
}

/// A number is taken off the front.
pub broadcast proof fn lemma_i32_consumes(r: Reader)
    ensures
        consumes(r, (#[trigger] r.i32()).1),
{
    broadcast use lemma_consumes_nothing, lemma_raise_consumes;

    if !r.failed() && r.rest.len() >= 4 {
        lemma_advance_consumes(r, 4);
    }
}

/// A number is taken off the front.
pub broadcast proof fn lemma_i64_consumes(r: Reader)
    ensures
        consumes(r, (#[trigger] r.i64()).1),
{
    broadcast use lemma_consumes_nothing, lemma_raise_consumes;

    if !r.failed() && r.rest.len() >= 8 {
        lemma_advance_consumes(r, 8);
    }
}

/// The rest of a varint is taken off the front.
proof fn lemma_varint_tail_consumes(r: Reader, count: nat, scale: nat, sum: nat)
    ensures
        consumes(r, r.varint_tail(count, scale, sum).1),
    decreases 5 - count,
{
    broadcast use lemma_consumes_nothing, lemma_consumes_in_turn, lemma_raise_consumes;

    if !r.failed() && count < 5 && r.rest.len() > 0 {
        lemma_advance_consumes(r, 1);
        let b = r.rest[0];
        let total = sum + (b % 0x80) as nat * scale;
        lemma_varint_tail_consumes(r.advance(1), count + 1, scale * 0x80, total);
    }
}

/// A varint is taken off the front.
pub broadcast proof fn lemma_varint_consumes(r: Reader)
    ensures
        consumes(r, (#[trigger] r.varint()).1),
{
    lemma_varint_tail_consumes(r, 0, 1, 0);
}

/// A check of the length takes nothing.
pub broadcast proof fn lemma_need_consumes(r: Reader, n: nat, text: &'static str)
    ensures
        consumes(r, #[trigger] r.need(n, text)),
{
    broadcast use lemma_consumes_nothing, lemma_raise_consumes;

}

/// A text is taken off the front.
pub broadcast proof fn lemma_string_consumes(r: Reader, flexible: bool)
    ensures
        consumes(r, (#[trigger] r.nullable_string(flexible)).1),
{
    broadcast use
        lemma_consumes_nothing,
        lemma_consumes_in_turn,
        lemma_raise_consumes,
        lemma_raw_consumes,
        lemma_i16_consumes,
        lemma_varint_consumes,
    ;

}

/// A byte string is taken off the front.
pub broadcast proof fn lemma_bytes_consume(r: Reader, flexible: bool)
    ensures
        consumes(r, (#[trigger] r.nullable_bytes(flexible)).1),
{
    broadcast use
        lemma_consumes_nothing,
        lemma_consumes_in_turn,
        lemma_raise_consumes,
        lemma_raw_consumes,
        lemma_i32_consumes,
        lemma_varint_consumes,
    ;

}

/// A number of elements is taken off the front.
pub broadcast proof fn lemma_array_len_consumes(r: Reader, flexible: bool)
    ensures
        consumes(r, (#[trigger] r.array_len(flexible)).1),
{
    broadcast use
        lemma_consumes_in_turn,
        lemma_raise_consumes,
        lemma_i32_consumes,
        lemma_varint_consumes,
    ;

}

/// A number of elements or none is taken off the front.
pub broadcast proof fn lemma_optional_array_len_consumes(r: Reader, flexible: bool)
    ensures
        consumes(r, (#[trigger] r.optional_array_len(flexible)).1),
{
    broadcast use
        lemma_consumes_in_turn,
        lemma_raise_consumes,
        lemma_i32_consumes,
        lemma_varint_consumes,
    ;

}

/// Elements are taken off the front.
pub broadcast proof fn lemma_items_consume<T: WireDecode>(r: Reader, f: Format, n: nat)
    ensures
        consumes(r, (#[trigger] r.items::<T>(f, n)).1),
    decreases n,
{
    broadcast use lemma_consumes_nothing, lemma_consumes_in_turn;

    if n > 0 && !r.failed() {
        lemma_items_consume::<T>(r, f, (n - 1) as nat);
        T::law_consumes(f, r.items::<T>(f, (n - 1) as nat).1);
    }
}

/// Texts are taken off the front.
pub broadcast proof fn lemma_string_items_consume(
    r: Reader,
    what: &'static str,
    flexible: bool,
    n: nat,
)
    ensures
        consumes(r, (#[trigger] r.string_items(what, flexible, n)).1),
    decreases n,
{
    broadcast use
        lemma_consumes_nothing,
        lemma_consumes_in_turn,
        lemma_raise_consumes,
        lemma_string_consumes,
    ;

    if n > 0 && !r.failed() {
        lemma_string_items_consume(r, what, flexible, (n - 1) as nat);
    }
}

/// Tagged fields are taken off the front.
proof fn lemma_tagged_items_consume(r: Reader, n: nat)
    ensures
        consumes(r, r.tagged_items(n).1),
    decreases n,
{
    broadcast use
        lemma_consumes_nothing,
        lemma_consumes_in_turn,
        lemma_raw_consumes,
        lemma_varint_consumes,
    ;

    if n > 0 && !r.failed() {
        lemma_tagged_items_consume(r, (n - 1) as nat);
    }
}

/// A section of tagged fields is taken off the front.
pub broadcast proof fn lemma_tagged_fields_consume(r: Reader)
    ensures
        consumes(r, (#[trigger] r.tagged_fields()).1),
{
    broadcast use lemma_consumes_in_turn, lemma_varint_consumes;

    let (n, after) = r.varint();
    lemma_tagged_items_consume(after, n as nat);
}

/// A structure is taken off the front.
pub broadcast proof fn lemma_one_consumes<T: WireDecode>(r: Reader, f: Format)
    ensures
        consumes(r, (#[trigger] r.one::<T>(f)).1),
{
    broadcast use lemma_consumes_nothing;

    T::law_consumes(f, r);
}

/// That reading takes bytes off the front.
pub broadcast group group_consumes {
    lemma_consumes_nothing,
    lemma_consumes_in_turn,
    lemma_raise_consumes,
    lemma_raw_consumes,
    lemma_uuid_consumes,
    lemma_i8_consumes,
    lemma_i16_consumes,
    lemma_i32_consumes,
    lemma_i64_consumes,
    lemma_varint_consumes,
    lemma_need_consumes,
    lemma_string_consumes,
    lemma_bytes_consume,
    lemma_array_len_consumes,
    lemma_optional_array_len_consumes,
    lemma_items_consume,
    lemma_string_items_consume,
    lemma_tagged_fields_consume,
    lemma_one_consumes,
}

/// What follows bytes changes nothing of them.
pub broadcast proof fn lemma_raw_followed(r: Reader, n: nat, more: Seq<u8>)
    requires
        !r.raw(n).1.failed(),
    ensures
        #[trigger] r.followed_by(more).raw(n) == (r.raw(n).0, r.raw(n).1.followed_by(more)),
{
    assert((r.rest + more).take(n as int) =~= r.rest.take(n as int));
    assert((r.rest + more).skip(n as int) =~= r.rest.skip(n as int) + more);
}

/// What follows an identifier changes nothing of it.
pub broadcast proof fn lemma_uuid_followed(r: Reader, more: Seq<u8>)
    requires
        !r.uuid().1.failed(),
    ensures
        #[trigger] r.followed_by(more).uuid() == (r.uuid().0, r.uuid().1.followed_by(more)),
{
    assert((r.rest + more).take(16) =~= r.rest.take(16));
    assert((r.rest + more).skip(16) =~= r.rest.skip(16) + more);
}

/// What follows a number changes nothing of it.
pub broadcast proof fn lemma_i8_followed(r: Reader, more: Seq<u8>)
    requires
        !r.i8().1.failed(),
    ensures
        #[trigger] r.followed_by(more).i8() == (r.i8().0, r.i8().1.followed_by(more)),
{
    assert((r.rest + more).skip(1) =~= r.rest.skip(1) + more);
}

/// What follows a number changes nothing of it.
pub broadcast proof fn lemma_i16_followed(r: Reader, more: Seq<u8>)
    requires
        !r.i16().1.failed(),
    ensures
        #[trigger] r.followed_by(more).i16() == (r.i16().0, r.i16().1.followed_by(more)),
{
    assert((r.rest + more).skip(2) =~= r.rest.skip(2) + more);
}

/// What follows a number changes nothing of it.
pub broadcast proof fn lemma_i32_followed(r: Reader, more: Seq<u8>)
    requires
        !r.i32().1.failed(),
    ensures
        #[trigger] r.followed_by(more).i32() == (r.i32().0, r.i32().1.followed_by(more)),
{
    assert((r.rest + more).skip(4) =~= r.rest.skip(4) + more);
}

/// What follows a number changes nothing of it.
pub broadcast proof fn lemma_i64_followed(r: Reader, more: Seq<u8>)
    requires
        !r.i64().1.failed(),
    ensures
        #[trigger] r.followed_by(more).i64() == (r.i64().0, r.i64().1.followed_by(more)),
{
    assert((r.rest + more).skip(8) =~= r.rest.skip(8) + more);
}

/// What follows a varint changes nothing of it.
proof fn lemma_varint_tail_followed(
    r: Reader,
    count: nat,
    scale: nat,
    sum: nat,
    more: Seq<u8>,
)
    requires
        !r.varint_tail(count, scale, sum).1.failed(),
    ensures
        r.followed_by(more).varint_tail(count, scale, sum) == (
            r.varint_tail(count, scale, sum).0,
            r.varint_tail(count, scale, sum).1.followed_by(more),
        ),
    decreases 5 - count,
{
    if count < 5 && r.rest.len() > 0 {
        assert((r.rest + more).skip(1) =~= r.rest.skip(1) + more);
        let b = r.rest[0];
        if b >= 0x80 {
            let total = sum + (b % 0x80) as nat * scale;
            lemma_varint_tail_followed(r.advance(1), count + 1, scale * 0x80, total, more);
        }
    }
}

/// What follows a varint changes nothing of it.
pub broadcast proof fn lemma_varint_followed(r: Reader, more: Seq<u8>)
    requires
        !r.varint().1.failed(),
    ensures
        #[trigger] r.followed_by(more).varint() == (r.varint().0, r.varint().1.followed_by(more)),
{
    lemma_varint_tail_followed(r, 0, 1, 0, more);
}

/// What follows changes nothing of a check of the length that holds.
pub broadcast proof fn lemma_need_followed(r: Reader, n: nat, text: &'static str, more: Seq<u8>)
    requires
        !r.need(n, text).failed(),
    ensures
        #[trigger] r.followed_by(more).need(n, text) == r.need(n, text).followed_by(more),
{
}

/// What follows a text changes nothing of it.
pub broadcast proof fn lemma_string_followed(r: Reader, flexible: bool, more: Seq<u8>)
    requires
        !r.nullable_string(flexible).1.failed(),
    ensures
        #[trigger] r.followed_by(more).nullable_string(flexible)
            == (r.nullable_string(flexible).0, r.nullable_string(flexible).1.followed_by(more)),
{
    broadcast use
        lemma_raw_followed,
        lemma_i16_followed,
        lemma_i32_followed,
        lemma_varint_followed,
        group_consumes,
    ;

    reveal(consumes);
}

/// What follows a byte string changes nothing of it.
pub broadcast proof fn lemma_bytes_followed(r: Reader, flexible: bool, more: Seq<u8>)
    requires
        !r.nullable_bytes(flexible).1.failed(),
    ensures
        #[trigger] r.followed_by(more).nullable_bytes(flexible)
            == (r.nullable_bytes(flexible).0, r.nullable_bytes(flexible).1.followed_by(more)),
{
    broadcast use
        lemma_raw_followed,
        lemma_i16_followed,
        lemma_i32_followed,
        lemma_varint_followed,
        group_consumes,
    ;

    reveal(consumes);
}

/// What follows a length changes nothing of it.
pub broadcast proof fn lemma_array_len_followed(r: Reader, flexible: bool, more: Seq<u8>)
    requires
        !r.array_len(flexible).1.failed(),
    ensures
        #[trigger] r.followed_by(more).array_len(flexible)
            == (r.array_len(flexible).0, r.array_len(flexible).1.followed_by(more)),
{
    broadcast use
        lemma_raw_followed,
        lemma_i16_followed,
        lemma_i32_followed,
        lemma_varint_followed,
        group_consumes,
    ;

    reveal(consumes);
}

/// What follows a length changes nothing of it.
pub broadcast proof fn lemma_optional_array_len_followed(r: Reader, flexible: bool, more: Seq<u8>)
    requires
        !r.optional_array_len(flexible).1.failed(),
    ensures
        #[trigger] r.followed_by(more).optional_array_len(flexible)
            == (
            r.optional_array_len(flexible).0,
            r.optional_array_len(flexible).1.followed_by(more),
        ),
{
    broadcast use
        lemma_raw_followed,
        lemma_i16_followed,
        lemma_i32_followed,
        lemma_varint_followed,
        group_consumes,
    ;

    reveal(consumes);
}

/// What follows elements changes nothing of them.
pub broadcast proof fn lemma_items_followed<T: WireDecode>(
    r: Reader,
    f: Format,
    n: nat,
    more: Seq<u8>,
)
    requires
        !r.items::<T>(f, n).1.failed(),
    ensures
        #[trigger] r.followed_by(more).items::<T>(f, n)
            == (r.items::<T>(f, n).0, r.items::<T>(f, n).1.followed_by(more)),
    decreases n,
{
    broadcast use group_consumes;

    reveal(consumes);
    if n > 0 && !r.failed() {
        let before = r.items::<T>(f, (n - 1) as nat).1;
        lemma_items_followed::<T>(r, f, (n - 1) as nat, more);
        T::law_ignores_what_follows(f, before, more);
    }
}

/// What follows texts changes nothing of them.
pub broadcast proof fn lemma_string_items_followed(
    r: Reader,
    what: &'static str,
    flexible: bool,
    n: nat,
    more: Seq<u8>,
)
    requires
        !r.string_items(what, flexible, n).1.failed(),
    ensures
        #[trigger] r.followed_by(more).string_items(what, flexible, n)
            == (
            r.string_items(what, flexible, n).0,
            r.string_items(what, flexible, n).1.followed_by(more),
        ),
    decreases n,
{
    broadcast use lemma_string_followed, group_consumes;

    reveal(consumes);
    if n > 0 && !r.failed() {
        lemma_string_items_followed(r, what, flexible, (n - 1) as nat, more);
    }
}

/// What follows tagged fields changes nothing of them.
proof fn lemma_tagged_items_followed(r: Reader, n: nat, more: Seq<u8>)
    requires
        !r.tagged_items(n).1.failed(),
    ensures
        r.followed_by(more).tagged_items(n) == (
            r.tagged_items(n).0,
            r.tagged_items(n).1.followed_by(more),
        ),
    decreases n,
{
    broadcast use lemma_varint_followed, lemma_raw_followed, group_consumes;

    reveal(consumes);
    if n > 0 && !r.failed() {
        lemma_tagged_items_followed(r, (n - 1) as nat, more);
    }
}

/// What follows tagged fields changes nothing of them.
pub broadcast proof fn lemma_tagged_fields_followed(r: Reader, more: Seq<u8>)
    requires
        !r.tagged_fields().1.failed(),
    ensures
        #[trigger] r.followed_by(more).tagged_fields()
            == (r.tagged_fields().0, r.tagged_fields().1.followed_by(more)),
{
    broadcast use lemma_varint_followed, group_consumes;

    reveal(consumes);
    let (n, after) = r.varint();
    lemma_tagged_items_consume(after, n as nat);
    lemma_tagged_items_followed(after, n as nat, more);
}

/// What follows a structure changes nothing of it.
pub broadcast proof fn lemma_one_followed<T: WireDecode>(r: Reader, f: Format, more: Seq<u8>)
    requires
        !r.one::<T>(f).1.failed(),
    ensures
        #[trigger] r.followed_by(more).one::<T>(f)
            == (r.one::<T>(f).0, r.one::<T>(f).1.followed_by(more)),
{
    T::law_ignores_what_follows(f, r, more);
}

/// An error is kept through whatever is read behind it.
pub broadcast proof fn lemma_failure_stays(before: Reader, after: Reader)
    requires
        #[trigger] consumes(before, after),
    ensures
        before.failed() ==> after.failed(),
{
    reveal(consumes);
}

/// That what follows changes nothing of what is read.
pub broadcast group group_followed {
    lemma_raw_followed,
    lemma_uuid_followed,
    lemma_i8_followed,
    lemma_i16_followed,
    lemma_i32_followed,
    lemma_i64_followed,
    lemma_varint_followed,
    lemma_need_followed,
    lemma_string_followed,
    lemma_bytes_followed,
    lemma_array_len_followed,
    lemma_optional_array_len_followed,
    lemma_items_followed,
    lemma_string_items_followed,
    lemma_tagged_fields_followed,
    lemma_one_followed,
    lemma_failure_stays,
}

/// Bytes need only the bytes that they take.
pub broadcast proof fn lemma_raw_cut(r: Reader, n: nat, k: nat)
    requires
        !r.raw(n).1.failed(),
        k <= r.raw(n).1.rest.len(),
    ensures
        #[trigger] r.cut(k).raw(n) == (r.raw(n).0, r.raw(n).1.cut(k)),
{
    assert(r.cut(k).rest.take(n as int) =~= r.rest.take(n as int));
    assert(r.cut(k).rest.skip(n as int) =~= r.advance(n).cut(k).rest);
}

/// An identifier needs only the bytes that it takes.
pub broadcast proof fn lemma_uuid_cut(r: Reader, k: nat)
    requires
        !r.uuid().1.failed(),
        k <= r.uuid().1.rest.len(),
    ensures
        #[trigger] r.cut(k).uuid() == (r.uuid().0, r.uuid().1.cut(k)),
{
    assert(r.cut(k).rest.take(16) =~= r.rest.take(16));
    assert(r.cut(k).rest.skip(16) =~= r.advance(16).cut(k).rest);
}

/// A number needs only the bytes that it takes.
pub broadcast proof fn lemma_i8_cut(r: Reader, k: nat)
    requires
        !r.i8().1.failed(),
        k <= r.i8().1.rest.len(),
    ensures
        #[trigger] r.cut(k).i8() == (r.i8().0, r.i8().1.cut(k)),
{
    assert(r.cut(k).rest.skip(1) =~= r.advance(1).cut(k).rest);
}

/// A number needs only the bytes that it takes.
pub broadcast proof fn lemma_i16_cut(r: Reader, k: nat)
    requires
        !r.i16().1.failed(),
        k <= r.i16().1.rest.len(),
    ensures
        #[trigger] r.cut(k).i16() == (r.i16().0, r.i16().1.cut(k)),
{
    assert(r.cut(k).rest.skip(2) =~= r.advance(2).cut(k).rest);
}

/// A number needs only the bytes that it takes.
pub broadcast proof fn lemma_i32_cut(r: Reader, k: nat)
    requires
        !r.i32().1.failed(),
        k <= r.i32().1.rest.len(),
    ensures
        #[trigger] r.cut(k).i32() == (r.i32().0, r.i32().1.cut(k)),
{
    assert(r.cut(k).rest.skip(4) =~= r.advance(4).cut(k).rest);
}

/// A number needs only the bytes that it takes.
pub broadcast proof fn lemma_i64_cut(r: Reader, k: nat)
    requires
        !r.i64().1.failed(),
        k <= r.i64().1.rest.len(),
    ensures
        #[trigger] r.cut(k).i64() == (r.i64().0, r.i64().1.cut(k)),
{
    assert(r.cut(k).rest.skip(8) =~= r.advance(8).cut(k).rest);
}

/// A varint needs only the bytes that it takes.
proof fn lemma_varint_tail_cut(
    r: Reader,
    count: nat,
    scale: nat,
    sum: nat,
    k: nat,
)
    requires
        !r.varint_tail(count, scale, sum).1.failed(),
        k <= r.varint_tail(count, scale, sum).1.rest.len(),
    ensures
        r.cut(k).varint_tail(count, scale, sum) == (
            r.varint_tail(count, scale, sum).0,
            r.varint_tail(count, scale, sum).1.cut(k),
        ),
    decreases 5 - count,
{
    if count < 5 && r.rest.len() > 0 {
        let b = r.rest[0];
        let total = sum + (b % 0x80) as nat * scale;
        lemma_varint_tail_consumes(r.advance(1), count + 1, scale * 0x80, total);
        reveal(consumes);
        assert(r.cut(k).rest.skip(1) =~= r.advance(1).cut(k).rest);
        if b >= 0x80 {
            lemma_varint_tail_cut(r.advance(1), count + 1, scale * 0x80, total, k);
        }
    }
}

/// A varint needs only the bytes that it takes.
pub broadcast proof fn lemma_varint_cut(r: Reader, k: nat)
    requires
        !r.varint().1.failed(),
        k <= r.varint().1.rest.len(),
    ensures
        #[trigger] r.cut(k).varint() == (r.varint().0, r.varint().1.cut(k)),
{
    lemma_varint_tail_cut(r, 0, 1, 0, k);
}

/// A check of the length holds of fewer bytes, as long as enough are left.
pub broadcast proof fn lemma_need_cut(r: Reader, n: nat, text: &'static str, k: nat)
    requires
        !r.need(n, text).failed(),
        n + k <= r.rest.len(),
    ensures
        #[trigger] r.cut(k).need(n, text) == r.need(n, text).cut(k),
{
}

/// A text needs only the bytes that it takes.
pub broadcast proof fn lemma_string_cut(r: Reader, flexible: bool, k: nat)
    requires
        !r.nullable_string(flexible).1.failed(),
        k <= r.nullable_string(flexible).1.rest.len(),
    ensures
        #[trigger] r.cut(k).nullable_string(flexible)
            == (r.nullable_string(flexible).0, r.nullable_string(flexible).1.cut(k)),
{
    broadcast use
        lemma_raw_cut,
        lemma_i16_cut,
        lemma_i32_cut,
        lemma_varint_cut,
        group_consumes,
    ;

    reveal(consumes);
}

/// A byte string needs only the bytes that it takes.
pub broadcast proof fn lemma_bytes_cut(r: Reader, flexible: bool, k: nat)
    requires
        !r.nullable_bytes(flexible).1.failed(),
        k <= r.nullable_bytes(flexible).1.rest.len(),
    ensures
        #[trigger] r.cut(k).nullable_bytes(flexible)
            == (r.nullable_bytes(flexible).0, r.nullable_bytes(flexible).1.cut(k)),
{
    broadcast use
        lemma_raw_cut,
        lemma_i16_cut,
        lemma_i32_cut,
        lemma_varint_cut,
        group_consumes,
    ;

    reveal(consumes);
}

/// A length needs only the bytes that it takes.
pub broadcast proof fn lemma_array_len_cut(r: Reader, flexible: bool, k: nat)
    requires
        !r.array_len(flexible).1.failed(),
        k <= r.array_len(flexible).1.rest.len(),
    ensures
        #[trigger] r.cut(k).array_len(flexible)
            == (r.array_len(flexible).0, r.array_len(flexible).1.cut(k)),
{
    broadcast use
        lemma_raw_cut,
        lemma_i16_cut,
        lemma_i32_cut,
        lemma_varint_cut,
        group_consumes,
    ;

    reveal(consumes);
}

/// A length needs only the bytes that it takes.
pub broadcast proof fn lemma_optional_array_len_cut(r: Reader, flexible: bool, k: nat)
    requires
        !r.optional_array_len(flexible).1.failed(),
        k <= r.optional_array_len(flexible).1.rest.len(),
    ensures
        #[trigger] r.cut(k).optional_array_len(flexible)
            == (
            r.optional_array_len(flexible).0,
            r.optional_array_len(flexible).1.cut(k),
        ),
{
    broadcast use
        lemma_raw_cut,
        lemma_i16_cut,
        lemma_i32_cut,
        lemma_varint_cut,
        group_consumes,
    ;

    reveal(consumes);
}

/// Elements need only the bytes that they take.
pub broadcast proof fn lemma_items_cut<T: WireDecode>(
    r: Reader,
    f: Format,
    n: nat,
    k: nat,
)
    requires
        !r.items::<T>(f, n).1.failed(),
        k <= r.items::<T>(f, n).1.rest.len(),
    ensures
        #[trigger] r.cut(k).items::<T>(f, n)
            == (r.items::<T>(f, n).0, r.items::<T>(f, n).1.cut(k)),
    decreases n,
{
    broadcast use group_consumes;

    reveal(consumes);
    if n > 0 && !r.failed() {
        let before = r.items::<T>(f, (n - 1) as nat).1;
        T::law_consumes(f, before);
        lemma_items_cut::<T>(r, f, (n - 1) as nat, k);
        T::law_needs_only_what_it_takes(f, before, k);
    }
}

/// Texts need only the bytes that they take.
pub broadcast proof fn lemma_string_items_cut(
    r: Reader,
    what: &'static str,
    flexible: bool,
    n: nat,
    k: nat,
)
    requires
        !r.string_items(what, flexible, n).1.failed(),
        k <= r.string_items(what, flexible, n).1.rest.len(),
    ensures
        #[trigger] r.cut(k).string_items(what, flexible, n)
            == (
            r.string_items(what, flexible, n).0,
            r.string_items(what, flexible, n).1.cut(k),
        ),
    decreases n,
{
    broadcast use lemma_string_cut, group_consumes;

    reveal(consumes);
    if n > 0 && !r.failed() {
        lemma_string_items_cut(r, what, flexible, (n - 1) as nat, k);
    }
}

/// Tagged fields need only the bytes that they take.
proof fn lemma_tagged_items_cut(r: Reader, n: nat, k: nat)
    requires
        !r.tagged_items(n).1.failed(),
        k <= r.tagged_items(n).1.rest.len(),
    ensures
        r.cut(k).tagged_items(n) == (
            r.tagged_items(n).0,
            r.tagged_items(n).1.cut(k),
        ),
    decreases n,
{
    broadcast use lemma_varint_cut, lemma_raw_cut, group_consumes;

    reveal(consumes);
    if n > 0 && !r.failed() {
        lemma_tagged_items_cut(r, (n - 1) as nat, k);
    }
}

/// Tagged fields need only the bytes that they take.
pub broadcast proof fn lemma_tagged_fields_cut(r: Reader, k: nat)
    requires
        !r.tagged_fields().1.failed(),
        k <= r.tagged_fields().1.rest.len(),
    ensures
        #[trigger] r.cut(k).tagged_fields()
            == (r.tagged_fields().0, r.tagged_fields().1.cut(k)),
{
    broadcast use lemma_varint_cut, group_consumes;

    reveal(consumes);
    let (n, after) = r.varint();
    lemma_tagged_items_consume(after, n as nat);
    lemma_tagged_items_cut(after, n as nat, k);
}

/// A structure needs only the bytes that it takes.
pub broadcast proof fn lemma_one_cut<T: WireDecode>(r: Reader, f: Format, k: nat)
    requires
        !r.one::<T>(f).1.failed(),
        k <= r.one::<T>(f).1.rest.len(),
    ensures
        #[trigger] r.cut(k).one::<T>(f)
            == (r.one::<T>(f).0, r.one::<T>(f).1.cut(k)),
{
    T::law_needs_only_what_it_takes(f, r, k);
}

/// Reading adds no bytes.
pub broadcast proof fn lemma_no_more_left(before: Reader, after: Reader)
    requires
        #[trigger] consumes(before, after),
    ensures
        after.rest.len() <= before.rest.len(),
{
    reveal(consumes);
}

/// That reading needs only the bytes that it takes.
pub broadcast group group_cut {
    lemma_raw_cut,
    lemma_uuid_cut,
    lemma_i8_cut,
    lemma_i16_cut,
    lemma_i32_cut,
    lemma_i64_cut,
    lemma_varint_cut,
    lemma_need_cut,
    lemma_string_cut,
    lemma_bytes_cut,
    lemma_array_len_cut,
    lemma_optional_array_len_cut,
    lemma_items_cut,
    lemma_string_items_cut,
    lemma_tagged_fields_cut,
    lemma_one_cut,
    lemma_failure_stays,
    lemma_no_more_left,
}

/// The bytes that were taken between two readers.
pub open spec fn taken(before: Reader, after: Reader) -> Seq<u8> {
    before.rest.take(before.rest.len() - after.rest.len())
}

/// What is taken, in front of other bytes.
pub proof fn lemma_moved(before: Reader, after: Reader, next: Seq<u8>)
    requires
        consumes(before, after),
        !after.failed(),
    ensures
        before.cut(after.rest.len()).followed_by(next) == Reader::on(taken(before, after) + next),
        after.cut(after.rest.len()).followed_by(next) == Reader::on(next),
{
    reveal(consumes);
    assert(after.rest.take(0) + next =~= next);
}

/// A structure is read from the bytes that it takes, whatever stood behind them and
/// whatever stands there now.
pub proof fn law_reads_what_it_takes<T: WireDecode>(f: Format, r: Reader, next: Seq<u8>)
    requires
        !T::read(f, r).1.failed(),
    ensures
        T::read(f, Reader::on(taken(r, T::read(f, r).1) + next)) == (
            T::read(f, r).0,
            Reader::on(next),
        ),
{
    let after = T::read(f, r).1;
    let k = after.rest.len();
    T::law_consumes(f, r);
    T::law_needs_only_what_it_takes(f, r, k);
    T::law_ignores_what_follows(f, r.cut(k), next);
    lemma_moved(r, after, next);
}

} // verus!
