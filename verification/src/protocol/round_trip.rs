//! What is written can be read back.
//!
//! The laws speak of a whole run of bytes that begins with what was written. A
//! reader behind the part before a value finds the value, and stands behind it
//! afterwards.

use crate::buffer::{law_be_i16, law_be_i32, law_be_i64, Octets};
use crate::protocol::api::{law_number_keeps_api_key, ApiKey, ApiVersionRange};
use crate::protocol::primitives::{KafkaArray, KafkaBytes, KafkaString, TaggedFields};
use crate::protocol::wire::{
    varint_bytes, views, Format, Reader, TaggedField, WireDecode, WireEncode, Writer,
};
use vstd::prelude::*;
use vstd::utf8::{encode_utf8, encode_utf8_decode_utf8, encode_utf8_valid_utf8};

verus! {

/// Whether some bytes begin with what was written without an error.
pub open spec fn begins(total: Seq<u8>, w: Writer) -> bool {
    &&& !w.failed()
    &&& w.bytes.len() <= total.len()
    &&& total.take(w.bytes.len() as int) == w.bytes
}

/// The reader behind what was written.
pub open spec fn behind(total: Seq<u8>, w: Writer) -> Reader {
    Reader::on(total.skip(w.bytes.len() as int))
}

/// A structure that is read back as it was written.
pub trait RoundTrip: WireEncode + WireDecode {
    /// A structure that was written without an error is read back.
    proof fn law_round_trip(&self, f: Format, w: Writer, total: Seq<u8>)
        requires
            !w.failed(),
            begins(total, self.written(f, w)),
        ensures
            begins(total, w),
            Self::read(f, behind(total, w)) == (self@, behind(total, self.written(f, w))),
    ;
}

/// Bytes that were written are read back.
pub proof fn law_raw_round_trip(w: Writer, b: Seq<u8>, total: Seq<u8>)
    requires
        begins(total, w.raw(b)),
    ensures
        begins(total, w),
        behind(total, w).rest == b + behind(total, w.raw(b)).rest,
        behind(total, w).raw(b.len()) == (b, behind(total, w.raw(b))),
{
    let after = w.raw(b);
    assert(total.take(w.bytes.len() as int) =~= w.bytes) by {
        assert(w.bytes =~= after.bytes.take(w.bytes.len() as int));
        assert(total.take(w.bytes.len() as int) =~= total.take(after.bytes.len() as int).take(
            w.bytes.len() as int,
        ));
    }
    assert(total.skip(w.bytes.len() as int) =~= b + total.skip(after.bytes.len() as int)) by {
        assert(b =~= after.bytes.skip(w.bytes.len() as int));
        assert(forall|i: int|
            0 <= i < after.bytes.len() ==> total[i] == #[trigger] total.take(
                after.bytes.len() as int,
            )[i]);
    }
    let front = total.skip(w.bytes.len() as int);
    assert(front.take(b.len() as int) =~= b);
    assert(front.skip(b.len() as int) =~= total.skip(after.bytes.len() as int));
}

/// A signed byte that was written is read back.
pub proof fn law_i8_round_trip(w: Writer, v: i8, total: Seq<u8>)
    requires
        begins(total, w.i8(v)),
    ensures
        begins(total, w),
        behind(total, w).i8() == (v, behind(total, w.i8(v))),
{
    let b = seq![crate::buffer::to_unsigned(v as int, 0x100) as u8];
    law_raw_round_trip(w, b, total);
    let rest = behind(total, w.i8(v)).rest;
    assert((b + rest).skip(1) =~= rest);
}

/// A 16-bit number that was written is read back.
pub proof fn law_i16_round_trip(w: Writer, v: i16, total: Seq<u8>)
    requires
        begins(total, w.i16(v)),
    ensures
        begins(total, w),
        behind(total, w).i16() == (v, behind(total, w.i16(v))),
{
    law_raw_round_trip(w, crate::buffer::be_bytes_i16(v), total);
    law_be_i16(v, behind(total, w.i16(v)).rest);
}

/// A 32-bit number that was written is read back.
pub proof fn law_i32_round_trip(w: Writer, v: i32, total: Seq<u8>)
    requires
        begins(total, w.i32(v)),
    ensures
        begins(total, w),
        behind(total, w).i32() == (v, behind(total, w.i32(v))),
{
    law_raw_round_trip(w, crate::buffer::be_bytes_i32(v), total);
    law_be_i32(v, behind(total, w.i32(v)).rest);
}

/// A 64-bit number that was written is read back.
pub proof fn law_i64_round_trip(w: Writer, v: i64, total: Seq<u8>)
    requires
        begins(total, w.i64(v)),
    ensures
        begins(total, w),
        behind(total, w).i64() == (v, behind(total, w.i64(v))),
{
    law_raw_round_trip(w, crate::buffer::be_bytes_i64(v), total);
    law_be_i64(v, behind(total, w.i64(v)).rest);
}

/// A truth value that was written is read back.
pub proof fn law_bool_round_trip(w: Writer, v: bool, total: Seq<u8>)
    requires
        begins(total, w.bool(v)),
    ensures
        begins(total, w),
        behind(total, w).bool() == (v, behind(total, w.bool(v))),
{
    let b = seq![if v { 1u8 } else { 0u8 }];
    law_raw_round_trip(w, b, total);
    let rest = behind(total, w.bool(v)).rest;
    assert((b + rest).skip(1) =~= rest);
}

/// The numbers that the rest of a varint can hold after `count` bytes.
spec fn varint_room(count: nat) -> nat {
    if count == 0 {
        0x8_0000_0000
    } else if count == 1 {
        0x1000_0000
    } else if count == 2 {
        0x20_0000
    } else if count == 3 {
        0x4000
    } else {
        0x80
    }
}

/// The rest of a varint after `count` bytes.
proof fn lemma_varint_tail(n: nat, rest: Seq<u8>, count: nat, scale: nat, sum: nat)
    requires
        count < 5,
        n < varint_room(count),
        sum + n * scale <= u32::MAX,
    ensures
        Reader::on(varint_bytes(n) + rest).varint_tail(count, scale, sum) == (
            (sum + n * scale) as u32,
            Reader::on(rest),
        ),
    decreases n,
{
    let bytes = varint_bytes(n) + rest;
    if n < 0x80 {
        assert(bytes.skip(1) =~= rest);
        assert((n as u8) % 0x80 == n);
    } else {
        let low = n % 0x80;
        let high = n / 0x80;
        assert(bytes.skip(1) =~= varint_bytes(high) + rest);
        let b = (low + 0x80) as u8;
        assert(bytes[0] == b);
        assert(b % 0x80 == low);
        assert(sum + low * scale + high * (scale * 0x80) == sum + n * scale) by (nonlinear_arith)
            requires
                n == low + high * 0x80,
        ;
        lemma_varint_tail(high, rest, count + 1, scale * 0x80, sum + low * scale);
    }
}

/// A varint that was written is read back.
pub proof fn law_varint_round_trip(w: Writer, n: u32, total: Seq<u8>)
    requires
        begins(total, w.varint(n as nat)),
    ensures
        begins(total, w),
        behind(total, w).varint() == (n, behind(total, w.varint(n as nat))),
{
    law_raw_round_trip(w, varint_bytes(n as nat), total);
    lemma_varint_tail(n as nat, behind(total, w.varint(n as nat)).rest, 0, 1, 0);
}

/// A text or null that was written is read back, in the plain and in the compact
/// form.
pub proof fn law_nullable_string_round_trip(
    w: Writer,
    s: Option<Seq<char>>,
    flexible: bool,
    total: Seq<u8>,
)
    requires
        begins(total, w.nullable_string(s, flexible)),
    ensures
        begins(total, w),
        behind(total, w).nullable_string(flexible) == (
            s,
            behind(total, w.nullable_string(s, flexible)),
        ),
{
    reveal(Writer::nullable_string);
    match s {
        None => {
            if flexible {
                law_varint_round_trip(w, 0, total);
            } else {
                law_i16_round_trip(w, -1i16 as i16, total);
            }
        },
        Some(s) => {
            let b = encode_utf8(s);
            encode_utf8_valid_utf8(s);
            encode_utf8_decode_utf8(s);
            if flexible {
                let n = (b.len() + 1) as u32;
                law_raw_round_trip(w.varint(n as nat), b, total);
                law_varint_round_trip(w, n, total);
            } else {
                let n = b.len() as i16;
                law_raw_round_trip(w.i16(n), b, total);
                law_i16_round_trip(w, n, total);
            }
        },
    }
}

/// A byte string or null that was written is read back, in the plain and in the
/// compact form.
pub proof fn law_nullable_bytes_round_trip(
    w: Writer,
    b: Option<Seq<u8>>,
    flexible: bool,
    total: Seq<u8>,
)
    requires
        begins(total, w.nullable_bytes(b, flexible)),
    ensures
        begins(total, w),
        behind(total, w).nullable_bytes(flexible) == (
            b,
            behind(total, w.nullable_bytes(b, flexible)),
        ),
{
    reveal(Writer::nullable_bytes);
    match b {
        None => {
            if flexible {
                law_varint_round_trip(w, 0, total);
            } else {
                law_i32_round_trip(w, -1i32 as i32, total);
            }
        },
        Some(b) => {
            if flexible {
                let n = (b.len() + 1) as u32;
                law_raw_round_trip(w.varint(n as nat), b, total);
                law_varint_round_trip(w, n, total);
            } else {
                let n = b.len() as i32;
                law_raw_round_trip(w.i32(n), b, total);
                law_i32_round_trip(w, n, total);
            }
        },
    }
}

/// A number of elements that was written is read back.
pub proof fn law_array_len_round_trip(w: Writer, n: nat, flexible: bool, total: Seq<u8>)
    requires
        begins(total, w.array_len(n, flexible)),
    ensures
        begins(total, w),
        behind(total, w).array_len(flexible) == (n, behind(total, w.array_len(n, flexible))),
        behind(total, w).optional_array_len(flexible) == (
            Some(n),
            behind(total, w.array_len(n, flexible)),
        ),
{
    reveal(Writer::array_len);
    if flexible {
        law_varint_round_trip(w, (n + 1) as u32, total);
    } else {
        law_i32_round_trip(w, n as i32, total);
    }
}

/// The first elements of an array are read back.
pub proof fn law_items_round_trip<T: RoundTrip>(
    w: Writer,
    items: Seq<T>,
    f: Format,
    n: nat,
    total: Seq<u8>,
)
    requires
        !w.failed(),
        n <= items.len(),
        begins(total, w.items(items, f, n)),
    ensures
        begins(total, w),
        behind(total, w).items::<T>(f, n) == (
            views(items).take(n as int),
            behind(total, w.items(items, f, n)),
        ),
    decreases n,
{
    if n == 0 {
        assert(views(items).take(0) =~= Seq::empty());
    } else {
        let before = w.items(items, f, (n - 1) as nat);
        items[n - 1].law_round_trip(f, before, total);
        law_items_round_trip(w, items, f, (n - 1) as nat, total);
        assert(views(items).take(n as int) =~= views(items).take(n - 1).push(items[n - 1]@));
    }
}

/// An array that was written without an error is read back.
pub proof fn law_array_round_trip<T: RoundTrip>(w: Writer, items: Seq<T>, f: Format, total: Seq<u8>)
    requires
        !w.failed(),
        begins(total, w.array(items, f)),
    ensures
        begins(total, w),
        behind(total, w).array::<T>(f) == (views(items), behind(total, w.array(items, f))),
        behind(total, w).optional_array::<T>(f) == (
            Some(views(items)),
            behind(total, w.array(items, f)),
        ),
{
    let counted = w.array_len(items.len(), f.flexible);
    assert(!counted.failed());
    law_items_round_trip(counted, items, f, items.len(), total);
    law_array_len_round_trip(w, items.len(), f.flexible, total);
    assert(views(items).take(items.len() as int) =~= views(items));
}

impl RoundTrip for i8 {
    proof fn law_round_trip(&self, f: Format, w: Writer, total: Seq<u8>) {
        law_i8_round_trip(w, *self, total);
    }
}

impl RoundTrip for i16 {
    proof fn law_round_trip(&self, f: Format, w: Writer, total: Seq<u8>) {
        law_i16_round_trip(w, *self, total);
    }
}

impl RoundTrip for i32 {
    proof fn law_round_trip(&self, f: Format, w: Writer, total: Seq<u8>) {
        law_i32_round_trip(w, *self, total);
    }
}

impl RoundTrip for i64 {
    proof fn law_round_trip(&self, f: Format, w: Writer, total: Seq<u8>) {
        law_i64_round_trip(w, *self, total);
    }
}

impl RoundTrip for bool {
    proof fn law_round_trip(&self, f: Format, w: Writer, total: Seq<u8>) {
        law_bool_round_trip(w, *self, total);
    }
}

impl RoundTrip for KafkaString {
    proof fn law_round_trip(&self, f: Format, w: Writer, total: Seq<u8>) {
        law_nullable_string_round_trip(w, self@, f.flexible, total);
    }
}

impl RoundTrip for KafkaBytes {
    proof fn law_round_trip(&self, f: Format, w: Writer, total: Seq<u8>) {
        law_nullable_bytes_round_trip(w, self@, f.flexible, total);
    }
}

impl<T: RoundTrip> RoundTrip for KafkaArray<T> {
    proof fn law_round_trip(&self, f: Format, w: Writer, total: Seq<u8>) {
        match self.0 {
            Some(items) => {
                law_array_round_trip(w, items@, f, total);
            },
            None => {
                if f.flexible {
                    law_varint_round_trip(w, 0, total);
                } else {
                    law_i32_round_trip(w, -1i32 as i32, total);
                }
            },
        }
    }
}

/// The first tagged fields are read back.
proof fn lemma_tagged_items(
    w: Writer,
    fields: Seq<TaggedField>,
    f: Format,
    n: nat,
    total: Seq<u8>,
)
    requires
        !w.failed(),
        n <= fields.len(),
        begins(total, w.items(fields, f, n)),
    ensures
        begins(total, w),
        behind(total, w).tagged_items(n) == (
            views(fields).take(n as int),
            behind(total, w.items(fields, f, n)),
        ),
    decreases n,
{
    if n == 0 {
        assert(views(fields).take(0) =~= Seq::empty());
    } else {
        let before = w.items(fields, f, (n - 1) as nat);
        let field = fields[n - 1];
        let tagged = before.varint(field.tag as nat);
        let sized = tagged.varint(field.data@.len());
        law_raw_round_trip(sized, field.data@, total);
        law_varint_round_trip(tagged, field.data@.len() as u32, total);
        law_varint_round_trip(before, field.tag, total);
        lemma_tagged_items(w, fields, f, (n - 1) as nat, total);
        assert(views(fields).take(n as int) =~= views(fields).take(n - 1).push(field@));
    }
}

impl RoundTrip for TaggedFields {
    proof fn law_round_trip(&self, f: Format, w: Writer, total: Seq<u8>) {
        let n = self.0@.len();
        lemma_tagged_items(w.varint(n), self.0@, f, n, total);
        law_varint_round_trip(w, n as u32, total);
        assert(views(self.0@).take(n as int) =~= views(self.0@));
    }
}

/// The empty section of tagged fields is read back.
pub proof fn law_tags_round_trip(w: Writer, flexible: bool, total: Seq<u8>)
    requires
        begins(total, w.tags(flexible)),
    ensures
        begins(total, w),
        behind(total, w).tags(flexible) == behind(total, w.tags(flexible)),
{
    if flexible {
        law_varint_round_trip(w, 0, total);
    }
}

/// A key that was written is read back, unless it is an unknown key with the number
/// of a known one.
pub proof fn law_api_key_round_trip(key: ApiKey, f: Format, w: Writer, total: Seq<u8>)
    requires
        key matches ApiKey::Unknown(n) ==> ApiKey::of(n) is Unknown,
        begins(total, key.written(f, w)),
    ensures
        begins(total, w),
        ApiKey::read(f, behind(total, w)) == (key, behind(total, key.written(f, w))),
{
    law_i16_round_trip(w, key.number(), total);
    law_number_keeps_api_key(key);
}

/// A version range that was written is read back, unless its key is an unknown one
/// with the number of a known one.
pub proof fn law_api_version_range_round_trip(
    range: ApiVersionRange,
    f: Format,
    w: Writer,
    total: Seq<u8>,
)
    requires
        range.api_key matches ApiKey::Unknown(n) ==> ApiKey::of(n) is Unknown,
        begins(total, range.written(f, w)),
    ensures
        begins(total, w),
        ApiVersionRange::read(f, behind(total, w)) == (
            range,
            behind(total, range.written(f, w)),
        ),
{
    let w1 = w.i16(range.api_key.number());
    let w2 = w1.i16(range.min_version);
    let w3 = w2.i16(range.max_version);
    law_tags_round_trip(w3, f.flexible, total);
    law_i16_round_trip(w2, range.max_version, total);
    law_i16_round_trip(w1, range.min_version, total);
    law_i16_round_trip(w, range.api_key.number(), total);
    law_number_keeps_api_key(range.api_key);
}

} // verus!
