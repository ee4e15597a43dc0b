//! The byte buffers of the `bytes` crate.
//!
//! A `Bytes` is read from the front and a `BytesMut` is written at the end. What
//! a buffer holds is a sequence of bytes, written `buf@`. No buffer outgrows
//! `isize::MAX` bytes, the most that one allocation can have: whatever writes to
//! a buffer requires that the bytes fit.

use bytes::{Buf, BufMut, Bytes, BytesMut};
use vstd::prelude::*;
use vstd::utf8::{decode_utf8, valid_utf8};

verus! {

/// `bytes::Bytes`: the bytes that are left to read.
#[verifier::external_type_specification]
#[verifier::external_body]
pub struct ExBytes(bytes::Bytes);

/// `bytes::BytesMut`: the bytes that have been written.
#[verifier::external_type_specification]
#[verifier::external_body]
pub struct ExBytesMut(bytes::BytesMut);

/// The bytes that a `Bytes` holds, in order.
pub uninterp spec fn bytes_contents(b: Bytes) -> Seq<u8>;

/// The bytes that a `BytesMut` holds, in order.
pub uninterp spec fn bytes_mut_contents(b: BytesMut) -> Seq<u8>;

/// A value that holds a sequence of bytes.
pub trait Octets {
    /// The bytes, in order.
    spec fn view(&self) -> Seq<u8>;
}

impl Octets for Bytes {
    open spec fn view(&self) -> Seq<u8> {
        bytes_contents(*self)
    }
}

impl Octets for BytesMut {
    open spec fn view(&self) -> Seq<u8> {
        bytes_mut_contents(*self)
    }
}

/// The bytes of an optional value.
pub open spec fn optional_bytes(b: Option<Bytes>) -> Option<Seq<u8>> {
    match b {
        Some(b) => Some(b@),
        None => None,
    }
}

/// The number that is congruent to `n` modulo `m` and lies in `0..m`, for `n` in
/// `-m/2..m/2`: two's complement.
pub open spec fn to_unsigned(n: int, m: int) -> int {
    if n < 0 {
        n + m
    } else {
        n
    }
}

/// The inverse of `to_unsigned`.
pub open spec fn to_signed(n: int, m: int) -> int {
    if n >= m / 2 {
        n - m
    } else {
        n
    }
}

/// The two bytes of an `i16`, most significant first.
pub open spec fn be_bytes_i16(v: i16) -> Seq<u8> {
    let n = to_unsigned(v as int, 0x1_0000);
    seq![(n / 0x100) as u8, (n % 0x100) as u8]
}

/// The four bytes of an `i32`, most significant first.
pub open spec fn be_bytes_i32(v: i32) -> Seq<u8> {
    let n = to_unsigned(v as int, 0x1_0000_0000);
    seq![
        (n / 0x100_0000) as u8,
        (n / 0x1_0000 % 0x100) as u8,
        (n / 0x100 % 0x100) as u8,
        (n % 0x100) as u8,
    ]
}

/// The eight bytes of a number below 2^64, most significant first.
pub open spec fn be_bytes_u64(n: int) -> Seq<u8> {
    seq![
        (n / 0x100_0000_0000_0000) as u8,
        (n / 0x1_0000_0000_0000 % 0x100) as u8,
        (n / 0x100_0000_0000 % 0x100) as u8,
        (n / 0x1_0000_0000 % 0x100) as u8,
        (n / 0x100_0000 % 0x100) as u8,
        (n / 0x1_0000 % 0x100) as u8,
        (n / 0x100 % 0x100) as u8,
        (n % 0x100) as u8,
    ]
}

/// The eight bytes of an `i64`, most significant first.
pub open spec fn be_bytes_i64(v: i64) -> Seq<u8> {
    be_bytes_u64(to_unsigned(v as int, 0x1_0000_0000_0000_0000))
}

/// The `i8` that one byte holds.
pub open spec fn be_i8(s: Seq<u8>) -> i8 {
    to_signed(s[0] as int, 0x100) as i8
}

/// The `i16` that the first two bytes hold, most significant first.
pub open spec fn be_i16(s: Seq<u8>) -> i16 {
    to_signed(s[0] * 0x100 + s[1], 0x1_0000) as i16
}

/// The `i32` that the first four bytes hold, most significant first.
pub open spec fn be_i32(s: Seq<u8>) -> i32 {
    to_signed(
        s[0] * 0x100_0000 + s[1] * 0x1_0000 + s[2] * 0x100 + s[3],
        0x1_0000_0000,
    ) as i32
}

/// The `i64` that the first eight bytes hold, most significant first.
pub open spec fn be_i64(s: Seq<u8>) -> i64 {
    to_signed(
        s[0] * 0x100_0000_0000_0000 + s[1] * 0x1_0000_0000_0000 + s[2] * 0x100_0000_0000 + s[3]
            * 0x1_0000_0000 + s[4] * 0x100_0000 + s[5] * 0x1_0000 + s[6] * 0x100 + s[7],
        0x1_0000_0000_0000_0000,
    ) as i64
}

/// `Bytes::len`: how many bytes are left.
#[verifier::external_body]
pub(crate) fn remaining(buf: &Bytes) -> (n: usize)
    ensures
        n == bytes_contents(*buf).len(),
{
    buf.len()
}

/// `Buf::get_u8` on a `Bytes`: takes one byte off the front. It panics on an
/// empty buffer.
#[verifier::external_body]
pub(crate) fn get_u8(buf: &mut Bytes) -> (value: u8)
    requires
        bytes_contents(*old(buf)).len() >= 1,
    ensures
        value == bytes_contents(*old(buf))[0],
        bytes_contents(*final(buf)) == bytes_contents(*old(buf)).skip(1),
{
    buf.get_u8()
}

/// `Buf::get_i8` on a `Bytes`: takes one signed byte off the front. It panics on
/// an empty buffer.
#[verifier::external_body]
pub(crate) fn get_i8(buf: &mut Bytes) -> (value: i8)
    requires
        bytes_contents(*old(buf)).len() >= 1,
    ensures
        value == be_i8(bytes_contents(*old(buf))),
        bytes_contents(*final(buf)) == bytes_contents(*old(buf)).skip(1),
{
    buf.get_i8()
}

/// `Buf::get_i16` on a `Bytes`: takes a big-endian number off the front. It
/// panics where fewer bytes are left.
#[verifier::external_body]
pub(crate) fn get_i16(buf: &mut Bytes) -> (value: i16)
    requires
        bytes_contents(*old(buf)).len() >= 2,
    ensures
        value == be_i16(bytes_contents(*old(buf))),
        bytes_contents(*final(buf)) == bytes_contents(*old(buf)).skip(2),
{
    buf.get_i16()
}

/// `Buf::get_i32` on a `Bytes`: takes a big-endian number off the front. It
/// panics where fewer bytes are left.
#[verifier::external_body]
pub(crate) fn get_i32(buf: &mut Bytes) -> (value: i32)
    requires
        bytes_contents(*old(buf)).len() >= 4,
    ensures
        value == be_i32(bytes_contents(*old(buf))),
        bytes_contents(*final(buf)) == bytes_contents(*old(buf)).skip(4),
{
    buf.get_i32()
}

/// `Buf::get_i64` on a `Bytes`: takes a big-endian number off the front. It
/// panics where fewer bytes are left.
#[verifier::external_body]
pub(crate) fn get_i64(buf: &mut Bytes) -> (value: i64)
    requires
        bytes_contents(*old(buf)).len() >= 8,
    ensures
        value == be_i64(bytes_contents(*old(buf))),
        bytes_contents(*final(buf)) == bytes_contents(*old(buf)).skip(8),
{
    buf.get_i64()
}

/// `Buf::copy_to_bytes` on a `Bytes`: takes the first `n` bytes off the front and
/// hands them out. It panics where fewer bytes are left.
#[verifier::external_body]
pub(crate) fn copy_to_bytes(buf: &mut Bytes, n: usize) -> (front: Bytes)
    requires
        n <= bytes_contents(*old(buf)).len(),
    ensures
        bytes_contents(front) == bytes_contents(*old(buf)).take(n as int),
        bytes_contents(*final(buf)) == bytes_contents(*old(buf)).skip(n as int),
{
    buf.copy_to_bytes(n)
}

/// `Buf::copy_to_slice` on a `Bytes`: fills an array with bytes off the front.
/// It panics where fewer bytes are left.
#[verifier::external_body]
pub(crate) fn copy_to_array(buf: &mut Bytes, dst: &mut [u8; 16])
    requires
        bytes_contents(*old(buf)).len() >= 16,
    ensures
        final(dst)@ == bytes_contents(*old(buf)).take(16),
        bytes_contents(*final(buf)) == bytes_contents(*old(buf)).skip(16),
{
    buf.copy_to_slice(dst)
}

/// `Bytes::clone`: another handle on the same bytes.
pub assume_specification[ <Bytes as Clone>::clone ](buf: &Bytes) -> (other: Bytes)
    ensures
        bytes_contents(other) == bytes_contents(*buf),
;

/// `Bytes::deref`: the bytes as a slice.
#[verifier::external_body]
pub(crate) fn as_slice(buf: &Bytes) -> (s: &[u8])
    ensures
        s@ == bytes_contents(*buf),
{
    buf
}

/// `Bytes::new`: no bytes.
#[verifier::external_body]
pub(crate) fn no_bytes() -> (b: Bytes)
    ensures
        bytes_contents(b) == Seq::<u8>::empty(),
{
    Bytes::new()
}

/// `BytesMut::with_capacity`: an empty buffer. It panics where the capacity
/// exceeds the size of one allocation.
#[verifier::external_body]
pub(crate) fn with_capacity(capacity: usize) -> (buf: BytesMut)
    requires
        capacity <= isize::MAX,
    ensures
        bytes_mut_contents(buf) == Seq::<u8>::empty(),
{
    BytesMut::with_capacity(capacity)
}

/// `BytesMut::len`: how many bytes were written.
#[verifier::external_body]
pub(crate) fn written_len(buf: &BytesMut) -> (n: usize)
    ensures
        n == bytes_mut_contents(*buf).len(),
{
    buf.len()
}

/// `BytesMut::clear`: drops all bytes.
#[verifier::external_body]
pub(crate) fn clear(buf: &mut BytesMut)
    ensures
        bytes_mut_contents(*final(buf)) == Seq::<u8>::empty(),
{
    buf.clear()
}

/// `BufMut::put_u8` on a `BytesMut`: appends one byte. It panics where the
/// buffer cannot grow.
#[verifier::external_body]
pub(crate) fn put_u8(buf: &mut BytesMut, value: u8)
    requires
        bytes_mut_contents(*old(buf)).len() + 1 <= isize::MAX,
    ensures
        bytes_mut_contents(*final(buf)) == bytes_mut_contents(*old(buf)) + seq![value],
{
    buf.put_u8(value)
}

/// `BufMut::put_i8` on a `BytesMut`: appends one signed byte. It panics where the
/// buffer cannot grow.
#[verifier::external_body]
pub(crate) fn put_i8(buf: &mut BytesMut, value: i8)
    requires
        bytes_mut_contents(*old(buf)).len() + 1 <= isize::MAX,
    ensures
        bytes_mut_contents(*final(buf)) == bytes_mut_contents(*old(buf))
            + seq![to_unsigned(value as int, 0x100) as u8],
{
    buf.put_i8(value)
}

/// `BufMut::put_i16` on a `BytesMut`: appends a big-endian number. It panics
/// where the buffer cannot grow.
#[verifier::external_body]
pub(crate) fn put_i16(buf: &mut BytesMut, value: i16)
    requires
        bytes_mut_contents(*old(buf)).len() + 2 <= isize::MAX,
    ensures
        bytes_mut_contents(*final(buf)) == bytes_mut_contents(*old(buf)) + be_bytes_i16(value),
{
    buf.put_i16(value)
}

/// `BufMut::put_i32` on a `BytesMut`: appends a big-endian number. It panics
/// where the buffer cannot grow.
#[verifier::external_body]
pub(crate) fn put_i32(buf: &mut BytesMut, value: i32)
    requires
        bytes_mut_contents(*old(buf)).len() + 4 <= isize::MAX,
    ensures
        bytes_mut_contents(*final(buf)) == bytes_mut_contents(*old(buf)) + be_bytes_i32(value),
{
    buf.put_i32(value)
}

/// `BufMut::put_i64` on a `BytesMut`: appends a big-endian number. It panics
/// where the buffer cannot grow.
#[verifier::external_body]
pub(crate) fn put_i64(buf: &mut BytesMut, value: i64)
    requires
        bytes_mut_contents(*old(buf)).len() + 8 <= isize::MAX,
    ensures
        bytes_mut_contents(*final(buf)) == bytes_mut_contents(*old(buf)) + be_bytes_i64(value),
{
    buf.put_i64(value)
}

/// `BufMut::put_u64` on a `BytesMut`: appends a big-endian number. It panics
/// where the buffer cannot grow.
#[verifier::external_body]
pub(crate) fn put_u64(buf: &mut BytesMut, value: u64)
    requires
        bytes_mut_contents(*old(buf)).len() + 8 <= isize::MAX,
    ensures
        bytes_mut_contents(*final(buf)) == bytes_mut_contents(*old(buf)) + be_bytes_u64(
            value as int,
        ),
{
    buf.put_u64(value)
}

/// `BytesMut::extend_from_slice`: appends bytes. It panics where the buffer
/// cannot grow.
#[verifier::external_body]
pub(crate) fn put_slice(buf: &mut BytesMut, src: &[u8])
    requires
        bytes_mut_contents(*old(buf)).len() + src@.len() <= isize::MAX,
    ensures
        bytes_mut_contents(*final(buf)) == bytes_mut_contents(*old(buf)) + src@,
{
    buf.extend_from_slice(src)
}

/// `BytesMut::deref` and indexing: one byte. It panics past the end.
#[verifier::external_body]
pub(crate) fn byte_at(buf: &BytesMut, at: usize) -> (value: u8)
    requires
        at < bytes_mut_contents(*buf).len(),
    ensures
        value == bytes_mut_contents(*buf)[at as int],
{
    buf[at]
}

/// `BytesMut::deref_mut` and indexing: replaces one byte. It panics past the end.
#[verifier::external_body]
pub(crate) fn set_byte(buf: &mut BytesMut, at: usize, value: u8)
    requires
        at < bytes_mut_contents(*old(buf)).len(),
    ensures
        bytes_mut_contents(*final(buf)) == bytes_mut_contents(*old(buf)).update(at as int, value),
{
    buf[at] = value
}

/// `Buf::advance` on a `BytesMut`: drops the first `n` bytes. It panics where
/// fewer bytes are there.
#[verifier::external_body]
pub(crate) fn advance(buf: &mut BytesMut, n: usize)
    requires
        n <= bytes_mut_contents(*old(buf)).len(),
    ensures
        bytes_mut_contents(*final(buf)) == bytes_mut_contents(*old(buf)).skip(n as int),
{
    buf.advance(n)
}

/// `BytesMut::split_to`: takes the first `n` bytes off the front. It panics where
/// fewer bytes are there.
#[verifier::external_body]
pub(crate) fn split_to(buf: &mut BytesMut, n: usize) -> (front: BytesMut)
    requires
        n <= bytes_mut_contents(*old(buf)).len(),
    ensures
        bytes_mut_contents(front) == bytes_mut_contents(*old(buf)).take(n as int),
        bytes_mut_contents(*final(buf)) == bytes_mut_contents(*old(buf)).skip(n as int),
{
    buf.split_to(n)
}

/// `BytesMut::freeze`: the same bytes, to be read.
#[verifier::external_body]
pub(crate) fn freeze(buf: BytesMut) -> (bytes: Bytes)
    ensures
        bytes_contents(bytes) == bytes_mut_contents(buf),
{
    buf.freeze()
}

/// The four bytes of a number, most significant first.
pub(crate) fn i32_to_be_bytes(value: i32) -> (bytes: [u8; 4])
    ensures
        bytes@ == be_bytes_i32(value),
{
    let n: u32 = if value < 0 {
        (value as i64 + 0x1_0000_0000) as u32
    } else {
        value as u32
    };
    let bytes = [
        (n / 0x100_0000) as u8,
        (n / 0x1_0000 % 0x100) as u8,
        (n / 0x100 % 0x100) as u8,
        (n % 0x100) as u8,
    ];
    assert(bytes@ =~= be_bytes_i32(value));
    bytes
}

/// The number that four bytes hold, most significant first.
pub(crate) fn i32_from_be_bytes(bytes: [u8; 4]) -> (value: i32)
    ensures
        value == be_i32(bytes@),
{
    let n: u32 = bytes[0] as u32 * 0x100_0000 + bytes[1] as u32 * 0x1_0000 + bytes[2] as u32 * 0x100
        + bytes[3] as u32;
    if n >= 0x8000_0000 {
        (n as i64 - 0x1_0000_0000) as i32
    } else {
        n as i32
    }
}

/// `String::from_utf8`: the text that bytes encode, where they are valid UTF-8.
#[verifier::external_body]
pub(crate) fn string_from_utf8(bytes: Vec<u8>) -> (text: Option<String>)
    ensures
        text is Some <==> valid_utf8(bytes@),
        text matches Some(s) ==> s@ == decode_utf8(bytes@),
{
    String::from_utf8(bytes).ok()
}

/// Reading back the two bytes of a number gives the number.
pub proof fn law_be_i16(v: i16, rest: Seq<u8>)
    ensures
        be_i16(be_bytes_i16(v) + rest) == v,
        (be_bytes_i16(v) + rest).skip(2) == rest,
{
    assert((be_bytes_i16(v) + rest).skip(2) =~= rest);
}

/// Reading back the four bytes of a number gives the number.
pub proof fn law_be_i32(v: i32, rest: Seq<u8>)
    ensures
        be_i32(be_bytes_i32(v) + rest) == v,
        (be_bytes_i32(v) + rest).skip(4) == rest,
{
    assert((be_bytes_i32(v) + rest).skip(4) =~= rest);
}

/// The digit of a number in base 256 that stands in front of `k`.
proof fn lemma_digit(n: int, k: int)
    requires
        n >= 0,
        k > 0,
    ensures
        n / k == (n / (k * 0x100)) * 0x100 + n / k % 0x100,
{
    vstd::arithmetic::div_mod::lemma_div_denominator(n, k, 0x100);
    vstd::arithmetic::div_mod::lemma_fundamental_div_mod(n / k, 0x100);
}

/// Reading back the eight bytes of a number gives the number.
pub proof fn law_be_i64(v: i64, rest: Seq<u8>)
    ensures
        be_i64(be_bytes_i64(v) + rest) == v,
        (be_bytes_i64(v) + rest).skip(8) == rest,
{
    let n = to_unsigned(v as int, 0x1_0000_0000_0000_0000);
    let s = be_bytes_i64(v) + rest;
    lemma_digit(n, 0x1_0000_0000_0000);
    lemma_digit(n, 0x100_0000_0000);
    lemma_digit(n, 0x1_0000_0000);
    lemma_digit(n, 0x100_0000);
    lemma_digit(n, 0x1_0000);
    lemma_digit(n, 0x100);
    lemma_digit(n, 1);
    assert(s.skip(8) =~= rest);
}

} // verus!
