//! The primitive types of the wire protocol.

use crate::buffer::{as_slice, optional_bytes, Octets};
use crate::error::{KrafkaError, ProtocolErrorKind, Reason, Result};
use crate::protocol::wire::{
    decoded, encode_unsigned_varint, encoded, fits, group_appends, group_consumes, group_cut,
    group_followed, group_grows, optional_text, optional_views, read_nullable_bytes,
    read_nullable_string, read_optional_array, read_tagged_fields, result_view, too_long, views,
    write_items, write_nullable_bytes, write_nullable_string, write_optional_array, write_raw,
    Format, Reader, TaggedField, WireDecode, WireEncode, Writer,
};
use bytes::{Bytes, BytesMut};
use vstd::prelude::*;

verus! {

/// A value whose encoding never fails.
pub trait Encode: WireEncode {
    /// Encoding meets no error.
    proof fn lemma_total(&self, f: Format, w: Writer)
        requires
            !w.failed(),
        ensures
            !self.written(f, w).failed(),
    ;

    /// Encode into the buffer.
    fn encode(&self, buf: &mut BytesMut)
        requires
            fits(self.written(Format::plain(0), Writer::at(old(buf)@))),
        ensures
            final(buf)@ == self.written(Format::plain(0), Writer::at(old(buf)@)).bytes,
    {
        let _ = self.encode_wire(Format::plain(0), buf);
    }

    /// Encode into the buffer as the flexible formats do.
    fn encode_compact(&self, buf: &mut BytesMut)
        requires
            fits(self.written(Format::flexible(0), Writer::at(old(buf)@))),
        ensures
            final(buf)@ == self.written(Format::flexible(0), Writer::at(old(buf)@)).bytes,
    {
        let _ = self.encode_wire(Format::flexible(0), buf);
    }
}

/// A value whose encoding fails where it has no place on the wire.
pub trait TryEncode: WireEncode {
    /// Encode into the buffer.
    fn try_encode(&self, buf: &mut BytesMut) -> (res: Result<()>)
        requires
            fits(self.written(Format::plain(0), Writer::at(old(buf)@))),
        ensures
            encoded(res, final(buf)@, self.written(Format::plain(0), Writer::at(old(buf)@))),
    {
        self.encode_wire(Format::plain(0), buf)
    }

    /// Encode into the buffer as the flexible formats do.
    fn try_encode_compact(&self, buf: &mut BytesMut) -> (res: Result<()>)
        requires
            fits(self.written(Format::flexible(0), Writer::at(old(buf)@))),
        ensures
            encoded(res, final(buf)@, self.written(Format::flexible(0), Writer::at(old(buf)@))),
    {
        self.encode_wire(Format::flexible(0), buf)
    }
}

/// A value that can be decoded.
pub trait Decode: WireDecode {
    /// Decode from the buffer.
    fn decode(buf: &mut Bytes) -> (res: Result<Self>)
        ensures
            decoded(
                result_view(res),
                final(buf)@,
                Self::read(Format::plain(0), Reader::on(old(buf)@)),
            ),
    {
        Self::decode_wire(Format::plain(0), buf)
    }

    /// Decode from the buffer as the flexible formats do.
    fn decode_compact(buf: &mut Bytes) -> (res: Result<Self>)
        ensures
            decoded(
                result_view(res),
                final(buf)@,
                Self::read(Format::flexible(0), Reader::on(old(buf)@)),
            ),
    {
        Self::decode_wire(Format::flexible(0), buf)
    }
}

impl Encode for i8 {
    proof fn lemma_total(&self, f: Format, w: Writer) {
    }
}

impl Encode for i16 {
    proof fn lemma_total(&self, f: Format, w: Writer) {
    }
}

impl Encode for i32 {
    proof fn lemma_total(&self, f: Format, w: Writer) {
    }
}

impl Encode for i64 {
    proof fn lemma_total(&self, f: Format, w: Writer) {
    }
}

impl Encode for bool {
    proof fn lemma_total(&self, f: Format, w: Writer) {
    }
}

impl TryEncode for i8 {

}

impl TryEncode for i16 {

}

impl TryEncode for i32 {

}

impl TryEncode for i64 {

}

impl TryEncode for bool {

}

impl Decode for i8 {

}

impl Decode for i16 {

}

impl Decode for i32 {

}

impl Decode for i64 {

}

impl Decode for bool {

}

/// A text or null.
#[derive(Debug, Clone, PartialEq, Eq)]
pub struct KafkaString(pub Option<String>);

impl KafkaString {
    /// A text.
    pub fn new(text: &str) -> (r: Self)
        ensures
            r@ == Some(text@),
    {
        KafkaString(Some(text.to_owned()))
    }

    /// Null.
    pub fn null() -> (r: Self)
        ensures
            r@ is None,
    {
        KafkaString(None)
    }

    /// Whether this is null.
    pub fn is_null(&self) -> (r: bool)
        ensures
            r == (self@ is None),
    {
        self.0.is_none()
    }

    /// The text, unless this is null.
    pub fn as_str(&self) -> (r: Option<&str>)
        ensures
            match r {
                Some(s) => self@ == Some(s@),
                None => self@ is None,
            },
    {
        match &self.0 {
            Some(text) => Some(text.as_str()),
            None => None,
        }
    }
}

impl View for KafkaString {
    type V = Option<Seq<char>>;

    open spec fn view(&self) -> Option<Seq<char>> {
        optional_text(self.0)
    }
}

impl WireEncode for KafkaString {
    open spec fn written(&self, f: Format, w: Writer) -> Writer {
        w.nullable_string(self@, f.flexible)
    }

    proof fn lemma_grows(&self, f: Format, w: Writer) {
        broadcast use group_grows;

    }

    proof fn law_appends(&self, f: Format, w: Writer) {
        broadcast use group_appends;

    }

    fn encode_wire(&self, f: Format, buf: &mut BytesMut) -> (res: Result<()>) {
        broadcast use group_grows;

        write_nullable_string(&self.0, f.flexible, buf)
    }
}

impl WireDecode for KafkaString {
    open spec fn read(f: Format, r: Reader) -> (Option<Seq<char>>, Reader) {
        r.nullable_string(f.flexible)
    }

    fn decode_wire(f: Format, buf: &mut Bytes) -> (res: Result<Self>) {
        let text = read_nullable_string(f.flexible, buf)?;
        Ok(KafkaString(text))
    }

    proof fn law_consumes(f: Format, r: Reader) {
        broadcast use group_consumes;

    }

    proof fn law_ignores_what_follows(f: Format, r: Reader, more: Seq<u8>) {
        broadcast use group_consumes, group_followed;

    }

    proof fn law_needs_only_what_it_takes(f: Format, r: Reader, k: nat) {
        broadcast use group_consumes, group_cut;

    }
}

impl TryEncode for KafkaString {

}

impl Decode for KafkaString {

}

/// A byte string or null.
#[derive(Debug, Clone, PartialEq, Eq)]
pub struct KafkaBytes(pub Option<Bytes>);

impl KafkaBytes {
    /// A byte string.
    pub fn new(data: Bytes) -> (r: Self)
        ensures
            r@ == Some(data@),
    {
        KafkaBytes(Some(data))
    }

    /// Null.
    pub fn null() -> (r: Self)
        ensures
            r@ is None,
    {
        KafkaBytes(None)
    }
}

impl View for KafkaBytes {
    type V = Option<Seq<u8>>;

    open spec fn view(&self) -> Option<Seq<u8>> {
        optional_bytes(self.0)
    }
}

impl WireEncode for KafkaBytes {
    open spec fn written(&self, f: Format, w: Writer) -> Writer {
        w.nullable_bytes(self@, f.flexible)
    }

    proof fn lemma_grows(&self, f: Format, w: Writer) {
        broadcast use group_grows;

    }

    proof fn law_appends(&self, f: Format, w: Writer) {
        broadcast use group_appends;

    }

    fn encode_wire(&self, f: Format, buf: &mut BytesMut) -> (res: Result<()>) {
        broadcast use group_grows;

        write_nullable_bytes(&self.0, f.flexible, buf)
    }
}

impl WireDecode for KafkaBytes {
    open spec fn read(f: Format, r: Reader) -> (Option<Seq<u8>>, Reader) {
        r.nullable_bytes(f.flexible)
    }

    fn decode_wire(f: Format, buf: &mut Bytes) -> (res: Result<Self>) {
        let data = read_nullable_bytes(f.flexible, buf)?;
        Ok(KafkaBytes(data))
    }

    proof fn law_consumes(f: Format, r: Reader) {
        broadcast use group_consumes;

    }

    proof fn law_ignores_what_follows(f: Format, r: Reader, more: Seq<u8>) {
        broadcast use group_consumes, group_followed;

    }

    proof fn law_needs_only_what_it_takes(f: Format, r: Reader, k: nat) {
        broadcast use group_consumes, group_cut;

    }
}

impl TryEncode for KafkaBytes {

}

impl Decode for KafkaBytes {

}

/// An array or null.
#[derive(Debug, Clone)]
pub struct KafkaArray<T>(pub Option<Vec<T>>);

impl<T> KafkaArray<T> {
    /// An array.
    pub fn new(items: Vec<T>) -> (r: Self)
        ensures
            r.0 == Some(items),
    {
        KafkaArray(Some(items))
    }

    /// Null.
    pub fn null() -> (r: Self)
        ensures
            r.0 is None,
    {
        KafkaArray(None)
    }
}

impl<T: View> View for KafkaArray<T> {
    type V = Option<Seq<T::V>>;

    open spec fn view(&self) -> Option<Seq<T::V>> {
        optional_views(self.0)
    }
}

impl<T: WireEncode> WireEncode for KafkaArray<T> {
    open spec fn written(&self, f: Format, w: Writer) -> Writer {
        w.optional_array(self.0, f)
    }

    proof fn lemma_grows(&self, f: Format, w: Writer) {
        broadcast use group_grows;

    }

    proof fn law_appends(&self, f: Format, w: Writer) {
        broadcast use group_appends;

    }

    fn encode_wire(&self, f: Format, buf: &mut BytesMut) -> (res: Result<()>) {
        broadcast use group_grows;

        write_optional_array(&self.0, f, buf)
    }
}

impl<T: WireDecode> WireDecode for KafkaArray<T> {
    open spec fn read(f: Format, r: Reader) -> (Option<Seq<T::V>>, Reader) {
        r.optional_array::<T>(f)
    }

    fn decode_wire(f: Format, buf: &mut Bytes) -> (res: Result<Self>) {
        let items = read_optional_array::<T>(f, buf)?;
        Ok(KafkaArray(items))
    }

    proof fn law_consumes(f: Format, r: Reader) {
        broadcast use group_consumes;

    }

    proof fn law_ignores_what_follows(f: Format, r: Reader, more: Seq<u8>) {
        broadcast use group_consumes, group_followed;

    }

    proof fn law_needs_only_what_it_takes(f: Format, r: Reader, k: nat) {
        broadcast use group_consumes, group_cut;

    }
}

impl<T: WireEncode> TryEncode for KafkaArray<T> {

}

impl<T: WireDecode> Decode for KafkaArray<T> {

}

impl WireEncode for TaggedField {
    open spec fn written(&self, f: Format, w: Writer) -> Writer {
        let w = w.varint(self.tag as nat);
        if self.data@.len() > u32::MAX {
            w.raise(too_long("tagged field length", self.data@.len(), u32::MAX as nat))
        } else {
            w.varint(self.data@.len()).raw(self.data@)
        }
    }

    proof fn lemma_grows(&self, f: Format, w: Writer) {
    }

    proof fn law_appends(&self, f: Format, w: Writer) {
        broadcast use group_appends;

    }

    fn encode_wire(&self, f: Format, buf: &mut BytesMut) -> (res: Result<()>) {
        encode_unsigned_varint(self.tag, buf);
        let data = as_slice(&self.data);
        let n = data.len();
        if n > u32::MAX as usize {
            return Err(
                KrafkaError::Protocol(
                    ProtocolErrorKind::InvalidLength,
                    Reason::Exceeds("tagged field length", n, u32::MAX as usize),
                ),
            );
        }
        encode_unsigned_varint(n as u32, buf);
        write_raw(data, buf);
        Ok(())
    }
}

/// The tagged fields that end a structure in the flexible formats.
#[derive(Debug, Clone)]
pub struct TaggedFields(pub Vec<TaggedField>);

impl Default for TaggedFields {
    fn default() -> (r: Self)
        ensures
            r@ == Seq::<(u32, Seq<u8>)>::empty(),
            r.0@.len() == 0,
    {
        let none: Vec<TaggedField> = Vec::new();
        assert(views(none@) =~= Seq::<(u32, Seq<u8>)>::empty());
        TaggedFields(none)
    }
}

impl View for TaggedFields {
    type V = Seq<(u32, Seq<u8>)>;

    open spec fn view(&self) -> Seq<(u32, Seq<u8>)> {
        views(self.0@)
    }
}

impl WireEncode for TaggedFields {
    open spec fn written(&self, f: Format, w: Writer) -> Writer {
        if self.0@.len() > u32::MAX {
            w.raise(too_long("tagged field count", self.0@.len(), u32::MAX as nat))
        } else {
            w.varint(self.0@.len()).items(self.0@, f, self.0@.len())
        }
    }

    proof fn lemma_grows(&self, f: Format, w: Writer) {
        broadcast use group_grows;

    }

    proof fn law_appends(&self, f: Format, w: Writer) {
        broadcast use group_appends;

    }

    fn encode_wire(&self, f: Format, buf: &mut BytesMut) -> (res: Result<()>) {
        broadcast use group_grows;

        let n = self.0.len();
        if n > u32::MAX as usize {
            return Err(
                KrafkaError::Protocol(
                    ProtocolErrorKind::InvalidLength,
                    Reason::Exceeds("tagged field count", n, u32::MAX as usize),
                ),
            );
        }
        encode_unsigned_varint(n as u32, buf);
        write_items(&self.0, f, buf)
    }
}

impl WireDecode for TaggedFields {
    open spec fn read(f: Format, r: Reader) -> (Seq<(u32, Seq<u8>)>, Reader) {
        r.tagged_fields()
    }

    fn decode_wire(f: Format, buf: &mut Bytes) -> (res: Result<Self>) {
        let fields = read_tagged_fields(buf)?;
        Ok(TaggedFields(fields))
    }

    proof fn law_consumes(f: Format, r: Reader) {
        broadcast use group_consumes;

    }

    proof fn law_ignores_what_follows(f: Format, r: Reader, more: Seq<u8>) {
        broadcast use group_consumes, group_followed;

    }

    proof fn law_needs_only_what_it_takes(f: Format, r: Reader, k: nat) {
        broadcast use group_consumes, group_cut;

    }
}

impl TryEncode for TaggedFields {

}

impl Decode for TaggedFields {

}

} // verus!
