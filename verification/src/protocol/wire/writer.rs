//! Writing: the model, the functions that run, and what holds of every writing.

use crate::buffer::{
    as_slice, be_bytes_i16, be_bytes_i32, be_bytes_i64, be_bytes_u64, optional_bytes, put_i16,
    put_i32, put_i64, put_i8, put_slice, put_u64, put_u8, to_unsigned, Octets,
};
use crate::error::{KrafkaError, ProtocolErrorKind, Reason, Result};
use crate::protocol::wire::{malformed, optional_text, too_long, varint_bytes, Format};
use bytes::{Bytes, BytesMut};
use vstd::prelude::*;
use vstd::utf8::encode_utf8;

verus! {

/// The model of encoding.
pub struct Writer {
    /// The bytes so far.
    pub bytes: Seq<u8>,
    /// The first error.
    pub failure: Option<KrafkaError>,
}

impl Writer {
    /// A writer behind some bytes.
    pub open spec fn at(bytes: Seq<u8>) -> Writer {
        Writer { bytes, failure: None }
    }

    /// Whether an error was met.
    pub open spec fn failed(self) -> bool {
        self.failure is Some
    }

    /// The writer after an error, unless it has met one before.
    pub open spec fn raise(self, e: KrafkaError) -> Writer {
        if self.failed() {
            self
        } else {
            Writer { bytes: self.bytes, failure: Some(e) }
        }
    }

    /// Bytes as they are.
    pub open spec fn raw(self, bytes: Seq<u8>) -> Writer {
        if self.failed() {
            self
        } else {
            Writer { bytes: self.bytes + bytes, failure: None }
        }
    }

    /// A signed byte.
    pub open spec fn i8(self, v: i8) -> Writer {
        self.raw(seq![to_unsigned(v as int, 0x100) as u8])
    }

    /// A big-endian 16-bit number.
    pub open spec fn i16(self, v: i16) -> Writer {
        self.raw(be_bytes_i16(v))
    }

    /// A big-endian 32-bit number.
    pub open spec fn i32(self, v: i32) -> Writer {
        self.raw(be_bytes_i32(v))
    }

    /// A big-endian 64-bit number.
    pub open spec fn i64(self, v: i64) -> Writer {
        self.raw(be_bytes_i64(v))
    }

    /// A big-endian unsigned 64-bit number.
    pub open spec fn u64(self, v: u64) -> Writer {
        self.raw(be_bytes_u64(v as int))
    }

    /// A byte, 1 for `true` and 0 for `false`.
    pub open spec fn bool(self, v: bool) -> Writer {
        self.raw(seq![if v { 1u8 } else { 0u8 }])
    }

    /// An unsigned number, seven bits in a byte.
    pub open spec fn varint(self, n: nat) -> Writer {
        self.raw(varint_bytes(n))
    }

    /// A text or null: its length as a 16-bit number, or as a varint that is one
    /// more, and its UTF-8 bytes.
    #[verifier::opaque]
    pub open spec fn nullable_string(self, s: Option<Seq<char>>, flexible: bool) -> Writer {
        match s {
            None => if flexible {
                self.varint(0)
            } else {
                self.i16(-1i16 as i16)
            },
            Some(s) => {
                let b = encode_utf8(s);
                if flexible {
                    if b.len() >= u32::MAX {
                        self.raise(too_long("string length", b.len(), (u32::MAX - 1) as nat))
                    } else {
                        self.varint(b.len() + 1).raw(b)
                    }
                } else {
                    if b.len() > i16::MAX {
                        self.raise(too_long("string length", b.len(), i16::MAX as nat))
                    } else {
                        self.i16(b.len() as i16).raw(b)
                    }
                }
            },
        }
    }

    /// A text.
    pub open spec fn string(self, s: Seq<char>, flexible: bool) -> Writer {
        self.nullable_string(Some(s), flexible)
    }

    /// A byte string or null: its length as a 32-bit number, or as a varint that
    /// is one more, and its bytes.
    #[verifier::opaque]
    pub open spec fn nullable_bytes(self, b: Option<Seq<u8>>, flexible: bool) -> Writer {
        match b {
            None => if flexible {
                self.varint(0)
            } else {
                self.i32(-1i32 as i32)
            },
            Some(b) => if flexible {
                if b.len() >= u32::MAX {
                    self.raise(too_long("bytes length", b.len(), (u32::MAX - 1) as nat))
                } else {
                    self.varint(b.len() + 1).raw(b)
                }
            } else {
                if b.len() > i32::MAX {
                    self.raise(too_long("bytes length", b.len(), i32::MAX as nat))
                } else {
                    self.i32(b.len() as i32).raw(b)
                }
            },
        }
    }

    /// A byte string.
    pub open spec fn bytes(self, b: Seq<u8>, flexible: bool) -> Writer {
        self.nullable_bytes(Some(b), flexible)
    }

    /// The number of elements of an array: a 32-bit number, or a varint that is
    /// one more.
    #[verifier::opaque]
    pub open spec fn array_len(self, n: nat, flexible: bool) -> Writer {
        if flexible {
            if n >= u32::MAX {
                self.raise(too_long("array length", n, (u32::MAX - 1) as nat))
            } else {
                self.varint(n + 1)
            }
        } else {
            if n > i32::MAX {
                self.raise(too_long("array length", n, i32::MAX as nat))
            } else {
                self.i32(n as i32)
            }
        }
    }

    /// What stands for an array that is not there.
    pub open spec fn null_array(self, flexible: bool) -> Writer {
        if flexible {
            self.varint(0)
        } else {
            self.i32(-1i32 as i32)
        }
    }

    /// The empty section of tagged fields that ends a structure in the flexible
    /// formats.
    pub open spec fn tags(self, flexible: bool) -> Writer {
        if flexible {
            self.varint(0)
        } else {
            self
        }
    }

    /// The first `n` elements of an array.
    pub open spec fn items<T: WireEncode>(self, items: Seq<T>, f: Format, n: nat) -> Writer
        decreases n,
    {
        if n == 0 || self.failed() {
            self
        } else {
            let w = self.items(items, f, (n - 1) as nat);
            if w.failed() {
                w
            } else {
                items[n - 1].written(f, w)
            }
        }
    }

    /// An array.
    pub open spec fn array<T: WireEncode>(self, items: Seq<T>, f: Format) -> Writer {
        self.array_len(items.len(), f.flexible).items(items, f, items.len())
    }

    /// An array; `text` is the error of one that is too long for a compact length.
    pub open spec fn bounded_array<T: WireEncode>(
        self,
        items: Seq<T>,
        text: &'static str,
        f: Format,
    ) -> Writer {
        if f.flexible && items.len() >= u32::MAX {
            self.raise(malformed(text))
        } else {
            self.array(items, f)
        }
    }

    /// An array, or what stands for one that is not there.
    pub open spec fn optional_array<T: WireEncode>(
        self,
        items: Option<Vec<T>>,
        f: Format,
    ) -> Writer {
        match items {
            Some(items) => self.array(items@, f),
            None => self.null_array(f.flexible),
        }
    }

    /// One structure.
    pub open spec fn one<T: WireEncode>(self, x: T, f: Format) -> Writer {
        if self.failed() {
            self
        } else {
            x.written(f, self)
        }
    }
}

/// Whether the bytes have room in one buffer.
pub open spec fn fits(w: Writer) -> bool {
    w.bytes.len() <= isize::MAX
}

/// What an encoding function returns and leaves in the buffer: the bytes up to
/// the end or up to the first error.
pub open spec fn encoded(res: Result<()>, buf: Seq<u8>, w: Writer) -> bool {
    &&& buf == w.bytes
    &&& match res {
        Ok(_) => w.failure is None,
        Err(e) => w.failure == Some(e),
    }
}

/// A structure that can be written to the wire.
pub trait WireEncode: Sized {
    /// The writer behind the structure.
    spec fn written(&self, f: Format, w: Writer) -> Writer;

    /// Writing takes nothing back.
    proof fn lemma_grows(&self, f: Format, w: Writer)
        ensures
            w.bytes.len() <= self.written(f, w).bytes.len(),
    ;

    /// Writing adds bytes at the end and leaves those before as they are.
    proof fn law_appends(&self, f: Format, w: Writer)
        ensures
            appends(w, self.written(f, w)),
    ;

    /// Writes the structure.
    fn encode_wire(&self, f: Format, buf: &mut BytesMut) -> (res: Result<()>)
        requires
            fits(self.written(f, Writer::at(old(buf)@))),
        ensures
            encoded(res, final(buf)@, self.written(f, Writer::at(old(buf)@))),
    ;
}

/// Writes a signed byte.
pub fn write_i8(value: i8, buf: &mut BytesMut)
    requires
        fits(Writer::at(old(buf)@).i8(value)),
    ensures
        final(buf)@ == Writer::at(old(buf)@).i8(value).bytes,
{
    put_i8(buf, value);
}

/// Writes a big-endian 16-bit number.
pub fn write_i16(value: i16, buf: &mut BytesMut)
    requires
        fits(Writer::at(old(buf)@).i16(value)),
    ensures
        final(buf)@ == Writer::at(old(buf)@).i16(value).bytes,
{
    put_i16(buf, value);
}

/// Writes a big-endian 32-bit number.
pub fn write_i32(value: i32, buf: &mut BytesMut)
    requires
        fits(Writer::at(old(buf)@).i32(value)),
    ensures
        final(buf)@ == Writer::at(old(buf)@).i32(value).bytes,
{
    put_i32(buf, value);
}

/// Writes a big-endian 64-bit number.
pub fn write_i64(value: i64, buf: &mut BytesMut)
    requires
        fits(Writer::at(old(buf)@).i64(value)),
    ensures
        final(buf)@ == Writer::at(old(buf)@).i64(value).bytes,
{
    put_i64(buf, value);
}

/// Writes a big-endian unsigned 64-bit number.
pub fn write_u64(value: u64, buf: &mut BytesMut)
    requires
        fits(Writer::at(old(buf)@).u64(value)),
    ensures
        final(buf)@ == Writer::at(old(buf)@).u64(value).bytes,
{
    put_u64(buf, value);
}

/// Writes a byte, 1 for `true` and 0 for `false`.
pub fn write_bool(value: bool, buf: &mut BytesMut)
    requires
        fits(Writer::at(old(buf)@).bool(value)),
    ensures
        final(buf)@ == Writer::at(old(buf)@).bool(value).bytes,
{
    put_u8(buf, if value { 1 } else { 0 });
}

/// Writes an unsigned number, seven bits in a byte.
pub fn encode_unsigned_varint(value: u32, buf: &mut BytesMut)
    requires
        fits(Writer::at(old(buf)@).varint(value as nat)),
    ensures
        final(buf)@ == Writer::at(old(buf)@).varint(value as nat).bytes,
{
    let mut n: u32 = value;
    while n >= 0x80
        invariant
            old(buf)@ + varint_bytes(value as nat) == buf@ + varint_bytes(n as nat),
            fits(Writer::at(old(buf)@).varint(value as nat)),
        decreases n,
    {
        let ghost before = buf@;
        let b: u8 = (n % 0x80 + 0x80) as u8;
        put_u8(buf, b);
        assert(before + varint_bytes(n as nat) =~= buf@ + varint_bytes((n / 0x80) as nat));
        n = n / 0x80;
    }
    put_u8(buf, n as u8);
}

/// Writes bytes as they are.
pub fn write_raw(bytes: &[u8], buf: &mut BytesMut)
    requires
        fits(Writer::at(old(buf)@).raw(bytes@)),
    ensures
        final(buf)@ == Writer::at(old(buf)@).raw(bytes@).bytes,
{
    put_slice(buf, bytes);
}

/// Writes a text.
pub fn write_string(text: &str, flexible: bool, buf: &mut BytesMut) -> (res: Result<()>)
    requires
        fits(Writer::at(old(buf)@).string(text@, flexible)),
    ensures
        encoded(res, final(buf)@, Writer::at(old(buf)@).string(text@, flexible)),
{
    proof {
        reveal(Writer::nullable_string);
    }
    let bytes = text.as_bytes();
    let n = bytes.len();
    if flexible {
        if n >= u32::MAX as usize {
            return Err(
                KrafkaError::Protocol(
                    ProtocolErrorKind::InvalidLength,
                    Reason::Exceeds("string length", n, (u32::MAX - 1) as usize),
                ),
            );
        }
        encode_unsigned_varint((n + 1) as u32, buf);
    } else {
        if n > i16::MAX as usize {
            return Err(
                KrafkaError::Protocol(
                    ProtocolErrorKind::InvalidLength,
                    Reason::Exceeds("string length", n, i16::MAX as usize),
                ),
            );
        }
        put_i16(buf, n as i16);
    }
    put_slice(buf, bytes);
    Ok(())
}

/// Writes a text or null.
pub fn write_nullable_string(text: &Option<String>, flexible: bool, buf: &mut BytesMut) -> (res:
    Result<()>)
    requires
        fits(Writer::at(old(buf)@).nullable_string(optional_text(*text), flexible)),
    ensures
        encoded(
            res,
            final(buf)@,
            Writer::at(old(buf)@).nullable_string(optional_text(*text), flexible),
        ),
{
    proof {
        reveal(Writer::nullable_string);
    }
    match text {
        Some(text) => write_string(text.as_str(), flexible, buf),
        None => {
            if flexible {
                encode_unsigned_varint(0, buf);
            } else {
                put_i16(buf, -1);
            }
            Ok(())
        },
    }
}

/// Writes a byte string.
pub fn write_bytes(bytes: &[u8], flexible: bool, buf: &mut BytesMut) -> (res: Result<()>)
    requires
        fits(Writer::at(old(buf)@).bytes(bytes@, flexible)),
    ensures
        encoded(res, final(buf)@, Writer::at(old(buf)@).bytes(bytes@, flexible)),
{
    proof {
        reveal(Writer::nullable_bytes);
    }
    let n = bytes.len();
    if flexible {
        if n >= u32::MAX as usize {
            return Err(
                KrafkaError::Protocol(
                    ProtocolErrorKind::InvalidLength,
                    Reason::Exceeds("bytes length", n, (u32::MAX - 1) as usize),
                ),
            );
        }
        encode_unsigned_varint((n + 1) as u32, buf);
    } else {
        if n > i32::MAX as usize {
            return Err(
                KrafkaError::Protocol(
                    ProtocolErrorKind::InvalidLength,
                    Reason::Exceeds("bytes length", n, i32::MAX as usize),
                ),
            );
        }
        put_i32(buf, n as i32);
    }
    put_slice(buf, bytes);
    Ok(())
}

/// Writes a byte string or null.
pub fn write_nullable_bytes(bytes: &Option<Bytes>, flexible: bool, buf: &mut BytesMut) -> (res:
    Result<()>)
    requires
        fits(Writer::at(old(buf)@).nullable_bytes(optional_bytes(*bytes), flexible)),
    ensures
        encoded(
            res,
            final(buf)@,
            Writer::at(old(buf)@).nullable_bytes(optional_bytes(*bytes), flexible),
        ),
{
    proof {
        reveal(Writer::nullable_bytes);
    }
    match bytes {
        Some(bytes) => write_bytes(as_slice(bytes), flexible, buf),
        None => {
            if flexible {
                encode_unsigned_varint(0, buf);
            } else {
                put_i32(buf, -1);
            }
            Ok(())
        },
    }
}

/// An error among the first elements is the error of the whole array.
proof fn lemma_items_stay_failed<T: WireEncode>(
    w: Writer,
    items: Seq<T>,
    f: Format,
    k: nat,
    n: nat,
)
    requires
        k <= n,
        w.items(items, f, k).failed(),
    ensures
        w.items(items, f, n) == w.items(items, f, k),
    decreases n,
{
    if k < n {
        lemma_items_stay_failed(w, items, f, k, (n - 1) as nat);
    }
}

/// Writes the number of elements of an array.
pub fn write_array_len(n: usize, flexible: bool, buf: &mut BytesMut) -> (res: Result<()>)
    requires
        fits(Writer::at(old(buf)@).array_len(n as nat, flexible)),
    ensures
        encoded(res, final(buf)@, Writer::at(old(buf)@).array_len(n as nat, flexible)),
{
    proof {
        reveal(Writer::array_len);
    }
    if flexible {
        if n >= u32::MAX as usize {
            return Err(
                KrafkaError::Protocol(
                    ProtocolErrorKind::InvalidLength,
                    Reason::Exceeds("array length", n, (u32::MAX - 1) as usize),
                ),
            );
        }
        encode_unsigned_varint((n + 1) as u32, buf);
    } else {
        if n > i32::MAX as usize {
            return Err(
                KrafkaError::Protocol(
                    ProtocolErrorKind::InvalidLength,
                    Reason::Exceeds("array length", n, i32::MAX as usize),
                ),
            );
        }
        put_i32(buf, n as i32);
    }
    Ok(())
}

/// Writes what stands for an array that is not there.
pub fn write_null_array(flexible: bool, buf: &mut BytesMut)
    requires
        fits(Writer::at(old(buf)@).null_array(flexible)),
    ensures
        final(buf)@ == Writer::at(old(buf)@).null_array(flexible).bytes,
{
    if flexible {
        encode_unsigned_varint(0, buf);
    } else {
        put_i32(buf, -1);
    }
}

/// Writes the empty section of tagged fields of the flexible formats.
pub fn write_tags(flexible: bool, buf: &mut BytesMut)
    requires
        fits(Writer::at(old(buf)@).tags(flexible)),
    ensures
        final(buf)@ == Writer::at(old(buf)@).tags(flexible).bytes,
{
    if flexible {
        encode_unsigned_varint(0, buf);
    }
}

/// Writes the elements of an array.
pub fn write_items<T: WireEncode>(items: &Vec<T>, f: Format, buf: &mut BytesMut) -> (res: Result<
    (),
>)
    requires
        fits(Writer::at(old(buf)@).items(items@, f, items@.len())),
    ensures
        encoded(res, final(buf)@, Writer::at(old(buf)@).items(items@, f, items@.len())),
{
    let n = items.len();
    let mut i: usize = 0;
    while i < n
        invariant
            i <= n == items@.len(),
            fits(Writer::at(old(buf)@).items(items@, f, n as nat)),
            Writer::at(buf@) == Writer::at(old(buf)@).items(items@, f, i as nat),
        decreases n - i,
    {
        let ghost start = Writer::at(old(buf)@);
        assert(start.items(items@, f, (i + 1) as nat) == items@[i as int].written(
            f,
            Writer::at(buf@),
        ));
        proof {
            lemma_items_grow(start, items@, f, (i + 1) as nat, n as nat);
        }
        match items[i].encode_wire(f, buf) {
            Err(e) => {
                proof {
                    lemma_items_stay_failed(start, items@, f, (i + 1) as nat, n as nat);
                }
                return Err(e);
            },
            Ok(_) => {
                i = i + 1;
            },
        }
    }
    Ok(())
}

/// Writes an array.
pub fn write_array<T: WireEncode>(items: &Vec<T>, f: Format, buf: &mut BytesMut) -> (res: Result<
    (),
>)
    requires
        fits(Writer::at(old(buf)@).array(items@, f)),
    ensures
        encoded(res, final(buf)@, Writer::at(old(buf)@).array(items@, f)),
{
    proof {
        lemma_items_grow(
            Writer::at(old(buf)@).array_len(items@.len(), f.flexible),
            items@,
            f,
            0,
            items@.len(),
        );
    }
    match write_array_len(items.len(), f.flexible, buf) {
        Err(e) => Err(e),
        Ok(_) => write_items(items, f, buf),
    }
}

/// Writes an array; `text` is the error of one that is too long for a compact
/// length.
pub fn write_bounded_array<T: WireEncode>(
    items: &Vec<T>,
    text: &'static str,
    f: Format,
    buf: &mut BytesMut,
) -> (res: Result<()>)
    requires
        fits(Writer::at(old(buf)@).bounded_array(items@, text, f)),
    ensures
        encoded(res, final(buf)@, Writer::at(old(buf)@).bounded_array(items@, text, f)),
{
    if f.flexible && items.len() >= u32::MAX as usize {
        return Err(KrafkaError::protocol(text));
    }
    write_array(items, f, buf)
}

/// Writes an array, or what stands for one that is not there.
pub fn write_optional_array<T: WireEncode>(
    items: &Option<Vec<T>>,
    f: Format,
    buf: &mut BytesMut,
) -> (res: Result<()>)
    requires
        fits(Writer::at(old(buf)@).optional_array(*items, f)),
    ensures
        encoded(res, final(buf)@, Writer::at(old(buf)@).optional_array(*items, f)),
{
    match items {
        Some(items) => write_array(items, f, buf),
        None => {
            write_null_array(f.flexible, buf);
            Ok(())
        },
    }
}

impl WireEncode for i32 {
    open spec fn written(&self, f: Format, w: Writer) -> Writer {
        w.i32(*self)
    }

    proof fn lemma_grows(&self, f: Format, w: Writer) {
    }

    proof fn law_appends(&self, f: Format, w: Writer) {
        broadcast use group_appends;

    }

    fn encode_wire(&self, f: Format, buf: &mut BytesMut) -> (res: Result<()>) {
        write_i32(*self, buf);
        Ok(())
    }
}

impl WireEncode for String {
    open spec fn written(&self, f: Format, w: Writer) -> Writer {
        w.string(self@, f.flexible)
    }

    proof fn lemma_grows(&self, f: Format, w: Writer) {
        broadcast use group_grows;

    }

    proof fn law_appends(&self, f: Format, w: Writer) {
        broadcast use group_appends;

    }

    fn encode_wire(&self, f: Format, buf: &mut BytesMut) -> (res: Result<()>) {
        broadcast use group_grows;

        write_string(self.as_str(), f.flexible, buf)
    }
}

impl WireEncode for i8 {
    open spec fn written(&self, f: Format, w: Writer) -> Writer {
        w.i8(*self)
    }

    proof fn lemma_grows(&self, f: Format, w: Writer) {
    }

    proof fn law_appends(&self, f: Format, w: Writer) {
        broadcast use group_appends;

    }

    fn encode_wire(&self, f: Format, buf: &mut BytesMut) -> (res: Result<()>) {
        write_i8(*self, buf);
        Ok(())
    }
}

impl WireEncode for i16 {
    open spec fn written(&self, f: Format, w: Writer) -> Writer {
        w.i16(*self)
    }

    proof fn lemma_grows(&self, f: Format, w: Writer) {
    }

    proof fn law_appends(&self, f: Format, w: Writer) {
        broadcast use group_appends;

    }

    fn encode_wire(&self, f: Format, buf: &mut BytesMut) -> (res: Result<()>) {
        write_i16(*self, buf);
        Ok(())
    }
}

impl WireEncode for i64 {
    open spec fn written(&self, f: Format, w: Writer) -> Writer {
        w.i64(*self)
    }

    proof fn lemma_grows(&self, f: Format, w: Writer) {
    }

    proof fn law_appends(&self, f: Format, w: Writer) {
        broadcast use group_appends;

    }

    fn encode_wire(&self, f: Format, buf: &mut BytesMut) -> (res: Result<()>) {
        write_i64(*self, buf);
        Ok(())
    }
}

impl WireEncode for bool {
    open spec fn written(&self, f: Format, w: Writer) -> Writer {
        w.bool(*self)
    }

    proof fn lemma_grows(&self, f: Format, w: Writer) {
    }

    proof fn law_appends(&self, f: Format, w: Writer) {
        broadcast use group_appends;

    }

    fn encode_wire(&self, f: Format, buf: &mut BytesMut) -> (res: Result<()>) {
        write_bool(*self, buf);
        Ok(())
    }
}

/// Writing more elements takes nothing back.
proof fn lemma_items_grow<T: WireEncode>(w: Writer, items: Seq<T>, f: Format, k: nat, n: nat)
    requires
        k <= n,
    ensures
        w.items(items, f, k).bytes.len() <= w.items(items, f, n).bytes.len(),
        w.bytes.len() <= w.items(items, f, n).bytes.len(),
    decreases n,
{
    if n > 0 {
        lemma_items_grow(w, items, f, if k < n { k } else { (n - 1) as nat }, (n - 1) as nat);
        if !w.failed() {
            let before = w.items(items, f, (n - 1) as nat);
            items[n - 1].lemma_grows(f, before);
        }
    }
}

/// Writing elements takes nothing back.
pub broadcast proof fn lemma_written_items_grow<T: WireEncode>(
    w: Writer,
    items: Seq<T>,
    f: Format,
    n: nat,
)
    ensures
        w.bytes.len() <= (#[trigger] w.items(items, f, n)).bytes.len(),
{
    lemma_items_grow(w, items, f, 0, n);
}

/// Writing an array takes nothing back.
pub broadcast proof fn lemma_array_grows<T: WireEncode>(w: Writer, items: Seq<T>, f: Format)
    ensures
        w.bytes.len() <= (#[trigger] w.array(items, f)).bytes.len(),
{
    lemma_array_len_grows(w, items.len(), f.flexible);
    lemma_items_grow(
        w.array_len(items.len(), f.flexible),
        items,
        f,
        0,
        items.len(),
    );
}

/// Writing a structure takes nothing back.
pub broadcast proof fn lemma_one_grows<T: WireEncode>(w: Writer, x: T, f: Format)
    ensures
        w.bytes.len() <= (#[trigger] w.one(x, f)).bytes.len(),
{
    x.lemma_grows(f, w);
}

/// Writing a text takes nothing back, and nothing is written behind an error.
pub broadcast proof fn lemma_string_grows(w: Writer, s: Option<Seq<char>>, flexible: bool)
    ensures
        w.bytes.len() <= (#[trigger] w.nullable_string(s, flexible)).bytes.len(),
        w.failed() ==> w.nullable_string(s, flexible) == w,
{
    reveal(Writer::nullable_string);
}

/// Writing a byte string takes nothing back, and nothing is written behind an error.
pub broadcast proof fn lemma_bytes_grow(w: Writer, b: Option<Seq<u8>>, flexible: bool)
    ensures
        w.bytes.len() <= (#[trigger] w.nullable_bytes(b, flexible)).bytes.len(),
        w.failed() ==> w.nullable_bytes(b, flexible) == w,
{
    reveal(Writer::nullable_bytes);
}

/// Writing a length takes nothing back, and nothing is written behind an error.
pub broadcast proof fn lemma_array_len_grows(w: Writer, n: nat, flexible: bool)
    ensures
        w.bytes.len() <= (#[trigger] w.array_len(n, flexible)).bytes.len(),
        w.failed() ==> w.array_len(n, flexible) == w,
{
    reveal(Writer::array_len);
}

/// That writing takes nothing back.
pub broadcast group group_grows {
    lemma_string_grows,
    lemma_bytes_grow,
    lemma_array_len_grows,
    lemma_written_items_grow,
    lemma_array_grows,
    lemma_one_grows,
}

/// Whether what was written before still stands at the front.
#[verifier::opaque]
pub open spec fn appends(before: Writer, after: Writer) -> bool {
    &&& before.bytes.len() <= after.bytes.len()
    &&& after.bytes.take(before.bytes.len() as int) == before.bytes
}

/// Nothing added leaves everything.
pub broadcast proof fn lemma_appends_nothing(w: Writer)
    ensures
        #[trigger] appends(w, w),
{
    reveal(appends);
    assert(w.bytes.take(w.bytes.len() as int) =~= w.bytes);
}

/// What stands through two steps stands through both.
pub broadcast proof fn lemma_appends_in_turn(a: Writer, b: Writer, c: Writer)
    requires
        #[trigger] appends(a, b),
        #[trigger] appends(b, c),
    ensures
        appends(a, c),
{
    reveal(appends);
    assert(c.bytes.take(a.bytes.len() as int) =~= c.bytes.take(b.bytes.len() as int).take(
        a.bytes.len() as int,
    ));
}

/// Bytes are added at the end.
pub broadcast proof fn lemma_raw_appends(w: Writer, b: Seq<u8>)
    ensures
        appends(w, #[trigger] w.raw(b)),
{
    reveal(appends);
    assert(w.raw(b).bytes.take(w.bytes.len() as int) =~= w.bytes);
}

/// An error adds nothing.
pub broadcast proof fn lemma_raise_appends(w: Writer, e: KrafkaError)
    ensures
        appends(w, #[trigger] w.raise(e)),
{
    lemma_appends_nothing(w);
    reveal(appends);
}

/// A text is added at the end.
pub broadcast proof fn lemma_string_appends(w: Writer, s: Option<Seq<char>>, flexible: bool)
    ensures
        appends(w, #[trigger] w.nullable_string(s, flexible)),
{
    broadcast use lemma_appends_in_turn, lemma_raw_appends, lemma_raise_appends;

    reveal(Writer::nullable_string);
}

/// A byte string is added at the end.
pub broadcast proof fn lemma_bytes_append(w: Writer, b: Option<Seq<u8>>, flexible: bool)
    ensures
        appends(w, #[trigger] w.nullable_bytes(b, flexible)),
{
    broadcast use lemma_appends_in_turn, lemma_raw_appends, lemma_raise_appends;

    reveal(Writer::nullable_bytes);
}

/// A length is added at the end.
pub broadcast proof fn lemma_array_len_appends(w: Writer, n: nat, flexible: bool)
    ensures
        appends(w, #[trigger] w.array_len(n, flexible)),
{
    broadcast use lemma_raw_appends, lemma_raise_appends;

    reveal(Writer::array_len);
}

/// Elements are added at the end.
pub broadcast proof fn lemma_items_append<T: WireEncode>(
    w: Writer,
    items: Seq<T>,
    f: Format,
    n: nat,
)
    ensures
        appends(w, #[trigger] w.items(items, f, n)),
    decreases n,
{
    broadcast use lemma_appends_in_turn, lemma_appends_nothing;

    if n > 0 {
        lemma_items_append(w, items, f, (n - 1) as nat);
        items[n - 1].law_appends(f, w.items(items, f, (n - 1) as nat));
    }
}

/// A structure is added at the end.
pub broadcast proof fn lemma_one_appends<T: WireEncode>(w: Writer, x: T, f: Format)
    ensures
        appends(w, #[trigger] w.one(x, f)),
{
    broadcast use lemma_appends_nothing;

    x.law_appends(f, w);
}

/// That writing adds bytes at the end.
pub broadcast group group_appends {
    lemma_appends_nothing,
    lemma_appends_in_turn,
    lemma_raw_appends,
    lemma_raise_appends,
    lemma_string_appends,
    lemma_bytes_append,
    lemma_array_len_appends,
    lemma_items_append,
    lemma_one_appends,
}

/// A text whose UTF-8 form is longer than its length prefix can say is refused, and
/// nothing is written.
pub proof fn law_oversized_string_is_refused(w: Writer, s: Seq<char>)
    requires
        !w.failed(),
        encode_utf8(s).len() > i16::MAX,
    ensures
        w.string(s, false) == w.raise(
            too_long("string length", encode_utf8(s).len(), i16::MAX as nat),
        ),
        w.string(s, false).bytes == w.bytes,
{
    reveal(Writer::nullable_string);
}

} // verus!
