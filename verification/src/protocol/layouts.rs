//! The published layouts of requests and responses.
//!
//! A law on a request takes the bytes that encoding wrote, reads them field by field
//! in the order in which Kafka publishes the fields, and finds the fields of the
//! request. A law on a response takes fields, writes them in the published order, and
//! finds them in what decoding returns. The laws speak of the fields of the values
//! themselves, and of no model of a message.

use crate::buffer::{be_bytes_i16, be_bytes_i32, law_be_i16, law_be_i32, to_signed, to_unsigned};
use crate::error::{KrafkaError, ProtocolErrorKind};
use crate::protocol::round_trip::{
    begins, behind, law_array_len_round_trip, law_array_round_trip, law_i32_round_trip,
    law_i64_round_trip, law_nullable_string_round_trip, law_raw_round_trip, law_varint_round_trip,
};
use crate::protocol::wire::{
    appends, group_appends, group_followed, malformed, negative_length, null_field, too_long,
    truncated, views, Format, Reader, WireDecode, WireEncode, Writer,
};
use vstd::prelude::*;
use vstd::utf8::{decode_utf8, encode_utf8, valid_utf8};

pub mod acl;
pub mod add_offsets_to_txn;
pub mod add_partitions_to_txn;
pub mod admin;
pub mod alter_client_quotas;
pub mod alter_partition_reassignments;
pub mod alter_replica_log_dirs;
pub mod api;
pub mod codes;
pub mod config;
pub mod consumer_group_describe;
pub mod consumer_protocol;
pub mod coordinator;
pub mod group;
pub mod header;
pub mod metadata;
pub mod offsets;
pub mod produce_fetch;
pub mod security;
pub mod topics;
pub mod transactions;

verus! {

/// Whether the length of a text has a place in front of it.
pub open spec fn text_fits(s: Seq<char>, flexible: bool) -> bool {
    if flexible {
        encode_utf8(s).len() < u32::MAX
    } else {
        encode_utf8(s).len() <= i16::MAX
    }
}

/// Whether a text that may be missing can be written.
pub open spec fn optional_text_fits(s: Option<Seq<char>>, flexible: bool) -> bool {
    s matches Some(s) ==> text_fits(s, flexible)
}

/// Whether a number of bytes or of elements can be written.
pub open spec fn count_fits(n: nat, flexible: bool) -> bool {
    if flexible {
        n < u32::MAX
    } else {
        n <= i32::MAX
    }
}

/// Whether elements can be written, wherever they stand.
pub open spec fn writable<T: WireEncode>(items: Seq<T>, f: Format) -> bool {
    forall|i: int, w: Writer|
        0 <= i < items.len() && !w.failed() ==> !(#[trigger] items[i].written(f, w)).failed()
}

/// The writer in front of what a reader has not read.
pub open spec fn written_before(total: Seq<u8>, r: Reader) -> Writer {
    Writer::at(total.take(total.len() - r.rest.len()))
}

/// Whether elements stand where a reader is, one behind the other.
pub open spec fn stands<T: WireEncode>(
    total: Seq<u8>,
    r: Reader,
    items: Seq<T>,
    f: Format,
) -> bool {
    begins(total, written_before(total, r).items(items, f, items.len()))
}

/// The reader behind the elements that stand where a reader is.
pub open spec fn past<T: WireEncode>(
    total: Seq<u8>,
    r: Reader,
    items: Seq<T>,
    f: Format,
) -> Reader {
    behind(total, written_before(total, r).items(items, f, items.len()))
}

/// Whether each piece of bytes is one structure and nothing else.
pub open spec fn elements<T: WireDecode>(
    f: Format,
    pieces: Seq<Seq<u8>>,
    values: Seq<T::V>,
) -> bool {
    &&& pieces.len() == values.len()
    &&& forall|i: int|
        0 <= i < pieces.len() ==> T::read(f, Reader::on(#[trigger] pieces[i])) == (
            values[i],
            Reader::on(Seq::empty()),
        )
}

/// Whether bytes are a section of tagged fields, of whatever tags.
pub open spec fn is_tags(tags: Seq<u8>) -> bool {
    Reader::on(tags).tagged_fields().1 == Reader::on(Seq::empty())
}

/// A text, where a missing one stands for the empty one.
pub open spec fn or_empty<A>(s: Option<Seq<A>>) -> Seq<A> {
    match s {
        Some(s) => s,
        None => Seq::empty(),
    }
}

/// An element among others that stand somewhere begins there, behind those in front.
pub proof fn law_element_stands<T: WireEncode>(
    total: Seq<u8>,
    r: Reader,
    items: Seq<T>,
    f: Format,
    i: nat,
)
    requires
        stands(total, r, items, f),
        i < items.len(),
    ensures
        ({
            let before = written_before(total, r).items(items, f, i);
            &&& !before.failed()
            &&& begins(total, items[i as int].written(f, before))
        }),
{
    lemma_items_begin(written_before(total, r), items, f, i + 1, items.len(), total);
    lemma_items_begin(written_before(total, r), items, f, i, items.len(), total);
}

/// Where bytes begin with elements, they begin with the first of them.
proof fn lemma_items_begin<T: WireEncode>(
    w: Writer,
    items: Seq<T>,
    f: Format,
    k: nat,
    n: nat,
    total: Seq<u8>,
)
    requires
        k <= n,
        begins(total, w.items(items, f, n)),
    ensures
        begins(total, w.items(items, f, k)),
    decreases n,
{
    if k < n {
        let before = w.items(items, f, (n - 1) as nat);
        items[n - 1].law_appends(f, before);
        lemma_begins_before(before, w.items(items, f, n), total);
        lemma_items_begin(w, items, f, k, (n - 1) as nat, total);
    }
}

/// What begins with more begins with less.
proof fn lemma_begins_before(before: Writer, after: Writer, total: Seq<u8>)
    requires
        appends(before, after),
        begins(total, after),
        !before.failed(),
    ensures
        begins(total, before),
{
    reveal(appends);
    assert(total.take(before.bytes.len() as int) =~= total.take(after.bytes.len() as int).take(
        before.bytes.len() as int,
    ));
}

/// Elements that were written stand where they were written.
pub proof fn lemma_items_stand<T: WireEncode>(
    w: Writer,
    items: Seq<T>,
    f: Format,
    total: Seq<u8>,
)
    requires
        begins(total, w.items(items, f, items.len())),
    ensures
        begins(total, w),
        stands(total, behind(total, w), items, f),
        past(total, behind(total, w), items, f) == behind(
            total,
            w.items(items, f, items.len()),
        ),
{
    broadcast use group_appends;

    lemma_items_begin(w, items, f, 0, items.len(), total);
    assert(written_before(total, behind(total, w)) == w);
}

/// Texts that were written are read back.
pub proof fn lemma_texts_round_trip(
    w: Writer,
    items: Seq<String>,
    f: Format,
    n: nat,
    total: Seq<u8>,
)
    requires
        n <= items.len(),
        begins(total, w.items(items, f, n)),
    ensures
        begins(total, w),
        behind(total, w).string_items("", f.flexible, n) == (
            views(items).take(n as int),
            behind(total, w.items(items, f, n)),
        ),
    decreases n,
{
    if n == 0 {
        assert(views(items).take(0) =~= Seq::empty());
    } else {
        let before = w.items(items, f, (n - 1) as nat);
        law_nullable_string_round_trip(before, Some(items[n - 1]@), f.flexible, total);
        lemma_texts_round_trip(w, items, f, (n - 1) as nat, total);
        assert(views(items).take(n as int) =~= views(items).take(n - 1).push(items[n - 1]@));
    }
}

/// An array of texts that was written is read back.
pub proof fn law_texts_round_trip(w: Writer, items: Seq<String>, f: Format, total: Seq<u8>)
    requires
        begins(total, w.array(items, f)),
    ensures
        begins(total, w),
        behind(total, w).string_array("", f.flexible) == (
            views(items),
            behind(total, w.array(items, f)),
        ),
{
    lemma_texts_round_trip(
        w.array_len(items.len(), f.flexible),
        items,
        f,
        items.len(),
        total,
    );
    law_array_len_round_trip(w, items.len(), f.flexible, total);
    assert(views(items).take(items.len() as int) =~= views(items));
}

/// The name of a field is of no account where its texts are there.
pub proof fn lemma_texts_named(r: Reader, what: &'static str, flexible: bool)
    ensures
        !r.string_array("", flexible).1.failed() ==> r.string_array(what, flexible)
            == r.string_array("", flexible),
{
    let (n, counted) = r.array_len(flexible);
    lemma_text_items_named(counted, what, flexible, n);
}

/// The name of a field is of no account where its first texts are there.
proof fn lemma_text_items_named(r: Reader, what: &'static str, flexible: bool, n: nat)
    ensures
        !r.string_items("", flexible, n).1.failed() ==> r.string_items(what, flexible, n)
            == r.string_items("", flexible, n),
    decreases n,
{
    if n > 0 {
        lemma_text_items_named(r, what, flexible, (n - 1) as nat);
    }
}

/// An array of numbers that was written is read back.
pub proof fn law_numbers_round_trip(w: Writer, items: Seq<i32>, f: Format, total: Seq<u8>)
    requires
        begins(total, w.array(items, f)),
    ensures
        begins(total, w),
        behind(total, w).array::<i32>(f) == (items, behind(total, w.array(items, f))),
        behind(total, w).optional_array::<i32>(f) == (
            Some(items),
            behind(total, w.array(items, f)),
        ),
{
    let counted = w.array_len(items.len(), f.flexible);
    lemma_items_stand(counted, items, f, total);
    law_array_len_round_trip(w, items.len(), f.flexible, total);
    law_array_round_trip(w, items, f, total);
    lemma_views_of_numbers(items);
}

/// The view of numbers is the numbers.
pub proof fn lemma_views_of_numbers(items: Seq<i32>)
    ensures
        views(items) == items,
{
    assert(views(items) =~= items);
}

/// A missing array that was written is read back.
pub proof fn law_null_array_round_trip(w: Writer, flexible: bool, total: Seq<u8>)
    requires
        begins(total, w.null_array(flexible)),
    ensures
        begins(total, w),
        behind(total, w).optional_array_len(flexible) == (
            None::<nat>,
            behind(total, w.null_array(flexible)),
        ),
{
    if flexible {
        law_varint_round_trip(w, 0, total);
    } else {
        law_i32_round_trip(w, -1i32 as i32, total);
    }
}

/// An unsigned 64-bit number that was written is read back.
pub proof fn law_u64_round_trip(w: Writer, v: u64, total: Seq<u8>)
    requires
        begins(total, w.u64(v)),
    ensures
        begins(total, w),
        to_unsigned(behind(total, w).i64().0 as int, 0x1_0000_0000_0000_0000) == v,
        behind(total, w).i64().1 == behind(total, w.u64(v)),
{
    let signed = to_signed(v as int, 0x1_0000_0000_0000_0000) as i64;
    assert(w.u64(v) == w.i64(signed));
    law_i64_round_trip(w, signed, total);
}

/// Structures that stand one behind the other are read in turn.
pub proof fn lemma_elements_read<T: WireDecode>(
    f: Format,
    pieces: Seq<Seq<u8>>,
    values: Seq<T::V>,
    next: Seq<u8>,
)
    requires
        elements::<T>(f, pieces, values),
    ensures
        Reader::on(pieces.flatten() + next).items::<T>(f, pieces.len()) == (
            values,
            Reader::on(next),
        ),
    decreases pieces.len(),
{
    if pieces.len() == 0 {
        assert(pieces.flatten() + next =~= next);
        assert(values =~= Seq::empty());
    } else {
        let last = pieces.last();
        let n = (pieces.len() - 1) as nat;
        pieces.lemma_flatten_and_flatten_alt_are_equivalent();
        pieces.drop_last().lemma_flatten_and_flatten_alt_are_equivalent();
        assert(pieces.flatten() + next =~= pieces.drop_last().flatten() + (last + next));
        assert(elements::<T>(f, pieces.drop_last(), values.drop_last())) by {
            assert forall|i: int| 0 <= i < n implies T::read(
                f,
                Reader::on(#[trigger] pieces.drop_last()[i]),
            ) == (values.drop_last()[i], Reader::on(Seq::empty())) by {
                assert(pieces.drop_last()[i] == pieces[i]);
            }
        }
        lemma_elements_read::<T>(f, pieces.drop_last(), values.drop_last(), last + next);
        assert(last == pieces[n as int]);
        lemma_one_read::<T>(f, last, values[n as int], next);
        assert(values =~= values.drop_last().push(values[n as int]));
    }
}

/// An array of structures that stand one behind the other is read.
pub proof fn lemma_array_read<T: WireDecode>(
    w: Writer,
    f: Format,
    pieces: Seq<Seq<u8>>,
    values: Seq<T::V>,
    total: Seq<u8>,
)
    requires
        elements::<T>(f, pieces, values),
        begins(total, w.array_len(pieces.len(), f.flexible).raw(pieces.flatten())),
    ensures
        begins(total, w),
        ({
            let after = behind(
                total,
                w.array_len(pieces.len(), f.flexible).raw(pieces.flatten()),
            );
            &&& behind(total, w).array::<T>(f) == (values, after)
            &&& behind(total, w).optional_array::<T>(f) == (Some(values), after)
        }),
{
    let counted = w.array_len(pieces.len(), f.flexible);
    let after = counted.raw(pieces.flatten());
    law_raw_round_trip(counted, pieces.flatten(), total);
    lemma_elements_read::<T>(f, pieces, values, behind(total, after).rest);
    law_array_len_round_trip(w, pieces.len(), f.flexible, total);
}

/// An array that may be missing is read.
pub proof fn lemma_optional_array_read<T: WireDecode>(
    w: Writer,
    f: Format,
    pieces: Option<Seq<Seq<u8>>>,
    values: Seq<T::V>,
    total: Seq<u8>,
)
    requires
        pieces matches Some(pieces) ==> elements::<T>(f, pieces, values),
        begins(
            total,
            match pieces {
                Some(pieces) => w.array_len(pieces.len(), f.flexible).raw(pieces.flatten()),
                None => w.null_array(f.flexible),
            },
        ),
    ensures
        begins(total, w),
        behind(total, w).array_or_empty::<T>(f) == (
            if pieces is Some {
                values
            } else {
                Seq::empty()
            },
            behind(
                total,
                match pieces {
                    Some(pieces) => w.array_len(pieces.len(), f.flexible).raw(pieces.flatten()),
                    None => w.null_array(f.flexible),
                },
            ),
        ),
{
    match pieces {
        Some(pieces) => {
            lemma_array_read::<T>(w, f, pieces, values, total);
        },
        None => {
            law_null_array_round_trip(w, f.flexible, total);
        },
    }
}

/// An array of numbers that may be missing is read.
pub proof fn lemma_optional_numbers_read(
    w: Writer,
    f: Format,
    items: Option<Seq<i32>>,
    total: Seq<u8>,
)
    requires
        begins(
            total,
            match items {
                Some(items) => w.array(items, f),
                None => w.null_array(f.flexible),
            },
        ),
    ensures
        begins(total, w),
        behind(total, w).array_or_empty::<i32>(f) == (
            or_empty(items),
            behind(
                total,
                match items {
                    Some(items) => w.array(items, f),
                    None => w.null_array(f.flexible),
                },
            ),
        ),
{
    match items {
        Some(items) => {
            law_numbers_round_trip(w, items, f, total);
        },
        None => {
            law_null_array_round_trip(w, f.flexible, total);
        },
    }
}

/// An array that was written is found: its length, and its elements behind that.
pub proof fn lemma_array_stands<T: WireEncode>(
    w: Writer,
    items: Seq<T>,
    f: Format,
    total: Seq<u8>,
)
    requires
        begins(total, w.array(items, f)),
    ensures
        begins(total, w),
        ({
            let (n, start) = behind(total, w).array_len(f.flexible);
            &&& n == items.len()
            &&& behind(total, w).optional_array_len(f.flexible) == (Some(n), start)
            &&& stands(total, start, items, f)
            &&& past(total, start, items, f) == behind(total, w.array(items, f))
        }),
{
    lemma_items_stand(w.array_len(items.len(), f.flexible), items, f, total);
    law_array_len_round_trip(w, items.len(), f.flexible, total);
}

/// A structure is read in front of other bytes.
pub proof fn lemma_one_read<T: WireDecode>(f: Format, piece: Seq<u8>, value: T::V, next: Seq<u8>)
    requires
        T::read(f, Reader::on(piece)) == (value, Reader::on(Seq::empty())),
    ensures
        T::read(f, Reader::on(piece + next)) == (value, Reader::on(next)),
{
    T::law_ignores_what_follows(f, Reader::on(piece), next);
    assert(Seq::<u8>::empty() + next =~= next);
}

/// A section of tagged fields is read in front of other bytes.
pub proof fn lemma_tags_read(tags: Seq<u8>, next: Seq<u8>)
    requires
        is_tags(tags),
    ensures
        Reader::on(tags + next).tags(true) == Reader::on(next),
{
    broadcast use group_followed;

    let r = Reader::on(tags);
    assert(r.followed_by(next).tagged_fields().1 == r.tagged_fields().1.followed_by(next));
    assert(Seq::<u8>::empty() + next =~= next);
}

/// A text with a place for its length is written.
pub proof fn lemma_text_written(w: Writer, s: Option<Seq<char>>, flexible: bool)
    ensures
        !w.failed() && optional_text_fits(s, flexible) ==> !w.nullable_string(
            s,
            flexible,
        ).failed(),
{
    reveal(Writer::nullable_string);
}

/// A byte string with a place for its length is written.
pub proof fn lemma_bytes_written(w: Writer, b: Option<Seq<u8>>, flexible: bool)
    ensures
        !w.failed() && (b matches Some(b) ==> count_fits(b.len(), flexible)) ==> !w.nullable_bytes(
            b,
            flexible,
        ).failed(),
{
    reveal(Writer::nullable_bytes);
}

/// An array with a place for its length is written, if its elements are.
pub proof fn lemma_array_written<T: WireEncode>(w: Writer, items: Seq<T>, f: Format)
    ensures
        !w.failed() && count_fits(items.len(), f.flexible) && writable(items, f) ==> !w.array(
            items,
            f,
        ).failed(),
{
    reveal(Writer::array_len);
    if writable(items, f) {
        lemma_items_written(w.array_len(items.len(), f.flexible), items, f, items.len());
    }
}

/// Elements are written if each of them is.
proof fn lemma_items_written<T: WireEncode>(w: Writer, items: Seq<T>, f: Format, n: nat)
    requires
        writable(items, f),
        n <= items.len(),
    ensures
        !w.failed() ==> !w.items(items, f, n).failed(),
    decreases n,
{
    if n > 0 {
        lemma_items_written(w, items, f, (n - 1) as nat);
        let before = w.items(items, f, (n - 1) as nat);
        assert(!before.failed() ==> !items[n - 1].written(f, before).failed());
    }
}

/// Numbers are written wherever they stand.
pub proof fn law_numbers_are_writable(items: Seq<i32>, f: Format)
    ensures
        writable(items, f),
{
}

/// Texts with a place for their lengths are written wherever they stand.
pub proof fn law_texts_are_writable(items: Seq<String>, f: Format)
    requires
        forall|i: int| 0 <= i < items.len() ==> text_fits((#[trigger] items[i])@, f.flexible),
    ensures
        writable(items, f),
{
    assert forall|i: int, w: Writer| 0 <= i < items.len() && !w.failed() implies !(
    #[trigger] items[i].written(f, w)).failed() by {
        lemma_text_written(w, Some(items[i]@), f.flexible);
    }
}

/// A text is its length in two bytes and its UTF-8 bytes, and `-1` where it is
/// missing.
pub proof fn law_plain_text(w: Writer, s: Option<Seq<char>>)
    requires
        !w.failed(),
        optional_text_fits(s, false),
    ensures
        w.nullable_string(s, false).bytes == w.bytes + (match s {
            Some(s) => be_bytes_i16(encode_utf8(s).len() as i16) + encode_utf8(s),
            None => seq![0xffu8, 0xffu8],
        }),
        !w.nullable_string(s, false).failed(),
{
    reveal(Writer::nullable_string);
    match s {
        Some(s) => {
            let b = encode_utf8(s);
            assert(w.bytes + be_bytes_i16(b.len() as i16) + b =~= w.bytes + (be_bytes_i16(
                b.len() as i16,
            ) + b));
        },
        None => {
            assert(be_bytes_i16((-1) as i16) =~= seq![0xffu8, 0xffu8]);
        },
    }
}

/// A byte string is its length in four bytes and its bytes, and `-1` where it is
/// missing.
pub proof fn law_plain_bytes(w: Writer, b: Option<Seq<u8>>)
    requires
        !w.failed(),
        b matches Some(b) ==> count_fits(b.len(), false),
    ensures
        w.nullable_bytes(b, false).bytes == w.bytes + (match b {
            Some(b) => be_bytes_i32(b.len() as i32) + b,
            None => seq![0xffu8, 0xffu8, 0xffu8, 0xffu8],
        }),
        !w.nullable_bytes(b, false).failed(),
{
    reveal(Writer::nullable_bytes);
    match b {
        Some(b) => {
            assert(w.bytes + be_bytes_i32(b.len() as i32) + b =~= w.bytes + (be_bytes_i32(
                b.len() as i32,
            ) + b));
        },
        None => {
            assert(be_bytes_i32((-1) as i32) =~= seq![0xffu8, 0xffu8, 0xffu8, 0xffu8]);
        },
    }
}

/// The number of elements stands in four bytes, `-1` for an array that is missing.
pub proof fn law_plain_counts(w: Writer, n: nat)
    requires
        !w.failed(),
        count_fits(n, false),
    ensures
        w.array_len(n, false) == w.raw(be_bytes_i32(n as i32)),
        w.null_array(false) == w.raw(seq![0xffu8, 0xffu8, 0xffu8, 0xffu8]),
{
    reveal(Writer::array_len);
    assert(be_bytes_i32((-1) as i32) =~= seq![0xffu8, 0xffu8, 0xffu8, 0xffu8]);
}

/// In the flexible forms a length is a varint that is one more, and zero stands for
/// what is missing.
pub proof fn law_compact_lengths(w: Writer, n: nat)
    requires
        !w.failed(),
        count_fits(n, true),
    ensures
        w.array_len(n, true) == w.varint(n + 1),
        w.null_array(true) == w.raw(seq![0u8]),
        w.nullable_string(None, true) == w.raw(seq![0u8]),
        w.nullable_bytes(None, true) == w.raw(seq![0u8]),
        w.tags(true) == w.raw(seq![0u8]),
        forall|b: Seq<u8>| b.len() == n ==> #[trigger] w.nullable_bytes(Some(b), true) == w.varint(
            n + 1,
        ).raw(b),
        forall|s: Seq<char>|
            encode_utf8(s).len() == n ==> #[trigger] w.nullable_string(Some(s), true) == w.varint(
                n + 1,
            ).raw(encode_utf8(s)),
{
    reveal(Writer::array_len);
    reveal(Writer::nullable_string);
    reveal(Writer::nullable_bytes);
}

/// A varint holds seven bits in each byte, the lowest first, and the top bit of each
/// byte but the last one is set.
pub proof fn law_varint_digits(a: u8, b: u8, c: u8, d: u8, e: u8, next: Seq<u8>)
    requires
        a < 0x80,
        b < 0x80,
        c < 0x80,
        d < 0x80,
        e < 0x10,
    ensures
        Reader::on(seq![a] + next).varint() == (a as u32, Reader::on(next)),
        Reader::on(seq![(a + 0x80) as u8, b] + next).varint() == (
            (a + 0x80 * b) as u32,
            Reader::on(next),
        ),
        Reader::on(seq![(a + 0x80) as u8, (b + 0x80) as u8, c] + next).varint() == (
            (a + 0x80 * b + 0x4000 * c) as u32,
            Reader::on(next),
        ),
        Reader::on(
            seq![(a + 0x80) as u8, (b + 0x80) as u8, (c + 0x80) as u8, d] + next,
        ).varint() == ((a + 0x80 * b + 0x4000 * c + 0x20_0000 * d) as u32, Reader::on(next)),
        Reader::on(
            seq![(a + 0x80) as u8, (b + 0x80) as u8, (c + 0x80) as u8, (d + 0x80) as u8, e] + next,
        ).varint() == (
            (a + 0x80 * b + 0x4000 * c + 0x20_0000 * d + 0x1000_0000 * e) as u32,
            Reader::on(next),
        ),
{
    let s0 = next;
    lemma_varint_end(a, s0, 0, 1, 0);
    lemma_varint_end(b, s0, 1, 0x80, a as nat);
    lemma_varint_end(c, s0, 2, 0x4000, (a + 0x80 * b) as nat);
    lemma_varint_end(d, s0, 3, 0x20_0000, (a + 0x80 * b + 0x4000 * c) as nat);
    lemma_varint_end(e, s0, 4, 0x1000_0000, (a + 0x80 * b + 0x4000 * c + 0x20_0000 * d) as nat);
    let two = seq![b] + next;
    lemma_varint_step(a, two, 0, 1, 0);
    assert(seq![(a + 0x80) as u8] + two =~= seq![(a + 0x80) as u8, b] + next);
    let last = seq![c] + next;
    let three = seq![(b + 0x80) as u8] + last;
    lemma_varint_step(b, last, 1, 0x80, a as nat);
    lemma_varint_step(a, three, 0, 1, 0);
    assert(seq![(a + 0x80) as u8] + three =~= seq![(a + 0x80) as u8, (b + 0x80) as u8, c] + next);
    let last = seq![d] + next;
    let third = seq![(c + 0x80) as u8] + last;
    let four = seq![(b + 0x80) as u8] + third;
    lemma_varint_step(c, last, 2, 0x4000, (a + 0x80 * b) as nat);
    lemma_varint_step(b, third, 1, 0x80, a as nat);
    lemma_varint_step(a, four, 0, 1, 0);
    assert(seq![(a + 0x80) as u8] + four =~= seq![
        (a + 0x80) as u8,
        (b + 0x80) as u8,
        (c + 0x80) as u8,
        d,
    ] + next);
    let last = seq![e] + next;
    let fourth = seq![(d + 0x80) as u8] + last;
    let third = seq![(c + 0x80) as u8] + fourth;
    let five = seq![(b + 0x80) as u8] + third;
    lemma_varint_step(d, last, 3, 0x20_0000, (a + 0x80 * b + 0x4000 * c) as nat);
    lemma_varint_step(c, fourth, 2, 0x4000, (a + 0x80 * b) as nat);
    lemma_varint_step(b, third, 1, 0x80, a as nat);
    lemma_varint_step(a, five, 0, 1, 0);
    assert(seq![(a + 0x80) as u8] + five =~= seq![
        (a + 0x80) as u8,
        (b + 0x80) as u8,
        (c + 0x80) as u8,
        (d + 0x80) as u8,
        e,
    ] + next);
}

/// A byte of a varint that is not the last one.
proof fn lemma_varint_step(digit: u8, next: Seq<u8>, count: nat, scale: nat, sum: nat)
    requires
        digit < 0x80,
        count < 5,
    ensures
        Reader::on(seq![(digit + 0x80) as u8] + next).varint_tail(count, scale, sum) == Reader::on(
            next,
        ).varint_tail(count + 1, scale * 0x80, sum + digit as nat * scale),
{
    assert((seq![(digit + 0x80) as u8] + next).skip(1) =~= next);
    assert(((digit + 0x80) as u8) % 0x80 == digit);
}

/// The last byte of a varint.
proof fn lemma_varint_end(digit: u8, next: Seq<u8>, count: nat, scale: nat, sum: nat)
    requires
        digit < 0x80,
        count < 5,
        sum + digit as nat * scale <= u32::MAX,
    ensures
        Reader::on(seq![digit] + next).varint_tail(count, scale, sum) == (
            (sum + digit as nat * scale) as u32,
            Reader::on(next),
        ),
{
    assert((seq![digit] + next).skip(1) =~= next);
}

/// A varint of more than 32 bits or of more than five bytes is refused.
pub proof fn law_varint_limits(a: u8, b: u8, c: u8, d: u8, e: u8, next: Seq<u8>)
    requires
        a < 0x80,
        b < 0x80,
        c < 0x80,
        d < 0x80,
        e >= 0x10,
    ensures
        Reader::on(
            seq![(a + 0x80) as u8, (b + 0x80) as u8, (c + 0x80) as u8, (d + 0x80) as u8, e] + next,
        ).varint().1.failed(),
{
    let last = seq![e] + next;
    let fourth = seq![(d + 0x80) as u8] + last;
    let third = seq![(c + 0x80) as u8] + fourth;
    let five = seq![(b + 0x80) as u8] + third;
    let sum = (a + 0x80 * b + 0x4000 * c + 0x20_0000 * d) as nat;
    lemma_varint_step(d, last, 3, 0x20_0000, (a + 0x80 * b + 0x4000 * c) as nat);
    lemma_varint_step(c, fourth, 2, 0x4000, (a + 0x80 * b) as nat);
    lemma_varint_step(b, third, 1, 0x80, a as nat);
    lemma_varint_step(a, five, 0, 1, 0);
    assert(seq![(a + 0x80) as u8] + five =~= seq![
        (a + 0x80) as u8,
        (b + 0x80) as u8,
        (c + 0x80) as u8,
        (d + 0x80) as u8,
        e,
    ] + next);
    reveal_with_fuel(Reader::varint_tail, 2);
    assert(Reader::on(last).varint_tail(4, 0x1000_0000, sum).1.failed());
}

/// A byte stands for `true` unless it is zero.
pub proof fn law_bool_byte(b: u8, next: Seq<u8>)
    ensures
        Reader::on(seq![b] + next).bool() == (b != 0, Reader::on(next)),
{
    assert((seq![b] + next).skip(1) =~= next);
}

/// Where fewer bytes are left than a number or a run of bytes has, it is refused, and
/// the bytes are left.
pub proof fn law_short_fields(r: Reader, n: nat)
    requires
        !r.failed(),
    ensures
        r.rest.len() < 1 ==> r.i8().1.failed() && r.bool().1.failed() && r.varint().1.failed(),
        r.rest.len() < 2 ==> r.i16().1.failed() && r.i16().1.rest == r.rest,
        r.rest.len() < 4 ==> r.i32().1.failed() && r.i32().1.rest == r.rest,
        r.rest.len() < 8 ==> r.i64().1.failed() && r.i64().1.rest == r.rest,
        r.rest.len() < 16 ==> r.uuid().1.failed() && r.uuid().1.rest == r.rest,
        r.rest.len() < n ==> r.raw(n).1.failed() && r.raw(n).1.rest == r.rest,
        r.rest.len() >= n ==> r.raw(n)
            == (r.rest.take(n as int), Reader::on(r.rest.skip(n as int))),
{
}

/// Lengths below `-1` are refused, as is `-1` for an array that must be there, and so
/// is a length of more bytes than are left.
pub proof fn law_bad_lengths(n: i16, m: i32, next: Seq<u8>)
    ensures
        n < -1 || n > next.len() ==> Reader::on(be_bytes_i16(n) + next).nullable_string(
            false,
        ).1.failed(),
        m < -1 || m > next.len() ==> Reader::on(be_bytes_i32(m) + next).nullable_bytes(
            false,
        ).1.failed(),
        m < -1 ==> Reader::on(be_bytes_i32(m) + next).optional_array_len(false).1.failed(),
        m < 0 ==> Reader::on(be_bytes_i32(m) + next).array_len(false).1.failed(),
{
    law_be_i16(n, next);
    law_be_i32(m, next);
}

/// Too few bytes are told from a length that cannot be, and both from a value that
/// cannot be.
pub proof fn law_error_kinds(needed: nat, available: nat, n: i64, what: &'static str)
    ensures
        truncated(needed, available) matches KrafkaError::Protocol(
            ProtocolErrorKind::TruncatedFrame,
            _,
        ),
        negative_length(what, n) matches KrafkaError::Protocol(ProtocolErrorKind::InvalidLength, _),
        too_long(what, needed, available) matches KrafkaError::Protocol(
            ProtocolErrorKind::InvalidLength,
            _,
        ),
        malformed(what) matches KrafkaError::Protocol(ProtocolErrorKind::Malformed, _),
        null_field(what) matches KrafkaError::Protocol(ProtocolErrorKind::Malformed, _),
{
}

/// The bytes of a text are UTF-8, or it is refused.
pub proof fn law_text_bytes(b: Seq<u8>, next: Seq<u8>)
    requires
        b.len() <= i16::MAX,
    ensures
        ({
            let (text, r) = Reader::on(be_bytes_i16(b.len() as i16) + b + next).nullable_string(
                false,
            );
            &&& r.failed() <==> !valid_utf8(b)
            &&& valid_utf8(b) ==> text == Some(decode_utf8(b)) && r == Reader::on(next)
        }),
{
    let n = b.len() as i16;
    let bytes = be_bytes_i16(n) + b + next;
    assert(bytes =~= be_bytes_i16(n) + (b + next));
    law_be_i16(n, b + next);
    assert((b + next).take(b.len() as int) =~= b);
    assert((b + next).skip(b.len() as int) =~= next);
}

} // verus!
