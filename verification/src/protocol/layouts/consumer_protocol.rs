//! Layouts of what [`crate::protocol::messages::consumer_protocol`] holds.

use crate::buffer::{be_bytes_i16, law_be_i16, optional_bytes, Octets};
use crate::protocol::layouts::{
    count_fits, law_numbers_are_writable, law_numbers_round_trip, law_texts_round_trip,
    lemma_array_stands, lemma_array_written, lemma_bytes_written, lemma_text_written,
    lemma_views_of_numbers, optional_text_fits, past, stands, text_fits, writable,
};
use crate::protocol::messages::consumer_protocol::{
    assignment_in, negative_version, read_assignment, read_subscription, subscription_in,
    ConsumerProtocolAssignment, ConsumerProtocolSubscription, ConsumerProtocolTopicPartitions,
};
use crate::protocol::round_trip::{
    begins, behind, law_i16_round_trip, law_i32_round_trip, law_nullable_bytes_round_trip,
    law_nullable_string_round_trip,
};
use crate::protocol::wire::{optional_text, views, Format, Reader, WireEncode, Writer};
use vstd::prelude::*;

verus! {

/// How a [`ConsumerProtocolTopicPartitions`] is laid out.
pub proof fn law_consumer_protocol_topic_partitions_layout(
    x: ConsumerProtocolTopicPartitions,
    f: Format,
    w: Writer,
    total: Seq<u8>,
)
    requires
        !w.failed(),
    ensures
        ({
            &&& text_fits(x.topic@, f.flexible)
            &&& count_fits(x.partitions@.len(), f.flexible)
        }) ==> !x.written(f, w).failed(),
        begins(total, x.written(f, w)) ==> ({
            let r = behind(total, w);
            let (topic, r) = r.nullable_string(f.flexible);
            let (partitions, r) = r.array::<i32>(f);
            &&& topic == Some(x.topic@)
            &&& partitions == x.partitions@
            &&& r == behind(total, x.written(f, w))
        }),
{
    let w0 = w;
    let w1 = w0.string(x.topic@, f.flexible);
    let w2 = w1.array(x.partitions@, f);
    lemma_text_written(w0, Some(x.topic@), f.flexible);
    law_numbers_are_writable(x.partitions@, f);
    lemma_array_written(w1, x.partitions@, f);
    if begins(total, w2) {
        law_numbers_round_trip(w1, x.partitions@, f, total);
        law_nullable_string_round_trip(w0, Some(x.topic@), f.flexible, total);
    }
}

/// How a [`ConsumerProtocolSubscription`] is laid out at its own version. What its
/// version cannot carry refuses it before anything is written.
pub proof fn law_consumer_protocol_subscription_layout(
    x: ConsumerProtocolSubscription,
    w: Writer,
    total: Seq<u8>,
)
    requires
        !w.failed(),
    ensures
        ({
            ||| x.version < 0
            ||| x.version < 1 && x.owned_partitions@.len() > 0
            ||| x.version < 2 && x.generation_id != -1
            ||| x.version < 3 && x.rack_id is Some
        }) ==> x.written_blob(w).failed() && x.written_blob(w).bytes == w.bytes,
        ({
            &&& x.version >= 0
            &&& x.version < 1 ==> x.owned_partitions@.len() == 0
            &&& x.version < 2 ==> x.generation_id == -1
            &&& x.version < 3 ==> x.rack_id is None
            &&& count_fits(x.topics@.len(), false)
            &&& writable(x.topics@, Format::plain(0))
            &&& optional_bytes(x.user_data) matches Some(data) ==> count_fits(data.len(), false)
            &&& count_fits(x.owned_partitions@.len(), false)
            &&& writable(x.owned_partitions@, Format::plain(0))
            &&& optional_text_fits(optional_text(x.rack_id), false)
        }) ==> !x.written_blob(w).failed(),
        begins(total, x.written_blob(w)) ==> ({
            let f = Format::plain(0);
            let r = behind(total, w);
            let (version, r) = r.i16();
            let (topics, r) = r.string_array("", false);
            let (user_data, r) = r.nullable_bytes(false);
            let (owned_count, r) = if x.version >= 1 {
                let (n, r) = r.array_len(false);
                (Some(n), r)
            } else {
                (None, r)
            };
            let owned_start = r;
            let r = if x.version >= 1 {
                past(total, r, x.owned_partitions@, f)
            } else {
                r
            };
            let (generation_id, r) = if x.version >= 2 {
                let (v, r) = r.i32();
                (Some(v), r)
            } else {
                (None, r)
            };
            let (rack_id, r) = if x.version >= 3 {
                let (v, r) = r.nullable_string(false);
                (Some(v), r)
            } else {
                (None, r)
            };
            &&& version == x.version
            &&& topics == views(x.topics@)
            &&& user_data == optional_bytes(x.user_data)
            &&& x.version >= 1 ==> owned_count == Some(x.owned_partitions@.len())
            &&& x.version >= 1 ==> stands(total, owned_start, x.owned_partitions@, f)
            &&& x.version >= 2 ==> generation_id == Some(x.generation_id)
            &&& x.version >= 3 ==> rack_id == Some(optional_text(x.rack_id))
            &&& r == behind(total, x.written_blob(w))
        }),
{
    let f = Format::plain(0);
    let w0 = match x.refused() {
        Some(e) => w.raise(e),
        None => w,
    };
    let w1 = w0.i16(x.version);
    let w2 = w1.array(x.topics@, f);
    let w3 = w2.nullable_bytes(optional_bytes(x.user_data), false);
    let w4 = if x.version >= 1 {
        w3.array(x.owned_partitions@, f)
    } else {
        w3
    };
    let w5 = if x.version >= 2 {
        w4.i32(x.generation_id)
    } else {
        w4
    };
    let w6 = if x.version >= 3 {
        w5.nullable_string(optional_text(x.rack_id), false)
    } else {
        w5
    };
    assert(x.written_blob(w) == w6);
    lemma_array_written(w1, x.topics@, f);
    lemma_bytes_written(w2, optional_bytes(x.user_data), false);
    lemma_array_written(w3, x.owned_partitions@, f);
    lemma_text_written(w5, optional_text(x.rack_id), false);
    if x.refused() is Some {
        reveal(Writer::array_len);
        reveal(Writer::nullable_bytes);
        reveal(Writer::nullable_string);
    }
    if begins(total, w6) {
        if x.version >= 3 {
            law_nullable_string_round_trip(w5, optional_text(x.rack_id), false, total);
        }
        if x.version >= 2 {
            law_i32_round_trip(w4, x.generation_id, total);
        }
        if x.version >= 1 {
            lemma_array_stands(w3, x.owned_partitions@, f, total);
        }
        law_nullable_bytes_round_trip(w2, optional_bytes(x.user_data), false, total);
        law_texts_round_trip(w1, x.topics@, f, total);
        law_i16_round_trip(w0, x.version, total);
    }
}

/// How a [`ConsumerProtocolAssignment`] is laid out. A negative version refuses it
/// before anything is written.
pub proof fn law_consumer_protocol_assignment_layout(
    x: ConsumerProtocolAssignment,
    w: Writer,
    total: Seq<u8>,
)
    requires
        !w.failed(),
    ensures
        x.version < 0 ==> x.written_blob(w).failed() && x.written_blob(w).bytes == w.bytes,
        ({
            &&& x.version >= 0
            &&& count_fits(x.assigned_partitions@.len(), false)
            &&& writable(x.assigned_partitions@, Format::plain(0))
            &&& optional_bytes(x.user_data) matches Some(data) ==> count_fits(data.len(), false)
        }) ==> !x.written_blob(w).failed(),
        begins(total, x.written_blob(w)) ==> ({
            let f = Format::plain(0);
            let r = behind(total, w);
            let (version, r) = r.i16();
            let (assigned_count, r) = r.array_len(false);
            let assigned_start = r;
            let r = past(total, r, x.assigned_partitions@, f);
            let (user_data, r) = r.nullable_bytes(false);
            &&& version == x.version
            &&& assigned_count == x.assigned_partitions@.len()
            &&& stands(total, assigned_start, x.assigned_partitions@, f)
            &&& user_data == optional_bytes(x.user_data)
            &&& r == behind(total, x.written_blob(w))
        }),
{
    let f = Format::plain(0);
    let w0 = if x.version < 0 {
        w.raise(negative_version("ConsumerProtocolAssignment version ", x.version))
    } else {
        w
    };
    let w1 = w0.i16(x.version);
    let w2 = w1.array(x.assigned_partitions@, f);
    let w3 = w2.nullable_bytes(optional_bytes(x.user_data), false);
    assert(x.written_blob(w) == w3);
    lemma_array_written(w1, x.assigned_partitions@, f);
    lemma_bytes_written(w2, optional_bytes(x.user_data), false);
    if x.version < 0 {
        reveal(Writer::array_len);
        reveal(Writer::nullable_bytes);
    }
    if begins(total, w3) {
        law_nullable_bytes_round_trip(w2, optional_bytes(x.user_data), false, total);
        lemma_array_stands(w1, x.assigned_partitions@, f, total);
        law_i16_round_trip(w0, x.version, total);
    }
}

/// An empty blob is an empty subscription of generation `-1`, or an empty assignment.
pub proof fn law_empty_blobs(x: ConsumerProtocolSubscription, y: ConsumerProtocolAssignment)
    ensures
        subscription_in(Seq::empty()) is Ok,
        subscription_in(Seq::empty()) matches Ok(value) ==> x@ == value ==> {
            &&& x.version == 0
            &&& x.topics@.len() == 0
            &&& x.user_data is None
            &&& x.owned_partitions@.len() == 0
            &&& x.generation_id == -1
            &&& x.rack_id is None
        },
        assignment_in(Seq::empty()) is Ok,
        assignment_in(Seq::empty()) matches Ok(value) ==> y@ == value ==> {
            &&& y.version == 0
            &&& y.assigned_partitions@.len() == 0
            &&& y.user_data is None
        },
{
    assert(x@.topics.len() == x.topics@.len());
    assert(x@.owned_partitions.len() == x.owned_partitions@.len());
    assert(y@.assigned_partitions.len() == y.assigned_partitions@.len());
}

/// A blob with a negative version, or of a single byte, is refused.
pub proof fn law_bad_blobs(version: i16, rest: Seq<u8>, byte: u8)
    ensures
        version < 0 ==> subscription_in(be_bytes_i16(version) + rest) is Err,
        version < 0 ==> assignment_in(be_bytes_i16(version) + rest) is Err,
        subscription_in(seq![byte]) is Err,
        assignment_in(seq![byte]) is Err,
{
    law_be_i16(version, rest);
    lemma_failed_blob(Reader::on(be_bytes_i16(version) + rest));
    lemma_failed_blob(Reader::on(seq![byte]));
}

/// What fails at its version fails.
proof fn lemma_failed_blob(r: Reader)
    requires
        !r.failed(),
    ensures
        r.i16().1.failed() || r.i16().0 < 0 ==> read_subscription(r).1.failed()
            && read_assignment(r).1.failed(),
{
}

/// What the views of a subscription and of an assignment hold.
pub proof fn law_blob_views(
    x: ConsumerProtocolSubscription,
    y: ConsumerProtocolAssignment,
    z: ConsumerProtocolTopicPartitions,
)
    ensures
        x@.version == x.version,
        x@.topics == views(x.topics@),
        x@.user_data == optional_bytes(x.user_data),
        x@.owned_partitions == views(x.owned_partitions@),
        x@.generation_id == x.generation_id,
        x@.rack_id == optional_text(x.rack_id),
        y@.version == y.version,
        y@.assigned_partitions == views(y.assigned_partitions@),
        y@.user_data == optional_bytes(y.user_data),
        z@.topic == z.topic@,
        z@.partitions == z.partitions@,
{
    lemma_views_of_numbers(z.partitions@);
}

} // verus!
