//! Layouts of what [`crate::protocol::messages::add_offsets_to_txn`] holds.

use crate::buffer::Octets;
use crate::error::ErrorCode;
use crate::protocol::layouts::{is_tags, lemma_tags_read, lemma_text_written, text_fits};
use crate::protocol::messages::add_offsets_to_txn::{
    AddOffsetsToTxnRequest, AddOffsetsToTxnResponse,
};
use crate::protocol::messages::{VersionedDecode, VersionedEncode};
use crate::protocol::round_trip::{
    begins, behind, law_i16_round_trip, law_i32_round_trip, law_i64_round_trip,
    law_nullable_string_round_trip, law_raw_round_trip, law_varint_round_trip,
};
use crate::protocol::wire::{Reader, WireDecode, WireEncode, Writer};
use vstd::prelude::*;

verus! {

/// How a [`AddOffsetsToTxnRequest`] is laid out in each version.
pub proof fn law_add_offsets_to_txn_request_layout(
    x: AddOffsetsToTxnRequest,
    version: i16,
    w: Writer,
    total: Seq<u8>,
)
    requires
        !w.failed(),
    ensures
        AddOffsetsToTxnRequest::request_name() == "AddOffsetsToTxnRequest",
        AddOffsetsToTxnRequest::encodes(version) <==> (0 <= version <= 4),
        (0 <= version <= 4) ==> ({
            let f = AddOffsetsToTxnRequest::request_format(version);
            &&& f.flexible <==> version >= 3
        }),
        (0 <= version <= 4) ==> ({
            &&& text_fits(x.transactional_id@, version >= 3)
            &&& text_fits(x.group_id@, version >= 3)
        }) ==> !x.written_versioned(version, w).failed(),
        (0 <= version <= 4) ==> begins(total, x.written_versioned(version, w)) ==> ({
            let r = behind(total, w);
            let (transactional_id, r) = r.nullable_string(version >= 3);
            let (producer_id, r) = r.i64();
            let (producer_epoch, r) = r.i16();
            let (group_id, r) = r.nullable_string(version >= 3);
            let tags = r;
            let r = r.tags(version >= 3);
            &&& transactional_id == Some(x.transactional_id@)
            &&& producer_id == x.producer_id
            &&& producer_epoch == x.producer_epoch
            &&& group_id == Some(x.group_id@)
            &&& version >= 3 ==> tags.tagged_fields().0.len() == 0
            &&& r == behind(total, x.written_versioned(version, w))
        }),
{
    if 0 <= version <= 4 {
        let f = AddOffsetsToTxnRequest::request_format(version);
        let w0 = w;
        let w1 = w0.string(x.transactional_id@, version >= 3);
        let w2 = w1.i64(x.producer_id);
        let w3 = w2.i16(x.producer_epoch);
        let w4 = w3.string(x.group_id@, version >= 3);
        let w5 = w4.tags(version >= 3);
        lemma_text_written(w0, Some(x.transactional_id@), version >= 3);
        lemma_text_written(w3, Some(x.group_id@), version >= 3);
        if begins(total, w5) {
            if version >= 3 {
                law_varint_round_trip(w4, 0, total);
            }
            law_nullable_string_round_trip(w3, Some(x.group_id@), version >= 3, total);
            law_i16_round_trip(w2, x.producer_epoch, total);
            law_i64_round_trip(w1, x.producer_id, total);
            law_nullable_string_round_trip(w0, Some(x.transactional_id@), version >= 3, total);
        }
        assert(x.written_versioned(version, w) == w5);
    }
}

/// How a [`AddOffsetsToTxnResponse`] is laid out in each version.
pub proof fn law_add_offsets_to_txn_response_layout(
    x: AddOffsetsToTxnResponse,
    version: i16,
    throttle_time_ms: i32,
    error_code: i16,
    tags: Seq<u8>,
    rest: Seq<u8>,
)
    requires
        is_tags(tags),
    ensures
        AddOffsetsToTxnResponse::response_name() == "AddOffsetsToTxnResponse",
        AddOffsetsToTxnResponse::decodes(version) <==> (0 <= version <= 4),
        (0 <= version <= 4) ==> ({
            let f = AddOffsetsToTxnResponse::response_format(version);
            &&& f.flexible <==> version >= 3
        }),
        (0 <= version <= 4) ==> ({
            let w = Writer::at(Seq::empty());
            let w = w.i32(throttle_time_ms);
            let w = w.i16(error_code);
            let w = if version >= 3 {
                w.raw(tags)
            } else {
                w
            };
            let (read, r) = AddOffsetsToTxnResponse::read_versioned(
                version,
                Reader::on(w.bytes + rest),
            );
            !w.failed() ==> {
                &&& r == Reader::on(rest)
                &&& x@ == read ==> {
                    &&& x.throttle_time_ms == throttle_time_ms
                    &&& x.error_code == ErrorCode::of(error_code)
                }
            }
        }),
{
    if 0 <= version <= 4 {
        let f = AddOffsetsToTxnResponse::response_format(version);
        let w0 = Writer::at(Seq::empty());
        let w1 = w0.i32(throttle_time_ms);
        let w2 = w1.i16(error_code);
        let w3 = if version >= 3 {
            w2.raw(tags)
        } else {
            w2
        };
        if !w3.failed() {
            let total = w3.bytes + rest;
            assert(total.take(w3.bytes.len() as int) =~= w3.bytes);
            assert(total.skip(w3.bytes.len() as int) =~= rest);
            if version >= 3 {
                law_raw_round_trip(w2, tags, total);
                lemma_tags_read(tags, behind(total, w3).rest);
            }
            law_i16_round_trip(w1, error_code, total);
            law_i32_round_trip(w0, throttle_time_ms, total);
            assert(total.skip(0) =~= total);
        }
    }
}

} // verus!
