//! Layouts of what [`crate::protocol::messages::transactions`] holds.

use crate::buffer::Octets;
use crate::error::ErrorCode;
use crate::protocol::layouts::{
    count_fits, elements, law_numbers_are_writable, law_numbers_round_trip, lemma_array_read,
    lemma_array_stands, lemma_array_written, lemma_text_written, lemma_views_of_numbers,
    optional_text_fits, or_empty, past, stands, text_fits, writable,
};
use crate::protocol::messages::transactions::{
    AddOffsetsToTxnRequest, AddOffsetsToTxnResponse, AddPartitionsToTxnPartitionResult,
    AddPartitionsToTxnRequest, AddPartitionsToTxnResponse, AddPartitionsToTxnTopic,
    AddPartitionsToTxnTopicResult, AddPartitionsToTxnTopicResultView, EndTxnRequest, EndTxnResponse,
    InitProducerIdRequest, InitProducerIdResponse, TxnOffsetCommitPartition,
    TxnOffsetCommitPartitionResult, TxnOffsetCommitRequest, TxnOffsetCommitResponse,
    TxnOffsetCommitTopic, TxnOffsetCommitTopicResult, TxnOffsetCommitTopicResultView,
};
use crate::protocol::messages::{VersionedDecode, VersionedEncode};
use crate::protocol::round_trip::{
    begins, behind, law_bool_round_trip, law_i16_round_trip, law_i32_round_trip, law_i64_round_trip,
    law_nullable_string_round_trip,
};
use crate::protocol::wire::{optional_text, views, Format, Reader, WireDecode, WireEncode, Writer};
use vstd::prelude::*;

verus! {

/// How a [`InitProducerIdRequest`] is laid out in each version.
pub proof fn law_init_producer_id_request_layout(
    x: InitProducerIdRequest,
    version: i16,
    w: Writer,
    total: Seq<u8>,
)
    requires
        !w.failed(),
    ensures
        InitProducerIdRequest::request_name() == "InitProducerIdRequest",
        InitProducerIdRequest::encodes(version) <==> (version == 0),
        (version == 0) ==> ({
            let f = InitProducerIdRequest::request_format(version);
            &&& f.flexible <==> false
        }),
        (version == 0) ==> ({
            &&& optional_text_fits(optional_text(x.transactional_id), false)
        }) ==> !x.written_versioned(version, w).failed(),
        (version == 0) ==> begins(total, x.written_versioned(version, w)) ==> ({
            let r = behind(total, w);
            let (transactional_id, r) = r.nullable_string(false);
            let (transaction_timeout_ms, r) = r.i32();
            let (producer_id, r) = if version >= 2 {
                let (v, r) = r.i64();
                (Some(v), r)
            } else {
                (None, r)
            };
            let (producer_epoch, r) = if version >= 2 {
                let (v, r) = r.i16();
                (Some(v), r)
            } else {
                (None, r)
            };
            &&& transactional_id == optional_text(x.transactional_id)
            &&& transaction_timeout_ms == x.transaction_timeout_ms
            &&& producer_id == (if version >= 2 {
                Some(x.producer_id)
            } else {
                None
            })
            &&& producer_epoch == (if version >= 2 {
                Some(x.producer_epoch)
            } else {
                None
            })
            &&& r == behind(total, x.written_versioned(version, w))
        }),
{
    if version == 0 {
        let f = InitProducerIdRequest::request_format(version);
        let w0 = w;
        let w1 = w0.nullable_string(optional_text(x.transactional_id), false);
        let w2 = w1.i32(x.transaction_timeout_ms);
        let w3 = if version >= 2 {
            w2.i64(x.producer_id)
        } else {
            w2
        };
        let w4 = if version >= 2 {
            w3.i16(x.producer_epoch)
        } else {
            w3
        };
        lemma_text_written(w0, optional_text(x.transactional_id), false);
        if begins(total, w4) {
            if version >= 2 {
                law_i16_round_trip(w3, x.producer_epoch, total);
            }
            if version >= 2 {
                law_i64_round_trip(w2, x.producer_id, total);
            }
            law_i32_round_trip(w1, x.transaction_timeout_ms, total);
            law_nullable_string_round_trip(w0, optional_text(x.transactional_id), false, total);
        }
        assert(x.written_versioned(version, w) == w4);
    }
}

/// How a [`AddPartitionsToTxnTopic`] is laid out.
pub proof fn law_add_partitions_to_txn_topic_layout(
    x: AddPartitionsToTxnTopic,
    f: Format,
    w: Writer,
    total: Seq<u8>,
)
    requires
        !w.failed(),
    ensures
        ({
            &&& text_fits(x.name@, f.flexible)
            &&& count_fits(x.partitions@.len(), f.flexible)
        }) ==> !x.written(f, w).failed(),
        begins(total, x.written(f, w)) ==> ({
            let r = behind(total, w);
            let (name, r) = r.nullable_string(f.flexible);
            let (partitions, r) = r.array::<i32>(f);
            &&& name == Some(x.name@)
            &&& partitions == x.partitions@
            &&& r == behind(total, x.written(f, w))
        }),
{
    let w0 = w;
    let w1 = w0.string(x.name@, f.flexible);
    let w2 = w1.array(x.partitions@, f);
    lemma_text_written(w0, Some(x.name@), f.flexible);
    law_numbers_are_writable(x.partitions@, f);
    lemma_array_written(w1, x.partitions@, f);
    if begins(total, w2) {
        law_numbers_round_trip(w1, x.partitions@, f, total);
        law_nullable_string_round_trip(w0, Some(x.name@), f.flexible, total);
    }
}

/// How a [`AddPartitionsToTxnRequest`] is laid out in each version.
pub proof fn law_add_partitions_to_txn_request_layout(
    x: AddPartitionsToTxnRequest,
    version: i16,
    w: Writer,
    total: Seq<u8>,
)
    requires
        !w.failed(),
    ensures
        AddPartitionsToTxnRequest::request_name() == "AddPartitionsToTxnRequest",
        AddPartitionsToTxnRequest::encodes(version) <==> (version == 0),
        (version == 0) ==> ({
            let f = AddPartitionsToTxnRequest::request_format(version);
            &&& f.flexible <==> false
        }),
        (version == 0) ==> ({
            let f = AddPartitionsToTxnRequest::request_format(version);
            &&& text_fits(x.transactional_id@, false)
            &&& count_fits(x.topics@.len(), false) && writable(x.topics@, f)
        }) ==> !x.written_versioned(version, w).failed(),
        (version == 0) ==> begins(total, x.written_versioned(version, w)) ==> ({
            let f = AddPartitionsToTxnRequest::request_format(version);
            let r = behind(total, w);
            let (transactional_id, r) = r.nullable_string(false);
            let (producer_id, r) = r.i64();
            let (producer_epoch, r) = r.i16();
            let (topics_count, r) = r.array_len(false);
            let topics_start = r;
            let r = past(total, r, x.topics@, f);
            &&& transactional_id == Some(x.transactional_id@)
            &&& producer_id == x.producer_id
            &&& producer_epoch == x.producer_epoch
            &&& topics_count == x.topics@.len()
            &&& stands(total, topics_start, x.topics@, f)
            &&& r == behind(total, x.written_versioned(version, w))
        }),
{
    if version == 0 {
        let f = AddPartitionsToTxnRequest::request_format(version);
        let w0 = w;
        let w1 = w0.string(x.transactional_id@, false);
        let w2 = w1.i64(x.producer_id);
        let w3 = w2.i16(x.producer_epoch);
        let w4 = w3.array(x.topics@, f);
        lemma_text_written(w0, Some(x.transactional_id@), false);
        lemma_array_written(w3, x.topics@, f);
        if begins(total, w4) {
            lemma_array_stands(w3, x.topics@, f, total);
            law_i16_round_trip(w2, x.producer_epoch, total);
            law_i64_round_trip(w1, x.producer_id, total);
            law_nullable_string_round_trip(w0, Some(x.transactional_id@), false, total);
        }
        assert(x.written_versioned(version, w) == w4);
    }
}

/// How a [`AddOffsetsToTxnRequest`] is laid out in each version.
pub proof fn law_add_offsets_to_txn_request_layout(
    x: AddOffsetsToTxnRequest,
    version: i16,
    w: Writer,
    total: Seq<u8>,
)
    requires
        !w.failed(),
    ensures
        AddOffsetsToTxnRequest::request_name() == "AddOffsetsToTxnRequest",
        AddOffsetsToTxnRequest::encodes(version) <==> (version == 0),
        (version == 0) ==> ({
            let f = AddOffsetsToTxnRequest::request_format(version);
            &&& f.flexible <==> false
        }),
        (version == 0) ==> ({
            &&& text_fits(x.transactional_id@, false)
            &&& text_fits(x.group_id@, false)
        }) ==> !x.written_versioned(version, w).failed(),
        (version == 0) ==> begins(total, x.written_versioned(version, w)) ==> ({
            let r = behind(total, w);
            let (transactional_id, r) = r.nullable_string(false);
            let (producer_id, r) = r.i64();
            let (producer_epoch, r) = r.i16();
            let (group_id, r) = r.nullable_string(false);
            &&& transactional_id == Some(x.transactional_id@)
            &&& producer_id == x.producer_id
            &&& producer_epoch == x.producer_epoch
            &&& group_id == Some(x.group_id@)
            &&& r == behind(total, x.written_versioned(version, w))
        }),
{
    if version == 0 {
        let f = AddOffsetsToTxnRequest::request_format(version);
        let w0 = w;
        let w1 = w0.string(x.transactional_id@, false);
        let w2 = w1.i64(x.producer_id);
        let w3 = w2.i16(x.producer_epoch);
        let w4 = w3.string(x.group_id@, false);
        lemma_text_written(w0, Some(x.transactional_id@), false);
        lemma_text_written(w3, Some(x.group_id@), false);
        if begins(total, w4) {
            law_nullable_string_round_trip(w3, Some(x.group_id@), false, total);
            law_i16_round_trip(w2, x.producer_epoch, total);
            law_i64_round_trip(w1, x.producer_id, total);
            law_nullable_string_round_trip(w0, Some(x.transactional_id@), false, total);
        }
        assert(x.written_versioned(version, w) == w4);
    }
}

/// How a [`EndTxnRequest`] is laid out in each version.
pub proof fn law_end_txn_request_layout(x: EndTxnRequest, version: i16, w: Writer, total: Seq<u8>)
    requires
        !w.failed(),
    ensures
        EndTxnRequest::request_name() == "EndTxnRequest",
        EndTxnRequest::encodes(version) <==> (version == 0),
        (version == 0) ==> ({
            let f = EndTxnRequest::request_format(version);
            &&& f.flexible <==> false
        }),
        (version == 0) ==> ({
            &&& text_fits(x.transactional_id@, false)
        }) ==> !x.written_versioned(version, w).failed(),
        (version == 0) ==> begins(total, x.written_versioned(version, w)) ==> ({
            let r = behind(total, w);
            let (transactional_id, r) = r.nullable_string(false);
            let (producer_id, r) = r.i64();
            let (producer_epoch, r) = r.i16();
            let (committed, r) = r.bool();
            &&& transactional_id == Some(x.transactional_id@)
            &&& producer_id == x.producer_id
            &&& producer_epoch == x.producer_epoch
            &&& committed == x.committed
            &&& r == behind(total, x.written_versioned(version, w))
        }),
{
    if version == 0 {
        let f = EndTxnRequest::request_format(version);
        let w0 = w;
        let w1 = w0.string(x.transactional_id@, false);
        let w2 = w1.i64(x.producer_id);
        let w3 = w2.i16(x.producer_epoch);
        let w4 = w3.bool(x.committed);
        lemma_text_written(w0, Some(x.transactional_id@), false);
        if begins(total, w4) {
            law_bool_round_trip(w3, x.committed, total);
            law_i16_round_trip(w2, x.producer_epoch, total);
            law_i64_round_trip(w1, x.producer_id, total);
            law_nullable_string_round_trip(w0, Some(x.transactional_id@), false, total);
        }
        assert(x.written_versioned(version, w) == w4);
    }
}

/// How a [`TxnOffsetCommitPartition`] is laid out.
pub proof fn law_txn_offset_commit_partition_layout(
    x: TxnOffsetCommitPartition,
    f: Format,
    w: Writer,
    total: Seq<u8>,
)
    requires
        !w.failed(),
    ensures
        (optional_text_fits(optional_text(x.metadata), f.flexible)) ==> !x.written(f, w).failed(),
        begins(total, x.written(f, w)) ==> ({
            let r = behind(total, w);
            let (partition, r) = r.i32();
            let (committed_offset, r) = r.i64();
            let (committed_leader_epoch, r) = if f.version >= 2 {
                let (v, r) = r.i32();
                (Some(v), r)
            } else {
                (None, r)
            };
            let (metadata, r) = r.nullable_string(f.flexible);
            &&& partition == x.partition
            &&& committed_offset == x.committed_offset
            &&& committed_leader_epoch == (if f.version >= 2 {
                Some(x.committed_leader_epoch)
            } else {
                None
            })
            &&& metadata == optional_text(x.metadata)
            &&& r == behind(total, x.written(f, w))
        }),
{
    let w0 = w;
    let w1 = w0.i32(x.partition);
    let w2 = w1.i64(x.committed_offset);
    let w3 = if f.version >= 2 {
        w2.i32(x.committed_leader_epoch)
    } else {
        w2
    };
    let w4 = w3.nullable_string(optional_text(x.metadata), f.flexible);
    lemma_text_written(w3, optional_text(x.metadata), f.flexible);
    if begins(total, w4) {
        law_nullable_string_round_trip(w3, optional_text(x.metadata), f.flexible, total);
        if f.version >= 2 {
            law_i32_round_trip(w2, x.committed_leader_epoch, total);
        }
        law_i64_round_trip(w1, x.committed_offset, total);
        law_i32_round_trip(w0, x.partition, total);
    }
}

/// How a [`TxnOffsetCommitTopic`] is laid out.
pub proof fn law_txn_offset_commit_topic_layout(
    x: TxnOffsetCommitTopic,
    f: Format,
    w: Writer,
    total: Seq<u8>,
)
    requires
        !w.failed(),
    ensures
        ({
            &&& text_fits(x.name@, f.flexible)
            &&& count_fits(x.partitions@.len(), f.flexible) && writable(x.partitions@, f)
        }) ==> !x.written(f, w).failed(),
        begins(total, x.written(f, w)) ==> ({
            let r = behind(total, w);
            let (name, r) = r.nullable_string(f.flexible);
            let (partitions_count, r) = r.array_len(f.flexible);
            let partitions_start = r;
            let r = past(total, r, x.partitions@, f);
            &&& name == Some(x.name@)
            &&& partitions_count == x.partitions@.len()
            &&& stands(total, partitions_start, x.partitions@, f)
            &&& r == behind(total, x.written(f, w))
        }),
{
    let w0 = w;
    let w1 = w0.string(x.name@, f.flexible);
    let w2 = w1.array(x.partitions@, f);
    lemma_text_written(w0, Some(x.name@), f.flexible);
    lemma_array_written(w1, x.partitions@, f);
    if begins(total, w2) {
        lemma_array_stands(w1, x.partitions@, f, total);
        law_nullable_string_round_trip(w0, Some(x.name@), f.flexible, total);
    }
}

/// How a [`TxnOffsetCommitRequest`] is laid out in each version.
pub proof fn law_txn_offset_commit_request_layout(
    x: TxnOffsetCommitRequest,
    version: i16,
    w: Writer,
    total: Seq<u8>,
)
    requires
        !w.failed(),
    ensures
        TxnOffsetCommitRequest::request_name() == "TxnOffsetCommitRequest",
        TxnOffsetCommitRequest::encodes(version) <==> (version == 0),
        (version == 0) ==> ({
            let f = TxnOffsetCommitRequest::request_format(version);
            &&& f.flexible <==> false
            &&& (f.version >= 2) <==> (version >= 2)
        }),
        (version == 0) ==> ({
            let f = TxnOffsetCommitRequest::request_format(version);
            &&& text_fits(x.transactional_id@, false)
            &&& text_fits(x.group_id@, false)
            &&& count_fits(x.topics@.len(), false) && writable(x.topics@, f)
        }) ==> !x.written_versioned(version, w).failed(),
        (version == 0) ==> begins(total, x.written_versioned(version, w)) ==> ({
            let f = TxnOffsetCommitRequest::request_format(version);
            let r = behind(total, w);
            let (transactional_id, r) = r.nullable_string(false);
            let (group_id, r) = r.nullable_string(false);
            let (producer_id, r) = r.i64();
            let (producer_epoch, r) = r.i16();
            let (topics_count, r) = r.array_len(false);
            let topics_start = r;
            let r = past(total, r, x.topics@, f);
            &&& transactional_id == Some(x.transactional_id@)
            &&& group_id == Some(x.group_id@)
            &&& producer_id == x.producer_id
            &&& producer_epoch == x.producer_epoch
            &&& topics_count == x.topics@.len()
            &&& stands(total, topics_start, x.topics@, f)
            &&& r == behind(total, x.written_versioned(version, w))
        }),
{
    if version == 0 {
        let f = TxnOffsetCommitRequest::request_format(version);
        let w0 = w;
        let w1 = w0.string(x.transactional_id@, false);
        let w2 = w1.string(x.group_id@, false);
        let w3 = w2.i64(x.producer_id);
        let w4 = w3.i16(x.producer_epoch);
        let w5 = w4.array(x.topics@, f);
        lemma_text_written(w0, Some(x.transactional_id@), false);
        lemma_text_written(w1, Some(x.group_id@), false);
        lemma_array_written(w4, x.topics@, f);
        if begins(total, w5) {
            lemma_array_stands(w4, x.topics@, f, total);
            law_i16_round_trip(w3, x.producer_epoch, total);
            law_i64_round_trip(w2, x.producer_id, total);
            law_nullable_string_round_trip(w1, Some(x.group_id@), false, total);
            law_nullable_string_round_trip(w0, Some(x.transactional_id@), false, total);
        }
        assert(x.written_versioned(version, w) == w5);
    }
}

/// How a [`InitProducerIdResponse`] is laid out in each version.
pub proof fn law_init_producer_id_response_layout(
    x: InitProducerIdResponse,
    version: i16,
    throttle_time_ms: i32,
    error_code: i16,
    producer_id: i64,
    producer_epoch: i16,
    rest: Seq<u8>,
)
    ensures
        InitProducerIdResponse::response_name() == "InitProducerIdResponse",
        InitProducerIdResponse::decodes(version) <==> (version == 0),
        (version == 0) ==> ({
            let f = InitProducerIdResponse::response_format(version);
            &&& f.flexible <==> false
        }),
        (version == 0) ==> ({
            let w = Writer::at(Seq::empty());
            let w = w.i32(throttle_time_ms);
            let w = w.i16(error_code);
            let w = w.i64(producer_id);
            let w = w.i16(producer_epoch);
            let (read, r) = InitProducerIdResponse::read_versioned(
                version,
                Reader::on(w.bytes + rest),
            );
            !w.failed() ==> {
                &&& r == Reader::on(rest)
                &&& x@ == read ==> {
                    &&& x.throttle_time_ms == throttle_time_ms
                    &&& x.error_code == ErrorCode::of(error_code)
                    &&& x.producer_id == producer_id
                    &&& x.producer_epoch == producer_epoch
                }
            }
        }),
{
    if version == 0 {
        let f = InitProducerIdResponse::response_format(version);
        let w0 = Writer::at(Seq::empty());
        let w1 = w0.i32(throttle_time_ms);
        let w2 = w1.i16(error_code);
        let w3 = w2.i64(producer_id);
        let w4 = w3.i16(producer_epoch);
        if !w4.failed() {
            let total = w4.bytes + rest;
            assert(total.take(w4.bytes.len() as int) =~= w4.bytes);
            assert(total.skip(w4.bytes.len() as int) =~= rest);
            law_i16_round_trip(w3, producer_epoch, total);
            law_i64_round_trip(w2, producer_id, total);
            law_i16_round_trip(w1, error_code, total);
            law_i32_round_trip(w0, throttle_time_ms, total);
            assert(total.skip(0) =~= total);
        }
    }
}

/// How a [`AddPartitionsToTxnPartitionResult`] is laid out.
pub proof fn law_add_partitions_to_txn_partition_result_layout(
    x: AddPartitionsToTxnPartitionResult,
    f: Format,
    partition: i32,
    error_code: i16,
    rest: Seq<u8>,
)
    ensures
        ({
            let w = Writer::at(Seq::empty());
            let w = w.i32(partition);
            let w = w.i16(error_code);
            let (read, r) = AddPartitionsToTxnPartitionResult::read(f, Reader::on(w.bytes + rest));
            !w.failed() ==> {
                &&& r == Reader::on(rest)
                &&& x@ == read ==> {
                    &&& x.partition == partition
                    &&& x.error_code == ErrorCode::of(error_code)
                }
            }
        }),
{
    let w0 = Writer::at(Seq::empty());
    let w1 = w0.i32(partition);
    let w2 = w1.i16(error_code);
    if !w2.failed() {
        let total = w2.bytes + rest;
        assert(total.take(w2.bytes.len() as int) =~= w2.bytes);
        assert(total.skip(w2.bytes.len() as int) =~= rest);
        law_i16_round_trip(w1, error_code, total);
        law_i32_round_trip(w0, partition, total);
        assert(total.skip(0) =~= total);
    }
}

/// How a [`AddPartitionsToTxnTopicResult`] is laid out.
#[verifier::rlimit(60)]
pub proof fn law_add_partitions_to_txn_topic_result_layout(
    x: AddPartitionsToTxnTopicResult,
    f: Format,
    name: Option<Seq<char>>,
    partitions: Seq<AddPartitionsToTxnPartitionResult>,
    partitions_bytes: Seq<Seq<u8>>,
    rest: Seq<u8>,
)
    requires
        elements::<AddPartitionsToTxnPartitionResult>(f, partitions_bytes, partitions),
    ensures
        ({
            let w = Writer::at(Seq::empty());
            let w = w.nullable_string(name, f.flexible);
            let w = w.array_len(partitions_bytes.len(), f.flexible).raw(partitions_bytes.flatten());
            let (read, r) = AddPartitionsToTxnTopicResult::read(f, Reader::on(w.bytes + rest));
            !w.failed() ==> {
                &&& r == Reader::on(rest)
                &&& x@ == read ==> {
                    &&& x.name@ == or_empty(name)
                    &&& views(x.partitions@) == partitions
                }
            }
        }),
{
    let w0 = Writer::at(Seq::empty());
    let w1 = w0.nullable_string(name, f.flexible);
    let w2 = w1.array_len(partitions_bytes.len(), f.flexible).raw(partitions_bytes.flatten());
    if !w2.failed() {
        let total = w2.bytes + rest;
        assert(total.take(w2.bytes.len() as int) =~= w2.bytes);
        assert(total.skip(w2.bytes.len() as int) =~= rest);
        lemma_array_read::<AddPartitionsToTxnPartitionResult>(
            w1,
            f,
            partitions_bytes,
            partitions,
            total,
        );
        law_nullable_string_round_trip(w0, name, f.flexible, total);
        assert(total.skip(0) =~= total);
    }
}

/// How a [`AddPartitionsToTxnResponse`] is laid out in each version.
#[verifier::rlimit(60)]
pub proof fn law_add_partitions_to_txn_response_layout(
    x: AddPartitionsToTxnResponse,
    version: i16,
    throttle_time_ms: i32,
    results: Seq<AddPartitionsToTxnTopicResultView>,
    results_bytes: Seq<Seq<u8>>,
    rest: Seq<u8>,
)
    requires
        elements::<AddPartitionsToTxnTopicResult>(
            AddPartitionsToTxnResponse::response_format(version),
            results_bytes,
            results,
        ),
    ensures
        AddPartitionsToTxnResponse::response_name() == "AddPartitionsToTxnResponse",
        AddPartitionsToTxnResponse::decodes(version) <==> (version == 0),
        (version == 0) ==> ({
            let f = AddPartitionsToTxnResponse::response_format(version);
            &&& f.flexible <==> false
        }),
        (version == 0) ==> ({
            let w = Writer::at(Seq::empty());
            let w = w.i32(throttle_time_ms);
            let w = w.array_len(results_bytes.len(), false).raw(results_bytes.flatten());
            let (read, r) = AddPartitionsToTxnResponse::read_versioned(
                version,
                Reader::on(w.bytes + rest),
            );
            !w.failed() ==> {
                &&& r == Reader::on(rest)
                &&& x@ == read ==> {
                    &&& x.throttle_time_ms == throttle_time_ms
                    &&& views(x.results@) == results
                }
            }
        }),
{
    if version == 0 {
        let f = AddPartitionsToTxnResponse::response_format(version);
        let w0 = Writer::at(Seq::empty());
        let w1 = w0.i32(throttle_time_ms);
        let w2 = w1.array_len(results_bytes.len(), false).raw(results_bytes.flatten());
        if !w2.failed() {
            let total = w2.bytes + rest;
            assert(total.take(w2.bytes.len() as int) =~= w2.bytes);
            assert(total.skip(w2.bytes.len() as int) =~= rest);
            lemma_array_read::<AddPartitionsToTxnTopicResult>(w1, f, results_bytes, results, total);
            law_i32_round_trip(w0, throttle_time_ms, total);
            assert(total.skip(0) =~= total);
        }
    }
}

/// How a [`AddOffsetsToTxnResponse`] is laid out in each version.
pub proof fn law_add_offsets_to_txn_response_layout(
    x: AddOffsetsToTxnResponse,
    version: i16,
    throttle_time_ms: i32,
    error_code: i16,
    rest: Seq<u8>,
)
    ensures
        AddOffsetsToTxnResponse::response_name() == "AddOffsetsToTxnResponse",
        AddOffsetsToTxnResponse::decodes(version) <==> (version == 0),
        (version == 0) ==> ({
            let f = AddOffsetsToTxnResponse::response_format(version);
            &&& f.flexible <==> false
        }),
        (version == 0) ==> ({
            let w = Writer::at(Seq::empty());
            let w = w.i32(throttle_time_ms);
            let w = w.i16(error_code);
            let (read, r) = AddOffsetsToTxnResponse::read_versioned(
                version,
                Reader::on(w.bytes + rest),
            );
            !w.failed() ==> {
                &&& r == Reader::on(rest)
                &&& x@ == read ==> {
                    &&& x.throttle_time_ms == throttle_time_ms
                    &&& x.error_code == ErrorCode::of(error_code)
                }
            }
        }),
{
    if version == 0 {
        let f = AddOffsetsToTxnResponse::response_format(version);
        let w0 = Writer::at(Seq::empty());
        let w1 = w0.i32(throttle_time_ms);
        let w2 = w1.i16(error_code);
        if !w2.failed() {
            let total = w2.bytes + rest;
            assert(total.take(w2.bytes.len() as int) =~= w2.bytes);
            assert(total.skip(w2.bytes.len() as int) =~= rest);
            law_i16_round_trip(w1, error_code, total);
            law_i32_round_trip(w0, throttle_time_ms, total);
            assert(total.skip(0) =~= total);
        }
    }
}

/// How a [`EndTxnResponse`] is laid out in each version.
pub proof fn law_end_txn_response_layout(
    x: EndTxnResponse,
    version: i16,
    throttle_time_ms: i32,
    error_code: i16,
    rest: Seq<u8>,
)
    ensures
        EndTxnResponse::response_name() == "EndTxnResponse",
        EndTxnResponse::decodes(version) <==> (version == 0),
        (version == 0) ==> ({
            let f = EndTxnResponse::response_format(version);
            &&& f.flexible <==> false
        }),
        (version == 0) ==> ({
            let w = Writer::at(Seq::empty());
            let w = w.i32(throttle_time_ms);
            let w = w.i16(error_code);
            let (read, r) = EndTxnResponse::read_versioned(version, Reader::on(w.bytes + rest));
            !w.failed() ==> {
                &&& r == Reader::on(rest)
                &&& x@ == read ==> {
                    &&& x.throttle_time_ms == throttle_time_ms
                    &&& x.error_code == ErrorCode::of(error_code)
                }
            }
        }),
{
    if version == 0 {
        let f = EndTxnResponse::response_format(version);
        let w0 = Writer::at(Seq::empty());
        let w1 = w0.i32(throttle_time_ms);
        let w2 = w1.i16(error_code);
        if !w2.failed() {
            let total = w2.bytes + rest;
            assert(total.take(w2.bytes.len() as int) =~= w2.bytes);
            assert(total.skip(w2.bytes.len() as int) =~= rest);
            law_i16_round_trip(w1, error_code, total);
            law_i32_round_trip(w0, throttle_time_ms, total);
            assert(total.skip(0) =~= total);
        }
    }
}

/// How a [`TxnOffsetCommitPartitionResult`] is laid out.
pub proof fn law_txn_offset_commit_partition_result_layout(
    x: TxnOffsetCommitPartitionResult,
    f: Format,
    partition: i32,
    error_code: i16,
    rest: Seq<u8>,
)
    ensures
        ({
            let w = Writer::at(Seq::empty());
            let w = w.i32(partition);
            let w = w.i16(error_code);
            let (read, r) = TxnOffsetCommitPartitionResult::read(f, Reader::on(w.bytes + rest));
            !w.failed() ==> {
                &&& r == Reader::on(rest)
                &&& x@ == read ==> {
                    &&& x.partition == partition
                    &&& x.error_code == ErrorCode::of(error_code)
                }
            }
        }),
{
    let w0 = Writer::at(Seq::empty());
    let w1 = w0.i32(partition);
    let w2 = w1.i16(error_code);
    if !w2.failed() {
        let total = w2.bytes + rest;
        assert(total.take(w2.bytes.len() as int) =~= w2.bytes);
        assert(total.skip(w2.bytes.len() as int) =~= rest);
        law_i16_round_trip(w1, error_code, total);
        law_i32_round_trip(w0, partition, total);
        assert(total.skip(0) =~= total);
    }
}

/// How a [`TxnOffsetCommitTopicResult`] is laid out.
#[verifier::rlimit(60)]
pub proof fn law_txn_offset_commit_topic_result_layout(
    x: TxnOffsetCommitTopicResult,
    f: Format,
    name: Option<Seq<char>>,
    partitions: Seq<TxnOffsetCommitPartitionResult>,
    partitions_bytes: Seq<Seq<u8>>,
    rest: Seq<u8>,
)
    requires
        elements::<TxnOffsetCommitPartitionResult>(f, partitions_bytes, partitions),
    ensures
        ({
            let w = Writer::at(Seq::empty());
            let w = w.nullable_string(name, f.flexible);
            let w = w.array_len(partitions_bytes.len(), f.flexible).raw(partitions_bytes.flatten());
            let (read, r) = TxnOffsetCommitTopicResult::read(f, Reader::on(w.bytes + rest));
            !w.failed() ==> {
                &&& r == Reader::on(rest)
                &&& x@ == read ==> {
                    &&& x.name@ == or_empty(name)
                    &&& views(x.partitions@) == partitions
                }
            }
        }),
{
    let w0 = Writer::at(Seq::empty());
    let w1 = w0.nullable_string(name, f.flexible);
    let w2 = w1.array_len(partitions_bytes.len(), f.flexible).raw(partitions_bytes.flatten());
    if !w2.failed() {
        let total = w2.bytes + rest;
        assert(total.take(w2.bytes.len() as int) =~= w2.bytes);
        assert(total.skip(w2.bytes.len() as int) =~= rest);
        lemma_array_read::<TxnOffsetCommitPartitionResult>(
            w1,
            f,
            partitions_bytes,
            partitions,
            total,
        );
        law_nullable_string_round_trip(w0, name, f.flexible, total);
        assert(total.skip(0) =~= total);
    }
}

/// How a [`TxnOffsetCommitResponse`] is laid out in each version.
#[verifier::rlimit(60)]
pub proof fn law_txn_offset_commit_response_layout(
    x: TxnOffsetCommitResponse,
    version: i16,
    throttle_time_ms: i32,
    topics: Seq<TxnOffsetCommitTopicResultView>,
    topics_bytes: Seq<Seq<u8>>,
    rest: Seq<u8>,
)
    requires
        elements::<TxnOffsetCommitTopicResult>(
            TxnOffsetCommitResponse::response_format(version),
            topics_bytes,
            topics,
        ),
    ensures
        TxnOffsetCommitResponse::response_name() == "TxnOffsetCommitResponse",
        TxnOffsetCommitResponse::decodes(version) <==> (version == 0),
        (version == 0) ==> ({
            let f = TxnOffsetCommitResponse::response_format(version);
            &&& f.flexible <==> false
        }),
        (version == 0) ==> ({
            let w = Writer::at(Seq::empty());
            let w = w.i32(throttle_time_ms);
            let w = w.array_len(topics_bytes.len(), false).raw(topics_bytes.flatten());
            let (read, r) = TxnOffsetCommitResponse::read_versioned(
                version,
                Reader::on(w.bytes + rest),
            );
            !w.failed() ==> {
                &&& r == Reader::on(rest)
                &&& x@ == read ==> {
                    &&& x.throttle_time_ms == throttle_time_ms
                    &&& views(x.topics@) == topics
                }
            }
        }),
{
    if version == 0 {
        let f = TxnOffsetCommitResponse::response_format(version);
        let w0 = Writer::at(Seq::empty());
        let w1 = w0.i32(throttle_time_ms);
        let w2 = w1.array_len(topics_bytes.len(), false).raw(topics_bytes.flatten());
        if !w2.failed() {
            let total = w2.bytes + rest;
            assert(total.take(w2.bytes.len() as int) =~= w2.bytes);
            assert(total.skip(w2.bytes.len() as int) =~= rest);
            lemma_array_read::<TxnOffsetCommitTopicResult>(w1, f, topics_bytes, topics, total);
            law_i32_round_trip(w0, throttle_time_ms, total);
            assert(total.skip(0) =~= total);
        }
    }
}

/// What the views of the topics and entries of a request hold.
pub proof fn law_transaction_views(
    x: TxnOffsetCommitPartition,
    y: TxnOffsetCommitTopic,
    z: AddPartitionsToTxnTopic,
)
    ensures
        x@.partition == x.partition,
        x@.committed_offset == x.committed_offset,
        x@.committed_leader_epoch == x.committed_leader_epoch,
        x@.metadata == optional_text(x.metadata),
        y@.name == y.name@,
        y@.partitions == views(y.partitions@),
        z@.name == z.name@,
        z@.partitions == z.partitions@,
{
    lemma_views_of_numbers(z.partitions@);
}

} // verus!
