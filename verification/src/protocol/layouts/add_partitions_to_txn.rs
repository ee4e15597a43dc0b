//! Layouts of what [`crate::protocol::messages::add_partitions_to_txn`] holds.

use crate::buffer::Octets;
use crate::error::{ErrorCode, KrafkaError};
use crate::protocol::layouts::{
    count_fits, elements, is_tags, law_numbers_are_writable, law_numbers_round_trip,
    lemma_array_read, lemma_array_stands, lemma_array_written, lemma_tags_read, lemma_text_written,
    past, stands, text_fits, writable,
};
use crate::protocol::messages::add_partitions_to_txn::{
    AddPartitionsToTxnPartitionResult, AddPartitionsToTxnRequest, AddPartitionsToTxnResponse,
    AddPartitionsToTxnTopic, AddPartitionsToTxnTopicResult, AddPartitionsToTxnTopicResultView,
    TransactionResults,
};
use crate::protocol::messages::{VersionedDecode, VersionedEncode};
use crate::protocol::round_trip::{
    begins, behind, law_bool_round_trip, law_i16_round_trip, law_i32_round_trip, law_i64_round_trip,
    law_nullable_string_round_trip, law_raw_round_trip, law_varint_round_trip,
};
use crate::protocol::wire::{null_field, views, Format, Reader, WireDecode, WireEncode, Writer};
use vstd::prelude::*;

verus! {

/// How a [`AddPartitionsToTxnTopic`] is laid out.
pub proof fn law_add_partitions_to_txn_topic_layout(
    x: AddPartitionsToTxnTopic,
    f: Format,
    w: Writer,
    total: Seq<u8>,
)
    requires
        !w.failed(),
    ensures
        ({
            &&& text_fits(x.name@, f.flexible)
            &&& count_fits(x.partitions@.len(), f.flexible)
        }) ==> !x.written(f, w).failed(),
        begins(total, x.written(f, w)) ==> ({
            let r = behind(total, w);
            let (name, r) = r.nullable_string(f.flexible);
            let (partitions, r) = r.array::<i32>(f);
            let tags = r;
            let r = r.tags(f.flexible);
            &&& name == Some(x.name@)
            &&& partitions == x.partitions@
            &&& f.flexible ==> tags.tagged_fields().0.len() == 0
            &&& r == behind(total, x.written(f, w))
        }),
{
    let w0 = w;
    let w1 = w0.string(x.name@, f.flexible);
    let w2 = w1.array(x.partitions@, f);
    let w3 = w2.tags(f.flexible);
    lemma_text_written(w0, Some(x.name@), f.flexible);
    law_numbers_are_writable(x.partitions@, f);
    lemma_array_written(w1, x.partitions@, f);
    if begins(total, w3) {
        if f.flexible {
            law_varint_round_trip(w2, 0, total);
        }
        law_numbers_round_trip(w1, x.partitions@, f, total);
        law_nullable_string_round_trip(w0, Some(x.name@), f.flexible, total);
    }
}

/// How a [`AddPartitionsToTxnRequest`] is laid out in each version.
pub proof fn law_add_partitions_to_txn_request_layout(
    x: AddPartitionsToTxnRequest,
    version: i16,
    w: Writer,
    total: Seq<u8>,
)
    requires
        !w.failed(),
    ensures
        AddPartitionsToTxnRequest::request_name() == "AddPartitionsToTxnRequest",
        AddPartitionsToTxnRequest::encodes(version) <==> (0 <= version <= 5),
        (0 <= version <= 5) ==> ({
            let f = AddPartitionsToTxnRequest::request_format(version);
            &&& f.flexible <==> version >= 3
        }),
        (0 <= version <= 5) ==> ({
            let f = AddPartitionsToTxnRequest::request_format(version);
            &&& text_fits(x.transactional_id@, version >= 3)
            &&& count_fits(x.topics@.len(), version >= 3) && writable(x.topics@, f)
        }) ==> !x.written_versioned(version, w).failed(),
        (0 <= version <= 5) ==> begins(total, x.written_versioned(version, w)) ==> ({
            let f = AddPartitionsToTxnRequest::request_format(version);
            let r = behind(total, w);
            let (varint, r) = if version >= 4 {
                let (v, r) = r.varint();
                (Some(v), r)
            } else {
                (None, r)
            };
            let (transactional_id, r) = r.nullable_string(version >= 3);
            let (producer_id, r) = r.i64();
            let (producer_epoch, r) = r.i16();
            let (bool, r) = if version >= 4 {
                let (v, r) = r.bool();
                (Some(v), r)
            } else {
                (None, r)
            };
            let (topics_count, r) = r.array_len(version >= 3);
            let topics_start = r;
            let r = past(total, r, x.topics@, f);
            let tags = r;
            let r = r.tags(version >= 3);
            let tags_2 = r;
            let r = if version >= 4 {
                r.tags(version >= 3)
            } else {
                r
            };
            &&& varint == (if version >= 4 {
                Some(2u32)
            } else {
                None
            })
            &&& transactional_id == Some(x.transactional_id@)
            &&& producer_id == x.producer_id
            &&& producer_epoch == x.producer_epoch
            &&& bool == (if version >= 4 {
                Some(false)
            } else {
                None
            })
            &&& topics_count == x.topics@.len()
            &&& stands(total, topics_start, x.topics@, f)
            &&& version >= 3 ==> tags.tagged_fields().0.len() == 0
            &&& (version >= 4) && version >= 3 ==> tags_2.tagged_fields().0.len() == 0
            &&& r == behind(total, x.written_versioned(version, w))
        }),
{
    if 0 <= version <= 5 {
        let f = AddPartitionsToTxnRequest::request_format(version);
        let w0 = w;
        let w1 = if version >= 4 {
            w0.varint(2)
        } else {
            w0
        };
        let w2 = w1.string(x.transactional_id@, version >= 3);
        let w3 = w2.i64(x.producer_id);
        let w4 = w3.i16(x.producer_epoch);
        let w5 = if version >= 4 {
            w4.bool(false)
        } else {
            w4
        };
        let w6 = w5.array(x.topics@, f);
        let w7 = w6.tags(version >= 3);
        let w8 = if version >= 4 {
            w7.tags(version >= 3)
        } else {
            w7
        };
        lemma_text_written(w1, Some(x.transactional_id@), version >= 3);
        lemma_array_written(w5, x.topics@, f);
        if begins(total, w8) {
            if version >= 4 && version >= 3 {
                law_varint_round_trip(w7, 0, total);
            }
            if version >= 3 {
                law_varint_round_trip(w6, 0, total);
            }
            lemma_array_stands(w5, x.topics@, f, total);
            if version >= 4 {
                law_bool_round_trip(w4, false, total);
            }
            law_i16_round_trip(w3, x.producer_epoch, total);
            law_i64_round_trip(w2, x.producer_id, total);
            law_nullable_string_round_trip(w1, Some(x.transactional_id@), version >= 3, total);
            if version >= 4 {
                law_varint_round_trip(w0, 2, total);
            }
        }
        assert(x.written_versioned(version, w) == w8);
    }
}

/// How a [`AddPartitionsToTxnPartitionResult`] is laid out.
pub proof fn law_add_partitions_to_txn_partition_result_layout(
    x: AddPartitionsToTxnPartitionResult,
    f: Format,
    partition: i32,
    error_code: i16,
    tags: Seq<u8>,
    rest: Seq<u8>,
)
    requires
        is_tags(tags),
    ensures
        ({
            let w = Writer::at(Seq::empty());
            let w = w.i32(partition);
            let w = w.i16(error_code);
            let w = if f.flexible {
                w.raw(tags)
            } else {
                w
            };
            let (read, r) = AddPartitionsToTxnPartitionResult::read(f, Reader::on(w.bytes + rest));
            !w.failed() ==> {
                &&& r == Reader::on(rest)
                &&& x@ == read ==> {
                    &&& x.partition == partition
                    &&& x.error_code == ErrorCode::of(error_code)
                }
            }
        }),
{
    let w0 = Writer::at(Seq::empty());
    let w1 = w0.i32(partition);
    let w2 = w1.i16(error_code);
    let w3 = if f.flexible {
        w2.raw(tags)
    } else {
        w2
    };
    if !w3.failed() {
        let total = w3.bytes + rest;
        assert(total.take(w3.bytes.len() as int) =~= w3.bytes);
        assert(total.skip(w3.bytes.len() as int) =~= rest);
        if f.flexible {
            law_raw_round_trip(w2, tags, total);
            lemma_tags_read(tags, behind(total, w3).rest);
        }
        law_i16_round_trip(w1, error_code, total);
        law_i32_round_trip(w0, partition, total);
        assert(total.skip(0) =~= total);
    }
}

/// How a [`AddPartitionsToTxnTopicResult`] is laid out.
#[verifier::rlimit(60)]
pub proof fn law_add_partitions_to_txn_topic_result_layout(
    x: AddPartitionsToTxnTopicResult,
    f: Format,
    name: Seq<char>,
    partitions: Seq<AddPartitionsToTxnPartitionResult>,
    partitions_bytes: Seq<Seq<u8>>,
    tags: Seq<u8>,
    rest: Seq<u8>,
)
    requires
        elements::<AddPartitionsToTxnPartitionResult>(f, partitions_bytes, partitions),
        is_tags(tags),
    ensures
        ({
            let w = Writer::at(Seq::empty());
            let w = w.string(name, f.flexible);
            let w = w.array_len(partitions_bytes.len(), f.flexible).raw(partitions_bytes.flatten());
            let w = if f.flexible {
                w.raw(tags)
            } else {
                w
            };
            let (read, r) = AddPartitionsToTxnTopicResult::read(f, Reader::on(w.bytes + rest));
            !w.failed() ==> {
                &&& r == Reader::on(rest)
                &&& x@ == read ==> {
                    &&& x.name@ == name
                    &&& views(x.partitions@) == partitions
                }
            }
        }),
{
    let w0 = Writer::at(Seq::empty());
    let w1 = w0.string(name, f.flexible);
    let w2 = w1.array_len(partitions_bytes.len(), f.flexible).raw(partitions_bytes.flatten());
    let w3 = if f.flexible {
        w2.raw(tags)
    } else {
        w2
    };
    if !w3.failed() {
        let total = w3.bytes + rest;
        assert(total.take(w3.bytes.len() as int) =~= w3.bytes);
        assert(total.skip(w3.bytes.len() as int) =~= rest);
        if f.flexible {
            law_raw_round_trip(w2, tags, total);
            lemma_tags_read(tags, behind(total, w3).rest);
        }
        lemma_array_read::<AddPartitionsToTxnPartitionResult>(
            w1,
            f,
            partitions_bytes,
            partitions,
            total,
        );
        law_nullable_string_round_trip(w0, Some(name), f.flexible, total);
        assert(total.skip(0) =~= total);
    }
}

/// A [`AddPartitionsToTxnTopicResult`] is refused where a field that it needs is null.
pub proof fn law_add_partitions_to_txn_topic_result_needs_its_fields(f: Format, start: Reader)
    ensures
        ({
            let r = start;
            let (name, r) = r.nullable_string(f.flexible);
            !r.failed() && name is None
                ==> AddPartitionsToTxnTopicResult::read(f, start).1.failure == Some(
                    null_field("topic name"),
                )
        }),
{
}

/// How the [`TransactionResults`] of one transaction are laid out.
pub proof fn law_transaction_results_layout(
    x: TransactionResults,
    f: Format,
    transactional_id: Option<Seq<char>>,
    topics: Seq<AddPartitionsToTxnTopicResultView>,
    topics_bytes: Seq<Seq<u8>>,
    tags: Seq<u8>,
    rest: Seq<u8>,
)
    requires
        elements::<AddPartitionsToTxnTopicResult>(f, topics_bytes, topics),
        is_tags(tags),
    ensures
        ({
            let w = Writer::at(Seq::empty());
            let w = w.nullable_string(transactional_id, f.flexible);
            let w = w.array_len(topics_bytes.len(), f.flexible).raw(topics_bytes.flatten());
            let w = if f.flexible {
                w.raw(tags)
            } else {
                w
            };
            let (read, r) = TransactionResults::read(f, Reader::on(w.bytes + rest));
            !w.failed() ==> {
                &&& r == Reader::on(rest)
                &&& x@ == read ==> views(x.topics@) == topics
            }
        }),
{
    let w0 = Writer::at(Seq::empty());
    let w1 = w0.nullable_string(transactional_id, f.flexible);
    let w2 = w1.array_len(topics_bytes.len(), f.flexible).raw(topics_bytes.flatten());
    let w3 = if f.flexible {
        w2.raw(tags)
    } else {
        w2
    };
    if !w3.failed() {
        let total = w3.bytes + rest;
        assert(total.take(w3.bytes.len() as int) =~= w3.bytes);
        assert(total.skip(w3.bytes.len() as int) =~= rest);
        if f.flexible {
            law_raw_round_trip(w2, tags, total);
            lemma_tags_read(tags, behind(total, w3).rest);
        }
        lemma_array_read::<AddPartitionsToTxnTopicResult>(w1, f, topics_bytes, topics, total);
        law_nullable_string_round_trip(w0, transactional_id, f.flexible, total);
        assert(total.skip(0) =~= total);
    }
}

/// How an [`AddPartitionsToTxnResponse`] is laid out up to version 3.
pub proof fn law_add_partitions_to_txn_response_layout(
    x: AddPartitionsToTxnResponse,
    version: i16,
    throttle_time_ms: i32,
    results: Seq<AddPartitionsToTxnTopicResultView>,
    results_bytes: Seq<Seq<u8>>,
    tags: Seq<u8>,
    rest: Seq<u8>,
)
    requires
        elements::<AddPartitionsToTxnTopicResult>(
            AddPartitionsToTxnResponse::response_format(version),
            results_bytes,
            results,
        ),
        is_tags(tags),
    ensures
        AddPartitionsToTxnResponse::response_name() == "AddPartitionsToTxnResponse",
        AddPartitionsToTxnResponse::decodes(version) <==> (0 <= version <= 5),
        (0 <= version <= 5) ==> (AddPartitionsToTxnResponse::response_format(version).flexible
            <==> version >= 3),
        (0 <= version <= 3) ==> ({
            let w = Writer::at(Seq::empty());
            let w = w.i32(throttle_time_ms);
            let w = w.array_len(results_bytes.len(), version >= 3).raw(results_bytes.flatten());
            let w = if version >= 3 {
                w.raw(tags)
            } else {
                w
            };
            let (read, r) = AddPartitionsToTxnResponse::read_versioned(
                version,
                Reader::on(w.bytes + rest),
            );
            !w.failed() ==> {
                &&& r == Reader::on(rest)
                &&& x@ == read ==> {
                    &&& x.throttle_time_ms == throttle_time_ms
                    &&& views(x.results@) == results
                }
            }
        }),
{
    if 0 <= version <= 3 {
        let f = AddPartitionsToTxnResponse::response_format(version);
        let w0 = Writer::at(Seq::empty());
        let w1 = w0.i32(throttle_time_ms);
        let w2 = w1.array_len(results_bytes.len(), version >= 3).raw(results_bytes.flatten());
        let w3 = if version >= 3 {
            w2.raw(tags)
        } else {
            w2
        };
        if !w3.failed() {
            let total = w3.bytes + rest;
            assert(total.take(w3.bytes.len() as int) =~= w3.bytes);
            assert(total.skip(w3.bytes.len() as int) =~= rest);
            if version >= 3 {
                law_raw_round_trip(w2, tags, total);
                lemma_tags_read(tags, behind(total, w3).rest);
            }
            lemma_array_read::<AddPartitionsToTxnTopicResult>(w1, f, results_bytes, results, total);
            law_i32_round_trip(w0, throttle_time_ms, total);
            assert(total.skip(0) =~= total);
        }
    }
}

/// How an [`AddPartitionsToTxnResponse`] is laid out from version 4 on. The results are
/// those of the first transaction; an error of the whole response refuses it.
pub proof fn law_batched_response_layout(
    x: AddPartitionsToTxnResponse,
    version: i16,
    throttle_time_ms: i32,
    error_code: i16,
    transactions: Seq<Seq<AddPartitionsToTxnTopicResultView>>,
    transactions_bytes: Seq<Seq<u8>>,
    tags: Seq<u8>,
    rest: Seq<u8>,
)
    requires
        4 <= version <= 5,
        elements::<TransactionResults>(
            AddPartitionsToTxnResponse::response_format(version),
            transactions_bytes,
            transactions,
        ),
        is_tags(tags),
    ensures
        ({
            let w = Writer::at(Seq::empty());
            let w = w.i32(throttle_time_ms);
            let w = w.i16(error_code);
            let w = w.array_len(transactions_bytes.len(), true).raw(transactions_bytes.flatten());
            let w = w.raw(tags);
            let (read, r) = AddPartitionsToTxnResponse::read_versioned(
                version,
                Reader::on(w.bytes + rest),
            );
            !w.failed() ==> {
                &&& ErrorCode::of(error_code) != ErrorCode::NoError ==> (
                r.failure matches Some(e) && (e matches KrafkaError::Broker(code, _) && code
                    == ErrorCode::of(error_code)))
                &&& ErrorCode::of(error_code) == ErrorCode::NoError ==> {
                    &&& r == Reader::on(rest)
                    &&& x@ == read ==> {
                        &&& x.throttle_time_ms == throttle_time_ms
                        &&& views(x.results@) == (if transactions.len() > 0 {
                            transactions[0]
                        } else {
                            Seq::empty()
                        })
                    }
                }
            }
        }),
{
    let f = AddPartitionsToTxnResponse::response_format(version);
    let w0 = Writer::at(Seq::empty());
    let w1 = w0.i32(throttle_time_ms);
    let w2 = w1.i16(error_code);
    let w3 = w2.array_len(transactions_bytes.len(), true).raw(transactions_bytes.flatten());
    let w4 = w3.raw(tags);
    if !w4.failed() {
        let total = w4.bytes + rest;
        assert(total.take(w4.bytes.len() as int) =~= w4.bytes);
        assert(total.skip(w4.bytes.len() as int) =~= rest);
        law_raw_round_trip(w3, tags, total);
        lemma_tags_read(tags, behind(total, w4).rest);
        lemma_array_read::<TransactionResults>(w2, f, transactions_bytes, transactions, total);
        law_i16_round_trip(w1, error_code, total);
        law_i32_round_trip(w0, throttle_time_ms, total);
        assert(total.skip(0) =~= total);
    }
}

} // verus!
