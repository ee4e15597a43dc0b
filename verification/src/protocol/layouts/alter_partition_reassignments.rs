//! Layouts of what [`crate::protocol::messages::alter_partition_reassignments`] holds.

use crate::buffer::Octets;
use crate::error::ErrorCode;
use crate::protocol::layouts::{
    count_fits, elements, is_tags, law_null_array_round_trip, lemma_array_read, lemma_array_stands,
    lemma_array_written, lemma_tags_read, lemma_text_written, past, stands, text_fits, writable,
};
use crate::protocol::messages::alter_partition_reassignments::{
    AlterPartitionReassignmentsRequest, AlterPartitionReassignmentsResponse, ReassignablePartition,
    ReassignablePartitionResponse, ReassignablePartitionResponseView, ReassignableTopic,
    ReassignableTopicResponse, ReassignableTopicResponseView,
};
use crate::protocol::messages::{VersionedDecode, VersionedEncode};
use crate::protocol::round_trip::{
    begins, behind, law_bool_round_trip, law_i16_round_trip, law_i32_round_trip,
    law_nullable_string_round_trip, law_raw_round_trip, law_varint_round_trip,
};
use crate::protocol::wire::{
    null_field, optional_text, views, Format, Reader, WireDecode, WireEncode, Writer,
};
use vstd::prelude::*;

verus! {

/// How a [`ReassignablePartition`] is laid out.
pub proof fn law_reassignable_partition_layout(
    x: ReassignablePartition,
    f: Format,
    w: Writer,
    total: Seq<u8>,
)
    requires
        !w.failed(),
    ensures
        ({
            &&& x.replicas matches Some(items) ==> {
                &&& count_fits(items@.len(), f.flexible)
                &&& writable(items@, f)
            }
        }) ==> !x.written(f, w).failed(),
        begins(total, x.written(f, w)) ==> ({
            let r = behind(total, w);
            let (partition_index, r) = r.i32();
            let (replicas_count, r) = r.optional_array_len(f.flexible);
            let replicas_start = r;
            let r = match x.replicas {
                Some(items) => past(total, r, items@, f),
                None => r,
            };
            let tags = r;
            let r = r.tags(f.flexible);
            &&& partition_index == x.partition_index
            &&& replicas_count == (match x.replicas {
                Some(items) => Some(items@.len()),
                None => None,
            })
            &&& x.replicas matches Some(items) ==> stands(total, replicas_start, items@, f)
            &&& f.flexible ==> tags.tagged_fields().0.len() == 0
            &&& r == behind(total, x.written(f, w))
        }),
{
    let w0 = w;
    let w1 = w0.i32(x.partition_index);
    let w2 = w1.optional_array(x.replicas, f);
    let w3 = w2.tags(f.flexible);
    if let Some(items) = x.replicas {
        lemma_array_written(w1, items@, f);
    }
    if begins(total, w3) {
        if f.flexible {
            law_varint_round_trip(w2, 0, total);
        }
        match x.replicas {
            Some(items) => {
                lemma_array_stands(w1, items@, f, total);
            },
            None => {
                law_null_array_round_trip(w1, f.flexible, total);
            },
        }
        law_i32_round_trip(w0, x.partition_index, total);
    }
}

/// How a [`ReassignableTopic`] is laid out.
pub proof fn law_reassignable_topic_layout(
    x: ReassignableTopic,
    f: Format,
    w: Writer,
    total: Seq<u8>,
)
    requires
        !w.failed(),
    ensures
        ({
            &&& text_fits(x.name@, f.flexible)
            &&& count_fits(x.partitions@.len(), f.flexible) && writable(x.partitions@, f)
        }) ==> !x.written(f, w).failed(),
        begins(total, x.written(f, w)) ==> ({
            let r = behind(total, w);
            let (name, r) = r.nullable_string(f.flexible);
            let (partitions_count, r) = r.array_len(f.flexible);
            let partitions_start = r;
            let r = past(total, r, x.partitions@, f);
            let tags = r;
            let r = r.tags(f.flexible);
            &&& name == Some(x.name@)
            &&& partitions_count == x.partitions@.len()
            &&& stands(total, partitions_start, x.partitions@, f)
            &&& f.flexible ==> tags.tagged_fields().0.len() == 0
            &&& r == behind(total, x.written(f, w))
        }),
{
    let w0 = w;
    let w1 = w0.string(x.name@, f.flexible);
    let w2 = w1.array(x.partitions@, f);
    let w3 = w2.tags(f.flexible);
    lemma_text_written(w0, Some(x.name@), f.flexible);
    lemma_array_written(w1, x.partitions@, f);
    if begins(total, w3) {
        if f.flexible {
            law_varint_round_trip(w2, 0, total);
        }
        lemma_array_stands(w1, x.partitions@, f, total);
        law_nullable_string_round_trip(w0, Some(x.name@), f.flexible, total);
    }
}

/// How a [`AlterPartitionReassignmentsRequest`] is laid out in each version.
pub proof fn law_alter_partition_reassignments_request_layout(
    x: AlterPartitionReassignmentsRequest,
    version: i16,
    w: Writer,
    total: Seq<u8>,
)
    requires
        !w.failed(),
    ensures
        AlterPartitionReassignmentsRequest::request_name() == "AlterPartitionReassignmentsRequest",
        AlterPartitionReassignmentsRequest::encodes(version) <==> (0 <= version <= 1),
        (0 <= version <= 1) ==> ({
            let f = AlterPartitionReassignmentsRequest::request_format(version);
            &&& f.flexible <==> true
        }),
        (0 <= version <= 1) ==> ({
            let f = AlterPartitionReassignmentsRequest::request_format(version);
            (count_fits(x.topics@.len(), true) && writable(x.topics@, f))
        }) ==> !x.written_versioned(version, w).failed(),
        (0 <= version <= 1) ==> begins(total, x.written_versioned(version, w)) ==> ({
            let f = AlterPartitionReassignmentsRequest::request_format(version);
            let r = behind(total, w);
            let (timeout_ms, r) = r.i32();
            let (allow_replication_factor_change, r) = if version >= 1 {
                let (v, r) = r.bool();
                (Some(v), r)
            } else {
                (None, r)
            };
            let (topics_count, r) = r.array_len(true);
            let topics_start = r;
            let r = past(total, r, x.topics@, f);
            let tags = r;
            let r = r.tags(true);
            &&& timeout_ms == x.timeout_ms
            &&& allow_replication_factor_change == (if version >= 1 {
                Some(x.allow_replication_factor_change)
            } else {
                None
            })
            &&& topics_count == x.topics@.len()
            &&& stands(total, topics_start, x.topics@, f)
            &&& tags.tagged_fields().0.len() == 0
            &&& r == behind(total, x.written_versioned(version, w))
        }),
{
    if 0 <= version <= 1 {
        let f = AlterPartitionReassignmentsRequest::request_format(version);
        let w0 = w;
        let w1 = w0.i32(x.timeout_ms);
        let w2 = if version >= 1 {
            w1.bool(x.allow_replication_factor_change)
        } else {
            w1
        };
        let w3 = w2.array(x.topics@, f);
        let w4 = w3.tags(true);
        lemma_array_written(w2, x.topics@, f);
        if begins(total, w4) {
            law_varint_round_trip(w3, 0, total);
            lemma_array_stands(w2, x.topics@, f, total);
            if version >= 1 {
                law_bool_round_trip(w1, x.allow_replication_factor_change, total);
            }
            law_i32_round_trip(w0, x.timeout_ms, total);
        }
        assert(x.written_versioned(version, w) == w4);
    }
}

/// How a [`ReassignablePartitionResponse`] is laid out.
pub proof fn law_reassignable_partition_response_layout(
    x: ReassignablePartitionResponse,
    f: Format,
    partition_index: i32,
    error_code: i16,
    error_message: Option<Seq<char>>,
    tags: Seq<u8>,
    rest: Seq<u8>,
)
    requires
        is_tags(tags),
    ensures
        ({
            let w = Writer::at(Seq::empty());
            let w = w.i32(partition_index);
            let w = w.i16(error_code);
            let w = w.nullable_string(error_message, f.flexible);
            let w = if f.flexible {
                w.raw(tags)
            } else {
                w
            };
            let (read, r) = ReassignablePartitionResponse::read(f, Reader::on(w.bytes + rest));
            !w.failed() ==> {
                &&& r == Reader::on(rest)
                &&& x@ == read ==> {
                    &&& x.partition_index == partition_index
                    &&& x.error_code == ErrorCode::of(error_code)
                    &&& optional_text(x.error_message) == error_message
                }
            }
        }),
{
    let w0 = Writer::at(Seq::empty());
    let w1 = w0.i32(partition_index);
    let w2 = w1.i16(error_code);
    let w3 = w2.nullable_string(error_message, f.flexible);
    let w4 = if f.flexible {
        w3.raw(tags)
    } else {
        w3
    };
    if !w4.failed() {
        let total = w4.bytes + rest;
        assert(total.take(w4.bytes.len() as int) =~= w4.bytes);
        assert(total.skip(w4.bytes.len() as int) =~= rest);
        if f.flexible {
            law_raw_round_trip(w3, tags, total);
            lemma_tags_read(tags, behind(total, w4).rest);
        }
        law_nullable_string_round_trip(w2, error_message, f.flexible, total);
        law_i16_round_trip(w1, error_code, total);
        law_i32_round_trip(w0, partition_index, total);
        assert(total.skip(0) =~= total);
    }
}

/// How a [`ReassignableTopicResponse`] is laid out.
#[verifier::rlimit(60)]
pub proof fn law_reassignable_topic_response_layout(
    x: ReassignableTopicResponse,
    f: Format,
    name: Seq<char>,
    partitions: Seq<ReassignablePartitionResponseView>,
    partitions_bytes: Seq<Seq<u8>>,
    tags: Seq<u8>,
    rest: Seq<u8>,
)
    requires
        elements::<ReassignablePartitionResponse>(f, partitions_bytes, partitions),
        is_tags(tags),
    ensures
        ({
            let w = Writer::at(Seq::empty());
            let w = w.string(name, f.flexible);
            let w = w.array_len(partitions_bytes.len(), f.flexible).raw(partitions_bytes.flatten());
            let w = if f.flexible {
                w.raw(tags)
            } else {
                w
            };
            let (read, r) = ReassignableTopicResponse::read(f, Reader::on(w.bytes + rest));
            !w.failed() ==> {
                &&& r == Reader::on(rest)
                &&& x@ == read ==> {
                    &&& x.name@ == name
                    &&& views(x.partitions@) == partitions
                }
            }
        }),
{
    let w0 = Writer::at(Seq::empty());
    let w1 = w0.string(name, f.flexible);
    let w2 = w1.array_len(partitions_bytes.len(), f.flexible).raw(partitions_bytes.flatten());
    let w3 = if f.flexible {
        w2.raw(tags)
    } else {
        w2
    };
    if !w3.failed() {
        let total = w3.bytes + rest;
        assert(total.take(w3.bytes.len() as int) =~= w3.bytes);
        assert(total.skip(w3.bytes.len() as int) =~= rest);
        if f.flexible {
            law_raw_round_trip(w2, tags, total);
            lemma_tags_read(tags, behind(total, w3).rest);
        }
        lemma_array_read::<ReassignablePartitionResponse>(
            w1,
            f,
            partitions_bytes,
            partitions,
            total,
        );
        law_nullable_string_round_trip(w0, Some(name), f.flexible, total);
        assert(total.skip(0) =~= total);
    }
}

/// A [`ReassignableTopicResponse`] is refused where a field that it needs is null.
pub proof fn law_reassignable_topic_response_needs_its_fields(f: Format, start: Reader)
    ensures
        ({
            let r = start;
            let (name, r) = r.nullable_string(f.flexible);
            !r.failed() && name is None
                ==> ReassignableTopicResponse::read(f, start).1.failure == Some(
                    null_field("topic name"),
                )
        }),
{
}

/// How a [`AlterPartitionReassignmentsResponse`] is laid out in each version.
#[verifier::rlimit(60)]
pub proof fn law_alter_partition_reassignments_response_layout(
    x: AlterPartitionReassignmentsResponse,
    version: i16,
    throttle_time_ms: i32,
    allow_replication_factor_change: bool,
    error_code: i16,
    error_message: Option<Seq<char>>,
    responses: Seq<ReassignableTopicResponseView>,
    responses_bytes: Seq<Seq<u8>>,
    tags: Seq<u8>,
    rest: Seq<u8>,
)
    requires
        elements::<ReassignableTopicResponse>(
            AlterPartitionReassignmentsResponse::response_format(version),
            responses_bytes,
            responses,
        ),
        is_tags(tags),
    ensures
        AlterPartitionReassignmentsResponse::response_name()
            == "AlterPartitionReassignmentsResponse",
        AlterPartitionReassignmentsResponse::decodes(version) <==> (0 <= version <= 1),
        (0 <= version <= 1) ==> ({
            let f = AlterPartitionReassignmentsResponse::response_format(version);
            &&& f.flexible <==> true
        }),
        (0 <= version <= 1) ==> ({
            let w = Writer::at(Seq::empty());
            let w = w.i32(throttle_time_ms);
            let w = if version >= 1 {
                w.bool(allow_replication_factor_change)
            } else {
                w
            };
            let w = w.i16(error_code);
            let w = w.nullable_string(error_message, true);
            let w = w.array_len(responses_bytes.len(), true).raw(responses_bytes.flatten());
            let w = w.raw(tags);
            let (read, r) = AlterPartitionReassignmentsResponse::read_versioned(
                version,
                Reader::on(w.bytes + rest),
            );
            !w.failed() ==> {
                &&& r == Reader::on(rest)
                &&& x@ == read ==> {
                    &&& x.throttle_time_ms == throttle_time_ms
                    &&& x.error_code == ErrorCode::of(error_code)
                    &&& optional_text(x.error_message) == error_message
                    &&& x.allow_replication_factor_change == (if version >= 1 {
                        allow_replication_factor_change
                    } else {
                        true
                    })
                    &&& views(x.responses@) == responses
                }
            }
        }),
{
    if 0 <= version <= 1 {
        let f = AlterPartitionReassignmentsResponse::response_format(version);
        let w0 = Writer::at(Seq::empty());
        let w1 = w0.i32(throttle_time_ms);
        let w2 = if version >= 1 {
            w1.bool(allow_replication_factor_change)
        } else {
            w1
        };
        let w3 = w2.i16(error_code);
        let w4 = w3.nullable_string(error_message, true);
        let w5 = w4.array_len(responses_bytes.len(), true).raw(responses_bytes.flatten());
        let w6 = w5.raw(tags);
        if !w6.failed() {
            let total = w6.bytes + rest;
            assert(total.take(w6.bytes.len() as int) =~= w6.bytes);
            assert(total.skip(w6.bytes.len() as int) =~= rest);
            law_raw_round_trip(w5, tags, total);
            lemma_tags_read(tags, behind(total, w6).rest);
            lemma_array_read::<ReassignableTopicResponse>(w4, f, responses_bytes, responses, total);
            law_nullable_string_round_trip(w3, error_message, true, total);
            law_i16_round_trip(w2, error_code, total);
            if version >= 1 {
                law_bool_round_trip(w1, allow_replication_factor_change, total);
            }
            law_i32_round_trip(w0, throttle_time_ms, total);
            assert(total.skip(0) =~= total);
        }
    }
}

} // verus!
