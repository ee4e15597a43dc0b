//! Layouts of what [`crate::protocol::messages::alter_replica_log_dirs`] holds.

use crate::buffer::Octets;
use crate::error::ErrorCode;
use crate::protocol::layouts::{
    count_fits, elements, is_tags, law_numbers_are_writable, law_numbers_round_trip,
    lemma_array_read, lemma_array_stands, lemma_array_written, lemma_tags_read, lemma_text_written,
    past, stands, text_fits, writable,
};
use crate::protocol::messages::alter_replica_log_dirs::{
    AlterReplicaLogDir, AlterReplicaLogDirTopic, AlterReplicaLogDirsPartitionResult,
    AlterReplicaLogDirsRequest, AlterReplicaLogDirsResponse, AlterReplicaLogDirsTopicResult,
    AlterReplicaLogDirsTopicResultView,
};
use crate::protocol::messages::{VersionedDecode, VersionedEncode};
use crate::protocol::round_trip::{
    begins, behind, law_i16_round_trip, law_i32_round_trip, law_nullable_string_round_trip,
    law_raw_round_trip, law_varint_round_trip,
};
use crate::protocol::wire::{null_field, views, Format, Reader, WireDecode, WireEncode, Writer};
use vstd::prelude::*;

verus! {

/// How a [`AlterReplicaLogDirTopic`] is laid out.
pub proof fn law_alter_replica_log_dir_topic_layout(
    x: AlterReplicaLogDirTopic,
    f: Format,
    w: Writer,
    total: Seq<u8>,
)
    requires
        !w.failed(),
    ensures
        ({
            &&& text_fits(x.name@, f.flexible)
            &&& count_fits(x.partitions@.len(), f.flexible)
        }) ==> !x.written(f, w).failed(),
        begins(total, x.written(f, w)) ==> ({
            let r = behind(total, w);
            let (name, r) = r.nullable_string(f.flexible);
            let (partitions, r) = r.array::<i32>(f);
            let tags = r;
            let r = r.tags(f.flexible);
            &&& name == Some(x.name@)
            &&& partitions == x.partitions@
            &&& f.flexible ==> tags.tagged_fields().0.len() == 0
            &&& r == behind(total, x.written(f, w))
        }),
{
    let w0 = w;
    let w1 = w0.string(x.name@, f.flexible);
    let w2 = w1.array(x.partitions@, f);
    let w3 = w2.tags(f.flexible);
    lemma_text_written(w0, Some(x.name@), f.flexible);
    law_numbers_are_writable(x.partitions@, f);
    lemma_array_written(w1, x.partitions@, f);
    if begins(total, w3) {
        if f.flexible {
            law_varint_round_trip(w2, 0, total);
        }
        law_numbers_round_trip(w1, x.partitions@, f, total);
        law_nullable_string_round_trip(w0, Some(x.name@), f.flexible, total);
    }
}

/// How a [`AlterReplicaLogDir`] is laid out.
pub proof fn law_alter_replica_log_dir_layout(
    x: AlterReplicaLogDir,
    f: Format,
    w: Writer,
    total: Seq<u8>,
)
    requires
        !w.failed(),
    ensures
        ({
            &&& text_fits(x.path@, f.flexible)
            &&& count_fits(x.topics@.len(), f.flexible) && writable(x.topics@, f)
        }) ==> !x.written(f, w).failed(),
        begins(total, x.written(f, w)) ==> ({
            let r = behind(total, w);
            let (path, r) = r.nullable_string(f.flexible);
            let (topics_count, r) = r.array_len(f.flexible);
            let topics_start = r;
            let r = past(total, r, x.topics@, f);
            let tags = r;
            let r = r.tags(f.flexible);
            &&& path == Some(x.path@)
            &&& topics_count == x.topics@.len()
            &&& stands(total, topics_start, x.topics@, f)
            &&& f.flexible ==> tags.tagged_fields().0.len() == 0
            &&& r == behind(total, x.written(f, w))
        }),
{
    let w0 = w;
    let w1 = w0.string(x.path@, f.flexible);
    let w2 = w1.array(x.topics@, f);
    let w3 = w2.tags(f.flexible);
    lemma_text_written(w0, Some(x.path@), f.flexible);
    lemma_array_written(w1, x.topics@, f);
    if begins(total, w3) {
        if f.flexible {
            law_varint_round_trip(w2, 0, total);
        }
        lemma_array_stands(w1, x.topics@, f, total);
        law_nullable_string_round_trip(w0, Some(x.path@), f.flexible, total);
    }
}

/// How a [`AlterReplicaLogDirsRequest`] is laid out in each version.
pub proof fn law_alter_replica_log_dirs_request_layout(
    x: AlterReplicaLogDirsRequest,
    version: i16,
    w: Writer,
    total: Seq<u8>,
)
    requires
        !w.failed(),
    ensures
        AlterReplicaLogDirsRequest::request_name() == "AlterReplicaLogDirsRequest",
        AlterReplicaLogDirsRequest::encodes(version) <==> (1 <= version <= 2),
        (1 <= version <= 2) ==> ({
            let f = AlterReplicaLogDirsRequest::request_format(version);
            &&& f.flexible <==> version >= 2
        }),
        (1 <= version <= 2) ==> ({
            let f = AlterReplicaLogDirsRequest::request_format(version);
            (count_fits(x.dirs@.len(), version >= 2) && writable(x.dirs@, f))
        }) ==> !x.written_versioned(version, w).failed(),
        (1 <= version <= 2) ==> begins(total, x.written_versioned(version, w)) ==> ({
            let f = AlterReplicaLogDirsRequest::request_format(version);
            let r = behind(total, w);
            let (dirs_count, r) = r.array_len(version >= 2);
            let dirs_start = r;
            let r = past(total, r, x.dirs@, f);
            let tags = r;
            let r = r.tags(version >= 2);
            &&& dirs_count == x.dirs@.len()
            &&& stands(total, dirs_start, x.dirs@, f)
            &&& version >= 2 ==> tags.tagged_fields().0.len() == 0
            &&& r == behind(total, x.written_versioned(version, w))
        }),
{
    if 1 <= version <= 2 {
        let f = AlterReplicaLogDirsRequest::request_format(version);
        let w0 = w;
        let w1 = w0.array(x.dirs@, f);
        let w2 = w1.tags(version >= 2);
        lemma_array_written(w0, x.dirs@, f);
        if begins(total, w2) {
            if version >= 2 {
                law_varint_round_trip(w1, 0, total);
            }
            lemma_array_stands(w0, x.dirs@, f, total);
        }
        assert(x.written_versioned(version, w) == w2);
    }
}

/// How a [`AlterReplicaLogDirsPartitionResult`] is laid out.
pub proof fn law_alter_replica_log_dirs_partition_result_layout(
    x: AlterReplicaLogDirsPartitionResult,
    f: Format,
    partition_index: i32,
    error_code: i16,
    tags: Seq<u8>,
    rest: Seq<u8>,
)
    requires
        is_tags(tags),
    ensures
        ({
            let w = Writer::at(Seq::empty());
            let w = w.i32(partition_index);
            let w = w.i16(error_code);
            let w = if f.flexible {
                w.raw(tags)
            } else {
                w
            };
            let (read, r) = AlterReplicaLogDirsPartitionResult::read(f, Reader::on(w.bytes + rest));
            !w.failed() ==> {
                &&& r == Reader::on(rest)
                &&& x@ == read ==> {
                    &&& x.partition_index == partition_index
                    &&& x.error_code == ErrorCode::of(error_code)
                }
            }
        }),
{
    let w0 = Writer::at(Seq::empty());
    let w1 = w0.i32(partition_index);
    let w2 = w1.i16(error_code);
    let w3 = if f.flexible {
        w2.raw(tags)
    } else {
        w2
    };
    if !w3.failed() {
        let total = w3.bytes + rest;
        assert(total.take(w3.bytes.len() as int) =~= w3.bytes);
        assert(total.skip(w3.bytes.len() as int) =~= rest);
        if f.flexible {
            law_raw_round_trip(w2, tags, total);
            lemma_tags_read(tags, behind(total, w3).rest);
        }
        law_i16_round_trip(w1, error_code, total);
        law_i32_round_trip(w0, partition_index, total);
        assert(total.skip(0) =~= total);
    }
}

/// How a [`AlterReplicaLogDirsTopicResult`] is laid out.
#[verifier::rlimit(60)]
pub proof fn law_alter_replica_log_dirs_topic_result_layout(
    x: AlterReplicaLogDirsTopicResult,
    f: Format,
    topic_name: Seq<char>,
    partitions: Seq<AlterReplicaLogDirsPartitionResult>,
    partitions_bytes: Seq<Seq<u8>>,
    tags: Seq<u8>,
    rest: Seq<u8>,
)
    requires
        elements::<AlterReplicaLogDirsPartitionResult>(f, partitions_bytes, partitions),
        is_tags(tags),
    ensures
        ({
            let w = Writer::at(Seq::empty());
            let w = w.string(topic_name, f.flexible);
            let w = w.array_len(partitions_bytes.len(), f.flexible).raw(partitions_bytes.flatten());
            let w = if f.flexible {
                w.raw(tags)
            } else {
                w
            };
            let (read, r) = AlterReplicaLogDirsTopicResult::read(f, Reader::on(w.bytes + rest));
            !w.failed() ==> {
                &&& r == Reader::on(rest)
                &&& x@ == read ==> {
                    &&& x.topic_name@ == topic_name
                    &&& views(x.partitions@) == partitions
                }
            }
        }),
{
    let w0 = Writer::at(Seq::empty());
    let w1 = w0.string(topic_name, f.flexible);
    let w2 = w1.array_len(partitions_bytes.len(), f.flexible).raw(partitions_bytes.flatten());
    let w3 = if f.flexible {
        w2.raw(tags)
    } else {
        w2
    };
    if !w3.failed() {
        let total = w3.bytes + rest;
        assert(total.take(w3.bytes.len() as int) =~= w3.bytes);
        assert(total.skip(w3.bytes.len() as int) =~= rest);
        if f.flexible {
            law_raw_round_trip(w2, tags, total);
            lemma_tags_read(tags, behind(total, w3).rest);
        }
        lemma_array_read::<AlterReplicaLogDirsPartitionResult>(
            w1,
            f,
            partitions_bytes,
            partitions,
            total,
        );
        law_nullable_string_round_trip(w0, Some(topic_name), f.flexible, total);
        assert(total.skip(0) =~= total);
    }
}

/// A [`AlterReplicaLogDirsTopicResult`] is refused where a field that it needs is null.
pub proof fn law_alter_replica_log_dirs_topic_result_needs_its_fields(f: Format, start: Reader)
    ensures
        ({
            let r = start;
            let (topic_name, r) = r.nullable_string(f.flexible);
            !r.failed() && topic_name is None
                ==> AlterReplicaLogDirsTopicResult::read(f, start).1.failure == Some(
                    null_field("topic_name"),
                )
        }),
{
}

/// How a [`AlterReplicaLogDirsResponse`] is laid out in each version.
#[verifier::rlimit(60)]
pub proof fn law_alter_replica_log_dirs_response_layout(
    x: AlterReplicaLogDirsResponse,
    version: i16,
    throttle_time_ms: i32,
    results: Seq<AlterReplicaLogDirsTopicResultView>,
    results_bytes: Seq<Seq<u8>>,
    tags: Seq<u8>,
    rest: Seq<u8>,
)
    requires
        elements::<AlterReplicaLogDirsTopicResult>(
            AlterReplicaLogDirsResponse::response_format(version),
            results_bytes,
            results,
        ),
        is_tags(tags),
    ensures
        AlterReplicaLogDirsResponse::response_name() == "AlterReplicaLogDirsResponse",
        AlterReplicaLogDirsResponse::decodes(version) <==> (1 <= version <= 2),
        (1 <= version <= 2) ==> ({
            let f = AlterReplicaLogDirsResponse::response_format(version);
            &&& f.flexible <==> version >= 2
        }),
        (1 <= version <= 2) ==> ({
            let w = Writer::at(Seq::empty());
            let w = w.i32(throttle_time_ms);
            let w = w.array_len(results_bytes.len(), version >= 2).raw(results_bytes.flatten());
            let w = if version >= 2 {
                w.raw(tags)
            } else {
                w
            };
            let (read, r) = AlterReplicaLogDirsResponse::read_versioned(
                version,
                Reader::on(w.bytes + rest),
            );
            !w.failed() ==> {
                &&& r == Reader::on(rest)
                &&& x@ == read ==> {
                    &&& x.throttle_time_ms == throttle_time_ms
                    &&& views(x.results@) == results
                }
            }
        }),
{
    if 1 <= version <= 2 {
        let f = AlterReplicaLogDirsResponse::response_format(version);
        let w0 = Writer::at(Seq::empty());
        let w1 = w0.i32(throttle_time_ms);
        let w2 = w1.array_len(results_bytes.len(), version >= 2).raw(results_bytes.flatten());
        let w3 = if version >= 2 {
            w2.raw(tags)
        } else {
            w2
        };
        if !w3.failed() {
            let total = w3.bytes + rest;
            assert(total.take(w3.bytes.len() as int) =~= w3.bytes);
            assert(total.skip(w3.bytes.len() as int) =~= rest);
            if version >= 2 {
                law_raw_round_trip(w2, tags, total);
                lemma_tags_read(tags, behind(total, w3).rest);
            }
            lemma_array_read::<AlterReplicaLogDirsTopicResult>(
                w1,
                f,
                results_bytes,
                results,
                total,
            );
            law_i32_round_trip(w0, throttle_time_ms, total);
            assert(total.skip(0) =~= total);
        }
    }
}

} // verus!
