//! Layouts of what [`crate::protocol::messages::offsets`] holds.

use crate::buffer::Octets;
use crate::error::ErrorCode;
use crate::protocol::layouts::{
    count_fits, elements, law_null_array_round_trip, law_numbers_are_writable,
    law_numbers_round_trip, lemma_array_read, lemma_array_stands, lemma_array_written,
    lemma_text_written, optional_text_fits, or_empty, past, stands, text_fits, writable,
};
use crate::protocol::messages::offsets::{
    ListOffsetsRequest, ListOffsetsRequestPartition, ListOffsetsRequestTopic, ListOffsetsResponse,
    ListOffsetsResponsePartition, ListOffsetsResponseTopic, ListOffsetsResponseTopicView,
    OffsetCommitRequest, OffsetCommitRequestPartition, OffsetCommitRequestTopic,
    OffsetCommitResponse, OffsetCommitResponsePartition, OffsetCommitResponseTopic,
    OffsetCommitResponseTopicView, OffsetFetchRequest, OffsetFetchRequestTopic, OffsetFetchResponse,
    OffsetFetchResponsePartition, OffsetFetchResponsePartitionView, OffsetFetchResponseTopic,
    OffsetFetchResponseTopicView, OffsetForLeaderEpochPartition,
    OffsetForLeaderEpochPartitionResult, OffsetForLeaderEpochRequest, OffsetForLeaderEpochResponse,
    OffsetForLeaderEpochTopic, OffsetForLeaderEpochTopicResult, OffsetForLeaderEpochTopicResultView,
};
use crate::protocol::messages::{VersionedDecode, VersionedEncode};
use crate::protocol::round_trip::{
    begins, behind, law_i16_round_trip, law_i32_round_trip, law_i64_round_trip, law_i8_round_trip,
    law_nullable_string_round_trip,
};
use crate::protocol::wire::{optional_text, views, Format, Reader, WireDecode, WireEncode, Writer};
use vstd::prelude::*;

verus! {

/// How a [`OffsetCommitRequestPartition`] is laid out.
pub proof fn law_offset_commit_request_partition_layout(
    x: OffsetCommitRequestPartition,
    f: Format,
    w: Writer,
    total: Seq<u8>,
)
    requires
        !w.failed(),
    ensures
        ({
            &&& optional_text_fits(optional_text(x.committed_metadata), f.flexible)
        }) ==> !x.written(f, w).failed(),
        begins(total, x.written(f, w)) ==> ({
            let r = behind(total, w);
            let (partition_index, r) = r.i32();
            let (committed_offset, r) = r.i64();
            let (commit_timestamp, r) = if f.version == 1 {
                let (v, r) = r.i64();
                (Some(v), r)
            } else {
                (None, r)
            };
            let (committed_metadata, r) = r.nullable_string(f.flexible);
            &&& partition_index == x.partition_index
            &&& committed_offset == x.committed_offset
            &&& commit_timestamp == (if f.version == 1 {
                Some(x.commit_timestamp)
            } else {
                None
            })
            &&& committed_metadata == optional_text(x.committed_metadata)
            &&& r == behind(total, x.written(f, w))
        }),
{
    let w0 = w;
    let w1 = w0.i32(x.partition_index);
    let w2 = w1.i64(x.committed_offset);
    let w3 = if f.version == 1 {
        w2.i64(x.commit_timestamp)
    } else {
        w2
    };
    let w4 = w3.nullable_string(optional_text(x.committed_metadata), f.flexible);
    lemma_text_written(w3, optional_text(x.committed_metadata), f.flexible);
    if begins(total, w4) {
        law_nullable_string_round_trip(w3, optional_text(x.committed_metadata), f.flexible, total);
        if f.version == 1 {
            law_i64_round_trip(w2, x.commit_timestamp, total);
        }
        law_i64_round_trip(w1, x.committed_offset, total);
        law_i32_round_trip(w0, x.partition_index, total);
    }
}

/// How a [`OffsetCommitRequestTopic`] is laid out.
pub proof fn law_offset_commit_request_topic_layout(
    x: OffsetCommitRequestTopic,
    f: Format,
    w: Writer,
    total: Seq<u8>,
)
    requires
        !w.failed(),
    ensures
        ({
            &&& text_fits(x.name@, f.flexible)
            &&& count_fits(x.partitions@.len(), f.flexible) && writable(x.partitions@, f)
        }) ==> !x.written(f, w).failed(),
        begins(total, x.written(f, w)) ==> ({
            let r = behind(total, w);
            let (name, r) = r.nullable_string(f.flexible);
            let (partitions_count, r) = r.array_len(f.flexible);
            let partitions_start = r;
            let r = past(total, r, x.partitions@, f);
            &&& name == Some(x.name@)
            &&& partitions_count == x.partitions@.len()
            &&& stands(total, partitions_start, x.partitions@, f)
            &&& r == behind(total, x.written(f, w))
        }),
{
    let w0 = w;
    let w1 = w0.string(x.name@, f.flexible);
    let w2 = w1.array(x.partitions@, f);
    lemma_text_written(w0, Some(x.name@), f.flexible);
    lemma_array_written(w1, x.partitions@, f);
    if begins(total, w2) {
        lemma_array_stands(w1, x.partitions@, f, total);
        law_nullable_string_round_trip(w0, Some(x.name@), f.flexible, total);
    }
}

/// How a [`OffsetCommitRequest`] is laid out in each version.
pub proof fn law_offset_commit_request_layout(
    x: OffsetCommitRequest,
    version: i16,
    w: Writer,
    total: Seq<u8>,
)
    requires
        !w.failed(),
    ensures
        OffsetCommitRequest::request_name() == "OffsetCommitRequest",
        OffsetCommitRequest::encodes(version) <==> (0 <= version <= 2),
        (0 <= version <= 2) ==> ({
            let f = OffsetCommitRequest::request_format(version);
            &&& f.flexible <==> false
            &&& (f.version == 1) <==> (version == 1)
        }),
        (0 <= version <= 2) ==> ({
            let f = OffsetCommitRequest::request_format(version);
            &&& text_fits(x.group_id@, false)
            &&& version >= 1 ==> text_fits(x.member_id@, false)
            &&& count_fits(x.topics@.len(), false) && writable(x.topics@, f)
        }) ==> !x.written_versioned(version, w).failed(),
        (0 <= version <= 2) ==> begins(total, x.written_versioned(version, w)) ==> ({
            let f = OffsetCommitRequest::request_format(version);
            let r = behind(total, w);
            let (group_id, r) = r.nullable_string(false);
            let (generation_id, r) = if version >= 1 {
                let (v, r) = r.i32();
                (Some(v), r)
            } else {
                (None, r)
            };
            let (member_id, r) = if version >= 1 {
                let (v, r) = r.nullable_string(false);
                (Some(v), r)
            } else {
                (None, r)
            };
            let (retention_time_ms, r) = if version >= 2 {
                let (v, r) = r.i64();
                (Some(v), r)
            } else {
                (None, r)
            };
            let (topics_count, r) = r.array_len(false);
            let topics_start = r;
            let r = past(total, r, x.topics@, f);
            &&& group_id == Some(x.group_id@)
            &&& generation_id == (if version >= 1 {
                Some(x.generation_id)
            } else {
                None
            })
            &&& member_id == (if version >= 1 {
                Some(Some(x.member_id@))
            } else {
                None
            })
            &&& retention_time_ms == (if version >= 2 {
                Some(x.retention_time_ms)
            } else {
                None
            })
            &&& topics_count == x.topics@.len()
            &&& stands(total, topics_start, x.topics@, f)
            &&& r == behind(total, x.written_versioned(version, w))
        }),
{
    if 0 <= version <= 2 {
        let f = OffsetCommitRequest::request_format(version);
        let w0 = w;
        let w1 = w0.string(x.group_id@, false);
        let w2 = if version >= 1 {
            w1.i32(x.generation_id)
        } else {
            w1
        };
        let w3 = if version >= 1 {
            w2.string(x.member_id@, false)
        } else {
            w2
        };
        let w4 = if version >= 2 {
            w3.i64(x.retention_time_ms)
        } else {
            w3
        };
        let w5 = w4.array(x.topics@, f);
        lemma_text_written(w0, Some(x.group_id@), false);
        lemma_text_written(w2, Some(x.member_id@), false);
        lemma_array_written(w4, x.topics@, f);
        if begins(total, w5) {
            lemma_array_stands(w4, x.topics@, f, total);
            if version >= 2 {
                law_i64_round_trip(w3, x.retention_time_ms, total);
            }
            if version >= 1 {
                law_nullable_string_round_trip(w2, Some(x.member_id@), false, total);
            }
            if version >= 1 {
                law_i32_round_trip(w1, x.generation_id, total);
            }
            law_nullable_string_round_trip(w0, Some(x.group_id@), false, total);
        }
        assert(x.written_versioned(version, w) == w5);
    }
}

/// How a [`ListOffsetsRequestPartition`] is laid out.
pub proof fn law_list_offsets_request_partition_layout(
    x: ListOffsetsRequestPartition,
    f: Format,
    w: Writer,
    total: Seq<u8>,
)
    requires
        !w.failed(),
    ensures
        !x.written(f, w).failed(),
        begins(total, x.written(f, w)) ==> ({
            let r = behind(total, w);
            let (partition_index, r) = r.i32();
            let (timestamp, r) = r.i64();
            &&& partition_index == x.partition_index
            &&& timestamp == x.timestamp
            &&& r == behind(total, x.written(f, w))
        }),
{
    let w0 = w;
    let w1 = w0.i32(x.partition_index);
    let w2 = w1.i64(x.timestamp);
    if begins(total, w2) {
        law_i64_round_trip(w1, x.timestamp, total);
        law_i32_round_trip(w0, x.partition_index, total);
    }
}

/// How a [`ListOffsetsRequestTopic`] is laid out.
pub proof fn law_list_offsets_request_topic_layout(
    x: ListOffsetsRequestTopic,
    f: Format,
    w: Writer,
    total: Seq<u8>,
)
    requires
        !w.failed(),
    ensures
        ({
            &&& text_fits(x.name@, f.flexible)
            &&& count_fits(x.partitions@.len(), f.flexible) && writable(x.partitions@, f)
        }) ==> !x.written(f, w).failed(),
        begins(total, x.written(f, w)) ==> ({
            let r = behind(total, w);
            let (name, r) = r.nullable_string(f.flexible);
            let (partitions_count, r) = r.array_len(f.flexible);
            let partitions_start = r;
            let r = past(total, r, x.partitions@, f);
            &&& name == Some(x.name@)
            &&& partitions_count == x.partitions@.len()
            &&& stands(total, partitions_start, x.partitions@, f)
            &&& r == behind(total, x.written(f, w))
        }),
{
    let w0 = w;
    let w1 = w0.string(x.name@, f.flexible);
    let w2 = w1.array(x.partitions@, f);
    lemma_text_written(w0, Some(x.name@), f.flexible);
    lemma_array_written(w1, x.partitions@, f);
    if begins(total, w2) {
        lemma_array_stands(w1, x.partitions@, f, total);
        law_nullable_string_round_trip(w0, Some(x.name@), f.flexible, total);
    }
}

/// How a [`ListOffsetsRequest`] is laid out in each version.
pub proof fn law_list_offsets_request_layout(
    x: ListOffsetsRequest,
    version: i16,
    w: Writer,
    total: Seq<u8>,
)
    requires
        !w.failed(),
    ensures
        ListOffsetsRequest::request_name() == "ListOffsetsRequest",
        ListOffsetsRequest::encodes(version) <==> (1 <= version <= 2),
        (1 <= version <= 2) ==> ({
            let f = ListOffsetsRequest::request_format(version);
            &&& f.flexible <==> false
        }),
        (1 <= version <= 2) ==> ({
            let f = ListOffsetsRequest::request_format(version);
            (count_fits(x.topics@.len(), false) && writable(x.topics@, f))
        }) ==> !x.written_versioned(version, w).failed(),
        (1 <= version <= 2) ==> begins(total, x.written_versioned(version, w)) ==> ({
            let f = ListOffsetsRequest::request_format(version);
            let r = behind(total, w);
            let (replica_id, r) = r.i32();
            let (isolation_level, r) = if version >= 2 {
                let (v, r) = r.i8();
                (Some(v), r)
            } else {
                (None, r)
            };
            let (topics_count, r) = r.array_len(false);
            let topics_start = r;
            let r = past(total, r, x.topics@, f);
            &&& replica_id == x.replica_id
            &&& isolation_level == (if version >= 2 {
                Some(x.isolation_level)
            } else {
                None
            })
            &&& topics_count == x.topics@.len()
            &&& stands(total, topics_start, x.topics@, f)
            &&& r == behind(total, x.written_versioned(version, w))
        }),
{
    if 1 <= version <= 2 {
        let f = ListOffsetsRequest::request_format(version);
        let w0 = w;
        let w1 = w0.i32(x.replica_id);
        let w2 = if version >= 2 {
            w1.i8(x.isolation_level)
        } else {
            w1
        };
        let w3 = w2.array(x.topics@, f);
        lemma_array_written(w2, x.topics@, f);
        if begins(total, w3) {
            lemma_array_stands(w2, x.topics@, f, total);
            if version >= 2 {
                law_i8_round_trip(w1, x.isolation_level, total);
            }
            law_i32_round_trip(w0, x.replica_id, total);
        }
        assert(x.written_versioned(version, w) == w3);
    }
}

/// How a [`OffsetFetchRequestTopic`] is laid out.
pub proof fn law_offset_fetch_request_topic_layout(
    x: OffsetFetchRequestTopic,
    f: Format,
    w: Writer,
    total: Seq<u8>,
)
    requires
        !w.failed(),
    ensures
        ({
            &&& text_fits(x.name@, f.flexible)
            &&& count_fits(x.partition_indexes@.len(), f.flexible)
        }) ==> !x.written(f, w).failed(),
        begins(total, x.written(f, w)) ==> ({
            let r = behind(total, w);
            let (name, r) = r.nullable_string(f.flexible);
            let (partition_indexes, r) = r.array::<i32>(f);
            &&& name == Some(x.name@)
            &&& partition_indexes == x.partition_indexes@
            &&& r == behind(total, x.written(f, w))
        }),
{
    let w0 = w;
    let w1 = w0.string(x.name@, f.flexible);
    let w2 = w1.array(x.partition_indexes@, f);
    lemma_text_written(w0, Some(x.name@), f.flexible);
    law_numbers_are_writable(x.partition_indexes@, f);
    lemma_array_written(w1, x.partition_indexes@, f);
    if begins(total, w2) {
        law_numbers_round_trip(w1, x.partition_indexes@, f, total);
        law_nullable_string_round_trip(w0, Some(x.name@), f.flexible, total);
    }
}

/// How a [`OffsetFetchRequest`] is laid out in each version.
pub proof fn law_offset_fetch_request_layout(
    x: OffsetFetchRequest,
    version: i16,
    w: Writer,
    total: Seq<u8>,
)
    requires
        !w.failed(),
    ensures
        OffsetFetchRequest::request_name() == "OffsetFetchRequest",
        OffsetFetchRequest::encodes(version) <==> (0 <= version <= 1),
        (0 <= version <= 1) ==> ({
            let f = OffsetFetchRequest::request_format(version);
            &&& f.flexible <==> false
        }),
        (0 <= version <= 1) ==> ({
            let f = OffsetFetchRequest::request_format(version);
            &&& text_fits(x.group_id@, false)
            &&& x.topics matches Some(items) ==> {
                &&& count_fits(items@.len(), false)
                &&& writable(items@, f)
            }
        }) ==> !x.written_versioned(version, w).failed(),
        (0 <= version <= 1) ==> begins(total, x.written_versioned(version, w)) ==> ({
            let f = OffsetFetchRequest::request_format(version);
            let r = behind(total, w);
            let (group_id, r) = r.nullable_string(false);
            let (topics_count, r) = r.optional_array_len(false);
            let topics_start = r;
            let r = match x.topics {
                Some(items) => past(total, r, items@, f),
                None => r,
            };
            &&& group_id == Some(x.group_id@)
            &&& topics_count == (match x.topics {
                Some(items) => Some(items@.len()),
                None => None,
            })
            &&& x.topics matches Some(items) ==> stands(total, topics_start, items@, f)
            &&& r == behind(total, x.written_versioned(version, w))
        }),
{
    if 0 <= version <= 1 {
        let f = OffsetFetchRequest::request_format(version);
        let w0 = w;
        let w1 = w0.string(x.group_id@, false);
        let w2 = w1.optional_array(x.topics, f);
        lemma_text_written(w0, Some(x.group_id@), false);
        if let Some(items) = x.topics {
            lemma_array_written(w1, items@, f);
        }
        if begins(total, w2) {
            match x.topics {
                Some(items) => {
                    lemma_array_stands(w1, items@, f, total);
                },
                None => {
                    law_null_array_round_trip(w1, false, total);
                },
            }
            law_nullable_string_round_trip(w0, Some(x.group_id@), false, total);
        }
        assert(x.written_versioned(version, w) == w2);
    }
}

/// How a [`OffsetForLeaderEpochPartition`] is laid out.
pub proof fn law_offset_for_leader_epoch_partition_layout(
    x: OffsetForLeaderEpochPartition,
    f: Format,
    w: Writer,
    total: Seq<u8>,
)
    requires
        !w.failed(),
    ensures
        !x.written(f, w).failed(),
        begins(total, x.written(f, w)) ==> ({
            let r = behind(total, w);
            let (partition, r) = r.i32();
            let (current_leader_epoch, r) = if f.version >= 2 {
                let (v, r) = r.i32();
                (Some(v), r)
            } else {
                (None, r)
            };
            let (leader_epoch, r) = r.i32();
            &&& partition == x.partition
            &&& current_leader_epoch == (if f.version >= 2 {
                Some(x.current_leader_epoch)
            } else {
                None
            })
            &&& leader_epoch == x.leader_epoch
            &&& r == behind(total, x.written(f, w))
        }),
{
    let w0 = w;
    let w1 = w0.i32(x.partition);
    let w2 = if f.version >= 2 {
        w1.i32(x.current_leader_epoch)
    } else {
        w1
    };
    let w3 = w2.i32(x.leader_epoch);
    if begins(total, w3) {
        law_i32_round_trip(w2, x.leader_epoch, total);
        if f.version >= 2 {
            law_i32_round_trip(w1, x.current_leader_epoch, total);
        }
        law_i32_round_trip(w0, x.partition, total);
    }
}

/// How a [`OffsetForLeaderEpochTopic`] is laid out.
pub proof fn law_offset_for_leader_epoch_topic_layout(
    x: OffsetForLeaderEpochTopic,
    f: Format,
    w: Writer,
    total: Seq<u8>,
)
    requires
        !w.failed(),
    ensures
        ({
            &&& text_fits(x.topic@, f.flexible)
            &&& count_fits(x.partitions@.len(), f.flexible) && writable(x.partitions@, f)
        }) ==> !x.written(f, w).failed(),
        begins(total, x.written(f, w)) ==> ({
            let r = behind(total, w);
            let (topic, r) = r.nullable_string(f.flexible);
            let (partitions_count, r) = r.array_len(f.flexible);
            let partitions_start = r;
            let r = past(total, r, x.partitions@, f);
            &&& topic == Some(x.topic@)
            &&& partitions_count == x.partitions@.len()
            &&& stands(total, partitions_start, x.partitions@, f)
            &&& r == behind(total, x.written(f, w))
        }),
{
    let w0 = w;
    let w1 = w0.string(x.topic@, f.flexible);
    let w2 = w1.array(x.partitions@, f);
    lemma_text_written(w0, Some(x.topic@), f.flexible);
    lemma_array_written(w1, x.partitions@, f);
    if begins(total, w2) {
        lemma_array_stands(w1, x.partitions@, f, total);
        law_nullable_string_round_trip(w0, Some(x.topic@), f.flexible, total);
    }
}

/// How a [`OffsetForLeaderEpochRequest`] is laid out in each version.
pub proof fn law_offset_for_leader_epoch_request_layout(
    x: OffsetForLeaderEpochRequest,
    version: i16,
    w: Writer,
    total: Seq<u8>,
)
    requires
        !w.failed(),
    ensures
        OffsetForLeaderEpochRequest::request_name() == "OffsetForLeaderEpochRequest",
        OffsetForLeaderEpochRequest::encodes(version) <==> (0 <= version <= 3),
        (0 <= version <= 3) ==> ({
            let f = OffsetForLeaderEpochRequest::request_format(version);
            &&& f.flexible <==> false
            &&& (f.version >= 2) <==> (version >= 2)
        }),
        (0 <= version <= 3) ==> ({
            let f = OffsetForLeaderEpochRequest::request_format(version);
            (count_fits(x.topics@.len(), false) && writable(x.topics@, f))
        }) ==> !x.written_versioned(version, w).failed(),
        (0 <= version <= 3) ==> begins(total, x.written_versioned(version, w)) ==> ({
            let f = OffsetForLeaderEpochRequest::request_format(version);
            let r = behind(total, w);
            let (replica_id, r) = if version >= 3 {
                let (v, r) = r.i32();
                (Some(v), r)
            } else {
                (None, r)
            };
            let (topics_count, r) = r.array_len(false);
            let topics_start = r;
            let r = past(total, r, x.topics@, f);
            &&& replica_id == (if version >= 3 {
                Some(x.replica_id)
            } else {
                None
            })
            &&& topics_count == x.topics@.len()
            &&& stands(total, topics_start, x.topics@, f)
            &&& r == behind(total, x.written_versioned(version, w))
        }),
{
    if 0 <= version <= 3 {
        let f = OffsetForLeaderEpochRequest::request_format(version);
        let w0 = w;
        let w1 = if version >= 3 {
            w0.i32(x.replica_id)
        } else {
            w0
        };
        let w2 = w1.array(x.topics@, f);
        lemma_array_written(w1, x.topics@, f);
        if begins(total, w2) {
            lemma_array_stands(w1, x.topics@, f, total);
            if version >= 3 {
                law_i32_round_trip(w0, x.replica_id, total);
            }
        }
        assert(x.written_versioned(version, w) == w2);
    }
}

/// How a [`OffsetCommitResponsePartition`] is laid out.
pub proof fn law_offset_commit_response_partition_layout(
    x: OffsetCommitResponsePartition,
    f: Format,
    partition_index: i32,
    error_code: i16,
    rest: Seq<u8>,
)
    ensures
        ({
            let w = Writer::at(Seq::empty());
            let w = w.i32(partition_index);
            let w = w.i16(error_code);
            let (read, r) = OffsetCommitResponsePartition::read(f, Reader::on(w.bytes + rest));
            !w.failed() ==> {
                &&& r == Reader::on(rest)
                &&& x@ == read ==> {
                    &&& x.partition_index == partition_index
                    &&& x.error_code == ErrorCode::of(error_code)
                }
            }
        }),
{
    let w0 = Writer::at(Seq::empty());
    let w1 = w0.i32(partition_index);
    let w2 = w1.i16(error_code);
    if !w2.failed() {
        let total = w2.bytes + rest;
        assert(total.take(w2.bytes.len() as int) =~= w2.bytes);
        assert(total.skip(w2.bytes.len() as int) =~= rest);
        law_i16_round_trip(w1, error_code, total);
        law_i32_round_trip(w0, partition_index, total);
        assert(total.skip(0) =~= total);
    }
}

/// How a [`OffsetCommitResponseTopic`] is laid out.
#[verifier::rlimit(60)]
pub proof fn law_offset_commit_response_topic_layout(
    x: OffsetCommitResponseTopic,
    f: Format,
    name: Option<Seq<char>>,
    partitions: Seq<OffsetCommitResponsePartition>,
    partitions_bytes: Seq<Seq<u8>>,
    rest: Seq<u8>,
)
    requires
        elements::<OffsetCommitResponsePartition>(f, partitions_bytes, partitions),
    ensures
        ({
            let w = Writer::at(Seq::empty());
            let w = w.nullable_string(name, f.flexible);
            let w = w.array_len(partitions_bytes.len(), f.flexible).raw(partitions_bytes.flatten());
            let (read, r) = OffsetCommitResponseTopic::read(f, Reader::on(w.bytes + rest));
            !w.failed() ==> {
                &&& r == Reader::on(rest)
                &&& x@ == read ==> {
                    &&& x.name@ == or_empty(name)
                    &&& views(x.partitions@) == partitions
                }
            }
        }),
{
    let w0 = Writer::at(Seq::empty());
    let w1 = w0.nullable_string(name, f.flexible);
    let w2 = w1.array_len(partitions_bytes.len(), f.flexible).raw(partitions_bytes.flatten());
    if !w2.failed() {
        let total = w2.bytes + rest;
        assert(total.take(w2.bytes.len() as int) =~= w2.bytes);
        assert(total.skip(w2.bytes.len() as int) =~= rest);
        lemma_array_read::<OffsetCommitResponsePartition>(
            w1,
            f,
            partitions_bytes,
            partitions,
            total,
        );
        law_nullable_string_round_trip(w0, name, f.flexible, total);
        assert(total.skip(0) =~= total);
    }
}

/// How a [`OffsetCommitResponse`] is laid out in each version.
#[verifier::rlimit(60)]
pub proof fn law_offset_commit_response_layout(
    x: OffsetCommitResponse,
    version: i16,
    throttle_time_ms: i32,
    topics: Seq<OffsetCommitResponseTopicView>,
    topics_bytes: Seq<Seq<u8>>,
    rest: Seq<u8>,
)
    requires
        elements::<OffsetCommitResponseTopic>(
            OffsetCommitResponse::response_format(version),
            topics_bytes,
            topics,
        ),
    ensures
        OffsetCommitResponse::response_name() == "OffsetCommitResponse",
        OffsetCommitResponse::decodes(version) <==> (0 <= version <= 2),
        (0 <= version <= 2) ==> ({
            let f = OffsetCommitResponse::response_format(version);
            &&& f.flexible <==> false
        }),
        (0 <= version <= 2) ==> ({
            let w = Writer::at(Seq::empty());
            let w = if version >= 3 {
                w.i32(throttle_time_ms)
            } else {
                w
            };
            let w = w.array_len(topics_bytes.len(), false).raw(topics_bytes.flatten());
            let (read, r) = OffsetCommitResponse::read_versioned(
                version,
                Reader::on(w.bytes + rest),
            );
            !w.failed() ==> {
                &&& r == Reader::on(rest)
                &&& x@ == read ==> {
                    &&& x.throttle_time_ms == (if version >= 3 {
                        throttle_time_ms
                    } else {
                        0
                    })
                    &&& views(x.topics@) == topics
                }
            }
        }),
{
    if 0 <= version <= 2 {
        let f = OffsetCommitResponse::response_format(version);
        let w0 = Writer::at(Seq::empty());
        let w1 = if version >= 3 {
            w0.i32(throttle_time_ms)
        } else {
            w0
        };
        let w2 = w1.array_len(topics_bytes.len(), false).raw(topics_bytes.flatten());
        if !w2.failed() {
            let total = w2.bytes + rest;
            assert(total.take(w2.bytes.len() as int) =~= w2.bytes);
            assert(total.skip(w2.bytes.len() as int) =~= rest);
            lemma_array_read::<OffsetCommitResponseTopic>(w1, f, topics_bytes, topics, total);
            if version >= 3 {
                law_i32_round_trip(w0, throttle_time_ms, total);
            }
            assert(total.skip(0) =~= total);
        }
    }
}

/// How a [`ListOffsetsResponsePartition`] is laid out.
pub proof fn law_list_offsets_response_partition_layout(
    x: ListOffsetsResponsePartition,
    f: Format,
    partition_index: i32,
    error_code: i16,
    timestamp: i64,
    offset: i64,
    rest: Seq<u8>,
)
    ensures
        ({
            let w = Writer::at(Seq::empty());
            let w = w.i32(partition_index);
            let w = w.i16(error_code);
            let w = w.i64(timestamp);
            let w = w.i64(offset);
            let (read, r) = ListOffsetsResponsePartition::read(f, Reader::on(w.bytes + rest));
            !w.failed() ==> {
                &&& r == Reader::on(rest)
                &&& x@ == read ==> {
                    &&& x.partition_index == partition_index
                    &&& x.error_code == ErrorCode::of(error_code)
                    &&& x.timestamp == timestamp
                    &&& x.offset == offset
                }
            }
        }),
{
    let w0 = Writer::at(Seq::empty());
    let w1 = w0.i32(partition_index);
    let w2 = w1.i16(error_code);
    let w3 = w2.i64(timestamp);
    let w4 = w3.i64(offset);
    if !w4.failed() {
        let total = w4.bytes + rest;
        assert(total.take(w4.bytes.len() as int) =~= w4.bytes);
        assert(total.skip(w4.bytes.len() as int) =~= rest);
        law_i64_round_trip(w3, offset, total);
        law_i64_round_trip(w2, timestamp, total);
        law_i16_round_trip(w1, error_code, total);
        law_i32_round_trip(w0, partition_index, total);
        assert(total.skip(0) =~= total);
    }
}

/// How a [`ListOffsetsResponseTopic`] is laid out.
#[verifier::rlimit(60)]
pub proof fn law_list_offsets_response_topic_layout(
    x: ListOffsetsResponseTopic,
    f: Format,
    name: Option<Seq<char>>,
    partitions: Seq<ListOffsetsResponsePartition>,
    partitions_bytes: Seq<Seq<u8>>,
    rest: Seq<u8>,
)
    requires
        elements::<ListOffsetsResponsePartition>(
            Format::plain(f.version),
            partitions_bytes,
            partitions,
        ),
    ensures
        ({
            let w = Writer::at(Seq::empty());
            let w = w.nullable_string(name, false);
            let w = w.array_len(partitions_bytes.len(), false).raw(partitions_bytes.flatten());
            let (read, r) = ListOffsetsResponseTopic::read(f, Reader::on(w.bytes + rest));
            !w.failed() ==> {
                &&& r == Reader::on(rest)
                &&& x@ == read ==> {
                    &&& x.name@ == or_empty(name)
                    &&& views(x.partitions@) == partitions
                }
            }
        }),
{
    let w0 = Writer::at(Seq::empty());
    let w1 = w0.nullable_string(name, false);
    let w2 = w1.array_len(partitions_bytes.len(), false).raw(partitions_bytes.flatten());
    if !w2.failed() {
        let total = w2.bytes + rest;
        assert(total.take(w2.bytes.len() as int) =~= w2.bytes);
        assert(total.skip(w2.bytes.len() as int) =~= rest);
        lemma_array_read::<ListOffsetsResponsePartition>(
            w1,
            Format::plain(f.version),
            partitions_bytes,
            partitions,
            total,
        );
        law_nullable_string_round_trip(w0, name, false, total);
        assert(total.skip(0) =~= total);
        reveal(Writer::array_len);
    }
}

/// How a [`ListOffsetsResponse`] is laid out in each version.
#[verifier::rlimit(60)]
pub proof fn law_list_offsets_response_layout(
    x: ListOffsetsResponse,
    version: i16,
    skipped: i32,
    topics: Seq<ListOffsetsResponseTopicView>,
    topics_bytes: Seq<Seq<u8>>,
    rest: Seq<u8>,
)
    requires
        elements::<ListOffsetsResponseTopic>(
            ListOffsetsResponse::response_format(version),
            topics_bytes,
            topics,
        ),
    ensures
        ListOffsetsResponse::response_name() == "ListOffsetsResponse",
        ListOffsetsResponse::decodes(version) <==> (1 <= version <= 2),
        (1 <= version <= 2) ==> ({
            let f = ListOffsetsResponse::response_format(version);
            &&& f.flexible <==> false
        }),
        (1 <= version <= 2) ==> ({
            let w = Writer::at(Seq::empty());
            let w = if version >= 2 {
                w.i32(skipped)
            } else {
                w
            };
            let w = w.array_len(topics_bytes.len(), false).raw(topics_bytes.flatten());
            let (read, r) = ListOffsetsResponse::read_versioned(
                version,
                Reader::on(w.bytes + rest),
            );
            !w.failed() ==> {
                &&& r == Reader::on(rest)
                &&& x@ == read ==> {
                    &&& views(x.topics@) == topics
                }
            }
        }),
{
    if 1 <= version <= 2 {
        let f = ListOffsetsResponse::response_format(version);
        let w0 = Writer::at(Seq::empty());
        let w1 = if version >= 2 {
            w0.i32(skipped)
        } else {
            w0
        };
        let w2 = w1.array_len(topics_bytes.len(), false).raw(topics_bytes.flatten());
        if !w2.failed() {
            let total = w2.bytes + rest;
            assert(total.take(w2.bytes.len() as int) =~= w2.bytes);
            assert(total.skip(w2.bytes.len() as int) =~= rest);
            lemma_array_read::<ListOffsetsResponseTopic>(
                w1,
                Format::plain(f.version),
                topics_bytes,
                topics,
                total,
            );
            if version >= 2 {
                law_i32_round_trip(w0, skipped, total);
            }
            assert(total.skip(0) =~= total);
            reveal(Writer::array_len);
        }
    }
}

/// How a [`OffsetFetchResponsePartition`] is laid out.
pub proof fn law_offset_fetch_response_partition_layout(
    x: OffsetFetchResponsePartition,
    f: Format,
    partition_index: i32,
    committed_offset: i64,
    metadata: Option<Seq<char>>,
    error_code: i16,
    rest: Seq<u8>,
)
    ensures
        ({
            let w = Writer::at(Seq::empty());
            let w = w.i32(partition_index);
            let w = w.i64(committed_offset);
            let w = w.nullable_string(metadata, f.flexible);
            let w = w.i16(error_code);
            let (read, r) = OffsetFetchResponsePartition::read(f, Reader::on(w.bytes + rest));
            !w.failed() ==> {
                &&& r == Reader::on(rest)
                &&& x@ == read ==> {
                    &&& x.partition_index == partition_index
                    &&& x.committed_offset == committed_offset
                    &&& x.committed_leader_epoch == (-1) as i32
                    &&& optional_text(x.metadata) == metadata
                    &&& x.error_code == ErrorCode::of(error_code)
                }
            }
        }),
{
    let w0 = Writer::at(Seq::empty());
    let w1 = w0.i32(partition_index);
    let w2 = w1.i64(committed_offset);
    let w3 = w2.nullable_string(metadata, f.flexible);
    let w4 = w3.i16(error_code);
    if !w4.failed() {
        let total = w4.bytes + rest;
        assert(total.take(w4.bytes.len() as int) =~= w4.bytes);
        assert(total.skip(w4.bytes.len() as int) =~= rest);
        law_i16_round_trip(w3, error_code, total);
        law_nullable_string_round_trip(w2, metadata, f.flexible, total);
        law_i64_round_trip(w1, committed_offset, total);
        law_i32_round_trip(w0, partition_index, total);
        assert(total.skip(0) =~= total);
    }
}

/// How a [`OffsetFetchResponseTopic`] is laid out.
#[verifier::rlimit(60)]
pub proof fn law_offset_fetch_response_topic_layout(
    x: OffsetFetchResponseTopic,
    f: Format,
    name: Option<Seq<char>>,
    partitions: Seq<OffsetFetchResponsePartitionView>,
    partitions_bytes: Seq<Seq<u8>>,
    rest: Seq<u8>,
)
    requires
        elements::<OffsetFetchResponsePartition>(f, partitions_bytes, partitions),
    ensures
        ({
            let w = Writer::at(Seq::empty());
            let w = w.nullable_string(name, f.flexible);
            let w = w.array_len(partitions_bytes.len(), f.flexible).raw(partitions_bytes.flatten());
            let (read, r) = OffsetFetchResponseTopic::read(f, Reader::on(w.bytes + rest));
            !w.failed() ==> {
                &&& r == Reader::on(rest)
                &&& x@ == read ==> {
                    &&& x.name@ == or_empty(name)
                    &&& views(x.partitions@) == partitions
                }
            }
        }),
{
    let w0 = Writer::at(Seq::empty());
    let w1 = w0.nullable_string(name, f.flexible);
    let w2 = w1.array_len(partitions_bytes.len(), f.flexible).raw(partitions_bytes.flatten());
    if !w2.failed() {
        let total = w2.bytes + rest;
        assert(total.take(w2.bytes.len() as int) =~= w2.bytes);
        assert(total.skip(w2.bytes.len() as int) =~= rest);
        lemma_array_read::<OffsetFetchResponsePartition>(
            w1,
            f,
            partitions_bytes,
            partitions,
            total,
        );
        law_nullable_string_round_trip(w0, name, f.flexible, total);
        assert(total.skip(0) =~= total);
    }
}

/// How a [`OffsetFetchResponse`] is laid out in each version.
#[verifier::rlimit(60)]
pub proof fn law_offset_fetch_response_layout(
    x: OffsetFetchResponse,
    version: i16,
    throttle_time_ms: i32,
    topics: Seq<OffsetFetchResponseTopicView>,
    topics_bytes: Seq<Seq<u8>>,
    error_code: i16,
    rest: Seq<u8>,
)
    requires
        elements::<OffsetFetchResponseTopic>(
            OffsetFetchResponse::response_format(version),
            topics_bytes,
            topics,
        ),
    ensures
        OffsetFetchResponse::response_name() == "OffsetFetchResponse",
        OffsetFetchResponse::decodes(version) <==> (0 <= version <= 1),
        (0 <= version <= 1) ==> ({
            let f = OffsetFetchResponse::response_format(version);
            &&& f.flexible <==> false
        }),
        (0 <= version <= 1) ==> ({
            let w = Writer::at(Seq::empty());
            let w = if version >= 3 {
                w.i32(throttle_time_ms)
            } else {
                w
            };
            let w = w.array_len(topics_bytes.len(), false).raw(topics_bytes.flatten());
            let w = if version >= 2 {
                w.i16(error_code)
            } else {
                w
            };
            let (read, r) = OffsetFetchResponse::read_versioned(
                version,
                Reader::on(w.bytes + rest),
            );
            !w.failed() ==> {
                &&& r == Reader::on(rest)
                &&& x@ == read ==> {
                    &&& x.throttle_time_ms == (if version >= 3 {
                        throttle_time_ms
                    } else {
                        0
                    })
                    &&& views(x.topics@) == topics
                    &&& x.error_code == (if version >= 2 {
                        ErrorCode::of(error_code)
                    } else {
                        ErrorCode::NoError
                    })
                }
            }
        }),
{
    if 0 <= version <= 1 {
        let f = OffsetFetchResponse::response_format(version);
        let w0 = Writer::at(Seq::empty());
        let w1 = if version >= 3 {
            w0.i32(throttle_time_ms)
        } else {
            w0
        };
        let w2 = w1.array_len(topics_bytes.len(), false).raw(topics_bytes.flatten());
        let w3 = if version >= 2 {
            w2.i16(error_code)
        } else {
            w2
        };
        if !w3.failed() {
            let total = w3.bytes + rest;
            assert(total.take(w3.bytes.len() as int) =~= w3.bytes);
            assert(total.skip(w3.bytes.len() as int) =~= rest);
            if version >= 2 {
                law_i16_round_trip(w2, error_code, total);
            }
            lemma_array_read::<OffsetFetchResponseTopic>(w1, f, topics_bytes, topics, total);
            if version >= 3 {
                law_i32_round_trip(w0, throttle_time_ms, total);
            }
            assert(total.skip(0) =~= total);
        }
    }
}

/// How a [`OffsetForLeaderEpochPartitionResult`] is laid out.
pub proof fn law_offset_for_leader_epoch_partition_result_layout(
    x: OffsetForLeaderEpochPartitionResult,
    f: Format,
    error_code: i16,
    partition: i32,
    leader_epoch: i32,
    end_offset: i64,
    rest: Seq<u8>,
)
    ensures
        ({
            let w = Writer::at(Seq::empty());
            let w = w.i16(error_code);
            let w = w.i32(partition);
            let w = if f.version >= 1 {
                w.i32(leader_epoch)
            } else {
                w
            };
            let w = w.i64(end_offset);
            let (read, r) = OffsetForLeaderEpochPartitionResult::read(
                f,
                Reader::on(w.bytes + rest),
            );
            !w.failed() ==> {
                &&& r == Reader::on(rest)
                &&& x@ == read ==> {
                    &&& x.error_code == ErrorCode::of(error_code)
                    &&& x.partition == partition
                    &&& x.leader_epoch == (if f.version >= 1 {
                        leader_epoch
                    } else {
                        (-1) as i32
                    })
                    &&& x.end_offset == end_offset
                }
            }
        }),
{
    let w0 = Writer::at(Seq::empty());
    let w1 = w0.i16(error_code);
    let w2 = w1.i32(partition);
    let w3 = if f.version >= 1 {
        w2.i32(leader_epoch)
    } else {
        w2
    };
    let w4 = w3.i64(end_offset);
    if !w4.failed() {
        let total = w4.bytes + rest;
        assert(total.take(w4.bytes.len() as int) =~= w4.bytes);
        assert(total.skip(w4.bytes.len() as int) =~= rest);
        law_i64_round_trip(w3, end_offset, total);
        if f.version >= 1 {
            law_i32_round_trip(w2, leader_epoch, total);
        }
        law_i32_round_trip(w1, partition, total);
        law_i16_round_trip(w0, error_code, total);
        assert(total.skip(0) =~= total);
    }
}

/// How a [`OffsetForLeaderEpochTopicResult`] is laid out.
#[verifier::rlimit(60)]
pub proof fn law_offset_for_leader_epoch_topic_result_layout(
    x: OffsetForLeaderEpochTopicResult,
    f: Format,
    topic: Option<Seq<char>>,
    partitions: Seq<OffsetForLeaderEpochPartitionResult>,
    partitions_bytes: Seq<Seq<u8>>,
    rest: Seq<u8>,
)
    requires
        elements::<OffsetForLeaderEpochPartitionResult>(f, partitions_bytes, partitions),
    ensures
        ({
            let w = Writer::at(Seq::empty());
            let w = w.nullable_string(topic, f.flexible);
            let w = w.array_len(partitions_bytes.len(), f.flexible).raw(partitions_bytes.flatten());
            let (read, r) = OffsetForLeaderEpochTopicResult::read(f, Reader::on(w.bytes + rest));
            !w.failed() ==> {
                &&& r == Reader::on(rest)
                &&& x@ == read ==> {
                    &&& x.topic@ == or_empty(topic)
                    &&& views(x.partitions@) == partitions
                }
            }
        }),
{
    let w0 = Writer::at(Seq::empty());
    let w1 = w0.nullable_string(topic, f.flexible);
    let w2 = w1.array_len(partitions_bytes.len(), f.flexible).raw(partitions_bytes.flatten());
    if !w2.failed() {
        let total = w2.bytes + rest;
        assert(total.take(w2.bytes.len() as int) =~= w2.bytes);
        assert(total.skip(w2.bytes.len() as int) =~= rest);
        lemma_array_read::<OffsetForLeaderEpochPartitionResult>(
            w1,
            f,
            partitions_bytes,
            partitions,
            total,
        );
        law_nullable_string_round_trip(w0, topic, f.flexible, total);
        assert(total.skip(0) =~= total);
    }
}

/// How a [`OffsetForLeaderEpochResponse`] is laid out in each version.
#[verifier::rlimit(60)]
pub proof fn law_offset_for_leader_epoch_response_layout(
    x: OffsetForLeaderEpochResponse,
    version: i16,
    throttle_time_ms: i32,
    topics: Seq<OffsetForLeaderEpochTopicResultView>,
    topics_bytes: Seq<Seq<u8>>,
    rest: Seq<u8>,
)
    requires
        elements::<OffsetForLeaderEpochTopicResult>(
            OffsetForLeaderEpochResponse::response_format(version),
            topics_bytes,
            topics,
        ),
    ensures
        OffsetForLeaderEpochResponse::response_name() == "OffsetForLeaderEpochResponse",
        OffsetForLeaderEpochResponse::decodes(version) <==> (0 <= version <= 3),
        (0 <= version <= 3) ==> ({
            let f = OffsetForLeaderEpochResponse::response_format(version);
            &&& f.flexible <==> false
            &&& (f.version >= 1) <==> (version >= 1)
        }),
        (0 <= version <= 3) ==> ({
            let w = Writer::at(Seq::empty());
            let w = if version >= 2 {
                w.i32(throttle_time_ms)
            } else {
                w
            };
            let w = w.array_len(topics_bytes.len(), false).raw(topics_bytes.flatten());
            let (read, r) = OffsetForLeaderEpochResponse::read_versioned(
                version,
                Reader::on(w.bytes + rest),
            );
            !w.failed() ==> {
                &&& r == Reader::on(rest)
                &&& x@ == read ==> {
                    &&& x.throttle_time_ms == (if version >= 2 {
                        throttle_time_ms
                    } else {
                        0
                    })
                    &&& views(x.topics@) == topics
                }
            }
        }),
{
    if 0 <= version <= 3 {
        let f = OffsetForLeaderEpochResponse::response_format(version);
        let w0 = Writer::at(Seq::empty());
        let w1 = if version >= 2 {
            w0.i32(throttle_time_ms)
        } else {
            w0
        };
        let w2 = w1.array_len(topics_bytes.len(), false).raw(topics_bytes.flatten());
        if !w2.failed() {
            let total = w2.bytes + rest;
            assert(total.take(w2.bytes.len() as int) =~= w2.bytes);
            assert(total.skip(w2.bytes.len() as int) =~= rest);
            lemma_array_read::<OffsetForLeaderEpochTopicResult>(w1, f, topics_bytes, topics, total);
            if version >= 2 {
                law_i32_round_trip(w0, throttle_time_ms, total);
            }
            assert(total.skip(0) =~= total);
        }
    }
}

} // verus!
