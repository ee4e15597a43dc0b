//! Layouts of what [`crate::protocol::messages::produce_fetch`] holds.

use crate::buffer::{optional_bytes, Octets};
use crate::error::ErrorCode;
use crate::protocol::layouts::{
    count_fits, elements, law_numbers_are_writable, law_numbers_round_trip, lemma_array_read,
    lemma_array_stands, lemma_array_written, lemma_bytes_written, lemma_optional_array_read,
    lemma_text_written, optional_text_fits, or_empty, past, stands, text_fits, writable,
};
use crate::protocol::messages::produce_fetch::{
    AbortedTransaction, FetchForgottenTopic, FetchPartitionRequest, FetchPartitionResponse,
    FetchPartitionResponseView, FetchRequest, FetchResponse, FetchTopicRequest, FetchTopicResponse,
    FetchTopicResponseView, ProducePartitionData, ProducePartitionResponse, ProduceRequest,
    ProduceResponse, ProduceTopicData, ProduceTopicResponse, ProduceTopicResponseView,
};
use crate::protocol::messages::{VersionedDecode, VersionedEncode};
use crate::protocol::round_trip::{
    begins, behind, law_i16_round_trip, law_i32_round_trip, law_i64_round_trip, law_i8_round_trip,
    law_nullable_bytes_round_trip, law_nullable_string_round_trip,
};
use crate::protocol::wire::{optional_text, views, Format, Reader, WireDecode, WireEncode, Writer};
use vstd::prelude::*;

verus! {

/// How a [`ProducePartitionData`] is laid out.
pub proof fn law_produce_partition_data_layout(
    x: ProducePartitionData,
    f: Format,
    w: Writer,
    total: Seq<u8>,
)
    requires
        !w.failed(),
    ensures
        (count_fits(x.records@.len(), f.flexible)) ==> !x.written(f, w).failed(),
        begins(total, x.written(f, w)) ==> ({
            let r = behind(total, w);
            let (index, r) = r.i32();
            let (records, r) = r.nullable_bytes(f.flexible);
            &&& index == x.index
            &&& records == Some(x.records@)
            &&& r == behind(total, x.written(f, w))
        }),
{
    let w0 = w;
    let w1 = w0.i32(x.index);
    let w2 = w1.bytes(x.records@, f.flexible);
    lemma_bytes_written(w1, Some(x.records@), f.flexible);
    if begins(total, w2) {
        law_nullable_bytes_round_trip(w1, Some(x.records@), f.flexible, total);
        law_i32_round_trip(w0, x.index, total);
    }
}

/// How a [`ProduceTopicData`] is laid out.
pub proof fn law_produce_topic_data_layout(
    x: ProduceTopicData,
    f: Format,
    w: Writer,
    total: Seq<u8>,
)
    requires
        !w.failed(),
    ensures
        ({
            &&& text_fits(x.name@, f.flexible)
            &&& count_fits(x.partition_data@.len(), f.flexible) && writable(x.partition_data@, f)
        }) ==> !x.written(f, w).failed(),
        begins(total, x.written(f, w)) ==> ({
            let r = behind(total, w);
            let (name, r) = r.nullable_string(f.flexible);
            let (partition_data_count, r) = r.array_len(f.flexible);
            let partition_data_start = r;
            let r = past(total, r, x.partition_data@, f);
            &&& name == Some(x.name@)
            &&& partition_data_count == x.partition_data@.len()
            &&& stands(total, partition_data_start, x.partition_data@, f)
            &&& r == behind(total, x.written(f, w))
        }),
{
    let w0 = w;
    let w1 = w0.string(x.name@, f.flexible);
    let w2 = w1.array(x.partition_data@, f);
    lemma_text_written(w0, Some(x.name@), f.flexible);
    lemma_array_written(w1, x.partition_data@, f);
    if begins(total, w2) {
        lemma_array_stands(w1, x.partition_data@, f, total);
        law_nullable_string_round_trip(w0, Some(x.name@), f.flexible, total);
    }
}

/// How a [`ProduceRequest`] is laid out in each version.
pub proof fn law_produce_request_layout(x: ProduceRequest, version: i16, w: Writer, total: Seq<u8>)
    requires
        !w.failed(),
    ensures
        ProduceRequest::request_name() == "ProduceRequest",
        ProduceRequest::encodes(version) <==> (0 <= version <= 3),
        (0 <= version <= 3) ==> ({
            let f = ProduceRequest::request_format(version);
            &&& f.flexible <==> false
        }),
        (0 <= version <= 3) ==> ({
            let f = ProduceRequest::request_format(version);
            &&& version >= 3 ==> optional_text_fits(optional_text(x.transactional_id), false)
            &&& count_fits(x.topic_data@.len(), false) && writable(x.topic_data@, f)
        }) ==> !x.written_versioned(version, w).failed(),
        (0 <= version <= 3) ==> begins(total, x.written_versioned(version, w)) ==> ({
            let f = ProduceRequest::request_format(version);
            let r = behind(total, w);
            let (transactional_id, r) = if version >= 3 {
                let (v, r) = r.nullable_string(false);
                (Some(v), r)
            } else {
                (None, r)
            };
            let (acks, r) = r.i16();
            let (timeout_ms, r) = r.i32();
            let (topic_data_count, r) = r.array_len(false);
            let topic_data_start = r;
            let r = past(total, r, x.topic_data@, f);
            &&& transactional_id == (if version >= 3 {
                Some(optional_text(x.transactional_id))
            } else {
                None
            })
            &&& acks == x.acks
            &&& timeout_ms == x.timeout_ms
            &&& topic_data_count == x.topic_data@.len()
            &&& stands(total, topic_data_start, x.topic_data@, f)
            &&& r == behind(total, x.written_versioned(version, w))
        }),
{
    if 0 <= version <= 3 {
        let f = ProduceRequest::request_format(version);
        let w0 = w;
        let w1 = if version >= 3 {
            w0.nullable_string(optional_text(x.transactional_id), false)
        } else {
            w0
        };
        let w2 = w1.i16(x.acks);
        let w3 = w2.i32(x.timeout_ms);
        let w4 = w3.array(x.topic_data@, f);
        lemma_text_written(w0, optional_text(x.transactional_id), false);
        lemma_array_written(w3, x.topic_data@, f);
        if begins(total, w4) {
            lemma_array_stands(w3, x.topic_data@, f, total);
            law_i32_round_trip(w2, x.timeout_ms, total);
            law_i16_round_trip(w1, x.acks, total);
            if version >= 3 {
                law_nullable_string_round_trip(w0, optional_text(x.transactional_id), false, total);
            }
        }
        assert(x.written_versioned(version, w) == w4);
    }
}

/// How a [`FetchPartitionRequest`] is laid out.
pub proof fn law_fetch_partition_request_layout(
    x: FetchPartitionRequest,
    f: Format,
    w: Writer,
    total: Seq<u8>,
)
    requires
        !w.failed(),
    ensures
        !x.written(f, w).failed(),
        begins(total, x.written(f, w)) ==> ({
            let r = behind(total, w);
            let (partition, r) = r.i32();
            let (current_leader_epoch, r) = if f.version >= 9 {
                let (v, r) = r.i32();
                (Some(v), r)
            } else {
                (None, r)
            };
            let (fetch_offset, r) = r.i64();
            let (log_start_offset, r) = if f.version >= 7 {
                let (v, r) = r.i64();
                (Some(v), r)
            } else {
                (None, r)
            };
            let (partition_max_bytes, r) = r.i32();
            &&& partition == x.partition
            &&& current_leader_epoch == (if f.version >= 9 {
                Some(x.current_leader_epoch)
            } else {
                None
            })
            &&& fetch_offset == x.fetch_offset
            &&& log_start_offset == (if f.version >= 7 {
                Some(x.log_start_offset)
            } else {
                None
            })
            &&& partition_max_bytes == x.partition_max_bytes
            &&& r == behind(total, x.written(f, w))
        }),
{
    let w0 = w;
    let w1 = w0.i32(x.partition);
    let w2 = if f.version >= 9 {
        w1.i32(x.current_leader_epoch)
    } else {
        w1
    };
    let w3 = w2.i64(x.fetch_offset);
    let w4 = if f.version >= 7 {
        w3.i64(x.log_start_offset)
    } else {
        w3
    };
    let w5 = w4.i32(x.partition_max_bytes);
    if begins(total, w5) {
        law_i32_round_trip(w4, x.partition_max_bytes, total);
        if f.version >= 7 {
            law_i64_round_trip(w3, x.log_start_offset, total);
        }
        law_i64_round_trip(w2, x.fetch_offset, total);
        if f.version >= 9 {
            law_i32_round_trip(w1, x.current_leader_epoch, total);
        }
        law_i32_round_trip(w0, x.partition, total);
    }
}

/// How a [`FetchTopicRequest`] is laid out.
pub proof fn law_fetch_topic_request_layout(
    x: FetchTopicRequest,
    f: Format,
    w: Writer,
    total: Seq<u8>,
)
    requires
        !w.failed(),
    ensures
        ({
            &&& text_fits(x.topic@, f.flexible)
            &&& count_fits(x.partitions@.len(), f.flexible) && writable(x.partitions@, f)
        }) ==> !x.written(f, w).failed(),
        begins(total, x.written(f, w)) ==> ({
            let r = behind(total, w);
            let (topic, r) = r.nullable_string(f.flexible);
            let (partitions_count, r) = r.array_len(f.flexible);
            let partitions_start = r;
            let r = past(total, r, x.partitions@, f);
            &&& topic == Some(x.topic@)
            &&& partitions_count == x.partitions@.len()
            &&& stands(total, partitions_start, x.partitions@, f)
            &&& r == behind(total, x.written(f, w))
        }),
{
    let w0 = w;
    let w1 = w0.string(x.topic@, f.flexible);
    let w2 = w1.array(x.partitions@, f);
    lemma_text_written(w0, Some(x.topic@), f.flexible);
    lemma_array_written(w1, x.partitions@, f);
    if begins(total, w2) {
        lemma_array_stands(w1, x.partitions@, f, total);
        law_nullable_string_round_trip(w0, Some(x.topic@), f.flexible, total);
    }
}

/// How a [`FetchForgottenTopic`] is laid out.
pub proof fn law_fetch_forgotten_topic_layout(
    x: FetchForgottenTopic,
    f: Format,
    w: Writer,
    total: Seq<u8>,
)
    requires
        !w.failed(),
    ensures
        ({
            &&& text_fits(x.topic@, f.flexible)
            &&& count_fits(x.partitions@.len(), f.flexible)
        }) ==> !x.written(f, w).failed(),
        begins(total, x.written(f, w)) ==> ({
            let r = behind(total, w);
            let (topic, r) = r.nullable_string(f.flexible);
            let (partitions, r) = r.array::<i32>(f);
            &&& topic == Some(x.topic@)
            &&& partitions == x.partitions@
            &&& r == behind(total, x.written(f, w))
        }),
{
    let w0 = w;
    let w1 = w0.string(x.topic@, f.flexible);
    let w2 = w1.array(x.partitions@, f);
    lemma_text_written(w0, Some(x.topic@), f.flexible);
    law_numbers_are_writable(x.partitions@, f);
    lemma_array_written(w1, x.partitions@, f);
    if begins(total, w2) {
        law_numbers_round_trip(w1, x.partitions@, f, total);
        law_nullable_string_round_trip(w0, Some(x.topic@), f.flexible, total);
    }
}

/// How a [`FetchRequest`] is laid out in each version.
pub proof fn law_fetch_request_layout(x: FetchRequest, version: i16, w: Writer, total: Seq<u8>)
    requires
        !w.failed(),
    ensures
        FetchRequest::request_name() == "FetchRequest",
        FetchRequest::encodes(version) <==> (0 <= version <= 4 || 7 <= version <= 11),
        (0 <= version <= 4 || 7 <= version <= 11) ==> ({
            let f = FetchRequest::request_format(version);
            &&& f.flexible <==> false
            &&& (f.version >= 7) <==> (version >= 7)
            &&& (f.version >= 9) <==> (version >= 9)
        }),
        (0 <= version <= 4 || 7 <= version <= 11) ==> ({
            let f = FetchRequest::request_format(version);
            &&& count_fits(x.topics@.len(), false) && writable(x.topics@, f)
            &&& version >= 7 ==>
                count_fits(x.forgotten_topics@.len(), false) && writable(x.forgotten_topics@, f)
            &&& version >= 11 ==> text_fits(x.rack_id@, false)
        }) ==> !x.written_versioned(version, w).failed(),
        (0 <= version <= 4 || 7 <= version <= 11)
            ==> begins(total, x.written_versioned(version, w)) ==> ({
            let f = FetchRequest::request_format(version);
            let r = behind(total, w);
            let (replica_id, r) = r.i32();
            let (max_wait_ms, r) = r.i32();
            let (min_bytes, r) = r.i32();
            let (max_bytes, r) = if version >= 3 {
                let (v, r) = r.i32();
                (Some(v), r)
            } else {
                (None, r)
            };
            let (isolation_level, r) = if version >= 4 {
                let (v, r) = r.i8();
                (Some(v), r)
            } else {
                (None, r)
            };
            let (session_id, r) = if version >= 7 {
                let (v, r) = r.i32();
                (Some(v), r)
            } else {
                (None, r)
            };
            let (session_epoch, r) = if version >= 7 {
                let (v, r) = r.i32();
                (Some(v), r)
            } else {
                (None, r)
            };
            let (topics_count, r) = r.array_len(false);
            let topics_start = r;
            let r = past(total, r, x.topics@, f);
            let (forgotten_topics_count, r) = if version >= 7 {
                let (n, r) = r.array_len(false);
                (Some(n), r)
            } else {
                (None, r)
            };
            let forgotten_topics_start = r;
            let r = if version >= 7 {
                past(total, r, x.forgotten_topics@, f)
            } else {
                r
            };
            let (rack_id, r) = if version >= 11 {
                let (v, r) = r.nullable_string(false);
                (Some(v), r)
            } else {
                (None, r)
            };
            &&& replica_id == x.replica_id
            &&& max_wait_ms == x.max_wait_ms
            &&& min_bytes == x.min_bytes
            &&& max_bytes == (if version >= 3 {
                Some(x.max_bytes)
            } else {
                None
            })
            &&& isolation_level == (if version >= 4 {
                Some(x.isolation_level)
            } else {
                None
            })
            &&& session_id == (if version >= 7 {
                Some(x.session_id)
            } else {
                None
            })
            &&& session_epoch == (if version >= 7 {
                Some(x.session_epoch)
            } else {
                None
            })
            &&& topics_count == x.topics@.len()
            &&& stands(total, topics_start, x.topics@, f)
            &&& forgotten_topics_count == (if version >= 7 {
                Some(x.forgotten_topics@.len())
            } else {
                None
            })
            &&& version >= 7 ==> stands(total, forgotten_topics_start, x.forgotten_topics@, f)
            &&& rack_id == (if version >= 11 {
                Some(Some(x.rack_id@))
            } else {
                None
            })
            &&& r == behind(total, x.written_versioned(version, w))
        }),
{
    if 0 <= version <= 4 || 7 <= version <= 11 {
        let f = FetchRequest::request_format(version);
        let w0 = w;
        let w1 = w0.i32(x.replica_id);
        let w2 = w1.i32(x.max_wait_ms);
        let w3 = w2.i32(x.min_bytes);
        let w4 = if version >= 3 {
            w3.i32(x.max_bytes)
        } else {
            w3
        };
        let w5 = if version >= 4 {
            w4.i8(x.isolation_level)
        } else {
            w4
        };
        let w6 = if version >= 7 {
            w5.i32(x.session_id)
        } else {
            w5
        };
        let w7 = if version >= 7 {
            w6.i32(x.session_epoch)
        } else {
            w6
        };
        let w8 = w7.array(x.topics@, f);
        let w9 = if version >= 7 {
            w8.array(x.forgotten_topics@, f)
        } else {
            w8
        };
        let w10 = if version >= 11 {
            w9.string(x.rack_id@, false)
        } else {
            w9
        };
        lemma_array_written(w7, x.topics@, f);
        lemma_array_written(w8, x.forgotten_topics@, f);
        lemma_text_written(w9, Some(x.rack_id@), false);
        if begins(total, w10) {
            if version >= 11 {
                law_nullable_string_round_trip(w9, Some(x.rack_id@), false, total);
            }
            if version >= 7 {
                lemma_array_stands(w8, x.forgotten_topics@, f, total);
            }
            lemma_array_stands(w7, x.topics@, f, total);
            if version >= 7 {
                law_i32_round_trip(w6, x.session_epoch, total);
            }
            if version >= 7 {
                law_i32_round_trip(w5, x.session_id, total);
            }
            if version >= 4 {
                law_i8_round_trip(w4, x.isolation_level, total);
            }
            if version >= 3 {
                law_i32_round_trip(w3, x.max_bytes, total);
            }
            law_i32_round_trip(w2, x.min_bytes, total);
            law_i32_round_trip(w1, x.max_wait_ms, total);
            law_i32_round_trip(w0, x.replica_id, total);
        }
        assert(x.written_versioned(version, w) == w10);
    }
}

/// How a [`ProducePartitionResponse`] is laid out.
pub proof fn law_produce_partition_response_layout(
    x: ProducePartitionResponse,
    f: Format,
    index: i32,
    error_code: i16,
    base_offset: i64,
    log_append_time_ms: i64,
    rest: Seq<u8>,
)
    ensures
        ({
            let w = Writer::at(Seq::empty());
            let w = w.i32(index);
            let w = w.i16(error_code);
            let w = w.i64(base_offset);
            let w = if f.version >= 2 {
                w.i64(log_append_time_ms)
            } else {
                w
            };
            let (read, r) = ProducePartitionResponse::read(f, Reader::on(w.bytes + rest));
            !w.failed() ==> {
                &&& r == Reader::on(rest)
                &&& x@ == read ==> {
                    &&& x.index == index
                    &&& x.error_code == ErrorCode::of(error_code)
                    &&& x.base_offset == base_offset
                    &&& x.log_append_time_ms == (if f.version >= 2 {
                        log_append_time_ms
                    } else {
                        (-1) as i64
                    })
                    &&& x.log_start_offset == (-1) as i64
                }
            }
        }),
{
    let w0 = Writer::at(Seq::empty());
    let w1 = w0.i32(index);
    let w2 = w1.i16(error_code);
    let w3 = w2.i64(base_offset);
    let w4 = if f.version >= 2 {
        w3.i64(log_append_time_ms)
    } else {
        w3
    };
    if !w4.failed() {
        let total = w4.bytes + rest;
        assert(total.take(w4.bytes.len() as int) =~= w4.bytes);
        assert(total.skip(w4.bytes.len() as int) =~= rest);
        if f.version >= 2 {
            law_i64_round_trip(w3, log_append_time_ms, total);
        }
        law_i64_round_trip(w2, base_offset, total);
        law_i16_round_trip(w1, error_code, total);
        law_i32_round_trip(w0, index, total);
        assert(total.skip(0) =~= total);
    }
}

/// How a [`ProduceTopicResponse`] is laid out.
#[verifier::rlimit(60)]
pub proof fn law_produce_topic_response_layout(
    x: ProduceTopicResponse,
    f: Format,
    name: Option<Seq<char>>,
    partition_responses: Seq<ProducePartitionResponse>,
    partition_responses_bytes: Seq<Seq<u8>>,
    rest: Seq<u8>,
)
    requires
        elements::<ProducePartitionResponse>(f, partition_responses_bytes, partition_responses),
    ensures
        ({
            let w = Writer::at(Seq::empty());
            let w = w.nullable_string(name, f.flexible);
            let w = w.array_len(partition_responses_bytes.len(), f.flexible).raw(
                partition_responses_bytes.flatten(),
            );
            let (read, r) = ProduceTopicResponse::read(f, Reader::on(w.bytes + rest));
            !w.failed() ==> {
                &&& r == Reader::on(rest)
                &&& x@ == read ==> {
                    &&& x.name@ == or_empty(name)
                    &&& views(x.partition_responses@) == partition_responses
                }
            }
        }),
{
    let w0 = Writer::at(Seq::empty());
    let w1 = w0.nullable_string(name, f.flexible);
    let w2 = w1.array_len(partition_responses_bytes.len(), f.flexible).raw(
        partition_responses_bytes.flatten(),
    );
    if !w2.failed() {
        let total = w2.bytes + rest;
        assert(total.take(w2.bytes.len() as int) =~= w2.bytes);
        assert(total.skip(w2.bytes.len() as int) =~= rest);
        lemma_array_read::<ProducePartitionResponse>(
            w1,
            f,
            partition_responses_bytes,
            partition_responses,
            total,
        );
        law_nullable_string_round_trip(w0, name, f.flexible, total);
        assert(total.skip(0) =~= total);
    }
}

/// How a [`ProduceResponse`] is laid out in each version.
#[verifier::rlimit(60)]
pub proof fn law_produce_response_layout(
    x: ProduceResponse,
    version: i16,
    responses: Seq<ProduceTopicResponseView>,
    responses_bytes: Seq<Seq<u8>>,
    throttle_time_ms: i32,
    rest: Seq<u8>,
)
    requires
        elements::<ProduceTopicResponse>(
            ProduceResponse::response_format(version),
            responses_bytes,
            responses,
        ),
    ensures
        ProduceResponse::response_name() == "ProduceResponse",
        ProduceResponse::decodes(version) <==> (0 <= version <= 3),
        (0 <= version <= 3) ==> ({
            let f = ProduceResponse::response_format(version);
            &&& f.flexible <==> false
            &&& (f.version >= 2) <==> (version >= 2)
        }),
        (0 <= version <= 3) ==> ({
            let w = Writer::at(Seq::empty());
            let w = w.array_len(responses_bytes.len(), false).raw(responses_bytes.flatten());
            let w = if version >= 1 {
                w.i32(throttle_time_ms)
            } else {
                w
            };
            let (read, r) = ProduceResponse::read_versioned(version, Reader::on(w.bytes + rest));
            !w.failed() ==> {
                &&& r == Reader::on(rest)
                &&& x@ == read ==> {
                    &&& views(x.responses@) == responses
                    &&& x.throttle_time_ms == (if version >= 1 {
                        throttle_time_ms
                    } else {
                        0
                    })
                }
            }
        }),
{
    if 0 <= version <= 3 {
        let f = ProduceResponse::response_format(version);
        let w0 = Writer::at(Seq::empty());
        let w1 = w0.array_len(responses_bytes.len(), false).raw(responses_bytes.flatten());
        let w2 = if version >= 1 {
            w1.i32(throttle_time_ms)
        } else {
            w1
        };
        if !w2.failed() {
            let total = w2.bytes + rest;
            assert(total.take(w2.bytes.len() as int) =~= w2.bytes);
            assert(total.skip(w2.bytes.len() as int) =~= rest);
            if version >= 1 {
                law_i32_round_trip(w1, throttle_time_ms, total);
            }
            lemma_array_read::<ProduceTopicResponse>(w0, f, responses_bytes, responses, total);
            assert(total.skip(0) =~= total);
        }
    }
}

/// How a [`AbortedTransaction`] is laid out.
pub proof fn law_aborted_transaction_layout(
    x: AbortedTransaction,
    f: Format,
    producer_id: i64,
    first_offset: i64,
    rest: Seq<u8>,
)
    ensures
        ({
            let w = Writer::at(Seq::empty());
            let w = w.i64(producer_id);
            let w = w.i64(first_offset);
            let (read, r) = AbortedTransaction::read(f, Reader::on(w.bytes + rest));
            !w.failed() ==> {
                &&& r == Reader::on(rest)
                &&& x@ == read ==> {
                    &&& x.producer_id == producer_id
                    &&& x.first_offset == first_offset
                }
            }
        }),
{
    let w0 = Writer::at(Seq::empty());
    let w1 = w0.i64(producer_id);
    let w2 = w1.i64(first_offset);
    if !w2.failed() {
        let total = w2.bytes + rest;
        assert(total.take(w2.bytes.len() as int) =~= w2.bytes);
        assert(total.skip(w2.bytes.len() as int) =~= rest);
        law_i64_round_trip(w1, first_offset, total);
        law_i64_round_trip(w0, producer_id, total);
        assert(total.skip(0) =~= total);
    }
}

/// How a [`FetchPartitionResponse`] is laid out.
#[verifier::rlimit(60)]
pub proof fn law_fetch_partition_response_layout(
    x: FetchPartitionResponse,
    f: Format,
    partition: i32,
    error_code: i16,
    high_watermark: i64,
    last_stable_offset: i64,
    log_start_offset: i64,
    aborted_transactions: Seq<AbortedTransaction>,
    aborted_transactions_bytes: Option<Seq<Seq<u8>>>,
    preferred_read_replica: i32,
    records: Option<Seq<u8>>,
    rest: Seq<u8>,
)
    requires
        aborted_transactions_bytes matches Some(pieces)
            ==> elements::<AbortedTransaction>(f, pieces, aborted_transactions),
    ensures
        ({
            let w = Writer::at(Seq::empty());
            let w = w.i32(partition);
            let w = w.i16(error_code);
            let w = w.i64(high_watermark);
            let w = if f.version >= 4 {
                w.i64(last_stable_offset)
            } else {
                w
            };
            let w = if f.version >= 7 {
                w.i64(log_start_offset)
            } else {
                w
            };
            let w = if f.version >= 4 {
                (match aborted_transactions_bytes {
                Some(pieces) => w.array_len(pieces.len(), f.flexible).raw(pieces.flatten()),
                None => w.null_array(f.flexible),
            })
            } else {
                w
            };
            let w = if f.version >= 11 {
                w.i32(preferred_read_replica)
            } else {
                w
            };
            let w = w.nullable_bytes(records, f.flexible);
            let (read, r) = FetchPartitionResponse::read(f, Reader::on(w.bytes + rest));
            !w.failed() ==> {
                &&& r == Reader::on(rest)
                &&& x@ == read ==> {
                    &&& x.partition == partition
                    &&& x.error_code == ErrorCode::of(error_code)
                    &&& x.high_watermark == high_watermark
                    &&& x.last_stable_offset == (if f.version >= 4 {
                        last_stable_offset
                    } else {
                        (-1) as i64
                    })
                    &&& x.log_start_offset == (if f.version >= 7 {
                        log_start_offset
                    } else {
                        (-1) as i64
                    })
                    &&& views(x.aborted_transactions@) == (if f.version >= 4 {
                        if aborted_transactions_bytes is Some {
                            aborted_transactions
                        } else {
                            Seq::empty()
                        }
                    } else {
                        Seq::empty()
                    })
                    &&& x.preferred_read_replica == (if f.version >= 11 {
                        preferred_read_replica
                    } else {
                        (-1) as i32
                    })
                    &&& optional_bytes(x.records) == records
                }
            }
        }),
{
    let w0 = Writer::at(Seq::empty());
    let w1 = w0.i32(partition);
    let w2 = w1.i16(error_code);
    let w3 = w2.i64(high_watermark);
    let w4 = if f.version >= 4 {
        w3.i64(last_stable_offset)
    } else {
        w3
    };
    let w5 = if f.version >= 7 {
        w4.i64(log_start_offset)
    } else {
        w4
    };
    let w6 = if f.version >= 4 {
        (match aborted_transactions_bytes {
        Some(pieces) => w5.array_len(pieces.len(), f.flexible).raw(pieces.flatten()),
        None => w5.null_array(f.flexible),
    })
    } else {
        w5
    };
    let w7 = if f.version >= 11 {
        w6.i32(preferred_read_replica)
    } else {
        w6
    };
    let w8 = w7.nullable_bytes(records, f.flexible);
    if !w8.failed() {
        let total = w8.bytes + rest;
        assert(total.take(w8.bytes.len() as int) =~= w8.bytes);
        assert(total.skip(w8.bytes.len() as int) =~= rest);
        law_nullable_bytes_round_trip(w7, records, f.flexible, total);
        if f.version >= 11 {
            law_i32_round_trip(w6, preferred_read_replica, total);
        }
        if f.version >= 4 {
            lemma_optional_array_read::<AbortedTransaction>(
                w5,
                f,
                aborted_transactions_bytes,
                aborted_transactions,
                total,
            );
        }
        if f.version >= 7 {
            law_i64_round_trip(w4, log_start_offset, total);
        }
        if f.version >= 4 {
            law_i64_round_trip(w3, last_stable_offset, total);
        }
        law_i64_round_trip(w2, high_watermark, total);
        law_i16_round_trip(w1, error_code, total);
        law_i32_round_trip(w0, partition, total);
        assert(total.skip(0) =~= total);
    }
}

/// How a [`FetchTopicResponse`] is laid out.
#[verifier::rlimit(60)]
pub proof fn law_fetch_topic_response_layout(
    x: FetchTopicResponse,
    f: Format,
    topic: Option<Seq<char>>,
    partitions: Seq<FetchPartitionResponseView>,
    partitions_bytes: Seq<Seq<u8>>,
    rest: Seq<u8>,
)
    requires
        elements::<FetchPartitionResponse>(f, partitions_bytes, partitions),
    ensures
        ({
            let w = Writer::at(Seq::empty());
            let w = w.nullable_string(topic, f.flexible);
            let w = w.array_len(partitions_bytes.len(), f.flexible).raw(partitions_bytes.flatten());
            let (read, r) = FetchTopicResponse::read(f, Reader::on(w.bytes + rest));
            !w.failed() ==> {
                &&& r == Reader::on(rest)
                &&& x@ == read ==> {
                    &&& x.topic@ == or_empty(topic)
                    &&& views(x.partitions@) == partitions
                }
            }
        }),
{
    let w0 = Writer::at(Seq::empty());
    let w1 = w0.nullable_string(topic, f.flexible);
    let w2 = w1.array_len(partitions_bytes.len(), f.flexible).raw(partitions_bytes.flatten());
    if !w2.failed() {
        let total = w2.bytes + rest;
        assert(total.take(w2.bytes.len() as int) =~= w2.bytes);
        assert(total.skip(w2.bytes.len() as int) =~= rest);
        lemma_array_read::<FetchPartitionResponse>(w1, f, partitions_bytes, partitions, total);
        law_nullable_string_round_trip(w0, topic, f.flexible, total);
        assert(total.skip(0) =~= total);
    }
}

/// How a [`FetchResponse`] is laid out in each version.
#[verifier::rlimit(60)]
pub proof fn law_fetch_response_layout(
    x: FetchResponse,
    version: i16,
    throttle_time_ms: i32,
    error_code: i16,
    session_id: i32,
    responses: Seq<FetchTopicResponseView>,
    responses_bytes: Seq<Seq<u8>>,
    rest: Seq<u8>,
)
    requires
        elements::<FetchTopicResponse>(
            FetchResponse::response_format(version),
            responses_bytes,
            responses,
        ),
    ensures
        FetchResponse::response_name() == "FetchResponse",
        FetchResponse::decodes(version) <==> (0 <= version <= 4 || 7 <= version <= 11),
        (0 <= version <= 4 || 7 <= version <= 11) ==> ({
            let f = FetchResponse::response_format(version);
            &&& f.flexible <==> false
            &&& (f.version >= 4) <==> (version >= 4)
            &&& (f.version >= 7) <==> (version >= 7)
            &&& (f.version >= 11) <==> (version >= 11)
        }),
        (0 <= version <= 4 || 7 <= version <= 11) ==> ({
            let w = Writer::at(Seq::empty());
            let w = if version >= 1 {
                w.i32(throttle_time_ms)
            } else {
                w
            };
            let w = if version >= 7 {
                w.i16(error_code)
            } else {
                w
            };
            let w = if version >= 7 {
                w.i32(session_id)
            } else {
                w
            };
            let w = w.array_len(responses_bytes.len(), false).raw(responses_bytes.flatten());
            let (read, r) = FetchResponse::read_versioned(version, Reader::on(w.bytes + rest));
            !w.failed() ==> {
                &&& r == Reader::on(rest)
                &&& x@ == read ==> {
                    &&& x.throttle_time_ms == (if version >= 1 {
                        throttle_time_ms
                    } else {
                        0
                    })
                    &&& x.error_code == (if version >= 7 {
                        ErrorCode::of(error_code)
                    } else {
                        ErrorCode::NoError
                    })
                    &&& x.session_id == (if version >= 7 {
                        session_id
                    } else {
                        0
                    })
                    &&& views(x.responses@) == responses
                }
            }
        }),
{
    if 0 <= version <= 4 || 7 <= version <= 11 {
        let f = FetchResponse::response_format(version);
        let w0 = Writer::at(Seq::empty());
        let w1 = if version >= 1 {
            w0.i32(throttle_time_ms)
        } else {
            w0
        };
        let w2 = if version >= 7 {
            w1.i16(error_code)
        } else {
            w1
        };
        let w3 = if version >= 7 {
            w2.i32(session_id)
        } else {
            w2
        };
        let w4 = w3.array_len(responses_bytes.len(), false).raw(responses_bytes.flatten());
        if !w4.failed() {
            let total = w4.bytes + rest;
            assert(total.take(w4.bytes.len() as int) =~= w4.bytes);
            assert(total.skip(w4.bytes.len() as int) =~= rest);
            lemma_array_read::<FetchTopicResponse>(w3, f, responses_bytes, responses, total);
            if version >= 7 {
                law_i32_round_trip(w2, session_id, total);
            }
            if version >= 7 {
                law_i16_round_trip(w1, error_code, total);
            }
            if version >= 1 {
                law_i32_round_trip(w0, throttle_time_ms, total);
            }
            assert(total.skip(0) =~= total);
        }
    }
}

} // verus!
