//! Layouts of what [`crate::protocol::messages::metadata`] holds.

use crate::buffer::Octets;
use crate::error::ErrorCode;
use crate::protocol::layouts::{
    count_fits, elements, law_null_array_round_trip, lemma_array_stands, lemma_array_written,
    lemma_optional_array_read, lemma_optional_numbers_read, lemma_text_written,
    lemma_views_of_numbers, or_empty, past, stands, text_fits,
};
use crate::protocol::messages::metadata::{
    all_named, nameless_topic, MetadataBroker, MetadataBrokerView, MetadataPartitionResponse,
    MetadataPartitionResponseView, MetadataRequest, MetadataRequestTopic, MetadataResponse,
    MetadataTopicResponse, MetadataTopicResponseView,
};
use crate::protocol::messages::{VersionedDecode, VersionedEncode};
use crate::protocol::round_trip::{
    begins, behind, law_array_len_round_trip, law_bool_round_trip, law_i16_round_trip,
    law_i32_round_trip, law_nullable_string_round_trip,
};
use crate::protocol::wire::{
    optional_id, optional_text, views, Format, Reader, WireDecode, WireEncode, Writer,
};
use vstd::prelude::*;

verus! {

/// How a [`MetadataPartitionResponse`] is laid out.
#[verifier::rlimit(60)]
pub proof fn law_metadata_partition_response_layout(
    x: MetadataPartitionResponse,
    f: Format,
    error_code: i16,
    partition_index: i32,
    leader_id: i32,
    leader_epoch: i32,
    replica_nodes: Option<Seq<i32>>,
    isr_nodes: Option<Seq<i32>>,
    offline_replicas: Option<Seq<i32>>,
    rest: Seq<u8>,
)
    ensures
        ({
            let w = Writer::at(Seq::empty());
            let w = w.i16(error_code);
            let w = w.i32(partition_index);
            let w = w.i32(leader_id);
            let w = if f.version >= 7 {
                w.i32(leader_epoch)
            } else {
                w
            };
            let w = (match replica_nodes {
                Some(items) => w.array(items, f),
                None => w.null_array(f.flexible),
            });
            let w = (match isr_nodes {
                Some(items) => w.array(items, f),
                None => w.null_array(f.flexible),
            });
            let w = if f.version >= 5 {
                (match offline_replicas {
                Some(items) => w.array(items, f),
                None => w.null_array(f.flexible),
            })
            } else {
                w
            };
            let (read, r) = MetadataPartitionResponse::read(f, Reader::on(w.bytes + rest));
            !w.failed() ==> {
                &&& r == Reader::on(rest)
                &&& x@ == read ==> {
                    &&& x.error_code == ErrorCode::of(error_code)
                    &&& x.partition_index == partition_index
                    &&& x.leader_id == leader_id
                    &&& x.leader_epoch == (if f.version >= 7 {
                        leader_epoch
                    } else {
                        (-1) as i32
                    })
                    &&& x.replica_nodes@ == or_empty(replica_nodes)
                    &&& x.isr_nodes@ == or_empty(isr_nodes)
                    &&& x.offline_replicas@ == (if f.version >= 5 {
                        or_empty(offline_replicas)
                    } else {
                        Seq::empty()
                    })
                }
            }
        }),
{
    let w0 = Writer::at(Seq::empty());
    let w1 = w0.i16(error_code);
    let w2 = w1.i32(partition_index);
    let w3 = w2.i32(leader_id);
    let w4 = if f.version >= 7 {
        w3.i32(leader_epoch)
    } else {
        w3
    };
    let w5 = (match replica_nodes {
        Some(items) => w4.array(items, f),
        None => w4.null_array(f.flexible),
    });
    let w6 = (match isr_nodes {
        Some(items) => w5.array(items, f),
        None => w5.null_array(f.flexible),
    });
    let w7 = if f.version >= 5 {
        (match offline_replicas {
        Some(items) => w6.array(items, f),
        None => w6.null_array(f.flexible),
    })
    } else {
        w6
    };
    if !w7.failed() {
        let total = w7.bytes + rest;
        assert(total.take(w7.bytes.len() as int) =~= w7.bytes);
        assert(total.skip(w7.bytes.len() as int) =~= rest);
        if f.version >= 5 {
            lemma_optional_numbers_read(w6, f, offline_replicas, total);
        }
        lemma_optional_numbers_read(w5, f, isr_nodes, total);
        lemma_optional_numbers_read(w4, f, replica_nodes, total);
        if f.version >= 7 {
            law_i32_round_trip(w3, leader_epoch, total);
        }
        law_i32_round_trip(w2, leader_id, total);
        law_i32_round_trip(w1, partition_index, total);
        law_i16_round_trip(w0, error_code, total);
        assert(total.skip(0) =~= total);
        lemma_views_of_numbers(x.replica_nodes@);
        lemma_views_of_numbers(x.isr_nodes@);
        lemma_views_of_numbers(x.offline_replicas@);
    }
}

/// How a [`MetadataTopicResponse`] is laid out.
#[verifier::rlimit(60)]
pub proof fn law_metadata_topic_response_layout(
    x: MetadataTopicResponse,
    f: Format,
    error_code: i16,
    name: Option<Seq<char>>,
    is_internal: bool,
    partitions: Seq<MetadataPartitionResponseView>,
    partitions_bytes: Option<Seq<Seq<u8>>>,
    skipped: i32,
    rest: Seq<u8>,
)
    requires
        partitions_bytes matches Some(pieces)
            ==> elements::<MetadataPartitionResponse>(f, pieces, partitions),
    ensures
        ({
            let w = Writer::at(Seq::empty());
            let w = w.i16(error_code);
            let w = w.nullable_string(name, f.flexible);
            let w = if f.version >= 1 {
                w.bool(is_internal)
            } else {
                w
            };
            let w = (match partitions_bytes {
                Some(pieces) => w.array_len(pieces.len(), f.flexible).raw(pieces.flatten()),
                None => w.null_array(f.flexible),
            });
            let w = if f.version >= 8 {
                w.i32(skipped)
            } else {
                w
            };
            let (read, r) = MetadataTopicResponse::read(f, Reader::on(w.bytes + rest));
            !w.failed() ==> {
                &&& r == Reader::on(rest)
                &&& x@ == read ==> {
                    &&& x.error_code == ErrorCode::of(error_code)
                    &&& optional_text(x.name) == name
                    &&& optional_id(x.topic_id) == None::<Seq<u8>>
                    &&& x.is_internal == (if f.version >= 1 {
                        is_internal
                    } else {
                        false
                    })
                    &&& views(x.partitions@) == (if partitions_bytes is Some {
                        partitions
                    } else {
                        Seq::empty()
                    })
                }
            }
        }),
{
    let w0 = Writer::at(Seq::empty());
    let w1 = w0.i16(error_code);
    let w2 = w1.nullable_string(name, f.flexible);
    let w3 = if f.version >= 1 {
        w2.bool(is_internal)
    } else {
        w2
    };
    let w4 = (match partitions_bytes {
        Some(pieces) => w3.array_len(pieces.len(), f.flexible).raw(pieces.flatten()),
        None => w3.null_array(f.flexible),
    });
    let w5 = if f.version >= 8 {
        w4.i32(skipped)
    } else {
        w4
    };
    if !w5.failed() {
        let total = w5.bytes + rest;
        assert(total.take(w5.bytes.len() as int) =~= w5.bytes);
        assert(total.skip(w5.bytes.len() as int) =~= rest);
        if f.version >= 8 {
            law_i32_round_trip(w4, skipped, total);
        }
        lemma_optional_array_read::<MetadataPartitionResponse>(
            w3,
            f,
            partitions_bytes,
            partitions,
            total,
        );
        if f.version >= 1 {
            law_bool_round_trip(w2, is_internal, total);
        }
        law_nullable_string_round_trip(w1, name, f.flexible, total);
        law_i16_round_trip(w0, error_code, total);
        assert(total.skip(0) =~= total);
    }
}

/// How a [`MetadataBroker`] is laid out.
pub proof fn law_metadata_broker_layout(
    x: MetadataBroker,
    f: Format,
    node_id: i32,
    host: Option<Seq<char>>,
    port: i32,
    rack: Option<Seq<char>>,
    rest: Seq<u8>,
)
    ensures
        ({
            let w = Writer::at(Seq::empty());
            let w = w.i32(node_id);
            let w = w.nullable_string(host, f.flexible);
            let w = w.i32(port);
            let w = if f.version >= 1 {
                w.nullable_string(rack, f.flexible)
            } else {
                w
            };
            let (read, r) = MetadataBroker::read(f, Reader::on(w.bytes + rest));
            !w.failed() ==> {
                &&& r == Reader::on(rest)
                &&& x@ == read ==> {
                    &&& x.node_id == node_id
                    &&& x.host@ == or_empty(host)
                    &&& x.port == port
                    &&& optional_text(x.rack) == (if f.version >= 1 {
                        rack
                    } else {
                        None
                    })
                }
            }
        }),
{
    let w0 = Writer::at(Seq::empty());
    let w1 = w0.i32(node_id);
    let w2 = w1.nullable_string(host, f.flexible);
    let w3 = w2.i32(port);
    let w4 = if f.version >= 1 {
        w3.nullable_string(rack, f.flexible)
    } else {
        w3
    };
    if !w4.failed() {
        let total = w4.bytes + rest;
        assert(total.take(w4.bytes.len() as int) =~= w4.bytes);
        assert(total.skip(w4.bytes.len() as int) =~= rest);
        if f.version >= 1 {
            law_nullable_string_round_trip(w3, rack, f.flexible, total);
        }
        law_i32_round_trip(w2, port, total);
        law_nullable_string_round_trip(w1, host, f.flexible, total);
        law_i32_round_trip(w0, node_id, total);
        assert(total.skip(0) =~= total);
    }
}

/// How a [`MetadataResponse`] is laid out in each version.
#[verifier::rlimit(60)]
pub proof fn law_metadata_response_layout(
    x: MetadataResponse,
    version: i16,
    throttle_time_ms: i32,
    brokers: Seq<MetadataBrokerView>,
    brokers_bytes: Option<Seq<Seq<u8>>>,
    cluster_id: Option<Seq<char>>,
    controller_id: i32,
    topics: Seq<MetadataTopicResponseView>,
    topics_bytes: Option<Seq<Seq<u8>>>,
    skipped: i32,
    rest: Seq<u8>,
)
    requires
        brokers_bytes matches Some(pieces)
            ==> elements::<MetadataBroker>(
                MetadataResponse::response_format(version),
                pieces,
                brokers,
            ),
        topics_bytes matches Some(pieces)
            ==> elements::<MetadataTopicResponse>(
                MetadataResponse::response_format(version),
                pieces,
                topics,
            ),
    ensures
        MetadataResponse::response_name() == "MetadataResponse",
        MetadataResponse::decodes(version) <==> (0 <= version <= 8),
        (0 <= version <= 8) ==> ({
            let f = MetadataResponse::response_format(version);
            &&& f.flexible <==> false
            &&& (f.version >= 1) <==> (version >= 1)
            &&& (f.version >= 5) <==> (version >= 5)
            &&& (f.version >= 7) <==> (version >= 7)
            &&& (f.version >= 8) <==> (version >= 8)
        }),
        (0 <= version <= 8) ==> ({
            let w = Writer::at(Seq::empty());
            let w = if version >= 3 {
                w.i32(throttle_time_ms)
            } else {
                w
            };
            let w = (match brokers_bytes {
                Some(pieces) => w.array_len(pieces.len(), false).raw(pieces.flatten()),
                None => w.null_array(false),
            });
            let w = if version >= 2 {
                w.nullable_string(cluster_id, false)
            } else {
                w
            };
            let w = if version >= 1 {
                w.i32(controller_id)
            } else {
                w
            };
            let w = (match topics_bytes {
                Some(pieces) => w.array_len(pieces.len(), false).raw(pieces.flatten()),
                None => w.null_array(false),
            });
            let w = if version >= 8 {
                w.i32(skipped)
            } else {
                w
            };
            let (read, r) = MetadataResponse::read_versioned(version, Reader::on(w.bytes + rest));
            !w.failed() ==> {
                &&& r == Reader::on(rest)
                &&& x@ == read ==> {
                    &&& x.throttle_time_ms == (if version >= 3 {
                        throttle_time_ms
                    } else {
                        0
                    })
                    &&& views(x.brokers@) == (if brokers_bytes is Some {
                        brokers
                    } else {
                        Seq::empty()
                    })
                    &&& optional_text(x.cluster_id) == (if version >= 2 {
                        cluster_id
                    } else {
                        None
                    })
                    &&& x.controller_id == (if version >= 1 {
                        controller_id
                    } else {
                        (-1) as i32
                    })
                    &&& views(x.topics@) == (if topics_bytes is Some {
                        topics
                    } else {
                        Seq::empty()
                    })
                }
            }
        }),
{
    if 0 <= version <= 8 {
        let f = MetadataResponse::response_format(version);
        let w0 = Writer::at(Seq::empty());
        let w1 = if version >= 3 {
            w0.i32(throttle_time_ms)
        } else {
            w0
        };
        let w2 = (match brokers_bytes {
            Some(pieces) => w1.array_len(pieces.len(), false).raw(pieces.flatten()),
            None => w1.null_array(false),
        });
        let w3 = if version >= 2 {
            w2.nullable_string(cluster_id, false)
        } else {
            w2
        };
        let w4 = if version >= 1 {
            w3.i32(controller_id)
        } else {
            w3
        };
        let w5 = (match topics_bytes {
            Some(pieces) => w4.array_len(pieces.len(), false).raw(pieces.flatten()),
            None => w4.null_array(false),
        });
        let w6 = if version >= 8 {
            w5.i32(skipped)
        } else {
            w5
        };
        if !w6.failed() {
            let total = w6.bytes + rest;
            assert(total.take(w6.bytes.len() as int) =~= w6.bytes);
            assert(total.skip(w6.bytes.len() as int) =~= rest);
            if version >= 8 {
                law_i32_round_trip(w5, skipped, total);
            }
            lemma_optional_array_read::<MetadataTopicResponse>(w4, f, topics_bytes, topics, total);
            if version >= 1 {
                law_i32_round_trip(w3, controller_id, total);
            }
            if version >= 2 {
                law_nullable_string_round_trip(w2, cluster_id, false, total);
            }
            lemma_optional_array_read::<MetadataBroker>(w1, f, brokers_bytes, brokers, total);
            if version >= 3 {
                law_i32_round_trip(w0, throttle_time_ms, total);
            }
            assert(total.skip(0) =~= total);
        }
    }
}

/// How a [`MetadataRequestTopic`] is laid out: its name, without which it is refused.
pub proof fn law_metadata_request_topic_layout(
    x: MetadataRequestTopic,
    f: Format,
    w: Writer,
    total: Seq<u8>,
)
    requires
        !w.failed(),
    ensures
        x.name is None ==> x.written(f, w).failed() && x.written(f, w).bytes == w.bytes,
        (x.name matches Some(name) && text_fits(name@, f.flexible)) ==> !x.written(f, w).failed(),
        begins(total, x.written(f, w)) ==> ({
            let r = behind(total, w);
            let (name, r) = r.nullable_string(f.flexible);
            &&& name is Some
            &&& name == optional_text(x.name)
            &&& r == behind(total, x.written(f, w))
        }),
{
    if let Some(name) = x.name {
        lemma_text_written(w, Some(name@), f.flexible);
        if begins(total, w.string(name@, f.flexible)) {
            law_nullable_string_round_trip(w, Some(name@), f.flexible, total);
        }
    }
}

/// How a [`MetadataRequest`] is laid out in each version. All topics are asked for by
/// an empty array in version 0 and by a missing one later. A topic without a name is
/// refused before anything is written.
pub proof fn law_metadata_request_layout(
    x: MetadataRequest,
    version: i16,
    w: Writer,
    total: Seq<u8>,
)
    requires
        !w.failed(),
    ensures
        MetadataRequest::request_name() == "MetadataRequest",
        MetadataRequest::encodes(version) <==> (0 <= version <= 8),
        (0 <= version <= 8) ==> !MetadataRequest::request_format(version).flexible,
        (0 <= version <= 8) ==> (x.topics matches Some(topics) && exists|i: int|
            0 <= i < topics@.len() && (#[trigger] topics@[i]).name is None) ==> {
            &&& x.written_versioned(version, w).failed()
            &&& x.written_versioned(version, w).bytes == w.bytes
        },
        (0 <= version <= 8) ==> (x.topics matches Some(topics) ==> {
            &&& count_fits(topics@.len(), false)
            &&& forall|i: int|
                0 <= i < topics@.len() ==> ((#[trigger] topics@[i]).name matches Some(name)
                    && text_fits(name@, false))
        }) ==> !x.written_versioned(version, w).failed(),
        (0 <= version <= 8) ==> begins(total, x.written_versioned(version, w)) ==> ({
            let f = MetadataRequest::request_format(version);
            let r = behind(total, w);
            let (topics_count, r) = r.optional_array_len(false);
            let topics_start = r;
            let r = match x.topics {
                Some(topics) => past(total, r, topics@, f),
                None => r,
            };
            let (allow_auto_topic_creation, r) = if version >= 4 {
                let (v, r) = r.bool();
                (Some(v), r)
            } else {
                (None, r)
            };
            let (include_cluster, r) = if version >= 8 {
                let (v, r) = r.bool();
                (Some(v), r)
            } else {
                (None, r)
            };
            let (include_topics, r) = if version >= 8 {
                let (v, r) = r.bool();
                (Some(v), r)
            } else {
                (None, r)
            };
            &&& topics_count == (match x.topics {
                Some(topics) => Some(topics@.len()),
                None => if version == 0 {
                    Some(0)
                } else {
                    None
                },
            })
            &&& x.topics matches Some(topics) ==> stands(total, topics_start, topics@, f)
            &&& version >= 4 ==> allow_auto_topic_creation == Some(x.allow_auto_topic_creation)
            &&& version >= 8 ==> include_cluster == Some(false) && include_topics == Some(false)
            &&& r == behind(total, x.written_versioned(version, w))
        }),
{
    if 0 <= version <= 8 {
        let f = MetadataRequest::request_format(version);
        let w1 = match x.topics {
            None => if version == 0 {
                w.array_len(0, false)
            } else {
                w.null_array(false)
            },
            Some(topics) => if all_named(topics@) {
                w.array(topics@, f)
            } else {
                w.raise(nameless_topic())
            },
        };
        let w2 = if version >= 4 {
            w1.bool(x.allow_auto_topic_creation)
        } else {
            w1
        };
        let w3 = if version >= 8 {
            w2.bool(false)
        } else {
            w2
        };
        let w4 = if version >= 8 {
            w3.bool(false)
        } else {
            w3
        };
        assert(x.written_versioned(version, w) == w4);
        reveal(Writer::array_len);
        if let Some(topics) = x.topics {
            if forall|i: int|
                0 <= i < topics@.len() ==> ((#[trigger] topics@[i]).name matches Some(name)
                    && text_fits(name@, false)) {
                assert forall|i: int, w: Writer| 0 <= i < topics@.len() && !w.failed() implies !(
                #[trigger] topics@[i].written(f, w)).failed() by {
                    law_metadata_request_topic_layout(topics@[i], f, w, total);
                }
            }
            lemma_array_written(w, topics@, f);
        }
        if begins(total, w4) {
            if version >= 8 {
                law_bool_round_trip(w3, false, total);
                law_bool_round_trip(w2, false, total);
            }
            if version >= 4 {
                law_bool_round_trip(w1, x.allow_auto_topic_creation, total);
            }
            match x.topics {
                None => {
                    if version == 0 {
                        law_array_len_round_trip(w, 0, false, total);
                    } else {
                        law_null_array_round_trip(w, false, total);
                    }
                },
                Some(topics) => {
                    lemma_array_stands(w, topics@, f, total);
                },
            }
        }
    }
}

} // verus!
