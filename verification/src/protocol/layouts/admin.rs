//! Layouts of what [`crate::protocol::messages::admin`] holds.

use crate::buffer::Octets;
use crate::error::ErrorCode;
use crate::protocol::layouts::{
    count_fits, elements, is_tags, law_numbers_round_trip, law_texts_round_trip, lemma_array_read,
    lemma_array_written, lemma_one_read, lemma_tags_read, lemma_texts_named, lemma_views_of_numbers,
    writable,
};
use crate::protocol::messages::admin::{
    read_group_head, read_member_fields, ClientMetricsResource, ClientMetricsResourceView,
    ConsumerGroupDescribeGroup, ConsumerGroupDescribeGroupView, ConsumerGroupDescribeMember,
    ConsumerGroupDescribeMemberView, ConsumerGroupDescribeRequest, ConsumerGroupDescribeResponse,
    DeletableGroupResult, DeletableGroupResultView, DeleteGroupsRequest, DeleteGroupsResponse,
    DescribeClusterBroker, DescribeClusterBrokerView, DescribeClusterRequest,
    DescribeClusterResponse, DescribeGroupAssignment, DescribeGroupAssignmentView,
    DescribeGroupMember, DescribeGroupMemberView, DescribeGroupTopicPartition,
    DescribeGroupTopicPartitionView, DescribeGroupsRequest, DescribeGroupsResponse, DescribedGroup,
    DescribedGroupView, ListClientMetricsResourcesRequest, ListClientMetricsResourcesResponse,
    ListGroupsRequest, ListGroupsResponse, ListedGroup, ListedGroupView,
};
use crate::protocol::messages::{VersionedDecode, VersionedEncode};
use crate::protocol::round_trip::{
    begins, behind, law_bool_round_trip, law_i16_round_trip, law_i32_round_trip, law_i8_round_trip,
    law_nullable_bytes_round_trip, law_nullable_string_round_trip, law_raw_round_trip,
    law_varint_round_trip,
};
use crate::protocol::wire::{
    null_field, optional_text, views, Format, Reader, WireDecode, WireEncode, Writer,
};
use vstd::prelude::*;

verus! {

/// How a [`DeleteGroupsRequest`] is laid out in each version.
pub proof fn law_delete_groups_request_layout(
    x: DeleteGroupsRequest,
    version: i16,
    w: Writer,
    total: Seq<u8>,
)
    requires
        !w.failed(),
    ensures
        DeleteGroupsRequest::request_name() == "DeleteGroupsRequest",
        DeleteGroupsRequest::encodes(version) <==> (0 <= version <= 2),
        (0 <= version <= 2) ==> ({
            let f = DeleteGroupsRequest::request_format(version);
            &&& f.flexible <==> version >= 2
        }),
        (0 <= version <= 2) ==> ({
            let f = DeleteGroupsRequest::request_format(version);
            (count_fits(x.group_names@.len(), version >= 2) && writable(x.group_names@, f))
        }) ==> !x.written_versioned(version, w).failed(),
        (0 <= version <= 2) ==> begins(total, x.written_versioned(version, w)) ==> ({
            let r = behind(total, w);
            let (group_names, r) = r.string_array("", version >= 2);
            let tags = r;
            let r = r.tags(version >= 2);
            &&& group_names == views(x.group_names@)
            &&& version >= 2 ==> tags.tagged_fields().0.len() == 0
            &&& r == behind(total, x.written_versioned(version, w))
        }),
{
    if 0 <= version <= 2 {
        let f = DeleteGroupsRequest::request_format(version);
        let w0 = w;
        let w1 = w0.array(x.group_names@, f);
        let w2 = w1.tags(version >= 2);
        lemma_array_written(w0, x.group_names@, f);
        if begins(total, w2) {
            if version >= 2 {
                law_varint_round_trip(w1, 0, total);
            }
            law_texts_round_trip(w0, x.group_names@, f, total);
        }
        assert(x.written_versioned(version, w) == w2);
    }
}

/// How a [`DescribeClusterRequest`] is laid out in each version.
pub proof fn law_describe_cluster_request_layout(
    x: DescribeClusterRequest,
    version: i16,
    w: Writer,
    total: Seq<u8>,
)
    requires
        !w.failed(),
    ensures
        DescribeClusterRequest::request_name() == "DescribeClusterRequest",
        DescribeClusterRequest::encodes(version) <==> (0 <= version <= 2),
        (0 <= version <= 2) ==> ({
            let f = DescribeClusterRequest::request_format(version);
            &&& f.flexible <==> true
        }),
        (0 <= version <= 2) ==> !x.written_versioned(version, w).failed(),
        (0 <= version <= 2) ==> begins(total, x.written_versioned(version, w)) ==> ({
            let r = behind(total, w);
            let (include_cluster_authorized_operations, r) = r.bool();
            let (endpoint_type, r) = if version >= 1 {
                let (v, r) = r.i8();
                (Some(v), r)
            } else {
                (None, r)
            };
            let (include_fenced_brokers, r) = if version >= 2 {
                let (v, r) = r.bool();
                (Some(v), r)
            } else {
                (None, r)
            };
            let tags = r;
            let r = r.tags(true);
            &&& include_cluster_authorized_operations == x.include_cluster_authorized_operations
            &&& endpoint_type == (if version >= 1 {
                Some(x.endpoint_type)
            } else {
                None
            })
            &&& include_fenced_brokers == (if version >= 2 {
                Some(x.include_fenced_brokers)
            } else {
                None
            })
            &&& tags.tagged_fields().0.len() == 0
            &&& r == behind(total, x.written_versioned(version, w))
        }),
{
    if 0 <= version <= 2 {
        let f = DescribeClusterRequest::request_format(version);
        let w0 = w;
        let w1 = w0.bool(x.include_cluster_authorized_operations);
        let w2 = if version >= 1 {
            w1.i8(x.endpoint_type)
        } else {
            w1
        };
        let w3 = if version >= 2 {
            w2.bool(x.include_fenced_brokers)
        } else {
            w2
        };
        let w4 = w3.tags(true);
        if begins(total, w4) {
            law_varint_round_trip(w3, 0, total);
            if version >= 2 {
                law_bool_round_trip(w2, x.include_fenced_brokers, total);
            }
            if version >= 1 {
                law_i8_round_trip(w1, x.endpoint_type, total);
            }
            law_bool_round_trip(w0, x.include_cluster_authorized_operations, total);
        }
        assert(x.written_versioned(version, w) == w4);
    }
}

/// How a [`ConsumerGroupDescribeRequest`] is laid out in each version.
pub proof fn law_consumer_group_describe_request_layout(
    x: ConsumerGroupDescribeRequest,
    version: i16,
    w: Writer,
    total: Seq<u8>,
)
    requires
        !w.failed(),
    ensures
        ConsumerGroupDescribeRequest::request_name() == "ConsumerGroupDescribeRequest",
        ConsumerGroupDescribeRequest::encodes(version) <==> (0 <= version <= 1),
        (0 <= version <= 1) ==> ({
            let f = ConsumerGroupDescribeRequest::request_format(version);
            &&& f.flexible <==> true
        }),
        (0 <= version <= 1) ==> ({
            let f = ConsumerGroupDescribeRequest::request_format(version);
            (count_fits(x.group_ids@.len(), true) && writable(x.group_ids@, f))
        }) ==> !x.written_versioned(version, w).failed(),
        (0 <= version <= 1) ==> begins(total, x.written_versioned(version, w)) ==> ({
            let r = behind(total, w);
            let (group_ids, r) = r.string_array("", true);
            let (include_authorized_operations, r) = r.bool();
            let tags = r;
            let r = r.tags(true);
            &&& group_ids == views(x.group_ids@)
            &&& include_authorized_operations == x.include_authorized_operations
            &&& tags.tagged_fields().0.len() == 0
            &&& r == behind(total, x.written_versioned(version, w))
        }),
{
    if 0 <= version <= 1 {
        let f = ConsumerGroupDescribeRequest::request_format(version);
        let w0 = w;
        let w1 = w0.array(x.group_ids@, f);
        let w2 = w1.bool(x.include_authorized_operations);
        let w3 = w2.tags(true);
        lemma_array_written(w0, x.group_ids@, f);
        if begins(total, w3) {
            law_varint_round_trip(w2, 0, total);
            law_bool_round_trip(w1, x.include_authorized_operations, total);
            law_texts_round_trip(w0, x.group_ids@, f, total);
        }
        assert(x.written_versioned(version, w) == w3);
    }
}

/// How a [`ListClientMetricsResourcesRequest`] is laid out in each version.
pub proof fn law_list_client_metrics_resources_request_layout(
    x: ListClientMetricsResourcesRequest,
    version: i16,
    w: Writer,
    total: Seq<u8>,
)
    requires
        !w.failed(),
    ensures
        ListClientMetricsResourcesRequest::request_name() == "ListClientMetricsResourcesRequest",
        ListClientMetricsResourcesRequest::encodes(version) <==> (version == 0),
        (version == 0) ==> ({
            let f = ListClientMetricsResourcesRequest::request_format(version);
            &&& f.flexible <==> true
        }),
        (version == 0) ==> !x.written_versioned(version, w).failed(),
        (version == 0) ==> begins(total, x.written_versioned(version, w)) ==> ({
            let r = behind(total, w);
            let tags = r;
            let r = r.tags(true);
            &&& tags.tagged_fields().0.len() == 0
            &&& r == behind(total, x.written_versioned(version, w))
        }),
{
    if version == 0 {
        let f = ListClientMetricsResourcesRequest::request_format(version);
        let w0 = w;
        let w1 = w0.tags(true);
        if begins(total, w1) {
            law_varint_round_trip(w0, 0, total);
        }
        assert(x.written_versioned(version, w) == w1);
    }
}

/// How a [`DescribeGroupsRequest`] is laid out in each version.
pub proof fn law_describe_groups_request_layout(
    x: DescribeGroupsRequest,
    version: i16,
    w: Writer,
    total: Seq<u8>,
)
    requires
        !w.failed(),
    ensures
        DescribeGroupsRequest::request_name() == "DescribeGroupsRequest",
        DescribeGroupsRequest::encodes(version) <==> (1 <= version <= 6),
        (1 <= version <= 6) ==> ({
            let f = DescribeGroupsRequest::request_format(version);
            &&& f.flexible <==> version >= 5
        }),
        (1 <= version <= 6) ==> ({
            let f = DescribeGroupsRequest::request_format(version);
            (count_fits(x.groups@.len(), version >= 5) && writable(x.groups@, f))
        }) ==> !x.written_versioned(version, w).failed(),
        (1 <= version <= 6) ==> begins(total, x.written_versioned(version, w)) ==> ({
            let r = behind(total, w);
            let (groups, r) = r.string_array("", version >= 5);
            let (include_authorized_operations, r) = if version >= 3 {
                let (v, r) = r.bool();
                (Some(v), r)
            } else {
                (None, r)
            };
            let tags = r;
            let r = r.tags(version >= 5);
            &&& groups == views(x.groups@)
            &&& include_authorized_operations == (if version >= 3 {
                Some(x.include_authorized_operations)
            } else {
                None
            })
            &&& version >= 5 ==> tags.tagged_fields().0.len() == 0
            &&& r == behind(total, x.written_versioned(version, w))
        }),
{
    if 1 <= version <= 6 {
        let f = DescribeGroupsRequest::request_format(version);
        let w0 = w;
        let w1 = w0.bounded_array(x.groups@, "groups array too large", f);
        let w2 = if version >= 3 {
            w1.bool(x.include_authorized_operations)
        } else {
            w1
        };
        let w3 = w2.tags(version >= 5);
        lemma_array_written(w0, x.groups@, f);
        if begins(total, w3) {
            if version >= 5 {
                law_varint_round_trip(w2, 0, total);
            }
            if version >= 3 {
                law_bool_round_trip(w1, x.include_authorized_operations, total);
            }
            law_texts_round_trip(w0, x.groups@, f, total);
        }
        assert(x.written_versioned(version, w) == w3);
    }
}

/// How a [`ListGroupsRequest`] is laid out in each version.
pub proof fn law_list_groups_request_layout(
    x: ListGroupsRequest,
    version: i16,
    w: Writer,
    total: Seq<u8>,
)
    requires
        !w.failed(),
    ensures
        ListGroupsRequest::request_name() == "ListGroupsRequest",
        ListGroupsRequest::encodes(version) <==> (1 <= version <= 5),
        (1 <= version <= 5) ==> ({
            let f = ListGroupsRequest::request_format(version);
            &&& f.flexible <==> version >= 3
        }),
        (1 <= version <= 5) ==> ({
            let f = ListGroupsRequest::request_format(version);
            &&& version >= 4 ==>
                count_fits(x.states_filter@.len(), version >= 3) && writable(x.states_filter@, f)
            &&& version >= 5 ==>
                count_fits(x.types_filter@.len(), version >= 3) && writable(x.types_filter@, f)
        }) ==> !x.written_versioned(version, w).failed(),
        (1 <= version <= 5) ==> begins(total, x.written_versioned(version, w)) ==> ({
            let r = behind(total, w);
            let (states_filter, r) = if version >= 4 {
                let (v, r) = r.string_array("", version >= 3);
                (Some(v), r)
            } else {
                (None, r)
            };
            let (types_filter, r) = if version >= 5 {
                let (v, r) = r.string_array("", version >= 3);
                (Some(v), r)
            } else {
                (None, r)
            };
            let tags = r;
            let r = r.tags(version >= 3);
            &&& states_filter == (if version >= 4 {
                Some(views(x.states_filter@))
            } else {
                None
            })
            &&& types_filter == (if version >= 5 {
                Some(views(x.types_filter@))
            } else {
                None
            })
            &&& version >= 3 ==> tags.tagged_fields().0.len() == 0
            &&& r == behind(total, x.written_versioned(version, w))
        }),
{
    if 1 <= version <= 5 {
        let f = ListGroupsRequest::request_format(version);
        let w0 = w;
        let w1 = if version >= 4 {
            w0.bounded_array(x.states_filter@, "states_filter array too large", f)
        } else {
            w0
        };
        let w2 = if version >= 5 {
            w1.bounded_array(x.types_filter@, "types_filter array too large", f)
        } else {
            w1
        };
        let w3 = w2.tags(version >= 3);
        lemma_array_written(w0, x.states_filter@, f);
        lemma_array_written(w1, x.types_filter@, f);
        if begins(total, w3) {
            if version >= 3 {
                law_varint_round_trip(w2, 0, total);
            }
            if version >= 5 {
                law_texts_round_trip(w1, x.types_filter@, f, total);
            }
            if version >= 4 {
                law_texts_round_trip(w0, x.states_filter@, f, total);
            }
        }
        assert(x.written_versioned(version, w) == w3);
    }
}

/// How a [`DeletableGroupResult`] is laid out.
pub proof fn law_deletable_group_result_layout(
    x: DeletableGroupResult,
    f: Format,
    group_id: Seq<char>,
    error_code: i16,
    tags: Seq<u8>,
    rest: Seq<u8>,
)
    requires
        is_tags(tags),
    ensures
        ({
            let w = Writer::at(Seq::empty());
            let w = w.string(group_id, f.flexible);
            let w = w.i16(error_code);
            let w = if f.flexible {
                w.raw(tags)
            } else {
                w
            };
            let (read, r) = DeletableGroupResult::read(f, Reader::on(w.bytes + rest));
            !w.failed() ==> {
                &&& r == Reader::on(rest)
                &&& x@ == read ==> {
                    &&& x.group_id@ == group_id
                    &&& x.error_code == ErrorCode::of(error_code)
                }
            }
        }),
{
    let w0 = Writer::at(Seq::empty());
    let w1 = w0.string(group_id, f.flexible);
    let w2 = w1.i16(error_code);
    let w3 = if f.flexible {
        w2.raw(tags)
    } else {
        w2
    };
    if !w3.failed() {
        let total = w3.bytes + rest;
        assert(total.take(w3.bytes.len() as int) =~= w3.bytes);
        assert(total.skip(w3.bytes.len() as int) =~= rest);
        if f.flexible {
            law_raw_round_trip(w2, tags, total);
            lemma_tags_read(tags, behind(total, w3).rest);
        }
        law_i16_round_trip(w1, error_code, total);
        law_nullable_string_round_trip(w0, Some(group_id), f.flexible, total);
        assert(total.skip(0) =~= total);
    }
}

/// A [`DeletableGroupResult`] is refused where a field that it needs is null.
pub proof fn law_deletable_group_result_needs_its_fields(f: Format, start: Reader)
    ensures
        ({
            let r = start;
            let (group_id, r) = r.nullable_string(f.flexible);
            !r.failed() && group_id is None
                ==> DeletableGroupResult::read(f, start).1.failure == Some(null_field("group_id"))
        }),
{
}

/// How a [`DeleteGroupsResponse`] is laid out in each version.
#[verifier::rlimit(60)]
pub proof fn law_delete_groups_response_layout(
    x: DeleteGroupsResponse,
    version: i16,
    throttle_time_ms: i32,
    results: Seq<DeletableGroupResultView>,
    results_bytes: Seq<Seq<u8>>,
    tags: Seq<u8>,
    rest: Seq<u8>,
)
    requires
        elements::<DeletableGroupResult>(
            DeleteGroupsResponse::response_format(version),
            results_bytes,
            results,
        ),
        is_tags(tags),
    ensures
        DeleteGroupsResponse::response_name() == "DeleteGroupsResponse",
        DeleteGroupsResponse::decodes(version) <==> (0 <= version <= 2),
        (0 <= version <= 2) ==> ({
            let f = DeleteGroupsResponse::response_format(version);
            &&& f.flexible <==> version >= 2
        }),
        (0 <= version <= 2) ==> ({
            let w = Writer::at(Seq::empty());
            let w = w.i32(throttle_time_ms);
            let w = w.array_len(results_bytes.len(), version >= 2).raw(results_bytes.flatten());
            let w = if version >= 2 {
                w.raw(tags)
            } else {
                w
            };
            let (read, r) = DeleteGroupsResponse::read_versioned(
                version,
                Reader::on(w.bytes + rest),
            );
            !w.failed() ==> {
                &&& r == Reader::on(rest)
                &&& x@ == read ==> {
                    &&& x.throttle_time_ms == throttle_time_ms
                    &&& views(x.results@) == results
                }
            }
        }),
{
    if 0 <= version <= 2 {
        let f = DeleteGroupsResponse::response_format(version);
        let w0 = Writer::at(Seq::empty());
        let w1 = w0.i32(throttle_time_ms);
        let w2 = w1.array_len(results_bytes.len(), version >= 2).raw(results_bytes.flatten());
        let w3 = if version >= 2 {
            w2.raw(tags)
        } else {
            w2
        };
        if !w3.failed() {
            let total = w3.bytes + rest;
            assert(total.take(w3.bytes.len() as int) =~= w3.bytes);
            assert(total.skip(w3.bytes.len() as int) =~= rest);
            if version >= 2 {
                law_raw_round_trip(w2, tags, total);
                lemma_tags_read(tags, behind(total, w3).rest);
            }
            lemma_array_read::<DeletableGroupResult>(w1, f, results_bytes, results, total);
            law_i32_round_trip(w0, throttle_time_ms, total);
            assert(total.skip(0) =~= total);
        }
    }
}

/// How a [`DescribeClusterBroker`] is laid out.
pub proof fn law_describe_cluster_broker_layout(
    x: DescribeClusterBroker,
    f: Format,
    broker_id: i32,
    host: Seq<char>,
    port: i32,
    rack: Option<Seq<char>>,
    is_fenced: bool,
    tags: Seq<u8>,
    rest: Seq<u8>,
)
    requires
        is_tags(tags),
    ensures
        ({
            let w = Writer::at(Seq::empty());
            let w = w.i32(broker_id);
            let w = w.string(host, f.flexible);
            let w = w.i32(port);
            let w = w.nullable_string(rack, f.flexible);
            let w = if f.version >= 2 {
                w.bool(is_fenced)
            } else {
                w
            };
            let w = if f.flexible {
                w.raw(tags)
            } else {
                w
            };
            let (read, r) = DescribeClusterBroker::read(f, Reader::on(w.bytes + rest));
            !w.failed() ==> {
                &&& r == Reader::on(rest)
                &&& x@ == read ==> {
                    &&& x.broker_id == broker_id
                    &&& x.host@ == host
                    &&& x.port == port
                    &&& optional_text(x.rack) == rack
                    &&& x.is_fenced == (if f.version >= 2 {
                        is_fenced
                    } else {
                        false
                    })
                }
            }
        }),
{
    let w0 = Writer::at(Seq::empty());
    let w1 = w0.i32(broker_id);
    let w2 = w1.string(host, f.flexible);
    let w3 = w2.i32(port);
    let w4 = w3.nullable_string(rack, f.flexible);
    let w5 = if f.version >= 2 {
        w4.bool(is_fenced)
    } else {
        w4
    };
    let w6 = if f.flexible {
        w5.raw(tags)
    } else {
        w5
    };
    if !w6.failed() {
        let total = w6.bytes + rest;
        assert(total.take(w6.bytes.len() as int) =~= w6.bytes);
        assert(total.skip(w6.bytes.len() as int) =~= rest);
        if f.flexible {
            law_raw_round_trip(w5, tags, total);
            lemma_tags_read(tags, behind(total, w6).rest);
        }
        if f.version >= 2 {
            law_bool_round_trip(w4, is_fenced, total);
        }
        law_nullable_string_round_trip(w3, rack, f.flexible, total);
        law_i32_round_trip(w2, port, total);
        law_nullable_string_round_trip(w1, Some(host), f.flexible, total);
        law_i32_round_trip(w0, broker_id, total);
        assert(total.skip(0) =~= total);
    }
}

/// A [`DescribeClusterBroker`] is refused where a field that it needs is null.
pub proof fn law_describe_cluster_broker_needs_its_fields(f: Format, start: Reader)
    ensures
        ({
            let r = start;
            let r = r.i32().1;
            let (host, r) = r.nullable_string(f.flexible);
            !r.failed() && host is None
                ==> DescribeClusterBroker::read(f, start).1.failure == Some(null_field("host"))
        }),
{
}

/// How a [`DescribeClusterResponse`] is laid out in each version.
#[verifier::rlimit(60)]
pub proof fn law_describe_cluster_response_layout(
    x: DescribeClusterResponse,
    version: i16,
    throttle_time_ms: i32,
    error_code: i16,
    error_message: Option<Seq<char>>,
    endpoint_type: i8,
    cluster_id: Seq<char>,
    controller_id: i32,
    brokers: Seq<DescribeClusterBrokerView>,
    brokers_bytes: Seq<Seq<u8>>,
    cluster_authorized_operations: i32,
    tags: Seq<u8>,
    rest: Seq<u8>,
)
    requires
        elements::<DescribeClusterBroker>(
            DescribeClusterResponse::response_format(version),
            brokers_bytes,
            brokers,
        ),
        is_tags(tags),
    ensures
        DescribeClusterResponse::response_name() == "DescribeClusterResponse",
        DescribeClusterResponse::decodes(version) <==> (0 <= version <= 2),
        (0 <= version <= 2) ==> ({
            let f = DescribeClusterResponse::response_format(version);
            &&& f.flexible <==> true
            &&& (f.version >= 2) <==> (version >= 2)
        }),
        (0 <= version <= 2) ==> ({
            let w = Writer::at(Seq::empty());
            let w = w.i32(throttle_time_ms);
            let w = w.i16(error_code);
            let w = w.nullable_string(error_message, true);
            let w = if version >= 1 {
                w.i8(endpoint_type)
            } else {
                w
            };
            let w = w.string(cluster_id, true);
            let w = w.i32(controller_id);
            let w = w.array_len(brokers_bytes.len(), true).raw(brokers_bytes.flatten());
            let w = w.i32(cluster_authorized_operations);
            let w = w.raw(tags);
            let (read, r) = DescribeClusterResponse::read_versioned(
                version,
                Reader::on(w.bytes + rest),
            );
            !w.failed() ==> {
                &&& r == Reader::on(rest)
                &&& x@ == read ==> {
                    &&& x.throttle_time_ms == throttle_time_ms
                    &&& x.error_code == ErrorCode::of(error_code)
                    &&& optional_text(x.error_message) == error_message
                    &&& x.endpoint_type == (if version >= 1 {
                        endpoint_type
                    } else {
                        1
                    })
                    &&& x.cluster_id@ == cluster_id
                    &&& x.controller_id == controller_id
                    &&& views(x.brokers@) == brokers
                    &&& x.cluster_authorized_operations == cluster_authorized_operations
                }
            }
        }),
{
    if 0 <= version <= 2 {
        let f = DescribeClusterResponse::response_format(version);
        let w0 = Writer::at(Seq::empty());
        let w1 = w0.i32(throttle_time_ms);
        let w2 = w1.i16(error_code);
        let w3 = w2.nullable_string(error_message, true);
        let w4 = if version >= 1 {
            w3.i8(endpoint_type)
        } else {
            w3
        };
        let w5 = w4.string(cluster_id, true);
        let w6 = w5.i32(controller_id);
        let w7 = w6.array_len(brokers_bytes.len(), true).raw(brokers_bytes.flatten());
        let w8 = w7.i32(cluster_authorized_operations);
        let w9 = w8.raw(tags);
        if !w9.failed() {
            let total = w9.bytes + rest;
            assert(total.take(w9.bytes.len() as int) =~= w9.bytes);
            assert(total.skip(w9.bytes.len() as int) =~= rest);
            law_raw_round_trip(w8, tags, total);
            lemma_tags_read(tags, behind(total, w9).rest);
            law_i32_round_trip(w7, cluster_authorized_operations, total);
            lemma_array_read::<DescribeClusterBroker>(w6, f, brokers_bytes, brokers, total);
            law_i32_round_trip(w5, controller_id, total);
            law_nullable_string_round_trip(w4, Some(cluster_id), true, total);
            if version >= 1 {
                law_i8_round_trip(w3, endpoint_type, total);
            }
            law_nullable_string_round_trip(w2, error_message, true, total);
            law_i16_round_trip(w1, error_code, total);
            law_i32_round_trip(w0, throttle_time_ms, total);
            assert(total.skip(0) =~= total);
        }
    }
}

/// A [`DescribeClusterResponse`] is refused where a field that it needs is null.
pub proof fn law_describe_cluster_response_needs_its_fields(version: i16, start: Reader)
    ensures
        (0 <= version <= 2) ==> ({
            let r = start;
            let r = r.i32().1;
            let r = r.i16().1;
            let r = r.nullable_string(true).1;
            let r = if version >= 1 {
                r.i8().1
            } else {
                r
            };
            let (cluster_id, r) = r.nullable_string(true);
            !r.failed() && cluster_id is None
                ==> DescribeClusterResponse::read_versioned(version, start).1.failure == Some(
                    null_field("cluster_id"),
                )
        }),
{
}

/// How a [`DescribeGroupTopicPartition`] is laid out.
pub proof fn law_describe_group_topic_partition_layout(
    x: DescribeGroupTopicPartition,
    f: Format,
    topic_id: Seq<u8>,
    topic_name: Seq<char>,
    partitions: Seq<i32>,
    tags: Seq<u8>,
    rest: Seq<u8>,
)
    requires
        topic_id.len() == 16,
        is_tags(tags),
    ensures
        ({
            let w = Writer::at(Seq::empty());
            let w = w.raw(topic_id);
            let w = w.string(topic_name, f.flexible);
            let w = w.array(partitions, f);
            let w = if f.flexible {
                w.raw(tags)
            } else {
                w
            };
            let (read, r) = DescribeGroupTopicPartition::read(f, Reader::on(w.bytes + rest));
            !w.failed() ==> {
                &&& r == Reader::on(rest)
                &&& x@ == read ==> {
                    &&& x.topic_id@ == topic_id
                    &&& x.topic_name@ == topic_name
                    &&& x.partitions@ == partitions
                }
            }
        }),
{
    let w0 = Writer::at(Seq::empty());
    let w1 = w0.raw(topic_id);
    let w2 = w1.string(topic_name, f.flexible);
    let w3 = w2.array(partitions, f);
    let w4 = if f.flexible {
        w3.raw(tags)
    } else {
        w3
    };
    if !w4.failed() {
        let total = w4.bytes + rest;
        assert(total.take(w4.bytes.len() as int) =~= w4.bytes);
        assert(total.skip(w4.bytes.len() as int) =~= rest);
        if f.flexible {
            law_raw_round_trip(w3, tags, total);
            lemma_tags_read(tags, behind(total, w4).rest);
        }
        law_numbers_round_trip(w2, partitions, f, total);
        law_nullable_string_round_trip(w1, Some(topic_name), f.flexible, total);
        law_raw_round_trip(w0, topic_id, total);
        assert(total.skip(0) =~= total);
        lemma_views_of_numbers(x.partitions@);
    }
}

/// A [`DescribeGroupTopicPartition`] is refused where a field that it needs is null.
pub proof fn law_describe_group_topic_partition_needs_its_fields(f: Format, start: Reader)
    ensures
        ({
            let r = start;
            let r = r.uuid().1;
            let (topic_name, r) = r.nullable_string(f.flexible);
            !r.failed() && topic_name is None
                ==> DescribeGroupTopicPartition::read(f, start).1.failure == Some(
                    null_field("topic_name"),
                )
        }),
{
}

/// How a [`DescribeGroupAssignment`] is laid out.
#[verifier::rlimit(60)]
pub proof fn law_describe_group_assignment_layout(
    x: DescribeGroupAssignment,
    f: Format,
    topic_partitions: Seq<DescribeGroupTopicPartitionView>,
    topic_partitions_bytes: Seq<Seq<u8>>,
    tags: Seq<u8>,
    rest: Seq<u8>,
)
    requires
        elements::<DescribeGroupTopicPartition>(f, topic_partitions_bytes, topic_partitions),
        is_tags(tags),
    ensures
        ({
            let w = Writer::at(Seq::empty());
            let w = w.array_len(topic_partitions_bytes.len(), f.flexible).raw(
                topic_partitions_bytes.flatten(),
            );
            let w = if f.flexible {
                w.raw(tags)
            } else {
                w
            };
            let (read, r) = DescribeGroupAssignment::read(f, Reader::on(w.bytes + rest));
            !w.failed() ==> {
                &&& r == Reader::on(rest)
                &&& x@ == read ==> {
                    &&& views(x.topic_partitions@) == topic_partitions
                }
            }
        }),
{
    let w0 = Writer::at(Seq::empty());
    let w1 = w0.array_len(topic_partitions_bytes.len(), f.flexible).raw(
        topic_partitions_bytes.flatten(),
    );
    let w2 = if f.flexible {
        w1.raw(tags)
    } else {
        w1
    };
    if !w2.failed() {
        let total = w2.bytes + rest;
        assert(total.take(w2.bytes.len() as int) =~= w2.bytes);
        assert(total.skip(w2.bytes.len() as int) =~= rest);
        if f.flexible {
            law_raw_round_trip(w1, tags, total);
            lemma_tags_read(tags, behind(total, w2).rest);
        }
        lemma_array_read::<DescribeGroupTopicPartition>(
            w0,
            f,
            topic_partitions_bytes,
            topic_partitions,
            total,
        );
        assert(total.skip(0) =~= total);
    }
}

/// How a [`ConsumerGroupDescribeMember`] is laid out.
#[verifier::rlimit(60)]
pub proof fn law_consumer_group_describe_member_layout(
    x: ConsumerGroupDescribeMember,
    f: Format,
    member_id: Seq<char>,
    instance_id: Option<Seq<char>>,
    rack_id: Option<Seq<char>>,
    member_epoch: i32,
    client_id: Seq<char>,
    client_host: Seq<char>,
    subscribed_topic_names: Seq<String>,
    subscribed_topic_regex: Option<Seq<char>>,
    assignment: DescribeGroupAssignmentView,
    assignment_bytes: Seq<u8>,
    target_assignment: DescribeGroupAssignmentView,
    target_assignment_bytes: Seq<u8>,
    member_type: i8,
    tags: Seq<u8>,
    rest: Seq<u8>,
)
    requires
        DescribeGroupAssignment::read(f, Reader::on(assignment_bytes))
            == (assignment, Reader::on(Seq::empty())),
        DescribeGroupAssignment::read(f, Reader::on(target_assignment_bytes))
            == (target_assignment, Reader::on(Seq::empty())),
        is_tags(tags),
    ensures
        ({
            let w = Writer::at(Seq::empty());
            let w = w.string(member_id, f.flexible);
            let w = w.nullable_string(instance_id, f.flexible);
            let w = w.nullable_string(rack_id, f.flexible);
            let w = w.i32(member_epoch);
            let w = w.string(client_id, f.flexible);
            let w = w.string(client_host, f.flexible);
            let w = w.array(subscribed_topic_names, f);
            let w = w.nullable_string(subscribed_topic_regex, f.flexible);
            let w = w.raw(assignment_bytes);
            let w = w.raw(target_assignment_bytes);
            let w = if f.version >= 1 {
                w.i8(member_type)
            } else {
                w
            };
            let w = if f.flexible {
                w.raw(tags)
            } else {
                w
            };
            let (read, r) = ConsumerGroupDescribeMember::read(f, Reader::on(w.bytes + rest));
            !w.failed() ==> {
                &&& r == Reader::on(rest)
                &&& x@ == read ==> {
                    &&& x.member_id@ == member_id
                    &&& optional_text(x.instance_id) == instance_id
                    &&& optional_text(x.rack_id) == rack_id
                    &&& x.member_epoch == member_epoch
                    &&& x.client_id@ == client_id
                    &&& x.client_host@ == client_host
                    &&& views(x.subscribed_topic_names@) == views(subscribed_topic_names)
                    &&& optional_text(x.subscribed_topic_regex) == subscribed_topic_regex
                    &&& x.assignment@ == assignment
                    &&& x.target_assignment@ == target_assignment
                    &&& x.member_type == (if f.version >= 1 {
                        member_type
                    } else {
                        (-1) as i8
                    })
                }
            }
        }),
{
    let w0 = Writer::at(Seq::empty());
    let w1 = w0.string(member_id, f.flexible);
    let w2 = w1.nullable_string(instance_id, f.flexible);
    let w3 = w2.nullable_string(rack_id, f.flexible);
    let w4 = w3.i32(member_epoch);
    let w5 = w4.string(client_id, f.flexible);
    let w6 = w5.string(client_host, f.flexible);
    let w7 = w6.array(subscribed_topic_names, f);
    let w8 = w7.nullable_string(subscribed_topic_regex, f.flexible);
    let w9 = w8.raw(assignment_bytes);
    let w10 = w9.raw(target_assignment_bytes);
    let w11 = if f.version >= 1 {
        w10.i8(member_type)
    } else {
        w10
    };
    let w12 = if f.flexible {
        w11.raw(tags)
    } else {
        w11
    };
    if !w12.failed() {
        let total = w12.bytes + rest;
        assert(total.take(w12.bytes.len() as int) =~= w12.bytes);
        assert(total.skip(w12.bytes.len() as int) =~= rest);
        if f.flexible {
            law_raw_round_trip(w11, tags, total);
            lemma_tags_read(tags, behind(total, w12).rest);
        }
        if f.version >= 1 {
            law_i8_round_trip(w10, member_type, total);
        }
        law_raw_round_trip(w9, target_assignment_bytes, total);
        lemma_one_read::<DescribeGroupAssignment>(
            f,
            target_assignment_bytes,
            target_assignment,
            behind(total, w10).rest,
        );
        law_raw_round_trip(w8, assignment_bytes, total);
        lemma_one_read::<DescribeGroupAssignment>(
            f,
            assignment_bytes,
            assignment,
            behind(total, w9).rest,
        );
        law_nullable_string_round_trip(w7, subscribed_topic_regex, f.flexible, total);
        law_texts_round_trip(w6, subscribed_topic_names, f, total);
        law_nullable_string_round_trip(w5, Some(client_host), f.flexible, total);
        law_nullable_string_round_trip(w4, Some(client_id), f.flexible, total);
        law_i32_round_trip(w3, member_epoch, total);
        law_nullable_string_round_trip(w2, rack_id, f.flexible, total);
        law_nullable_string_round_trip(w1, instance_id, f.flexible, total);
        law_nullable_string_round_trip(w0, Some(member_id), f.flexible, total);
        lemma_texts_named(behind(total, w6), "subscribed_topic", f.flexible);
        assert(total.skip(0) =~= total);
        reveal(read_member_fields);
    }
}

/// A [`ConsumerGroupDescribeMember`] is refused where a field that it needs is null.
pub proof fn law_consumer_group_describe_member_needs_its_fields(f: Format, start: Reader)
    ensures
        ({
            let r = start;
            let (member_id, r) = r.nullable_string(f.flexible);
            !r.failed() && member_id is None
                ==> ConsumerGroupDescribeMember::read(f, start).1.failure == Some(
                    null_field("member_id"),
                )
        }),
        ({
            let r = start;
            let (member_id, r) = r.nullable_string(f.flexible);
            let r = r.nullable_string(f.flexible).1;
            let r = r.nullable_string(f.flexible).1;
            let r = r.i32().1;
            let (client_id, r) = r.nullable_string(f.flexible);
            !r.failed() && member_id is Some && client_id is None
                ==> ConsumerGroupDescribeMember::read(f, start).1.failure == Some(
                    null_field("client_id"),
                )
        }),
        ({
            let r = start;
            let (member_id, r) = r.nullable_string(f.flexible);
            let r = r.nullable_string(f.flexible).1;
            let r = r.nullable_string(f.flexible).1;
            let r = r.i32().1;
            let (client_id, r) = r.nullable_string(f.flexible);
            let (client_host, r) = r.nullable_string(f.flexible);
            !r.failed() && member_id is Some && client_id is Some && client_host is None
                ==> ConsumerGroupDescribeMember::read(f, start).1.failure == Some(
                    null_field("client_host"),
                )
        }),
{
    reveal(read_member_fields);
}

/// How a [`ConsumerGroupDescribeGroup`] is laid out.
#[verifier::rlimit(60)]
pub proof fn law_consumer_group_describe_group_layout(
    x: ConsumerGroupDescribeGroup,
    f: Format,
    error_code: i16,
    error_message: Option<Seq<char>>,
    group_id: Seq<char>,
    group_state: Seq<char>,
    group_epoch: i32,
    assignment_epoch: i32,
    assignor_name: Seq<char>,
    members: Seq<ConsumerGroupDescribeMemberView>,
    members_bytes: Seq<Seq<u8>>,
    authorized_operations: i32,
    tags: Seq<u8>,
    rest: Seq<u8>,
)
    requires
        elements::<ConsumerGroupDescribeMember>(f, members_bytes, members),
        is_tags(tags),
    ensures
        ({
            let w = Writer::at(Seq::empty());
            let w = w.i16(error_code);
            let w = w.nullable_string(error_message, f.flexible);
            let w = w.string(group_id, f.flexible);
            let w = w.string(group_state, f.flexible);
            let w = w.i32(group_epoch);
            let w = w.i32(assignment_epoch);
            let w = w.string(assignor_name, f.flexible);
            let w = w.array_len(members_bytes.len(), f.flexible).raw(members_bytes.flatten());
            let w = w.i32(authorized_operations);
            let w = if f.flexible {
                w.raw(tags)
            } else {
                w
            };
            let (read, r) = ConsumerGroupDescribeGroup::read(f, Reader::on(w.bytes + rest));
            !w.failed() ==> {
                &&& r == Reader::on(rest)
                &&& x@ == read ==> {
                    &&& x.error_code == ErrorCode::of(error_code)
                    &&& optional_text(x.error_message) == error_message
                    &&& x.group_id@ == group_id
                    &&& x.group_state@ == group_state
                    &&& x.group_epoch == group_epoch
                    &&& x.assignment_epoch == assignment_epoch
                    &&& x.assignor_name@ == assignor_name
                    &&& views(x.members@) == members
                    &&& x.authorized_operations == authorized_operations
                }
            }
        }),
{
    let w0 = Writer::at(Seq::empty());
    let w1 = w0.i16(error_code);
    let w2 = w1.nullable_string(error_message, f.flexible);
    let w3 = w2.string(group_id, f.flexible);
    let w4 = w3.string(group_state, f.flexible);
    let w5 = w4.i32(group_epoch);
    let w6 = w5.i32(assignment_epoch);
    let w7 = w6.string(assignor_name, f.flexible);
    let w8 = w7.array_len(members_bytes.len(), f.flexible).raw(members_bytes.flatten());
    let w9 = w8.i32(authorized_operations);
    let w10 = if f.flexible {
        w9.raw(tags)
    } else {
        w9
    };
    if !w10.failed() {
        let total = w10.bytes + rest;
        assert(total.take(w10.bytes.len() as int) =~= w10.bytes);
        assert(total.skip(w10.bytes.len() as int) =~= rest);
        if f.flexible {
            law_raw_round_trip(w9, tags, total);
            lemma_tags_read(tags, behind(total, w10).rest);
        }
        law_i32_round_trip(w8, authorized_operations, total);
        lemma_array_read::<ConsumerGroupDescribeMember>(w7, f, members_bytes, members, total);
        law_nullable_string_round_trip(w6, Some(assignor_name), f.flexible, total);
        law_i32_round_trip(w5, assignment_epoch, total);
        law_i32_round_trip(w4, group_epoch, total);
        law_nullable_string_round_trip(w3, Some(group_state), f.flexible, total);
        law_nullable_string_round_trip(w2, Some(group_id), f.flexible, total);
        law_nullable_string_round_trip(w1, error_message, f.flexible, total);
        law_i16_round_trip(w0, error_code, total);
        assert(total.skip(0) =~= total);
        reveal(read_group_head);
    }
}

/// A [`ConsumerGroupDescribeGroup`] is refused where a field that it needs is null.
pub proof fn law_consumer_group_describe_group_needs_its_fields(f: Format, start: Reader)
    ensures
        ({
            let r = start;
            let r = r.i16().1;
            let r = r.nullable_string(f.flexible).1;
            let (group_id, r) = r.nullable_string(f.flexible);
            !r.failed() && group_id is None
                ==> ConsumerGroupDescribeGroup::read(f, start).1.failure == Some(
                    null_field("group_id"),
                )
        }),
        ({
            let r = start;
            let r = r.i16().1;
            let r = r.nullable_string(f.flexible).1;
            let (group_id, r) = r.nullable_string(f.flexible);
            let (group_state, r) = r.nullable_string(f.flexible);
            !r.failed() && group_id is Some && group_state is None
                ==> ConsumerGroupDescribeGroup::read(f, start).1.failure == Some(
                    null_field("group_state"),
                )
        }),
        ({
            let r = start;
            let r = r.i16().1;
            let r = r.nullable_string(f.flexible).1;
            let (group_id, r) = r.nullable_string(f.flexible);
            let (group_state, r) = r.nullable_string(f.flexible);
            let r = r.i32().1;
            let r = r.i32().1;
            let (assignor_name, r) = r.nullable_string(f.flexible);
            !r.failed() && group_id is Some && group_state is Some && assignor_name is None
                ==> ConsumerGroupDescribeGroup::read(f, start).1.failure == Some(
                    null_field("assignor_name"),
                )
        }),
{
    reveal(read_group_head);
}

/// How a [`ConsumerGroupDescribeResponse`] is laid out in each version.
#[verifier::rlimit(60)]
pub proof fn law_consumer_group_describe_response_layout(
    x: ConsumerGroupDescribeResponse,
    version: i16,
    throttle_time_ms: i32,
    groups: Seq<ConsumerGroupDescribeGroupView>,
    groups_bytes: Seq<Seq<u8>>,
    tags: Seq<u8>,
    rest: Seq<u8>,
)
    requires
        elements::<ConsumerGroupDescribeGroup>(
            ConsumerGroupDescribeResponse::response_format(version),
            groups_bytes,
            groups,
        ),
        is_tags(tags),
    ensures
        ConsumerGroupDescribeResponse::response_name() == "ConsumerGroupDescribeResponse",
        ConsumerGroupDescribeResponse::decodes(version) <==> (0 <= version <= 1),
        (0 <= version <= 1) ==> ({
            let f = ConsumerGroupDescribeResponse::response_format(version);
            &&& f.flexible <==> true
            &&& (f.version >= 1) <==> (version >= 1)
        }),
        (0 <= version <= 1) ==> ({
            let w = Writer::at(Seq::empty());
            let w = w.i32(throttle_time_ms);
            let w = w.array_len(groups_bytes.len(), true).raw(groups_bytes.flatten());
            let w = w.raw(tags);
            let (read, r) = ConsumerGroupDescribeResponse::read_versioned(
                version,
                Reader::on(w.bytes + rest),
            );
            !w.failed() ==> {
                &&& r == Reader::on(rest)
                &&& x@ == read ==> {
                    &&& x.throttle_time_ms == throttle_time_ms
                    &&& views(x.groups@) == groups
                }
            }
        }),
{
    if 0 <= version <= 1 {
        let f = ConsumerGroupDescribeResponse::response_format(version);
        let w0 = Writer::at(Seq::empty());
        let w1 = w0.i32(throttle_time_ms);
        let w2 = w1.array_len(groups_bytes.len(), true).raw(groups_bytes.flatten());
        let w3 = w2.raw(tags);
        if !w3.failed() {
            let total = w3.bytes + rest;
            assert(total.take(w3.bytes.len() as int) =~= w3.bytes);
            assert(total.skip(w3.bytes.len() as int) =~= rest);
            law_raw_round_trip(w2, tags, total);
            lemma_tags_read(tags, behind(total, w3).rest);
            lemma_array_read::<ConsumerGroupDescribeGroup>(w1, f, groups_bytes, groups, total);
            law_i32_round_trip(w0, throttle_time_ms, total);
            assert(total.skip(0) =~= total);
        }
    }
}

/// How a [`ClientMetricsResource`] is laid out.
pub proof fn law_client_metrics_resource_layout(
    x: ClientMetricsResource,
    f: Format,
    name: Seq<char>,
    tags: Seq<u8>,
    rest: Seq<u8>,
)
    requires
        is_tags(tags),
    ensures
        ({
            let w = Writer::at(Seq::empty());
            let w = w.string(name, f.flexible);
            let w = if f.flexible {
                w.raw(tags)
            } else {
                w
            };
            let (read, r) = ClientMetricsResource::read(f, Reader::on(w.bytes + rest));
            !w.failed() ==> {
                &&& r == Reader::on(rest)
                &&& x@ == read ==> {
                    &&& x.name@ == name
                }
            }
        }),
{
    let w0 = Writer::at(Seq::empty());
    let w1 = w0.string(name, f.flexible);
    let w2 = if f.flexible {
        w1.raw(tags)
    } else {
        w1
    };
    if !w2.failed() {
        let total = w2.bytes + rest;
        assert(total.take(w2.bytes.len() as int) =~= w2.bytes);
        assert(total.skip(w2.bytes.len() as int) =~= rest);
        if f.flexible {
            law_raw_round_trip(w1, tags, total);
            lemma_tags_read(tags, behind(total, w2).rest);
        }
        law_nullable_string_round_trip(w0, Some(name), f.flexible, total);
        assert(total.skip(0) =~= total);
    }
}

/// A [`ClientMetricsResource`] is refused where a field that it needs is null.
pub proof fn law_client_metrics_resource_needs_its_fields(f: Format, start: Reader)
    ensures
        ({
            let r = start;
            let (name, r) = r.nullable_string(f.flexible);
            !r.failed() && name is None
                ==> ClientMetricsResource::read(f, start).1.failure == Some(
                    null_field("metric resource name"),
                )
        }),
{
}

/// How a [`ListClientMetricsResourcesResponse`] is laid out in each version.
#[verifier::rlimit(60)]
pub proof fn law_list_client_metrics_resources_response_layout(
    x: ListClientMetricsResourcesResponse,
    version: i16,
    throttle_time_ms: i32,
    error_code: i16,
    client_metrics_resources: Seq<ClientMetricsResourceView>,
    client_metrics_resources_bytes: Seq<Seq<u8>>,
    tags: Seq<u8>,
    rest: Seq<u8>,
)
    requires
        elements::<ClientMetricsResource>(
            ListClientMetricsResourcesResponse::response_format(version),
            client_metrics_resources_bytes,
            client_metrics_resources,
        ),
        is_tags(tags),
    ensures
        ListClientMetricsResourcesResponse::response_name() == "ListClientMetricsResourcesResponse",
        ListClientMetricsResourcesResponse::decodes(version) <==> (version == 0),
        (version == 0) ==> ({
            let f = ListClientMetricsResourcesResponse::response_format(version);
            &&& f.flexible <==> true
        }),
        (version == 0) ==> ({
            let w = Writer::at(Seq::empty());
            let w = w.i32(throttle_time_ms);
            let w = w.i16(error_code);
            let w = w.array_len(client_metrics_resources_bytes.len(), true).raw(
                client_metrics_resources_bytes.flatten(),
            );
            let w = w.raw(tags);
            let (read, r) = ListClientMetricsResourcesResponse::read_versioned(
                version,
                Reader::on(w.bytes + rest),
            );
            !w.failed() ==> {
                &&& r == Reader::on(rest)
                &&& x@ == read ==> {
                    &&& x.throttle_time_ms == throttle_time_ms
                    &&& x.error_code == ErrorCode::of(error_code)
                    &&& views(x.client_metrics_resources@) == client_metrics_resources
                }
            }
        }),
{
    if version == 0 {
        let f = ListClientMetricsResourcesResponse::response_format(version);
        let w0 = Writer::at(Seq::empty());
        let w1 = w0.i32(throttle_time_ms);
        let w2 = w1.i16(error_code);
        let w3 = w2.array_len(client_metrics_resources_bytes.len(), true).raw(
            client_metrics_resources_bytes.flatten(),
        );
        let w4 = w3.raw(tags);
        if !w4.failed() {
            let total = w4.bytes + rest;
            assert(total.take(w4.bytes.len() as int) =~= w4.bytes);
            assert(total.skip(w4.bytes.len() as int) =~= rest);
            law_raw_round_trip(w3, tags, total);
            lemma_tags_read(tags, behind(total, w4).rest);
            lemma_array_read::<ClientMetricsResource>(
                w2,
                f,
                client_metrics_resources_bytes,
                client_metrics_resources,
                total,
            );
            law_i16_round_trip(w1, error_code, total);
            law_i32_round_trip(w0, throttle_time_ms, total);
            assert(total.skip(0) =~= total);
        }
    }
}

/// How a [`DescribeGroupMember`] is laid out.
pub proof fn law_describe_group_member_layout(
    x: DescribeGroupMember,
    f: Format,
    member_id: Seq<char>,
    group_instance_id: Option<Seq<char>>,
    client_id: Seq<char>,
    client_host: Seq<char>,
    member_metadata: Seq<u8>,
    member_assignment: Seq<u8>,
    tags: Seq<u8>,
    rest: Seq<u8>,
)
    requires
        is_tags(tags),
    ensures
        ({
            let w = Writer::at(Seq::empty());
            let w = w.string(member_id, f.flexible);
            let w = if f.version >= 4 {
                w.nullable_string(group_instance_id, f.flexible)
            } else {
                w
            };
            let w = w.string(client_id, f.flexible);
            let w = w.string(client_host, f.flexible);
            let w = w.bytes(member_metadata, f.flexible);
            let w = w.bytes(member_assignment, f.flexible);
            let w = if f.flexible {
                w.raw(tags)
            } else {
                w
            };
            let (read, r) = DescribeGroupMember::read(f, Reader::on(w.bytes + rest));
            !w.failed() ==> {
                &&& r == Reader::on(rest)
                &&& x@ == read ==> {
                    &&& x.member_id@ == member_id
                    &&& optional_text(x.group_instance_id) == (if f.version >= 4 {
                        group_instance_id
                    } else {
                        None
                    })
                    &&& x.client_id@ == client_id
                    &&& x.client_host@ == client_host
                    &&& x.member_metadata@ == member_metadata
                    &&& x.member_assignment@ == member_assignment
                }
            }
        }),
{
    let w0 = Writer::at(Seq::empty());
    let w1 = w0.string(member_id, f.flexible);
    let w2 = if f.version >= 4 {
        w1.nullable_string(group_instance_id, f.flexible)
    } else {
        w1
    };
    let w3 = w2.string(client_id, f.flexible);
    let w4 = w3.string(client_host, f.flexible);
    let w5 = w4.bytes(member_metadata, f.flexible);
    let w6 = w5.bytes(member_assignment, f.flexible);
    let w7 = if f.flexible {
        w6.raw(tags)
    } else {
        w6
    };
    if !w7.failed() {
        let total = w7.bytes + rest;
        assert(total.take(w7.bytes.len() as int) =~= w7.bytes);
        assert(total.skip(w7.bytes.len() as int) =~= rest);
        if f.flexible {
            law_raw_round_trip(w6, tags, total);
            lemma_tags_read(tags, behind(total, w7).rest);
        }
        law_nullable_bytes_round_trip(w5, Some(member_assignment), f.flexible, total);
        law_nullable_bytes_round_trip(w4, Some(member_metadata), f.flexible, total);
        law_nullable_string_round_trip(w3, Some(client_host), f.flexible, total);
        law_nullable_string_round_trip(w2, Some(client_id), f.flexible, total);
        if f.version >= 4 {
            law_nullable_string_round_trip(w1, group_instance_id, f.flexible, total);
        }
        law_nullable_string_round_trip(w0, Some(member_id), f.flexible, total);
        assert(total.skip(0) =~= total);
    }
}

/// A [`DescribeGroupMember`] is refused where a field that it needs is null.
pub proof fn law_describe_group_member_needs_its_fields(f: Format, start: Reader)
    ensures
        ({
            let r = start;
            let (member_id, r) = r.nullable_string(f.flexible);
            !r.failed() && member_id is None
                ==> DescribeGroupMember::read(f, start).1.failure == Some(null_field("member_id"))
        }),
        ({
            let r = start;
            let (member_id, r) = r.nullable_string(f.flexible);
            let r = if f.version >= 4 {
                r.nullable_string(f.flexible).1
            } else {
                r
            };
            let (client_id, r) = r.nullable_string(f.flexible);
            !r.failed() && member_id is Some && client_id is None
                ==> DescribeGroupMember::read(f, start).1.failure == Some(null_field("client_id"))
        }),
        ({
            let r = start;
            let (member_id, r) = r.nullable_string(f.flexible);
            let r = if f.version >= 4 {
                r.nullable_string(f.flexible).1
            } else {
                r
            };
            let (client_id, r) = r.nullable_string(f.flexible);
            let (client_host, r) = r.nullable_string(f.flexible);
            !r.failed() && member_id is Some && client_id is Some && client_host is None
                ==> DescribeGroupMember::read(f, start).1.failure == Some(null_field("client_host"))
        }),
        ({
            let r = start;
            let (member_id, r) = r.nullable_string(f.flexible);
            let r = if f.version >= 4 {
                r.nullable_string(f.flexible).1
            } else {
                r
            };
            let (client_id, r) = r.nullable_string(f.flexible);
            let (client_host, r) = r.nullable_string(f.flexible);
            let (member_metadata, r) = r.nullable_bytes(f.flexible);
            !r.failed() && member_id is Some && client_id is Some && client_host is Some
                && member_metadata is None
                ==> DescribeGroupMember::read(f, start).1.failure == Some(
                    null_field("member_metadata"),
                )
        }),
        ({
            let r = start;
            let (member_id, r) = r.nullable_string(f.flexible);
            let r = if f.version >= 4 {
                r.nullable_string(f.flexible).1
            } else {
                r
            };
            let (client_id, r) = r.nullable_string(f.flexible);
            let (client_host, r) = r.nullable_string(f.flexible);
            let (member_metadata, r) = r.nullable_bytes(f.flexible);
            let (member_assignment, r) = r.nullable_bytes(f.flexible);
            !r.failed() && member_id is Some && client_id is Some && client_host is Some
                && member_metadata is Some && member_assignment is None
                ==> DescribeGroupMember::read(f, start).1.failure == Some(
                    null_field("member_assignment"),
                )
        }),
{
}

/// How a [`DescribedGroup`] is laid out.
#[verifier::rlimit(60)]
pub proof fn law_described_group_layout(
    x: DescribedGroup,
    f: Format,
    error_code: i16,
    error_message: Option<Seq<char>>,
    group_id: Seq<char>,
    group_state: Seq<char>,
    protocol_type: Seq<char>,
    protocol_data: Seq<char>,
    members: Seq<DescribeGroupMemberView>,
    members_bytes: Seq<Seq<u8>>,
    authorized_operations: i32,
    tags: Seq<u8>,
    rest: Seq<u8>,
)
    requires
        elements::<DescribeGroupMember>(f, members_bytes, members),
        is_tags(tags),
    ensures
        ({
            let w = Writer::at(Seq::empty());
            let w = w.i16(error_code);
            let w = if f.version >= 6 {
                w.nullable_string(error_message, f.flexible)
            } else {
                w
            };
            let w = w.string(group_id, f.flexible);
            let w = w.string(group_state, f.flexible);
            let w = w.string(protocol_type, f.flexible);
            let w = w.string(protocol_data, f.flexible);
            let w = w.array_len(members_bytes.len(), f.flexible).raw(members_bytes.flatten());
            let w = if f.version >= 3 {
                w.i32(authorized_operations)
            } else {
                w
            };
            let w = if f.flexible {
                w.raw(tags)
            } else {
                w
            };
            let (read, r) = DescribedGroup::read(f, Reader::on(w.bytes + rest));
            !w.failed() ==> {
                &&& r == Reader::on(rest)
                &&& x@ == read ==> {
                    &&& x.error_code == ErrorCode::of(error_code)
                    &&& optional_text(x.error_message) == (if f.version >= 6 {
                        error_message
                    } else {
                        None
                    })
                    &&& x.group_id@ == group_id
                    &&& x.group_state@ == group_state
                    &&& x.protocol_type@ == protocol_type
                    &&& x.protocol_data@ == protocol_data
                    &&& views(x.members@) == members
                    &&& x.authorized_operations == (if f.version >= 3 {
                        authorized_operations
                    } else {
                        i32::MIN
                    })
                }
            }
        }),
{
    let w0 = Writer::at(Seq::empty());
    let w1 = w0.i16(error_code);
    let w2 = if f.version >= 6 {
        w1.nullable_string(error_message, f.flexible)
    } else {
        w1
    };
    let w3 = w2.string(group_id, f.flexible);
    let w4 = w3.string(group_state, f.flexible);
    let w5 = w4.string(protocol_type, f.flexible);
    let w6 = w5.string(protocol_data, f.flexible);
    let w7 = w6.array_len(members_bytes.len(), f.flexible).raw(members_bytes.flatten());
    let w8 = if f.version >= 3 {
        w7.i32(authorized_operations)
    } else {
        w7
    };
    let w9 = if f.flexible {
        w8.raw(tags)
    } else {
        w8
    };
    if !w9.failed() {
        let total = w9.bytes + rest;
        assert(total.take(w9.bytes.len() as int) =~= w9.bytes);
        assert(total.skip(w9.bytes.len() as int) =~= rest);
        if f.flexible {
            law_raw_round_trip(w8, tags, total);
            lemma_tags_read(tags, behind(total, w9).rest);
        }
        if f.version >= 3 {
            law_i32_round_trip(w7, authorized_operations, total);
        }
        lemma_array_read::<DescribeGroupMember>(w6, f, members_bytes, members, total);
        law_nullable_string_round_trip(w5, Some(protocol_data), f.flexible, total);
        law_nullable_string_round_trip(w4, Some(protocol_type), f.flexible, total);
        law_nullable_string_round_trip(w3, Some(group_state), f.flexible, total);
        law_nullable_string_round_trip(w2, Some(group_id), f.flexible, total);
        if f.version >= 6 {
            law_nullable_string_round_trip(w1, error_message, f.flexible, total);
        }
        law_i16_round_trip(w0, error_code, total);
        assert(total.skip(0) =~= total);
    }
}

/// A [`DescribedGroup`] is refused where a field that it needs is null.
pub proof fn law_described_group_needs_its_fields(f: Format, start: Reader)
    ensures
        ({
            let r = start;
            let r = r.i16().1;
            let r = if f.version >= 6 {
                r.nullable_string(f.flexible).1
            } else {
                r
            };
            let (group_id, r) = r.nullable_string(f.flexible);
            !r.failed() && group_id is None
                ==> DescribedGroup::read(f, start).1.failure == Some(null_field("group_id"))
        }),
        ({
            let r = start;
            let r = r.i16().1;
            let r = if f.version >= 6 {
                r.nullable_string(f.flexible).1
            } else {
                r
            };
            let (group_id, r) = r.nullable_string(f.flexible);
            let (group_state, r) = r.nullable_string(f.flexible);
            !r.failed() && group_id is Some && group_state is None
                ==> DescribedGroup::read(f, start).1.failure == Some(null_field("group_state"))
        }),
        ({
            let r = start;
            let r = r.i16().1;
            let r = if f.version >= 6 {
                r.nullable_string(f.flexible).1
            } else {
                r
            };
            let (group_id, r) = r.nullable_string(f.flexible);
            let (group_state, r) = r.nullable_string(f.flexible);
            let (protocol_type, r) = r.nullable_string(f.flexible);
            !r.failed() && group_id is Some && group_state is Some && protocol_type is None
                ==> DescribedGroup::read(f, start).1.failure == Some(null_field("protocol_type"))
        }),
        ({
            let r = start;
            let r = r.i16().1;
            let r = if f.version >= 6 {
                r.nullable_string(f.flexible).1
            } else {
                r
            };
            let (group_id, r) = r.nullable_string(f.flexible);
            let (group_state, r) = r.nullable_string(f.flexible);
            let (protocol_type, r) = r.nullable_string(f.flexible);
            let (protocol_data, r) = r.nullable_string(f.flexible);
            !r.failed() && group_id is Some && group_state is Some && protocol_type is Some
                && protocol_data is None
                ==> DescribedGroup::read(f, start).1.failure == Some(null_field("protocol_data"))
        }),
{
}

/// How a [`DescribeGroupsResponse`] is laid out in each version.
#[verifier::rlimit(60)]
pub proof fn law_describe_groups_response_layout(
    x: DescribeGroupsResponse,
    version: i16,
    throttle_time_ms: i32,
    groups: Seq<DescribedGroupView>,
    groups_bytes: Seq<Seq<u8>>,
    tags: Seq<u8>,
    rest: Seq<u8>,
)
    requires
        elements::<DescribedGroup>(
            DescribeGroupsResponse::response_format(version),
            groups_bytes,
            groups,
        ),
        is_tags(tags),
    ensures
        DescribeGroupsResponse::response_name() == "DescribeGroupsResponse",
        DescribeGroupsResponse::decodes(version) <==> (1 <= version <= 6),
        (1 <= version <= 6) ==> ({
            let f = DescribeGroupsResponse::response_format(version);
            &&& f.flexible <==> version >= 5
            &&& (f.version >= 3) <==> (version >= 3)
            &&& (f.version >= 4) <==> (version >= 4)
            &&& (f.version >= 6) <==> (version >= 6)
        }),
        (1 <= version <= 6) ==> ({
            let w = Writer::at(Seq::empty());
            let w = w.i32(throttle_time_ms);
            let w = w.array_len(groups_bytes.len(), version >= 5).raw(groups_bytes.flatten());
            let w = if version >= 5 {
                w.raw(tags)
            } else {
                w
            };
            let (read, r) = DescribeGroupsResponse::read_versioned(
                version,
                Reader::on(w.bytes + rest),
            );
            !w.failed() ==> {
                &&& r == Reader::on(rest)
                &&& x@ == read ==> {
                    &&& x.throttle_time_ms == throttle_time_ms
                    &&& views(x.groups@) == groups
                }
            }
        }),
{
    if 1 <= version <= 6 {
        let f = DescribeGroupsResponse::response_format(version);
        let w0 = Writer::at(Seq::empty());
        let w1 = w0.i32(throttle_time_ms);
        let w2 = w1.array_len(groups_bytes.len(), version >= 5).raw(groups_bytes.flatten());
        let w3 = if version >= 5 {
            w2.raw(tags)
        } else {
            w2
        };
        if !w3.failed() {
            let total = w3.bytes + rest;
            assert(total.take(w3.bytes.len() as int) =~= w3.bytes);
            assert(total.skip(w3.bytes.len() as int) =~= rest);
            if version >= 5 {
                law_raw_round_trip(w2, tags, total);
                lemma_tags_read(tags, behind(total, w3).rest);
            }
            lemma_array_read::<DescribedGroup>(w1, f, groups_bytes, groups, total);
            law_i32_round_trip(w0, throttle_time_ms, total);
            assert(total.skip(0) =~= total);
        }
    }
}

/// How a [`ListedGroup`] is laid out.
pub proof fn law_listed_group_layout(
    x: ListedGroup,
    f: Format,
    group_id: Seq<char>,
    protocol_type: Seq<char>,
    group_state: Seq<char>,
    group_type: Seq<char>,
    tags: Seq<u8>,
    rest: Seq<u8>,
)
    requires
        is_tags(tags),
    ensures
        ({
            let w = Writer::at(Seq::empty());
            let w = w.string(group_id, f.flexible);
            let w = w.string(protocol_type, f.flexible);
            let w = if f.version >= 4 {
                w.string(group_state, f.flexible)
            } else {
                w
            };
            let w = if f.version >= 5 {
                w.string(group_type, f.flexible)
            } else {
                w
            };
            let w = if f.flexible {
                w.raw(tags)
            } else {
                w
            };
            let (read, r) = ListedGroup::read(f, Reader::on(w.bytes + rest));
            !w.failed() ==> {
                &&& r == Reader::on(rest)
                &&& x@ == read ==> {
                    &&& x.group_id@ == group_id
                    &&& x.protocol_type@ == protocol_type
                    &&& optional_text(x.group_state) == (if f.version >= 4 {
                        Some(group_state)
                    } else {
                        None
                    })
                    &&& optional_text(x.group_type) == (if f.version >= 5 {
                        Some(group_type)
                    } else {
                        None
                    })
                }
            }
        }),
{
    let w0 = Writer::at(Seq::empty());
    let w1 = w0.string(group_id, f.flexible);
    let w2 = w1.string(protocol_type, f.flexible);
    let w3 = if f.version >= 4 {
        w2.string(group_state, f.flexible)
    } else {
        w2
    };
    let w4 = if f.version >= 5 {
        w3.string(group_type, f.flexible)
    } else {
        w3
    };
    let w5 = if f.flexible {
        w4.raw(tags)
    } else {
        w4
    };
    if !w5.failed() {
        let total = w5.bytes + rest;
        assert(total.take(w5.bytes.len() as int) =~= w5.bytes);
        assert(total.skip(w5.bytes.len() as int) =~= rest);
        if f.flexible {
            law_raw_round_trip(w4, tags, total);
            lemma_tags_read(tags, behind(total, w5).rest);
        }
        if f.version >= 5 {
            law_nullable_string_round_trip(w3, Some(group_type), f.flexible, total);
        }
        if f.version >= 4 {
            law_nullable_string_round_trip(w2, Some(group_state), f.flexible, total);
        }
        law_nullable_string_round_trip(w1, Some(protocol_type), f.flexible, total);
        law_nullable_string_round_trip(w0, Some(group_id), f.flexible, total);
        assert(total.skip(0) =~= total);
    }
}

/// A [`ListedGroup`] is refused where a field that it needs is null.
pub proof fn law_listed_group_needs_its_fields(f: Format, start: Reader)
    ensures
        ({
            let r = start;
            let (group_id, r) = r.nullable_string(f.flexible);
            !r.failed() && group_id is None
                ==> ListedGroup::read(f, start).1.failure == Some(null_field("group_id"))
        }),
        ({
            let r = start;
            let (group_id, r) = r.nullable_string(f.flexible);
            let (protocol_type, r) = r.nullable_string(f.flexible);
            !r.failed() && group_id is Some && protocol_type is None
                ==> ListedGroup::read(f, start).1.failure == Some(null_field("protocol_type"))
        }),
        f.version >= 4 ==> ({
            let r = start;
            let (group_id, r) = r.nullable_string(f.flexible);
            let (protocol_type, r) = r.nullable_string(f.flexible);
            let (group_state, r) = r.nullable_string(f.flexible);
            !r.failed() && group_id is Some && protocol_type is Some && group_state is None
                ==> ListedGroup::read(f, start).1.failure == Some(null_field("group_state"))
        }),
        f.version >= 5 ==> ({
            let r = start;
            let (group_id, r) = r.nullable_string(f.flexible);
            let (protocol_type, r) = r.nullable_string(f.flexible);
            let (group_state, r) = if f.version >= 4 {
                let (v, r) = r.nullable_string(f.flexible);
                (v is Some, r)
            } else {
                (true, r)
            };
            let (group_type, r) = r.nullable_string(f.flexible);
            !r.failed() && group_id is Some && protocol_type is Some && group_state
                && group_type is None
                ==> ListedGroup::read(f, start).1.failure == Some(null_field("group_type"))
        }),
{
}

/// How a [`ListGroupsResponse`] is laid out in each version.
#[verifier::rlimit(60)]
pub proof fn law_list_groups_response_layout(
    x: ListGroupsResponse,
    version: i16,
    throttle_time_ms: i32,
    error_code: i16,
    groups: Seq<ListedGroupView>,
    groups_bytes: Seq<Seq<u8>>,
    tags: Seq<u8>,
    rest: Seq<u8>,
)
    requires
        elements::<ListedGroup>(ListGroupsResponse::response_format(version), groups_bytes, groups),
        is_tags(tags),
    ensures
        ListGroupsResponse::response_name() == "ListGroupsResponse",
        ListGroupsResponse::decodes(version) <==> (1 <= version <= 5),
        (1 <= version <= 5) ==> ({
            let f = ListGroupsResponse::response_format(version);
            &&& f.flexible <==> version >= 3
            &&& (f.version >= 4) <==> (version >= 4)
            &&& (f.version >= 5) <==> (version >= 5)
        }),
        (1 <= version <= 5) ==> ({
            let w = Writer::at(Seq::empty());
            let w = w.i32(throttle_time_ms);
            let w = w.i16(error_code);
            let w = w.array_len(groups_bytes.len(), version >= 3).raw(groups_bytes.flatten());
            let w = if version >= 3 {
                w.raw(tags)
            } else {
                w
            };
            let (read, r) = ListGroupsResponse::read_versioned(version, Reader::on(w.bytes + rest));
            !w.failed() ==> {
                &&& r == Reader::on(rest)
                &&& x@ == read ==> {
                    &&& x.throttle_time_ms == throttle_time_ms
                    &&& x.error_code == ErrorCode::of(error_code)
                    &&& views(x.groups@) == groups
                }
            }
        }),
{
    if 1 <= version <= 5 {
        let f = ListGroupsResponse::response_format(version);
        let w0 = Writer::at(Seq::empty());
        let w1 = w0.i32(throttle_time_ms);
        let w2 = w1.i16(error_code);
        let w3 = w2.array_len(groups_bytes.len(), version >= 3).raw(groups_bytes.flatten());
        let w4 = if version >= 3 {
            w3.raw(tags)
        } else {
            w3
        };
        if !w4.failed() {
            let total = w4.bytes + rest;
            assert(total.take(w4.bytes.len() as int) =~= w4.bytes);
            assert(total.skip(w4.bytes.len() as int) =~= rest);
            if version >= 3 {
                law_raw_round_trip(w3, tags, total);
                lemma_tags_read(tags, behind(total, w4).rest);
            }
            lemma_array_read::<ListedGroup>(w2, f, groups_bytes, groups, total);
            law_i16_round_trip(w1, error_code, total);
            law_i32_round_trip(w0, throttle_time_ms, total);
            assert(total.skip(0) =~= total);
        }
    }
}

} // verus!
