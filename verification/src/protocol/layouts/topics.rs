//! Layouts of what [`crate::protocol::messages::topics`] holds.

use crate::buffer::Octets;
use crate::error::ErrorCode;
use crate::protocol::layouts::{
    count_fits, elements, law_null_array_round_trip, law_numbers_are_writable,
    law_numbers_round_trip, law_texts_round_trip, lemma_array_read, lemma_array_stands,
    lemma_array_written, lemma_text_written, optional_text_fits, or_empty, past, stands, text_fits,
    writable,
};
use crate::protocol::messages::topics::{
    AlterConfigsEntry, AlterConfigsRequest, AlterConfigsResource, AlterConfigsResponse,
    AlterConfigsResult, AlterConfigsResultView, ConfigResourceType, CreatableReplicaAssignment,
    CreatableTopic, CreatableTopicConfig, CreatableTopicResult, CreatableTopicResultView,
    CreatePartitionsAssignment, CreatePartitionsRequest, CreatePartitionsResponse,
    CreatePartitionsTopic, CreatePartitionsTopicResult, CreatePartitionsTopicResultView,
    CreateTopicsRequest, CreateTopicsResponse, DeletableTopicResult, DeletableTopicResultView,
    DeleteRecordsPartition, DeleteRecordsPartitionResult, DeleteRecordsRequest,
    DeleteRecordsResponse, DeleteRecordsTopic, DeleteRecordsTopicResult,
    DeleteRecordsTopicResultView, DeleteTopicsRequest, DeleteTopicsResponse, DescribeConfigsEntry,
    DescribeConfigsEntryView, DescribeConfigsRequest, DescribeConfigsResource,
    DescribeConfigsResponse, DescribeConfigsResult, DescribeConfigsResultView,
};
use crate::protocol::messages::{VersionedDecode, VersionedEncode};
use crate::protocol::round_trip::{
    begins, behind, law_bool_round_trip, law_i16_round_trip, law_i32_round_trip, law_i64_round_trip,
    law_i8_round_trip, law_nullable_string_round_trip,
};
use crate::protocol::wire::{optional_text, views, Format, Reader, WireDecode, WireEncode, Writer};
use vstd::prelude::*;

verus! {

/// How a [`CreatableTopicConfig`] is laid out.
pub proof fn law_creatable_topic_config_layout(
    x: CreatableTopicConfig,
    f: Format,
    w: Writer,
    total: Seq<u8>,
)
    requires
        !w.failed(),
    ensures
        ({
            &&& text_fits(x.name@, f.flexible)
            &&& optional_text_fits(optional_text(x.value), f.flexible)
        }) ==> !x.written(f, w).failed(),
        begins(total, x.written(f, w)) ==> ({
            let r = behind(total, w);
            let (name, r) = r.nullable_string(f.flexible);
            let (value, r) = r.nullable_string(f.flexible);
            &&& name == Some(x.name@)
            &&& value == optional_text(x.value)
            &&& r == behind(total, x.written(f, w))
        }),
{
    let w0 = w;
    let w1 = w0.string(x.name@, f.flexible);
    let w2 = w1.nullable_string(optional_text(x.value), f.flexible);
    lemma_text_written(w0, Some(x.name@), f.flexible);
    lemma_text_written(w1, optional_text(x.value), f.flexible);
    if begins(total, w2) {
        law_nullable_string_round_trip(w1, optional_text(x.value), f.flexible, total);
        law_nullable_string_round_trip(w0, Some(x.name@), f.flexible, total);
    }
}

/// How a [`CreatableReplicaAssignment`] is laid out.
pub proof fn law_creatable_replica_assignment_layout(
    x: CreatableReplicaAssignment,
    f: Format,
    w: Writer,
    total: Seq<u8>,
)
    requires
        !w.failed(),
    ensures
        (count_fits(x.broker_ids@.len(), f.flexible)) ==> !x.written(f, w).failed(),
        begins(total, x.written(f, w)) ==> ({
            let r = behind(total, w);
            let (partition_index, r) = r.i32();
            let (broker_ids, r) = r.array::<i32>(f);
            &&& partition_index == x.partition_index
            &&& broker_ids == x.broker_ids@
            &&& r == behind(total, x.written(f, w))
        }),
{
    let w0 = w;
    let w1 = w0.i32(x.partition_index);
    let w2 = w1.array(x.broker_ids@, f);
    law_numbers_are_writable(x.broker_ids@, f);
    lemma_array_written(w1, x.broker_ids@, f);
    if begins(total, w2) {
        law_numbers_round_trip(w1, x.broker_ids@, f, total);
        law_i32_round_trip(w0, x.partition_index, total);
    }
}

/// How a [`CreatableTopic`] is laid out.
pub proof fn law_creatable_topic_layout(x: CreatableTopic, f: Format, w: Writer, total: Seq<u8>)
    requires
        !w.failed(),
    ensures
        ({
            &&& text_fits(x.name@, f.flexible)
            &&& count_fits(x.assignments@.len(), f.flexible) && writable(x.assignments@, f)
            &&& count_fits(x.configs@.len(), f.flexible) && writable(x.configs@, f)
        }) ==> !x.written(f, w).failed(),
        begins(total, x.written(f, w)) ==> ({
            let r = behind(total, w);
            let (name, r) = r.nullable_string(f.flexible);
            let (num_partitions, r) = r.i32();
            let (replication_factor, r) = r.i16();
            let (assignments_count, r) = r.array_len(f.flexible);
            let assignments_start = r;
            let r = past(total, r, x.assignments@, f);
            let (configs_count, r) = r.array_len(f.flexible);
            let configs_start = r;
            let r = past(total, r, x.configs@, f);
            &&& name == Some(x.name@)
            &&& num_partitions == x.num_partitions
            &&& replication_factor == x.replication_factor
            &&& assignments_count == x.assignments@.len()
            &&& stands(total, assignments_start, x.assignments@, f)
            &&& configs_count == x.configs@.len()
            &&& stands(total, configs_start, x.configs@, f)
            &&& r == behind(total, x.written(f, w))
        }),
{
    let w0 = w;
    let w1 = w0.string(x.name@, f.flexible);
    let w2 = w1.i32(x.num_partitions);
    let w3 = w2.i16(x.replication_factor);
    let w4 = w3.array(x.assignments@, f);
    let w5 = w4.array(x.configs@, f);
    lemma_text_written(w0, Some(x.name@), f.flexible);
    lemma_array_written(w3, x.assignments@, f);
    lemma_array_written(w4, x.configs@, f);
    if begins(total, w5) {
        lemma_array_stands(w4, x.configs@, f, total);
        lemma_array_stands(w3, x.assignments@, f, total);
        law_i16_round_trip(w2, x.replication_factor, total);
        law_i32_round_trip(w1, x.num_partitions, total);
        law_nullable_string_round_trip(w0, Some(x.name@), f.flexible, total);
    }
}

/// How a [`CreateTopicsRequest`] is laid out in each version.
pub proof fn law_create_topics_request_layout(
    x: CreateTopicsRequest,
    version: i16,
    w: Writer,
    total: Seq<u8>,
)
    requires
        !w.failed(),
    ensures
        CreateTopicsRequest::request_name() == "CreateTopicsRequest",
        CreateTopicsRequest::encodes(version) <==> (0 <= version <= 2),
        (0 <= version <= 2) ==> ({
            let f = CreateTopicsRequest::request_format(version);
            &&& f.flexible <==> false
        }),
        (0 <= version <= 2) ==> ({
            let f = CreateTopicsRequest::request_format(version);
            (count_fits(x.topics@.len(), false) && writable(x.topics@, f))
        }) ==> !x.written_versioned(version, w).failed(),
        (0 <= version <= 2) ==> begins(total, x.written_versioned(version, w)) ==> ({
            let f = CreateTopicsRequest::request_format(version);
            let r = behind(total, w);
            let (topics_count, r) = r.array_len(false);
            let topics_start = r;
            let r = past(total, r, x.topics@, f);
            let (timeout_ms, r) = r.i32();
            let (validate_only, r) = if version >= 1 {
                let (v, r) = r.bool();
                (Some(v), r)
            } else {
                (None, r)
            };
            &&& topics_count == x.topics@.len()
            &&& stands(total, topics_start, x.topics@, f)
            &&& timeout_ms == x.timeout_ms
            &&& validate_only == (if version >= 1 {
                Some(x.validate_only)
            } else {
                None
            })
            &&& r == behind(total, x.written_versioned(version, w))
        }),
{
    if 0 <= version <= 2 {
        let f = CreateTopicsRequest::request_format(version);
        let w0 = w;
        let w1 = w0.array(x.topics@, f);
        let w2 = w1.i32(x.timeout_ms);
        let w3 = if version >= 1 {
            w2.bool(x.validate_only)
        } else {
            w2
        };
        lemma_array_written(w0, x.topics@, f);
        if begins(total, w3) {
            if version >= 1 {
                law_bool_round_trip(w2, x.validate_only, total);
            }
            law_i32_round_trip(w1, x.timeout_ms, total);
            lemma_array_stands(w0, x.topics@, f, total);
        }
        assert(x.written_versioned(version, w) == w3);
    }
}

/// How a [`DeleteTopicsRequest`] is laid out in each version.
pub proof fn law_delete_topics_request_layout(
    x: DeleteTopicsRequest,
    version: i16,
    w: Writer,
    total: Seq<u8>,
)
    requires
        !w.failed(),
    ensures
        DeleteTopicsRequest::request_name() == "DeleteTopicsRequest",
        DeleteTopicsRequest::encodes(version) <==> (0 <= version <= 1),
        (0 <= version <= 1) ==> ({
            let f = DeleteTopicsRequest::request_format(version);
            &&& f.flexible <==> false
        }),
        (0 <= version <= 1) ==> ({
            let f = DeleteTopicsRequest::request_format(version);
            (count_fits(x.topic_names@.len(), false) && writable(x.topic_names@, f))
        }) ==> !x.written_versioned(version, w).failed(),
        (0 <= version <= 1) ==> begins(total, x.written_versioned(version, w)) ==> ({
            let r = behind(total, w);
            let (topic_names, r) = r.string_array("", false);
            let (timeout_ms, r) = r.i32();
            &&& topic_names == views(x.topic_names@)
            &&& timeout_ms == x.timeout_ms
            &&& r == behind(total, x.written_versioned(version, w))
        }),
{
    if 0 <= version <= 1 {
        let f = DeleteTopicsRequest::request_format(version);
        let w0 = w;
        let w1 = w0.array(x.topic_names@, f);
        let w2 = w1.i32(x.timeout_ms);
        lemma_array_written(w0, x.topic_names@, f);
        if begins(total, w2) {
            law_i32_round_trip(w1, x.timeout_ms, total);
            law_texts_round_trip(w0, x.topic_names@, f, total);
        }
        assert(x.written_versioned(version, w) == w2);
    }
}

/// How a [`CreatePartitionsAssignment`] is laid out.
pub proof fn law_create_partitions_assignment_layout(
    x: CreatePartitionsAssignment,
    f: Format,
    w: Writer,
    total: Seq<u8>,
)
    requires
        !w.failed(),
    ensures
        (count_fits(x.broker_ids@.len(), f.flexible)) ==> !x.written(f, w).failed(),
        begins(total, x.written(f, w)) ==> ({
            let r = behind(total, w);
            let (broker_ids, r) = r.array::<i32>(f);
            &&& broker_ids == x.broker_ids@
            &&& r == behind(total, x.written(f, w))
        }),
{
    let w0 = w;
    let w1 = w0.array(x.broker_ids@, f);
    law_numbers_are_writable(x.broker_ids@, f);
    lemma_array_written(w0, x.broker_ids@, f);
    if begins(total, w1) {
        law_numbers_round_trip(w0, x.broker_ids@, f, total);
    }
}

/// How a [`CreatePartitionsTopic`] is laid out.
pub proof fn law_create_partitions_topic_layout(
    x: CreatePartitionsTopic,
    f: Format,
    w: Writer,
    total: Seq<u8>,
)
    requires
        !w.failed(),
    ensures
        ({
            &&& text_fits(x.name@, f.flexible)
            &&& x.assignments matches Some(items) ==> {
                &&& count_fits(items@.len(), f.flexible)
                &&& writable(items@, f)
            }
        }) ==> !x.written(f, w).failed(),
        begins(total, x.written(f, w)) ==> ({
            let r = behind(total, w);
            let (name, r) = r.nullable_string(f.flexible);
            let (count, r) = r.i32();
            let (assignments_count, r) = r.optional_array_len(f.flexible);
            let assignments_start = r;
            let r = match x.assignments {
                Some(items) => past(total, r, items@, f),
                None => r,
            };
            &&& name == Some(x.name@)
            &&& count == x.count
            &&& assignments_count == (match x.assignments {
                Some(items) => Some(items@.len()),
                None => None,
            })
            &&& x.assignments matches Some(items) ==> stands(total, assignments_start, items@, f)
            &&& r == behind(total, x.written(f, w))
        }),
{
    let w0 = w;
    let w1 = w0.string(x.name@, f.flexible);
    let w2 = w1.i32(x.count);
    let w3 = w2.optional_array(x.assignments, f);
    lemma_text_written(w0, Some(x.name@), f.flexible);
    if let Some(items) = x.assignments {
        lemma_array_written(w2, items@, f);
    }
    if begins(total, w3) {
        match x.assignments {
            Some(items) => {
                lemma_array_stands(w2, items@, f, total);
            },
            None => {
                law_null_array_round_trip(w2, f.flexible, total);
            },
        }
        law_i32_round_trip(w1, x.count, total);
        law_nullable_string_round_trip(w0, Some(x.name@), f.flexible, total);
    }
}

/// How a [`CreatePartitionsRequest`] is laid out in each version.
pub proof fn law_create_partitions_request_layout(
    x: CreatePartitionsRequest,
    version: i16,
    w: Writer,
    total: Seq<u8>,
)
    requires
        !w.failed(),
    ensures
        CreatePartitionsRequest::request_name() == "CreatePartitionsRequest",
        CreatePartitionsRequest::encodes(version) <==> (version == 0),
        (version == 0) ==> ({
            let f = CreatePartitionsRequest::request_format(version);
            &&& f.flexible <==> false
        }),
        (version == 0) ==> ({
            let f = CreatePartitionsRequest::request_format(version);
            (count_fits(x.topics@.len(), false) && writable(x.topics@, f))
        }) ==> !x.written_versioned(version, w).failed(),
        (version == 0) ==> begins(total, x.written_versioned(version, w)) ==> ({
            let f = CreatePartitionsRequest::request_format(version);
            let r = behind(total, w);
            let (topics_count, r) = r.array_len(false);
            let topics_start = r;
            let r = past(total, r, x.topics@, f);
            let (timeout_ms, r) = r.i32();
            let (validate_only, r) = r.bool();
            &&& topics_count == x.topics@.len()
            &&& stands(total, topics_start, x.topics@, f)
            &&& timeout_ms == x.timeout_ms
            &&& validate_only == x.validate_only
            &&& r == behind(total, x.written_versioned(version, w))
        }),
{
    if version == 0 {
        let f = CreatePartitionsRequest::request_format(version);
        let w0 = w;
        let w1 = w0.array(x.topics@, f);
        let w2 = w1.i32(x.timeout_ms);
        let w3 = w2.bool(x.validate_only);
        lemma_array_written(w0, x.topics@, f);
        if begins(total, w3) {
            law_bool_round_trip(w2, x.validate_only, total);
            law_i32_round_trip(w1, x.timeout_ms, total);
            lemma_array_stands(w0, x.topics@, f, total);
        }
        assert(x.written_versioned(version, w) == w3);
    }
}

/// How a [`DescribeConfigsResource`] is laid out.
pub proof fn law_describe_configs_resource_layout(
    x: DescribeConfigsResource,
    f: Format,
    w: Writer,
    total: Seq<u8>,
)
    requires
        !w.failed(),
    ensures
        ({
            &&& text_fits(x.resource_name@, f.flexible)
            &&& x.config_names matches Some(items) ==> {
                &&& count_fits(items@.len(), f.flexible)
                &&& writable(items@, f)
            }
        }) ==> !x.written(f, w).failed(),
        begins(total, x.written(f, w)) ==> ({
            let r = behind(total, w);
            let (resource_type, r) = r.i8();
            let (resource_name, r) = r.nullable_string(f.flexible);
            let (config_names_count, r) = r.optional_array_len(f.flexible);
            let config_names_start = r;
            let r = match x.config_names {
                Some(items) => past(total, r, items@, f),
                None => r,
            };
            &&& resource_type == x.resource_type.code()
            &&& resource_name == Some(x.resource_name@)
            &&& config_names_count == (match x.config_names {
                Some(items) => Some(items@.len()),
                None => None,
            })
            &&& x.config_names matches Some(items) ==> stands(total, config_names_start, items@, f)
            &&& r == behind(total, x.written(f, w))
        }),
{
    let w0 = w;
    let w1 = w0.i8(x.resource_type.code());
    let w2 = w1.string(x.resource_name@, f.flexible);
    let w3 = w2.optional_array(x.config_names, f);
    lemma_text_written(w1, Some(x.resource_name@), f.flexible);
    if let Some(items) = x.config_names {
        lemma_array_written(w2, items@, f);
    }
    if begins(total, w3) {
        match x.config_names {
            Some(items) => {
                lemma_array_stands(w2, items@, f, total);
            },
            None => {
                law_null_array_round_trip(w2, f.flexible, total);
            },
        }
        law_nullable_string_round_trip(w1, Some(x.resource_name@), f.flexible, total);
        law_i8_round_trip(w0, x.resource_type.code(), total);
    }
}

/// How a [`DescribeConfigsRequest`] is laid out in each version.
pub proof fn law_describe_configs_request_layout(
    x: DescribeConfigsRequest,
    version: i16,
    w: Writer,
    total: Seq<u8>,
)
    requires
        !w.failed(),
    ensures
        DescribeConfigsRequest::request_name() == "DescribeConfigsRequest",
        DescribeConfigsRequest::encodes(version) <==> (version == 0),
        (version == 0) ==> ({
            let f = DescribeConfigsRequest::request_format(version);
            &&& f.flexible <==> false
        }),
        (version == 0) ==> ({
            let f = DescribeConfigsRequest::request_format(version);
            (count_fits(x.resources@.len(), false) && writable(x.resources@, f))
        }) ==> !x.written_versioned(version, w).failed(),
        (version == 0) ==> begins(total, x.written_versioned(version, w)) ==> ({
            let f = DescribeConfigsRequest::request_format(version);
            let r = behind(total, w);
            let (resources_count, r) = r.array_len(false);
            let resources_start = r;
            let r = past(total, r, x.resources@, f);
            &&& resources_count == x.resources@.len()
            &&& stands(total, resources_start, x.resources@, f)
            &&& r == behind(total, x.written_versioned(version, w))
        }),
{
    if version == 0 {
        let f = DescribeConfigsRequest::request_format(version);
        let w0 = w;
        let w1 = w0.array(x.resources@, f);
        lemma_array_written(w0, x.resources@, f);
        if begins(total, w1) {
            lemma_array_stands(w0, x.resources@, f, total);
        }
        assert(x.written_versioned(version, w) == w1);
    }
}

/// How a [`AlterConfigsEntry`] is laid out.
pub proof fn law_alter_configs_entry_layout(
    x: AlterConfigsEntry,
    f: Format,
    w: Writer,
    total: Seq<u8>,
)
    requires
        !w.failed(),
    ensures
        ({
            &&& text_fits(x.name@, f.flexible)
            &&& optional_text_fits(optional_text(x.value), f.flexible)
        }) ==> !x.written(f, w).failed(),
        begins(total, x.written(f, w)) ==> ({
            let r = behind(total, w);
            let (name, r) = r.nullable_string(f.flexible);
            let (value, r) = r.nullable_string(f.flexible);
            &&& name == Some(x.name@)
            &&& value == optional_text(x.value)
            &&& r == behind(total, x.written(f, w))
        }),
{
    let w0 = w;
    let w1 = w0.string(x.name@, f.flexible);
    let w2 = w1.nullable_string(optional_text(x.value), f.flexible);
    lemma_text_written(w0, Some(x.name@), f.flexible);
    lemma_text_written(w1, optional_text(x.value), f.flexible);
    if begins(total, w2) {
        law_nullable_string_round_trip(w1, optional_text(x.value), f.flexible, total);
        law_nullable_string_round_trip(w0, Some(x.name@), f.flexible, total);
    }
}

/// How a [`AlterConfigsResource`] is laid out.
pub proof fn law_alter_configs_resource_layout(
    x: AlterConfigsResource,
    f: Format,
    w: Writer,
    total: Seq<u8>,
)
    requires
        !w.failed(),
    ensures
        ({
            &&& text_fits(x.resource_name@, f.flexible)
            &&& count_fits(x.configs@.len(), f.flexible) && writable(x.configs@, f)
        }) ==> !x.written(f, w).failed(),
        begins(total, x.written(f, w)) ==> ({
            let r = behind(total, w);
            let (resource_type, r) = r.i8();
            let (resource_name, r) = r.nullable_string(f.flexible);
            let (configs_count, r) = r.array_len(f.flexible);
            let configs_start = r;
            let r = past(total, r, x.configs@, f);
            &&& resource_type == x.resource_type.code()
            &&& resource_name == Some(x.resource_name@)
            &&& configs_count == x.configs@.len()
            &&& stands(total, configs_start, x.configs@, f)
            &&& r == behind(total, x.written(f, w))
        }),
{
    let w0 = w;
    let w1 = w0.i8(x.resource_type.code());
    let w2 = w1.string(x.resource_name@, f.flexible);
    let w3 = w2.array(x.configs@, f);
    lemma_text_written(w1, Some(x.resource_name@), f.flexible);
    lemma_array_written(w2, x.configs@, f);
    if begins(total, w3) {
        lemma_array_stands(w2, x.configs@, f, total);
        law_nullable_string_round_trip(w1, Some(x.resource_name@), f.flexible, total);
        law_i8_round_trip(w0, x.resource_type.code(), total);
    }
}

/// How a [`AlterConfigsRequest`] is laid out in each version.
pub proof fn law_alter_configs_request_layout(
    x: AlterConfigsRequest,
    version: i16,
    w: Writer,
    total: Seq<u8>,
)
    requires
        !w.failed(),
    ensures
        AlterConfigsRequest::request_name() == "AlterConfigsRequest",
        AlterConfigsRequest::encodes(version) <==> (version == 0),
        (version == 0) ==> ({
            let f = AlterConfigsRequest::request_format(version);
            &&& f.flexible <==> false
        }),
        (version == 0) ==> ({
            let f = AlterConfigsRequest::request_format(version);
            (count_fits(x.resources@.len(), false) && writable(x.resources@, f))
        }) ==> !x.written_versioned(version, w).failed(),
        (version == 0) ==> begins(total, x.written_versioned(version, w)) ==> ({
            let f = AlterConfigsRequest::request_format(version);
            let r = behind(total, w);
            let (resources_count, r) = r.array_len(false);
            let resources_start = r;
            let r = past(total, r, x.resources@, f);
            let (validate_only, r) = r.bool();
            &&& resources_count == x.resources@.len()
            &&& stands(total, resources_start, x.resources@, f)
            &&& validate_only == x.validate_only
            &&& r == behind(total, x.written_versioned(version, w))
        }),
{
    if version == 0 {
        let f = AlterConfigsRequest::request_format(version);
        let w0 = w;
        let w1 = w0.array(x.resources@, f);
        let w2 = w1.bool(x.validate_only);
        lemma_array_written(w0, x.resources@, f);
        if begins(total, w2) {
            law_bool_round_trip(w1, x.validate_only, total);
            lemma_array_stands(w0, x.resources@, f, total);
        }
        assert(x.written_versioned(version, w) == w2);
    }
}

/// How a [`DeleteRecordsPartition`] is laid out.
pub proof fn law_delete_records_partition_layout(
    x: DeleteRecordsPartition,
    f: Format,
    w: Writer,
    total: Seq<u8>,
)
    requires
        !w.failed(),
    ensures
        !x.written(f, w).failed(),
        begins(total, x.written(f, w)) ==> ({
            let r = behind(total, w);
            let (partition_index, r) = r.i32();
            let (offset, r) = r.i64();
            &&& partition_index == x.partition_index
            &&& offset == x.offset
            &&& r == behind(total, x.written(f, w))
        }),
{
    let w0 = w;
    let w1 = w0.i32(x.partition_index);
    let w2 = w1.i64(x.offset);
    if begins(total, w2) {
        law_i64_round_trip(w1, x.offset, total);
        law_i32_round_trip(w0, x.partition_index, total);
    }
}

/// How a [`DeleteRecordsTopic`] is laid out.
pub proof fn law_delete_records_topic_layout(
    x: DeleteRecordsTopic,
    f: Format,
    w: Writer,
    total: Seq<u8>,
)
    requires
        !w.failed(),
    ensures
        ({
            &&& text_fits(x.name@, f.flexible)
            &&& count_fits(x.partitions@.len(), f.flexible) && writable(x.partitions@, f)
        }) ==> !x.written(f, w).failed(),
        begins(total, x.written(f, w)) ==> ({
            let r = behind(total, w);
            let (name, r) = r.nullable_string(f.flexible);
            let (partitions_count, r) = r.array_len(f.flexible);
            let partitions_start = r;
            let r = past(total, r, x.partitions@, f);
            &&& name == Some(x.name@)
            &&& partitions_count == x.partitions@.len()
            &&& stands(total, partitions_start, x.partitions@, f)
            &&& r == behind(total, x.written(f, w))
        }),
{
    let w0 = w;
    let w1 = w0.string(x.name@, f.flexible);
    let w2 = w1.array(x.partitions@, f);
    lemma_text_written(w0, Some(x.name@), f.flexible);
    lemma_array_written(w1, x.partitions@, f);
    if begins(total, w2) {
        lemma_array_stands(w1, x.partitions@, f, total);
        law_nullable_string_round_trip(w0, Some(x.name@), f.flexible, total);
    }
}

/// How a [`DeleteRecordsRequest`] is laid out in each version.
pub proof fn law_delete_records_request_layout(
    x: DeleteRecordsRequest,
    version: i16,
    w: Writer,
    total: Seq<u8>,
)
    requires
        !w.failed(),
    ensures
        DeleteRecordsRequest::request_name() == "DeleteRecordsRequest",
        DeleteRecordsRequest::encodes(version) <==> (version == 0),
        (version == 0) ==> ({
            let f = DeleteRecordsRequest::request_format(version);
            &&& f.flexible <==> false
        }),
        (version == 0) ==> ({
            let f = DeleteRecordsRequest::request_format(version);
            (count_fits(x.topics@.len(), false) && writable(x.topics@, f))
        }) ==> !x.written_versioned(version, w).failed(),
        (version == 0) ==> begins(total, x.written_versioned(version, w)) ==> ({
            let f = DeleteRecordsRequest::request_format(version);
            let r = behind(total, w);
            let (topics_count, r) = r.array_len(false);
            let topics_start = r;
            let r = past(total, r, x.topics@, f);
            let (timeout_ms, r) = r.i32();
            &&& topics_count == x.topics@.len()
            &&& stands(total, topics_start, x.topics@, f)
            &&& timeout_ms == x.timeout_ms
            &&& r == behind(total, x.written_versioned(version, w))
        }),
{
    if version == 0 {
        let f = DeleteRecordsRequest::request_format(version);
        let w0 = w;
        let w1 = w0.array(x.topics@, f);
        let w2 = w1.i32(x.timeout_ms);
        lemma_array_written(w0, x.topics@, f);
        if begins(total, w2) {
            law_i32_round_trip(w1, x.timeout_ms, total);
            lemma_array_stands(w0, x.topics@, f, total);
        }
        assert(x.written_versioned(version, w) == w2);
    }
}

/// How a [`CreatableTopicResult`] is laid out.
pub proof fn law_creatable_topic_result_layout(
    x: CreatableTopicResult,
    f: Format,
    name: Option<Seq<char>>,
    error_code: i16,
    error_message: Option<Seq<char>>,
    rest: Seq<u8>,
)
    ensures
        ({
            let w = Writer::at(Seq::empty());
            let w = w.nullable_string(name, f.flexible);
            let w = w.i16(error_code);
            let w = if f.version >= 1 {
                w.nullable_string(error_message, f.flexible)
            } else {
                w
            };
            let (read, r) = CreatableTopicResult::read(f, Reader::on(w.bytes + rest));
            !w.failed() ==> {
                &&& r == Reader::on(rest)
                &&& x@ == read ==> {
                    &&& x.name@ == or_empty(name)
                    &&& x.error_code == ErrorCode::of(error_code)
                    &&& optional_text(x.error_message) == (if f.version >= 1 {
                        error_message
                    } else {
                        None
                    })
                    &&& x.num_partitions == (-1) as i32
                    &&& x.replication_factor == (-1) as i16
                }
            }
        }),
{
    let w0 = Writer::at(Seq::empty());
    let w1 = w0.nullable_string(name, f.flexible);
    let w2 = w1.i16(error_code);
    let w3 = if f.version >= 1 {
        w2.nullable_string(error_message, f.flexible)
    } else {
        w2
    };
    if !w3.failed() {
        let total = w3.bytes + rest;
        assert(total.take(w3.bytes.len() as int) =~= w3.bytes);
        assert(total.skip(w3.bytes.len() as int) =~= rest);
        if f.version >= 1 {
            law_nullable_string_round_trip(w2, error_message, f.flexible, total);
        }
        law_i16_round_trip(w1, error_code, total);
        law_nullable_string_round_trip(w0, name, f.flexible, total);
        assert(total.skip(0) =~= total);
    }
}

/// How a [`CreateTopicsResponse`] is laid out in each version.
#[verifier::rlimit(60)]
pub proof fn law_create_topics_response_layout(
    x: CreateTopicsResponse,
    version: i16,
    throttle_time_ms: i32,
    topics: Seq<CreatableTopicResultView>,
    topics_bytes: Seq<Seq<u8>>,
    rest: Seq<u8>,
)
    requires
        elements::<CreatableTopicResult>(
            CreateTopicsResponse::response_format(version),
            topics_bytes,
            topics,
        ),
    ensures
        CreateTopicsResponse::response_name() == "CreateTopicsResponse",
        CreateTopicsResponse::decodes(version) <==> (0 <= version <= 2),
        (0 <= version <= 2) ==> ({
            let f = CreateTopicsResponse::response_format(version);
            &&& f.flexible <==> false
            &&& (f.version >= 1) <==> (version >= 1)
        }),
        (0 <= version <= 2) ==> ({
            let w = Writer::at(Seq::empty());
            let w = if version >= 2 {
                w.i32(throttle_time_ms)
            } else {
                w
            };
            let w = w.array_len(topics_bytes.len(), false).raw(topics_bytes.flatten());
            let (read, r) = CreateTopicsResponse::read_versioned(
                version,
                Reader::on(w.bytes + rest),
            );
            !w.failed() ==> {
                &&& r == Reader::on(rest)
                &&& x@ == read ==> {
                    &&& x.throttle_time_ms == (if version >= 2 {
                        throttle_time_ms
                    } else {
                        0
                    })
                    &&& views(x.topics@) == topics
                }
            }
        }),
{
    if 0 <= version <= 2 {
        let f = CreateTopicsResponse::response_format(version);
        let w0 = Writer::at(Seq::empty());
        let w1 = if version >= 2 {
            w0.i32(throttle_time_ms)
        } else {
            w0
        };
        let w2 = w1.array_len(topics_bytes.len(), false).raw(topics_bytes.flatten());
        if !w2.failed() {
            let total = w2.bytes + rest;
            assert(total.take(w2.bytes.len() as int) =~= w2.bytes);
            assert(total.skip(w2.bytes.len() as int) =~= rest);
            lemma_array_read::<CreatableTopicResult>(w1, f, topics_bytes, topics, total);
            if version >= 2 {
                law_i32_round_trip(w0, throttle_time_ms, total);
            }
            assert(total.skip(0) =~= total);
        }
    }
}

/// How a [`DeletableTopicResult`] is laid out.
pub proof fn law_deletable_topic_result_layout(
    x: DeletableTopicResult,
    f: Format,
    name: Option<Seq<char>>,
    error_code: i16,
    rest: Seq<u8>,
)
    ensures
        ({
            let w = Writer::at(Seq::empty());
            let w = w.nullable_string(name, f.flexible);
            let w = w.i16(error_code);
            let (read, r) = DeletableTopicResult::read(f, Reader::on(w.bytes + rest));
            !w.failed() ==> {
                &&& r == Reader::on(rest)
                &&& x@ == read ==> {
                    &&& optional_text(x.name) == name
                    &&& x.error_code == ErrorCode::of(error_code)
                    &&& optional_text(x.error_message) == None::<Seq<char>>
                }
            }
        }),
{
    let w0 = Writer::at(Seq::empty());
    let w1 = w0.nullable_string(name, f.flexible);
    let w2 = w1.i16(error_code);
    if !w2.failed() {
        let total = w2.bytes + rest;
        assert(total.take(w2.bytes.len() as int) =~= w2.bytes);
        assert(total.skip(w2.bytes.len() as int) =~= rest);
        law_i16_round_trip(w1, error_code, total);
        law_nullable_string_round_trip(w0, name, f.flexible, total);
        assert(total.skip(0) =~= total);
    }
}

/// How a [`DeleteTopicsResponse`] is laid out in each version.
#[verifier::rlimit(60)]
pub proof fn law_delete_topics_response_layout(
    x: DeleteTopicsResponse,
    version: i16,
    throttle_time_ms: i32,
    responses: Seq<DeletableTopicResultView>,
    responses_bytes: Seq<Seq<u8>>,
    rest: Seq<u8>,
)
    requires
        elements::<DeletableTopicResult>(
            DeleteTopicsResponse::response_format(version),
            responses_bytes,
            responses,
        ),
    ensures
        DeleteTopicsResponse::response_name() == "DeleteTopicsResponse",
        DeleteTopicsResponse::decodes(version) <==> (0 <= version <= 1),
        (0 <= version <= 1) ==> ({
            let f = DeleteTopicsResponse::response_format(version);
            &&& f.flexible <==> false
        }),
        (0 <= version <= 1) ==> ({
            let w = Writer::at(Seq::empty());
            let w = if version >= 1 {
                w.i32(throttle_time_ms)
            } else {
                w
            };
            let w = w.array_len(responses_bytes.len(), false).raw(responses_bytes.flatten());
            let (read, r) = DeleteTopicsResponse::read_versioned(
                version,
                Reader::on(w.bytes + rest),
            );
            !w.failed() ==> {
                &&& r == Reader::on(rest)
                &&& x@ == read ==> {
                    &&& x.throttle_time_ms == (if version >= 1 {
                        throttle_time_ms
                    } else {
                        0
                    })
                    &&& views(x.responses@) == responses
                }
            }
        }),
{
    if 0 <= version <= 1 {
        let f = DeleteTopicsResponse::response_format(version);
        let w0 = Writer::at(Seq::empty());
        let w1 = if version >= 1 {
            w0.i32(throttle_time_ms)
        } else {
            w0
        };
        let w2 = w1.array_len(responses_bytes.len(), false).raw(responses_bytes.flatten());
        if !w2.failed() {
            let total = w2.bytes + rest;
            assert(total.take(w2.bytes.len() as int) =~= w2.bytes);
            assert(total.skip(w2.bytes.len() as int) =~= rest);
            lemma_array_read::<DeletableTopicResult>(w1, f, responses_bytes, responses, total);
            if version >= 1 {
                law_i32_round_trip(w0, throttle_time_ms, total);
            }
            assert(total.skip(0) =~= total);
        }
    }
}

/// How a [`CreatePartitionsTopicResult`] is laid out.
pub proof fn law_create_partitions_topic_result_layout(
    x: CreatePartitionsTopicResult,
    f: Format,
    name: Option<Seq<char>>,
    error_code: i16,
    error_message: Option<Seq<char>>,
    rest: Seq<u8>,
)
    ensures
        ({
            let w = Writer::at(Seq::empty());
            let w = w.nullable_string(name, f.flexible);
            let w = w.i16(error_code);
            let w = w.nullable_string(error_message, f.flexible);
            let (read, r) = CreatePartitionsTopicResult::read(f, Reader::on(w.bytes + rest));
            !w.failed() ==> {
                &&& r == Reader::on(rest)
                &&& x@ == read ==> {
                    &&& x.name@ == or_empty(name)
                    &&& x.error_code == ErrorCode::of(error_code)
                    &&& optional_text(x.error_message) == error_message
                }
            }
        }),
{
    let w0 = Writer::at(Seq::empty());
    let w1 = w0.nullable_string(name, f.flexible);
    let w2 = w1.i16(error_code);
    let w3 = w2.nullable_string(error_message, f.flexible);
    if !w3.failed() {
        let total = w3.bytes + rest;
        assert(total.take(w3.bytes.len() as int) =~= w3.bytes);
        assert(total.skip(w3.bytes.len() as int) =~= rest);
        law_nullable_string_round_trip(w2, error_message, f.flexible, total);
        law_i16_round_trip(w1, error_code, total);
        law_nullable_string_round_trip(w0, name, f.flexible, total);
        assert(total.skip(0) =~= total);
    }
}

/// How a [`CreatePartitionsResponse`] is laid out in each version.
#[verifier::rlimit(60)]
pub proof fn law_create_partitions_response_layout(
    x: CreatePartitionsResponse,
    version: i16,
    throttle_time_ms: i32,
    results: Seq<CreatePartitionsTopicResultView>,
    results_bytes: Seq<Seq<u8>>,
    rest: Seq<u8>,
)
    requires
        elements::<CreatePartitionsTopicResult>(
            CreatePartitionsResponse::response_format(version),
            results_bytes,
            results,
        ),
    ensures
        CreatePartitionsResponse::response_name() == "CreatePartitionsResponse",
        CreatePartitionsResponse::decodes(version) <==> (version == 0),
        (version == 0) ==> ({
            let f = CreatePartitionsResponse::response_format(version);
            &&& f.flexible <==> false
        }),
        (version == 0) ==> ({
            let w = Writer::at(Seq::empty());
            let w = w.i32(throttle_time_ms);
            let w = w.array_len(results_bytes.len(), false).raw(results_bytes.flatten());
            let (read, r) = CreatePartitionsResponse::read_versioned(
                version,
                Reader::on(w.bytes + rest),
            );
            !w.failed() ==> {
                &&& r == Reader::on(rest)
                &&& x@ == read ==> {
                    &&& x.throttle_time_ms == throttle_time_ms
                    &&& views(x.results@) == results
                }
            }
        }),
{
    if version == 0 {
        let f = CreatePartitionsResponse::response_format(version);
        let w0 = Writer::at(Seq::empty());
        let w1 = w0.i32(throttle_time_ms);
        let w2 = w1.array_len(results_bytes.len(), false).raw(results_bytes.flatten());
        if !w2.failed() {
            let total = w2.bytes + rest;
            assert(total.take(w2.bytes.len() as int) =~= w2.bytes);
            assert(total.skip(w2.bytes.len() as int) =~= rest);
            lemma_array_read::<CreatePartitionsTopicResult>(w1, f, results_bytes, results, total);
            law_i32_round_trip(w0, throttle_time_ms, total);
            assert(total.skip(0) =~= total);
        }
    }
}

/// How a [`DescribeConfigsEntry`] is laid out.
pub proof fn law_describe_configs_entry_layout(
    x: DescribeConfigsEntry,
    f: Format,
    name: Option<Seq<char>>,
    value: Option<Seq<char>>,
    read_only: bool,
    is_default: bool,
    is_sensitive: bool,
    rest: Seq<u8>,
)
    ensures
        ({
            let w = Writer::at(Seq::empty());
            let w = w.nullable_string(name, f.flexible);
            let w = w.nullable_string(value, f.flexible);
            let w = w.bool(read_only);
            let w = w.bool(is_default);
            let w = w.bool(is_sensitive);
            let (read, r) = DescribeConfigsEntry::read(f, Reader::on(w.bytes + rest));
            !w.failed() ==> {
                &&& r == Reader::on(rest)
                &&& x@ == read ==> {
                    &&& x.name@ == or_empty(name)
                    &&& optional_text(x.value) == value
                    &&& x.read_only == read_only
                    &&& x.is_default == is_default
                    &&& x.is_sensitive == is_sensitive
                }
            }
        }),
{
    let w0 = Writer::at(Seq::empty());
    let w1 = w0.nullable_string(name, f.flexible);
    let w2 = w1.nullable_string(value, f.flexible);
    let w3 = w2.bool(read_only);
    let w4 = w3.bool(is_default);
    let w5 = w4.bool(is_sensitive);
    if !w5.failed() {
        let total = w5.bytes + rest;
        assert(total.take(w5.bytes.len() as int) =~= w5.bytes);
        assert(total.skip(w5.bytes.len() as int) =~= rest);
        law_bool_round_trip(w4, is_sensitive, total);
        law_bool_round_trip(w3, is_default, total);
        law_bool_round_trip(w2, read_only, total);
        law_nullable_string_round_trip(w1, value, f.flexible, total);
        law_nullable_string_round_trip(w0, name, f.flexible, total);
        assert(total.skip(0) =~= total);
    }
}

/// How a [`DescribeConfigsResult`] is laid out.
#[verifier::rlimit(60)]
pub proof fn law_describe_configs_result_layout(
    x: DescribeConfigsResult,
    f: Format,
    error_code: i16,
    error_message: Option<Seq<char>>,
    resource_type: i8,
    resource_name: Option<Seq<char>>,
    configs: Seq<DescribeConfigsEntryView>,
    configs_bytes: Seq<Seq<u8>>,
    rest: Seq<u8>,
)
    requires
        elements::<DescribeConfigsEntry>(f, configs_bytes, configs),
    ensures
        ({
            let w = Writer::at(Seq::empty());
            let w = w.i16(error_code);
            let w = w.nullable_string(error_message, f.flexible);
            let w = w.i8(resource_type);
            let w = w.nullable_string(resource_name, f.flexible);
            let w = w.array_len(configs_bytes.len(), f.flexible).raw(configs_bytes.flatten());
            let (read, r) = DescribeConfigsResult::read(f, Reader::on(w.bytes + rest));
            !w.failed() ==> {
                &&& r == Reader::on(rest)
                &&& x@ == read ==> {
                    &&& x.error_code == ErrorCode::of(error_code)
                    &&& optional_text(x.error_message) == error_message
                    &&& x.resource_type == ConfigResourceType::of(resource_type)
                    &&& x.resource_name@ == or_empty(resource_name)
                    &&& views(x.configs@) == configs
                }
            }
        }),
{
    let w0 = Writer::at(Seq::empty());
    let w1 = w0.i16(error_code);
    let w2 = w1.nullable_string(error_message, f.flexible);
    let w3 = w2.i8(resource_type);
    let w4 = w3.nullable_string(resource_name, f.flexible);
    let w5 = w4.array_len(configs_bytes.len(), f.flexible).raw(configs_bytes.flatten());
    if !w5.failed() {
        let total = w5.bytes + rest;
        assert(total.take(w5.bytes.len() as int) =~= w5.bytes);
        assert(total.skip(w5.bytes.len() as int) =~= rest);
        lemma_array_read::<DescribeConfigsEntry>(w4, f, configs_bytes, configs, total);
        law_nullable_string_round_trip(w3, resource_name, f.flexible, total);
        law_i8_round_trip(w2, resource_type, total);
        law_nullable_string_round_trip(w1, error_message, f.flexible, total);
        law_i16_round_trip(w0, error_code, total);
        assert(total.skip(0) =~= total);
    }
}

/// How a [`DescribeConfigsResponse`] is laid out in each version.
#[verifier::rlimit(60)]
pub proof fn law_describe_configs_response_layout(
    x: DescribeConfigsResponse,
    version: i16,
    throttle_time_ms: i32,
    results: Seq<DescribeConfigsResultView>,
    results_bytes: Seq<Seq<u8>>,
    rest: Seq<u8>,
)
    requires
        elements::<DescribeConfigsResult>(
            DescribeConfigsResponse::response_format(version),
            results_bytes,
            results,
        ),
    ensures
        DescribeConfigsResponse::response_name() == "DescribeConfigsResponse",
        DescribeConfigsResponse::decodes(version) <==> (version == 0),
        (version == 0) ==> ({
            let f = DescribeConfigsResponse::response_format(version);
            &&& f.flexible <==> false
        }),
        (version == 0) ==> ({
            let w = Writer::at(Seq::empty());
            let w = w.i32(throttle_time_ms);
            let w = w.array_len(results_bytes.len(), false).raw(results_bytes.flatten());
            let (read, r) = DescribeConfigsResponse::read_versioned(
                version,
                Reader::on(w.bytes + rest),
            );
            !w.failed() ==> {
                &&& r == Reader::on(rest)
                &&& x@ == read ==> {
                    &&& x.throttle_time_ms == throttle_time_ms
                    &&& views(x.results@) == results
                }
            }
        }),
{
    if version == 0 {
        let f = DescribeConfigsResponse::response_format(version);
        let w0 = Writer::at(Seq::empty());
        let w1 = w0.i32(throttle_time_ms);
        let w2 = w1.array_len(results_bytes.len(), false).raw(results_bytes.flatten());
        if !w2.failed() {
            let total = w2.bytes + rest;
            assert(total.take(w2.bytes.len() as int) =~= w2.bytes);
            assert(total.skip(w2.bytes.len() as int) =~= rest);
            lemma_array_read::<DescribeConfigsResult>(w1, f, results_bytes, results, total);
            law_i32_round_trip(w0, throttle_time_ms, total);
            assert(total.skip(0) =~= total);
        }
    }
}

/// How a [`AlterConfigsResult`] is laid out.
pub proof fn law_alter_configs_result_layout(
    x: AlterConfigsResult,
    f: Format,
    error_code: i16,
    error_message: Option<Seq<char>>,
    resource_type: i8,
    resource_name: Option<Seq<char>>,
    rest: Seq<u8>,
)
    ensures
        ({
            let w = Writer::at(Seq::empty());
            let w = w.i16(error_code);
            let w = w.nullable_string(error_message, f.flexible);
            let w = w.i8(resource_type);
            let w = w.nullable_string(resource_name, f.flexible);
            let (read, r) = AlterConfigsResult::read(f, Reader::on(w.bytes + rest));
            !w.failed() ==> {
                &&& r == Reader::on(rest)
                &&& x@ == read ==> {
                    &&& x.error_code == ErrorCode::of(error_code)
                    &&& optional_text(x.error_message) == error_message
                    &&& x.resource_type == ConfigResourceType::of(resource_type)
                    &&& x.resource_name@ == or_empty(resource_name)
                }
            }
        }),
{
    let w0 = Writer::at(Seq::empty());
    let w1 = w0.i16(error_code);
    let w2 = w1.nullable_string(error_message, f.flexible);
    let w3 = w2.i8(resource_type);
    let w4 = w3.nullable_string(resource_name, f.flexible);
    if !w4.failed() {
        let total = w4.bytes + rest;
        assert(total.take(w4.bytes.len() as int) =~= w4.bytes);
        assert(total.skip(w4.bytes.len() as int) =~= rest);
        law_nullable_string_round_trip(w3, resource_name, f.flexible, total);
        law_i8_round_trip(w2, resource_type, total);
        law_nullable_string_round_trip(w1, error_message, f.flexible, total);
        law_i16_round_trip(w0, error_code, total);
        assert(total.skip(0) =~= total);
    }
}

/// How a [`AlterConfigsResponse`] is laid out in each version.
#[verifier::rlimit(60)]
pub proof fn law_alter_configs_response_layout(
    x: AlterConfigsResponse,
    version: i16,
    throttle_time_ms: i32,
    results: Seq<AlterConfigsResultView>,
    results_bytes: Seq<Seq<u8>>,
    rest: Seq<u8>,
)
    requires
        elements::<AlterConfigsResult>(
            AlterConfigsResponse::response_format(version),
            results_bytes,
            results,
        ),
    ensures
        AlterConfigsResponse::response_name() == "AlterConfigsResponse",
        AlterConfigsResponse::decodes(version) <==> (version == 0),
        (version == 0) ==> ({
            let f = AlterConfigsResponse::response_format(version);
            &&& f.flexible <==> false
        }),
        (version == 0) ==> ({
            let w = Writer::at(Seq::empty());
            let w = w.i32(throttle_time_ms);
            let w = w.array_len(results_bytes.len(), false).raw(results_bytes.flatten());
            let (read, r) = AlterConfigsResponse::read_versioned(
                version,
                Reader::on(w.bytes + rest),
            );
            !w.failed() ==> {
                &&& r == Reader::on(rest)
                &&& x@ == read ==> {
                    &&& x.throttle_time_ms == throttle_time_ms
                    &&& views(x.results@) == results
                }
            }
        }),
{
    if version == 0 {
        let f = AlterConfigsResponse::response_format(version);
        let w0 = Writer::at(Seq::empty());
        let w1 = w0.i32(throttle_time_ms);
        let w2 = w1.array_len(results_bytes.len(), false).raw(results_bytes.flatten());
        if !w2.failed() {
            let total = w2.bytes + rest;
            assert(total.take(w2.bytes.len() as int) =~= w2.bytes);
            assert(total.skip(w2.bytes.len() as int) =~= rest);
            lemma_array_read::<AlterConfigsResult>(w1, f, results_bytes, results, total);
            law_i32_round_trip(w0, throttle_time_ms, total);
            assert(total.skip(0) =~= total);
        }
    }
}

/// How a [`DeleteRecordsPartitionResult`] is laid out.
pub proof fn law_delete_records_partition_result_layout(
    x: DeleteRecordsPartitionResult,
    f: Format,
    partition_index: i32,
    low_watermark: i64,
    error_code: i16,
    rest: Seq<u8>,
)
    ensures
        ({
            let w = Writer::at(Seq::empty());
            let w = w.i32(partition_index);
            let w = w.i64(low_watermark);
            let w = w.i16(error_code);
            let (read, r) = DeleteRecordsPartitionResult::read(f, Reader::on(w.bytes + rest));
            !w.failed() ==> {
                &&& r == Reader::on(rest)
                &&& x@ == read ==> {
                    &&& x.partition_index == partition_index
                    &&& x.low_watermark == low_watermark
                    &&& x.error_code == ErrorCode::of(error_code)
                }
            }
        }),
{
    let w0 = Writer::at(Seq::empty());
    let w1 = w0.i32(partition_index);
    let w2 = w1.i64(low_watermark);
    let w3 = w2.i16(error_code);
    if !w3.failed() {
        let total = w3.bytes + rest;
        assert(total.take(w3.bytes.len() as int) =~= w3.bytes);
        assert(total.skip(w3.bytes.len() as int) =~= rest);
        law_i16_round_trip(w2, error_code, total);
        law_i64_round_trip(w1, low_watermark, total);
        law_i32_round_trip(w0, partition_index, total);
        assert(total.skip(0) =~= total);
    }
}

/// How a [`DeleteRecordsTopicResult`] is laid out.
#[verifier::rlimit(60)]
pub proof fn law_delete_records_topic_result_layout(
    x: DeleteRecordsTopicResult,
    f: Format,
    name: Option<Seq<char>>,
    partitions: Seq<DeleteRecordsPartitionResult>,
    partitions_bytes: Seq<Seq<u8>>,
    rest: Seq<u8>,
)
    requires
        elements::<DeleteRecordsPartitionResult>(f, partitions_bytes, partitions),
    ensures
        ({
            let w = Writer::at(Seq::empty());
            let w = w.nullable_string(name, f.flexible);
            let w = w.array_len(partitions_bytes.len(), f.flexible).raw(partitions_bytes.flatten());
            let (read, r) = DeleteRecordsTopicResult::read(f, Reader::on(w.bytes + rest));
            !w.failed() ==> {
                &&& r == Reader::on(rest)
                &&& x@ == read ==> {
                    &&& x.name@ == or_empty(name)
                    &&& views(x.partitions@) == partitions
                }
            }
        }),
{
    let w0 = Writer::at(Seq::empty());
    let w1 = w0.nullable_string(name, f.flexible);
    let w2 = w1.array_len(partitions_bytes.len(), f.flexible).raw(partitions_bytes.flatten());
    if !w2.failed() {
        let total = w2.bytes + rest;
        assert(total.take(w2.bytes.len() as int) =~= w2.bytes);
        assert(total.skip(w2.bytes.len() as int) =~= rest);
        lemma_array_read::<DeleteRecordsPartitionResult>(
            w1,
            f,
            partitions_bytes,
            partitions,
            total,
        );
        law_nullable_string_round_trip(w0, name, f.flexible, total);
        assert(total.skip(0) =~= total);
    }
}

/// How a [`DeleteRecordsResponse`] is laid out in each version.
#[verifier::rlimit(60)]
pub proof fn law_delete_records_response_layout(
    x: DeleteRecordsResponse,
    version: i16,
    throttle_time_ms: i32,
    topics: Seq<DeleteRecordsTopicResultView>,
    topics_bytes: Seq<Seq<u8>>,
    rest: Seq<u8>,
)
    requires
        elements::<DeleteRecordsTopicResult>(
            DeleteRecordsResponse::response_format(version),
            topics_bytes,
            topics,
        ),
    ensures
        DeleteRecordsResponse::response_name() == "DeleteRecordsResponse",
        DeleteRecordsResponse::decodes(version) <==> (version == 0),
        (version == 0) ==> ({
            let f = DeleteRecordsResponse::response_format(version);
            &&& f.flexible <==> false
        }),
        (version == 0) ==> ({
            let w = Writer::at(Seq::empty());
            let w = w.i32(throttle_time_ms);
            let w = w.array_len(topics_bytes.len(), false).raw(topics_bytes.flatten());
            let (read, r) = DeleteRecordsResponse::read_versioned(
                version,
                Reader::on(w.bytes + rest),
            );
            !w.failed() ==> {
                &&& r == Reader::on(rest)
                &&& x@ == read ==> {
                    &&& x.throttle_time_ms == throttle_time_ms
                    &&& views(x.topics@) == topics
                }
            }
        }),
{
    if version == 0 {
        let f = DeleteRecordsResponse::response_format(version);
        let w0 = Writer::at(Seq::empty());
        let w1 = w0.i32(throttle_time_ms);
        let w2 = w1.array_len(topics_bytes.len(), false).raw(topics_bytes.flatten());
        if !w2.failed() {
            let total = w2.bytes + rest;
            assert(total.take(w2.bytes.len() as int) =~= w2.bytes);
            assert(total.skip(w2.bytes.len() as int) =~= rest);
            lemma_array_read::<DeleteRecordsTopicResult>(w1, f, topics_bytes, topics, total);
            law_i32_round_trip(w0, throttle_time_ms, total);
            assert(total.skip(0) =~= total);
        }
    }
}

} // verus!
