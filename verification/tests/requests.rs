//! Exact bytes of requests, and what the helpers of requests and responses give.

use bytes::{BufMut, Bytes, BytesMut};
use krafka::error::ErrorCode;
use krafka::protocol::messages::alter_client_quotas::{
    AlterClientQuotasRequest, AlterQuotaEntity, AlterQuotaEntry, AlterQuotaOp,
};
use krafka::protocol::messages::config::AlterConfigOp;
use krafka::protocol::messages::consumer_group_describe::ConsumerGroupDescribeResponse;
use krafka::protocol::messages::coordinator;
use krafka::protocol::messages::{
    AclBinding, AclBindingFilter, AclOperation, AclPatternType, AclPermissionType, AclResourceType,
    AddPartitionsToTxnRequest, AddPartitionsToTxnResponse, AlterConfigsRequest, ConfigResourceType,
    CreatableReplicaAssignment, CreatableTopic, CreatableTopicConfig, CreateAclsRequest,
    CreateAclsResponse, CreatePartitionsRequest, CreateTopicsRequest, DescribeAclsRequest,
    DescribeConfigsRequest, EndTxnRequest, FetchPartitionRequest, FetchPartitionResponse,
    FetchRequest, FetchTopicRequest, InitProducerIdRequest, InitProducerIdResponse,
    LeaveGroupMember, LeaveGroupRequest, ListOffsetsResponse, MetadataRequest, MetadataRequestTopic,
    MetadataResponse, OffsetCommitRequest, OffsetCommitRequestPartition, OffsetCommitRequestTopic,
    OffsetCommitResponse, OffsetFetchRequest, OffsetFetchResponse, ProducePartitionData,
    ProduceRequest, ProduceResponse, ProduceTopicData, SaslAuthenticateResponse,
    SaslHandshakeResponse, TxnOffsetCommitRequest, TxnOffsetCommitResponse, VersionedDecode,
    VersionedEncode,
};
use std::time::Duration;

fn encoded(request: &impl VersionedEncode, version: i16) -> Vec<u8> {
    let mut buf = BytesMut::new();
    request.encode_versioned(version, &mut buf).unwrap();
    buf.to_vec()
}

#[test]
fn metadata_requests_append_flags() {
    let mut request = MetadataRequest::for_topics(vec!["t", "u"]);
    request.allow_auto_topic_creation = true;
    let v1 = encoded(&request, 1);
    assert_eq!(v1, b"\x00\x00\x00\x02\x00\x01t\x00\x01u".to_vec());
    assert_eq!(encoded(&request, 0), v1);
    let mut v4 = v1.clone();
    v4.push(1);
    assert_eq!(encoded(&request, 4), v4);
    v4.extend_from_slice(&[0, 0]);
    assert_eq!(encoded(&request, 8), v4);
    assert_eq!(encoded(&MetadataRequest::all_topics(), 0), vec![0, 0, 0, 0]);
    assert_eq!(encoded(&MetadataRequest::default(), 3), vec![0xff, 0xff, 0xff, 0xff]);
}

#[test]
fn a_topic_without_a_name_is_refused() {
    let mut request = MetadataRequest::for_topics(vec!["t"]);
    request.topics.as_mut().unwrap().push(MetadataRequestTopic { topic_id: None, name: None });
    let mut buf = BytesMut::new();
    let err = request.encode_v1(&mut buf).unwrap_err();
    assert_eq!(err.to_string(), "MetadataRequestTopic.name is required for v0-v8");
    assert!(buf.is_empty());
}

#[test]
fn metadata_lookups_give_the_first_match() {
    let mut buf = BytesMut::new();
    buf.put_i32(2);
    for (id, host) in [(1, b"a"), (2, b"b")] {
        buf.put_i32(id);
        buf.put_i16(1);
        buf.put_slice(host);
        buf.put_i32(9092);
    }
    buf.put_i32(2);
    for (code, partitions) in [(0i16, 0i32), (3, 0)] {
        buf.put_i16(code);
        buf.put_i16(1);
        buf.put_slice(b"t");
        buf.put_i32(partitions);
    }
    let response = MetadataResponse::decode_v0(&mut buf.freeze()).unwrap();
    assert_eq!(response.controller_id, -1);
    assert_eq!(response.find_broker(2).unwrap().host, "b");
    assert!(response.find_broker(3).is_none());
    assert!(response.find_topic("t").unwrap().error_code.is_ok());
    assert!(response.find_topic("u").is_none());
}

#[test]
fn produce_requests_have_exact_bytes() {
    let request = ProduceRequest {
        transactional_id: Some("x".to_string()),
        acks: -1,
        timeout_ms: 5,
        topic_data: vec![ProduceTopicData {
            name: "t".to_string(),
            partition_data: vec![ProducePartitionData {
                index: 2,
                records: Bytes::from_static(b"rr"),
            }],
        }],
    };
    let v0 = b"\xff\xff\x00\x00\x00\x05\x00\x00\x00\x01\x00\x01t\x00\x00\x00\x01\x00\x00\x00\x02\x00\x00\x00\x02rr".to_vec();
    assert_eq!(encoded(&request, 2), v0);
    let mut v3 = b"\x00\x01x".to_vec();
    v3.extend_from_slice(&v0);
    assert_eq!(encoded(&request, 3), v3);
}

#[test]
fn produce_responses_end_in_the_throttle_time() {
    let body = b"\x00\x00\x00\x01\x00\x01t\x00\x00\x00\x01\x00\x00\x00\x02\x00\x03\x00\x00\x00\x00\x00\x00\x00\x09";
    let v0 = ProduceResponse::decode_v0(&mut Bytes::from_static(body)).unwrap();
    let partition = &v0.responses[0].partition_responses[0];
    assert_eq!(partition.error_code, ErrorCode::UnknownTopicOrPartition);
    assert_eq!(partition.base_offset, 9);
    assert_eq!(partition.log_append_time_ms, -1);
    assert_eq!(v0.throttle_time_ms, 0);
    let mut v1 = body.to_vec();
    v1.extend_from_slice(&7i32.to_be_bytes());
    let v1 = ProduceResponse::decode_v1(&mut Bytes::from(v1)).unwrap();
    assert_eq!(v1.throttle_time_ms, 7);
}

#[test]
fn fetch_requests_grow_with_the_version() {
    let mut request = FetchRequest::default();
    request.rack_id = "r".to_string();
    request.topics = vec![FetchTopicRequest {
        topic: "t".to_string(),
        partitions: vec![FetchPartitionRequest { partition: 1, ..Default::default() }],
    }];
    let lengths: Vec<usize> =
        [0i16, 3, 4, 7, 9, 11].iter().map(|v| encoded(&request, *v).len()).collect();
    assert_eq!(lengths, vec![39, 43, 44, 64, 68, 71]);
    assert_eq!(encoded(&request, 2), encoded(&request, 0));
    assert_eq!(encoded(&request, 8), encoded(&request, 7));
    assert_eq!(encoded(&request, 10), encoded(&request, 9));
    assert_eq!(
        encoded(&FetchRequest::default(), 0),
        b"\xff\xff\xff\xff\x00\x00\x00\x00\x00\x00\x00\x00\x00\x00\x00\x00".to_vec()
    );
    assert_eq!(FetchPartitionResponse::default().high_watermark, -1);
}

#[test]
fn leave_group_requests_change_form() {
    let request = LeaveGroupRequest {
        group_id: "g".to_string(),
        member_id: "m".to_string(),
        members: vec![LeaveGroupMember { member_id: "n".to_string(), group_instance_id: None }],
    };
    assert_eq!(encoded(&request, 2), b"\x00\x01g\x00\x01m".to_vec());
    assert_eq!(encoded(&request, 3), b"\x00\x01g\x00\x00\x00\x01\x00\x01n\xff\xff".to_vec());
}

#[test]
fn offset_commits_have_exact_bytes() {
    let request = OffsetCommitRequest {
        group_id: "g".to_string(),
        generation_id: 1,
        member_id: "m".to_string(),
        group_instance_id: None,
        retention_time_ms: 2,
        topics: vec![OffsetCommitRequestTopic {
            name: "t".to_string(),
            partitions: vec![OffsetCommitRequestPartition {
                partition_index: 3,
                committed_offset: 4,
                committed_leader_epoch: -1,
                commit_timestamp: 5,
                committed_metadata: None,
            }],
        }],
    };
    let head = b"\x00\x01g".to_vec();
    let member = b"\x00\x00\x00\x01\x00\x01m".to_vec();
    let topics = b"\x00\x00\x00\x01\x00\x01t\x00\x00\x00\x01\x00\x00\x00\x03\x00\x00\x00\x00\x00\x00\x00\x04".to_vec();
    let stamp = 5i64.to_be_bytes().to_vec();
    let retention = 2i64.to_be_bytes().to_vec();
    let null = vec![0xff, 0xff];
    assert_eq!(encoded(&request, 0), [head.clone(), topics.clone(), null.clone()].concat());
    assert_eq!(
        encoded(&request, 1),
        [head.clone(), member.clone(), topics.clone(), stamp, null.clone()].concat()
    );
    assert_eq!(encoded(&request, 2), [head, member, retention, topics, null].concat());
}

#[test]
fn success_means_every_partition() {
    let ok = b"\x00\x00\x00\x02\x00\x01t\x00\x00\x00\x01\x00\x00\x00\x00\x00\x00\x00\x01u\x00\x00\x00\x01\x00\x00\x00\x00\x00\x00";
    let response = OffsetCommitResponse::decode_v0(&mut Bytes::from_static(ok)).unwrap();
    assert!(response.all_success());
    let mut bad = ok.to_vec();
    let last = bad.len() - 1;
    bad[last] = 16;
    let response = OffsetCommitResponse::decode_v0(&mut Bytes::from(bad)).unwrap();
    assert!(!response.all_success());
    let mut throttled = 1i32.to_be_bytes().to_vec();
    throttled.extend_from_slice(ok);
    assert!(AddPartitionsToTxnResponse::decode_v0(&mut Bytes::from(throttled.clone()))
        .unwrap()
        .is_ok());
    assert!(TxnOffsetCommitResponse::decode_v0(&mut Bytes::from(throttled.clone())).unwrap().is_ok());
    let last = throttled.len() - 1;
    throttled[last] = 1;
    assert!(!AddPartitionsToTxnResponse::decode_v0(&mut Bytes::from(throttled.clone()))
        .unwrap()
        .is_ok());
    assert!(!TxnOffsetCommitResponse::decode_v0(&mut Bytes::from(throttled)).unwrap().is_ok());
}

#[test]
fn offsets_are_looked_up_in_the_first_topic_of_a_name() {
    let mut buf = BytesMut::new();
    buf.put_i32(2);
    for offset in [10i64, 20] {
        buf.put_i16(1);
        buf.put_slice(b"t");
        buf.put_i32(1);
        buf.put_i32(if offset == 10 { 0 } else { 1 });
        buf.put_i64(offset);
        buf.put_i16(-1);
        buf.put_i16(0);
    }
    let response = OffsetFetchResponse::decode_v0(&mut buf.freeze()).unwrap();
    assert_eq!(response.get_offset("t", 0), Some(10));
    assert_eq!(response.get_offset("t", 1), None);
    assert_eq!(response.get_offset("u", 0), None);
    let all = OffsetFetchRequest { group_id: "g".to_string(), topics: None, require_stable: false };
    assert_eq!(encoded(&all, 1), b"\x00\x01g\xff\xff\xff\xff".to_vec());
}

#[test]
fn truncated_offset_lists_say_where() {
    let message = |data: &'static [u8], version: i16| {
        ListOffsetsResponse::decode_versioned(version, &mut Bytes::from_static(data))
            .unwrap_err()
            .to_string()
    };
    assert_eq!(
        message(b"\x00\x00", 2),
        "ListOffsetsResponse v2: truncated (no throttle_time_ms)"
    );
    assert_eq!(message(b"\x00\x00", 1), "ListOffsetsResponse: truncated (no topic count)");
    assert_eq!(
        message(b"\x00\x00\x00\x01\x00\x01t\x00", 1),
        "ListOffsetsResponse: truncated (no partition count)"
    );
    assert_eq!(
        message(b"\x00\x00\x00\x01\x00\x01t\x00\x00\x00\x01\x00\x00\x00\x00", 1),
        "ListOffsetsResponse: truncated partition data"
    );
    assert_eq!(message(b"\xff\xff\xff\xfe", 1), "invalid array length: -2");
}

#[test]
fn create_topics_requests_have_exact_bytes() {
    let request = CreateTopicsRequest {
        topics: vec![CreatableTopic {
            name: "t".to_string(),
            num_partitions: 2,
            replication_factor: 3,
            assignments: vec![CreatableReplicaAssignment { partition_index: 4, broker_ids: vec![5] }],
            configs: vec![CreatableTopicConfig { name: "k".to_string(), value: None }],
        }],
        timeout_ms: 6,
        validate_only: true,
    };
    let v0 = b"\x00\x00\x00\x01\x00\x01t\x00\x00\x00\x02\x00\x03\x00\x00\x00\x01\x00\x00\x00\x04\x00\x00\x00\x01\x00\x00\x00\x05\x00\x00\x00\x01\x00\x01k\xff\xff\x00\x00\x00\x06".to_vec();
    assert_eq!(encoded(&request, 0), v0);
    let mut v1 = v0;
    v1.push(1);
    assert_eq!(encoded(&request, 2), v1);
}

#[test]
fn create_partitions_takes_a_duration() {
    let request = CreatePartitionsRequest::new("t", 9, Duration::from_millis(1_500));
    assert_eq!(request.timeout_ms, 1_500);
    assert_eq!(request.topics[0].count, 9);
    assert_eq!(
        encoded(&request, 0),
        b"\x00\x00\x00\x01\x00\x01t\x00\x00\x00\x09\xff\xff\xff\xff\x00\x00\x05\xdc\x00".to_vec()
    );
    let long = CreatePartitionsRequest::new("t", 9, Duration::from_secs(10_000_000));
    assert_eq!(long.timeout_ms, i32::MAX);
}

#[test]
fn config_requests_have_exact_bytes() {
    let request = DescribeConfigsRequest::for_broker(-12);
    assert_eq!(request.resources[0].resource_name, "-12");
    assert_eq!(encoded(&request, 0), b"\x00\x00\x00\x01\x04\x00\x03-12\xff\xff\xff\xff".to_vec());
    let request = DescribeConfigsRequest::for_topic("t");
    assert_eq!(request.resources[0].resource_type, ConfigResourceType::Topic);
    let request =
        AlterConfigsRequest::for_topic("t", vec![("k".to_string(), "v".to_string())]);
    assert_eq!(
        encoded(&request, 0),
        b"\x00\x00\x00\x01\x02\x00\x01t\x00\x00\x00\x01\x00\x01k\x00\x01v\x00".to_vec()
    );
    for n in -1i8..12 {
        let known = ConfigResourceType::from_i8(n);
        assert_eq!(known.to_i8() == n, [0, 2, 4, 8].contains(&n));
        assert_eq!(AlterConfigOp::from_i8(n).map(|op| op.to_i8()), if (0..4).contains(&n) {
            Some(n)
        } else {
            None
        });
    }
}

#[test]
fn acl_codes_come_back() {
    for n in -1i8..15 {
        assert_eq!(AclResourceType::from_i8(n).to_i8(), if (0..7).contains(&n) { n } else { 0 });
        assert_eq!(AclPatternType::from_i8(n).to_i8(), if (0..4).contains(&n) { n } else { 0 });
        assert_eq!(AclOperation::from_i8(n).to_i8(), if (0..13).contains(&n) { n } else { 0 });
        assert_eq!(AclPermissionType::from_i8(n).to_i8(), if (0..4).contains(&n) { n } else { 0 });
    }
    assert_eq!(AclResourceType::default(), AclResourceType::Any);
    assert_eq!(AclOperation::default(), AclOperation::Any);
}

#[test]
fn acl_requests_have_exact_bytes() {
    let binding = AclBinding::new(
        AclResourceType::Group,
        "g",
        "p",
        "h",
        AclOperation::Describe,
        AclPermissionType::Deny,
    )
    .with_pattern_type(AclPatternType::Prefixed);
    let filter = AclBindingFilter::matching(&binding);
    assert_eq!(filter.host.as_deref(), Some("h"));
    assert_eq!(filter.pattern_type, AclPatternType::Prefixed);
    let request = CreateAclsRequest::new(vec![binding]);
    assert_eq!(
        encoded(&request, 0),
        b"\x00\x00\x00\x01\x03\x00\x01g\x00\x01p\x00\x01h\x08\x02".to_vec()
    );
    assert_eq!(
        encoded(&request, 1),
        b"\x00\x00\x00\x01\x03\x00\x01g\x03\x00\x01p\x00\x01h\x08\x02".to_vec()
    );
    assert_eq!(
        encoded(&DescribeAclsRequest::all(), 1),
        b"\x01\xff\xff\x01\xff\xff\xff\xff\x01\x01".to_vec()
    );
    assert_eq!(AclBindingFilter::for_topic("t").resource_name.as_deref(), Some("t"));
    assert_eq!(AclBinding::allow_all_topic("t", "p").operation, AclOperation::All);
    let mixed = b"\x00\x00\x00\x00\x00\x00\x00\x02\x00\x00\xff\xff\x00\x1f\xff\xff";
    let response = CreateAclsResponse::decode_v0(&mut Bytes::from_static(mixed)).unwrap();
    assert!(!response.is_ok());
}

#[test]
fn null_mechanisms_are_passed_over() {
    let data = b"\x00\x00\x00\x00\x00\x03\x00\x01a\xff\xff\x00\x01b";
    let response = SaslHandshakeResponse::decode_v0(&mut Bytes::from_static(data)).unwrap();
    assert!(response.is_ok());
    assert_eq!(response.enabled_mechanisms, vec!["a".to_string(), "b".to_string()]);
}

#[test]
fn authentication_is_complete_without_a_challenge() {
    let done = b"\x00\x00\xff\xff\xff\xff\xff\xff\x00\x00\x00\x00\x00\x00\x00\x05";
    let response = SaslAuthenticateResponse::decode_v1(&mut Bytes::from_static(done)).unwrap();
    assert!(response.is_ok());
    assert!(response.is_complete());
    assert_eq!(response.session_lifetime_ms, 5);
    let challenge = b"\x00\x00\xff\xff\x00\x00\x00\x02hi";
    let response = SaslAuthenticateResponse::decode_v0(&mut Bytes::from_static(challenge)).unwrap();
    assert!(response.is_ok());
    assert!(!response.is_complete());
    assert_eq!(response.auth_bytes, b"hi".to_vec());
}

#[test]
fn producer_identity() {
    assert_eq!(
        encoded(&InitProducerIdRequest::transactional("x", 7), 0),
        b"\x00\x01x\x00\x00\x00\x07".to_vec()
    );
    let data = b"\x00\x00\x00\x00\x00\x00\x00\x00\x00\x00\x00\x00\x00\x08\x00\x02";
    let response = InitProducerIdResponse::decode_v0(&mut Bytes::from_static(data)).unwrap();
    assert!(response.is_ok());
    assert_eq!((response.producer_id, response.producer_epoch), (8, 2));
    assert_eq!(
        encoded(&EndTxnRequest::commit("x", 1, 2), 0),
        b"\x00\x01x\x00\x00\x00\x00\x00\x00\x00\x01\x00\x02\x01".to_vec()
    );
}

#[test]
fn a_partition_is_added_once() {
    let request = AddPartitionsToTxnRequest::new("x", 1, 2)
        .add_partition("t", 3)
        .add_partition("u", 3)
        .add_partition("t", 3)
        .add_partition("t", 4)
        .add_partition("t", 3);
    assert_eq!(request.topics.len(), 2);
    assert_eq!(request.topics[0].partitions, vec![3, 4]);
    assert_eq!(request.topics[1].partitions, vec![3]);
}

#[test]
fn a_later_offset_replaces_an_earlier_one() {
    let request = TxnOffsetCommitRequest::new("x", "g", 1, 2)
        .add_offset("t", 0, 10, Some("a".to_string()))
        .add_offset("t", 1, 11, None)
        .add_offset("t", 0, 20, None);
    assert_eq!(request.topics.len(), 1);
    let partitions = &request.topics[0].partitions;
    assert_eq!(partitions.len(), 2);
    assert_eq!((partitions[0].partition, partitions[0].committed_offset), (0, 20));
    assert_eq!(partitions[0].metadata, None);
    assert_eq!(partitions[0].committed_leader_epoch, -1);
    assert_eq!(partitions[1].committed_offset, 11);
}

#[test]
fn quota_values_are_the_bits_of_a_double() {
    let request = AlterClientQuotasRequest {
        entries: vec![AlterQuotaEntry {
            entity: vec![AlterQuotaEntity { entity_type: "u".to_string(), entity_name: None }],
            ops: vec![AlterQuotaOp {
                key: "k".to_string(),
                value: 1.5f64.to_bits(),
                remove: false,
            }],
        }],
        validate_only: true,
    };
    let mut expected =
        b"\x00\x00\x00\x01\x00\x00\x00\x01\x00\x01u\xff\xff\x00\x00\x00\x01\x00\x01k".to_vec();
    expected.put_f64(1.5);
    expected.extend_from_slice(&[0, 1]);
    assert_eq!(encoded(&request, 0), expected);
}

#[test]
fn coordinators_in_a_batch() {
    let empty = Bytes::from_static(b"\x00\x00\x00\x00\x01\x00\x63");
    let mut data = empty.clone();
    let err = coordinator::FindCoordinatorResponse::decode_v4(&mut data).unwrap_err();
    assert_eq!(err.to_string(), "FindCoordinator v4: empty coordinators array");
    assert_eq!(data.len(), 1);
    let two = b"\x00\x00\x00\x00\x03\x02k\x00\x00\x00\x07\x02h\x00\x00\x00\x09\x00\x00\x00\x00\x00\x00\x00\x00\x08\x00\x00\x00\x00\x0a\x00\x0f\x00\x00\x00";
    let mut data = Bytes::from_static(two);
    let response = coordinator::FindCoordinatorResponse::decode_versioned(6, &mut data).unwrap();
    assert_eq!((response.node_id, response.port), (7, 9));
    assert_eq!(response.host, "h");
    assert!(data.is_empty());
    let nameless = Bytes::from_static(b"\x00\x00\x00\x00\x00\x00\xff\xff\x00\x00\x00\x07\xff\xff");
    assert_eq!(
        coordinator::FindCoordinatorResponse::decode_v1(&mut nameless.clone())
            .unwrap_err()
            .to_string(),
        "FindCoordinator host must be a non-null string"
    );
    let nameless = Bytes::from_static(b"\x00\x00\x00\x00\x00\x00\x00\x00\x00\x00\x07\x00");
    assert_eq!(
        coordinator::FindCoordinatorResponse::decode_v3(&mut nameless.clone())
            .unwrap_err()
            .to_string(),
        "FindCoordinator host must be a non-null compact string"
    );
}

#[test]
fn later_fetch_requests_extend_earlier_ones() {
    let mut request = FetchRequest::default();
    let partition = |n: i32| FetchPartitionRequest { partition: n, ..Default::default() };
    request.topics = vec![
        FetchTopicRequest { topic: "t".to_string(), partitions: vec![partition(1), partition(2)] },
        FetchTopicRequest { topic: "u".to_string(), partitions: vec![partition(3)] },
    ];
    request.rack_id = "r1".to_string();
    let v7 = encoded(&request, 7);
    let v9 = encoded(&request, 9);
    let mut v11 = encoded(&request, 11);
    assert_eq!(v9.len(), v7.len() + 4 * 3);
    let rack = v11.split_off(v9.len());
    assert_eq!(v11, v9);
    assert_eq!(rack, b"\x00\x02r1");
}

/// The body of a response with one group, with the byte of the member's type or without.
fn described(member_type: &[u8]) -> Vec<u8> {
    let mut body = b"\x00\x00\x00\x09\x02\x00\x00\x00\x02g\x02S\x00\x00\x00\x01\x00\x00\x00\x02".to_vec();
    body.extend_from_slice(b"\x02a\x02\x02m\x00\x00\x00\x00\x00\x03\x02c\x02h\x02\x02t\x00\x01\x00\x01\x00");
    body.extend_from_slice(member_type);
    body.extend_from_slice(b"\x00\x00\x00\x00\x04\x00\x00");
    body
}

#[test]
fn a_member_type_is_one_byte_more() {
    let mut v0 = Bytes::from(described(&[]));
    let untyped = ConsumerGroupDescribeResponse::decode_v0(&mut v0).unwrap();
    assert!(v0.is_empty());
    assert_eq!(untyped.groups[0].members[0].member_type, -1);
    let mut bytes = described(&[1]);
    bytes.extend_from_slice(b"rest");
    let mut v1 = Bytes::from(bytes);
    let mut typed = ConsumerGroupDescribeResponse::decode_v1(&mut v1).unwrap();
    assert_eq!(&v1[..], b"rest");
    assert_eq!(typed.groups[0].members[0].member_type, 1);
    typed.groups[0].members[0].member_type = -1;
    assert_eq!(format!("{typed:?}"), format!("{untyped:?}"));
}
