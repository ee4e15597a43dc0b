//! Tests of `krafka::protocol::messages`.

use bytes::{BufMut, Bytes, BytesMut};
use krafka::error::ErrorCode;
use krafka::protocol::api::ApiKey;
use krafka::protocol::messages::{
    AclBinding, AclBindingFilter, AclOperation, AclPermissionType, AclResourceType,
    AddOffsetsToTxnRequest, AddPartitionsToTxnRequest, CreateAclsRequest, DeleteRecordsPartition,
    DeleteRecordsRequest, DeleteRecordsResponse, DeleteRecordsTopic, DescribeAclsRequest,
    DescribeGroupsRequest, DescribeGroupsResponse, EndTxnRequest, FetchForgottenTopic,
    FetchPartitionRequest, FetchRequest, FetchResponse, FetchTopicRequest, FindCoordinatorRequest,
    HeartbeatRequest, InitProducerIdRequest, JoinGroupRequest, JoinGroupRequestProtocol,
    JoinGroupResponse, LeaveGroupResponse, ListGroupsRequest, ListGroupsResponse,
    ListOffsetsRequest, ListOffsetsRequestPartition, ListOffsetsRequestTopic, ListOffsetsResponse,
    MetadataRequest, MetadataResponse, OffsetForLeaderEpochPartition, OffsetForLeaderEpochRequest,
    OffsetForLeaderEpochResponse, OffsetForLeaderEpochTopic, ProduceRequest, ProduceTopicData,
    SaslAuthenticateRequest, SaslHandshakeRequest, SyncGroupRequest, SyncGroupResponse,
    TransactionResult, TxnOffsetCommitRequest, VersionedDecode, VersionedEncode,
};
use krafka::protocol::primitives::{Encode, KafkaString};

#[test]
fn test_metadata_request_all_topics() {
    let request = MetadataRequest::all_topics();
    // Null array = "all topics" for Metadata v1+.
    assert!(request.topics.is_none());
}

/// v0: topics is non-nullable - `None` encodes as empty array (length 0).
#[test]
fn test_metadata_request_all_topics_encode_v0() {
    let request = MetadataRequest::all_topics();
    let mut buf = BytesMut::new();
    request.encode_v0(&mut buf).unwrap();
    // v0: empty array (length 0) means "all topics"
    assert_eq!(i32::from_be_bytes([buf[0], buf[1], buf[2], buf[3]]), 0);
}

/// v1+: topics is nullable - `None` encodes as null array (length -1).
#[test]
fn test_metadata_request_all_topics_encode_v1() {
    let request = MetadataRequest::all_topics();
    let mut buf = BytesMut::new();
    request.encode_v1(&mut buf).unwrap();
    // v1+: null array (-1 length) means "all topics"
    assert_eq!(i32::from_be_bytes([buf[0], buf[1], buf[2], buf[3]]), -1);
}

#[test]
fn test_metadata_request_specific_topics() {
    let request = MetadataRequest::for_topics(vec!["topic1", "topic2"]);
    assert_eq!(request.topics.as_ref().unwrap().len(), 2);
}

#[test]
fn messages_test_find_coordinator_request() {
    let request = FindCoordinatorRequest::for_group("my-group");
    assert_eq!(request.key, "my-group");
    assert_eq!(request.key_type, 0);

    let request = FindCoordinatorRequest::for_transaction("my-txn");
    assert_eq!(request.key, "my-txn");
    assert_eq!(request.key_type, 1);
}

#[test]
fn test_sasl_handshake_request() {
    let request = SaslHandshakeRequest::new("PLAIN");
    assert_eq!(request.mechanism, "PLAIN");

    let mut buf = BytesMut::new();
    request.encode_v0(&mut buf).unwrap();
    assert!(!buf.is_empty());
}

#[test]
fn test_sasl_authenticate_request() {
    let auth_bytes = vec![0, b'u', b's', b'e', b'r', 0, b'p', b'a', b's', b's'];
    let request = SaslAuthenticateRequest::new(auth_bytes.clone());
    assert_eq!(request.auth_bytes, auth_bytes);

    let mut buf = BytesMut::new();
    request.encode_v0(&mut buf).unwrap();
    assert!(!buf.is_empty());
}

#[test]
fn test_init_producer_id_request() {
    let request = InitProducerIdRequest::idempotent();
    assert!(request.transactional_id.is_none());
    assert_eq!(request.producer_id, -1);
    assert_eq!(request.producer_epoch, -1);

    let request = InitProducerIdRequest::transactional("my-txn", 60000);
    assert_eq!(request.transactional_id.as_deref(), Some("my-txn"));
    assert_eq!(request.transaction_timeout_ms, 60000);
}

#[test]
fn messages_test_acl_resource_type() {
    assert_eq!(AclResourceType::Topic.to_i8(), 2);
    assert_eq!(AclResourceType::Group.to_i8(), 3);
    assert_eq!(AclResourceType::Cluster.to_i8(), 4);
    assert_eq!(AclResourceType::from_i8(2), AclResourceType::Topic);
    assert_eq!(AclResourceType::from_i8(99), AclResourceType::Unknown);
}

#[test]
fn messages_test_acl_operation() {
    assert_eq!(AclOperation::Read.to_i8(), 3);
    assert_eq!(AclOperation::Write.to_i8(), 4);
    assert_eq!(AclOperation::from_i8(3), AclOperation::Read);
    assert_eq!(AclOperation::from_i8(99), AclOperation::Unknown);
}

#[test]
fn messages_test_acl_permission_type() {
    assert_eq!(AclPermissionType::Allow.to_i8(), 3);
    assert_eq!(AclPermissionType::Deny.to_i8(), 2);
    assert_eq!(AclPermissionType::from_i8(3), AclPermissionType::Allow);
}

#[test]
fn messages_test_acl_binding() {
    let binding = AclBinding::allow_read_topic("my-topic", "User:alice");
    assert_eq!(binding.resource_type, AclResourceType::Topic);
    assert_eq!(binding.resource_name, "my-topic");
    assert_eq!(binding.principal, "User:alice");
    assert_eq!(binding.host, "*");
    assert_eq!(binding.operation, AclOperation::Read);
    assert_eq!(binding.permission_type, AclPermissionType::Allow);
}

#[test]
fn messages_test_describe_acls_request() {
    let request = DescribeAclsRequest::all();
    assert_eq!(request.resource_type, AclResourceType::Any);
    assert!(request.resource_name.is_none());

    let request = DescribeAclsRequest::for_topic("my-topic");
    assert_eq!(request.resource_type, AclResourceType::Topic);
    assert_eq!(request.resource_name.as_deref(), Some("my-topic"));
}

#[test]
fn messages_test_create_acls_request() {
    let bindings = vec![
        AclBinding::allow_read_topic("topic1", "User:alice"),
        AclBinding::allow_write_topic("topic2", "User:bob"),
    ];
    let request = CreateAclsRequest::new(bindings);
    assert_eq!(request.creations.len(), 2);

    let mut buf = BytesMut::new();
    request.encode_v0(&mut buf).unwrap();
    assert!(!buf.is_empty());
}

#[test]
fn messages_test_delete_acls_filter() {
    let binding = AclBinding::allow_read_topic("my-topic", "User:alice");
    let filter = AclBindingFilter::matching(&binding);

    assert_eq!(filter.resource_name.as_deref(), Some("my-topic"));
    assert_eq!(filter.principal.as_deref(), Some("User:alice"));
}

#[test]
fn test_transaction_result() {
    assert!(TransactionResult::Commit.to_bool());
    assert!(!TransactionResult::Abort.to_bool());
    assert_eq!(
        TransactionResult::from_bool(true),
        TransactionResult::Commit
    );
    assert_eq!(
        TransactionResult::from_bool(false),
        TransactionResult::Abort
    );
}

#[test]
fn messages_test_add_partitions_to_txn_request() {
    let request = AddPartitionsToTxnRequest::new("my-txn", 12345, 0)
        .add_partition("topic1", 0)
        .add_partition("topic1", 1)
        .add_partition("topic2", 0);

    assert_eq!(request.transactional_id, "my-txn");
    assert_eq!(request.producer_id, 12345);
    assert_eq!(request.topics.len(), 2);

    let topic1 = request.topics.iter().find(|t| t.name == "topic1").unwrap();
    assert_eq!(topic1.partitions, vec![0, 1]);

    let mut buf = BytesMut::new();
    request.encode_v0(&mut buf).unwrap();
    assert!(!buf.is_empty());
}

#[test]
fn messages_test_add_offsets_to_txn_request() {
    let request = AddOffsetsToTxnRequest::new("my-txn", 12345, 0, "my-group");

    assert_eq!(request.transactional_id, "my-txn");
    assert_eq!(request.group_id, "my-group");

    let mut buf = BytesMut::new();
    request.encode_v0(&mut buf).unwrap();
    assert!(!buf.is_empty());
}

#[test]
fn test_end_txn_request() {
    let commit = EndTxnRequest::commit("my-txn", 12345, 0);
    assert!(commit.committed);

    let abort = EndTxnRequest::abort("my-txn", 12345, 0);
    assert!(!abort.committed);

    let mut buf = BytesMut::new();
    commit.encode_v0(&mut buf).unwrap();
    assert!(!buf.is_empty());
}

#[test]
fn test_txn_offset_commit_request() {
    let request = TxnOffsetCommitRequest::new("my-txn", "my-group", 12345, 0)
        .add_offset("topic1", 0, 100, Some("metadata".to_string()))
        .add_offset("topic1", 1, 200, None);

    assert_eq!(request.transactional_id, "my-txn");
    assert_eq!(request.group_id, "my-group");
    assert_eq!(request.topics.len(), 1);
    assert_eq!(request.topics[0].partitions.len(), 2);

    let mut buf = BytesMut::new();
    request.encode_v0(&mut buf).unwrap();
    assert!(!buf.is_empty());
}

#[test]
fn messages_test_describe_groups_request() {
    let request = DescribeGroupsRequest {
        groups: vec!["group-1".to_string(), "group-2".to_string()],
    };
    assert_eq!(request.groups.len(), 2);
    assert_eq!(DescribeGroupsRequest::api_key(), ApiKey::DescribeGroups);

    let mut buf = BytesMut::new();
    request.encode_v0(&mut buf).unwrap();
    assert!(!buf.is_empty());
}

#[test]
fn test_describe_groups_response_decode_v0() {
    // Build a minimal v0 response: throttle_time_ms=0, 1 group with 0 members
    let mut buf = BytesMut::new();
    // group count
    buf.put_i32(1);
    // error_code
    buf.put_i16(0);
    // group_id
    let group_id = "test-group";
    buf.put_i16(group_id.len() as i16);
    buf.put_slice(group_id.as_bytes());
    // group_state
    let state = "Stable";
    buf.put_i16(state.len() as i16);
    buf.put_slice(state.as_bytes());
    // protocol_type
    let ptype = "consumer";
    buf.put_i16(ptype.len() as i16);
    buf.put_slice(ptype.as_bytes());
    // protocol_data
    let pdata = "range";
    buf.put_i16(pdata.len() as i16);
    buf.put_slice(pdata.as_bytes());
    // members count
    buf.put_i32(0);

    let response = DescribeGroupsResponse::decode_v0(&mut buf.freeze()).unwrap();
    assert_eq!(response.throttle_time_ms, 0);
    assert_eq!(response.groups.len(), 1);
    assert_eq!(response.groups[0].group_id, "test-group");
    assert_eq!(response.groups[0].group_state, "Stable");
    assert_eq!(response.groups[0].protocol_type, "consumer");
    assert_eq!(response.groups[0].protocol_data, "range");
    assert!(response.groups[0].error_code.is_ok());
    assert!(response.groups[0].members.is_empty());
}

#[test]
fn messages_test_list_groups_request() {
    let request = ListGroupsRequest;
    assert_eq!(ListGroupsRequest::api_key(), ApiKey::ListGroups);
    let mut buf = BytesMut::new();
    request.encode_v0(&mut buf).unwrap();
    // ListGroups v0 has an empty body
    assert!(buf.is_empty());
}

#[test]
fn test_list_groups_response_decode_v0() {
    let mut buf = BytesMut::new();
    // error_code
    buf.put_i16(0);
    // groups count
    buf.put_i32(2);
    // group 1
    let g1 = "group-a";
    buf.put_i16(g1.len() as i16);
    buf.put_slice(g1.as_bytes());
    let pt1 = "consumer";
    buf.put_i16(pt1.len() as i16);
    buf.put_slice(pt1.as_bytes());
    // group 2
    let g2 = "group-b";
    buf.put_i16(g2.len() as i16);
    buf.put_slice(g2.as_bytes());
    let pt2 = "consumer";
    buf.put_i16(pt2.len() as i16);
    buf.put_slice(pt2.as_bytes());

    let response = ListGroupsResponse::decode_v0(&mut buf.freeze()).unwrap();
    assert!(response.error_code.is_ok());
    assert_eq!(response.groups.len(), 2);
    assert_eq!(response.groups[0].group_id, "group-a");
    assert_eq!(response.groups[1].group_id, "group-b");
}

#[test]
fn test_delete_records_request() {
    let request = DeleteRecordsRequest {
        topics: vec![DeleteRecordsTopic {
            name: "my-topic".to_string(),
            partitions: vec![
                DeleteRecordsPartition {
                    partition_index: 0,
                    offset: 100,
                },
                DeleteRecordsPartition {
                    partition_index: 1,
                    offset: 200,
                },
            ],
        }],
        timeout_ms: 30000,
    };
    assert_eq!(request.topics.len(), 1);
    assert_eq!(request.topics[0].partitions.len(), 2);
    assert_eq!(DeleteRecordsRequest::api_key(), ApiKey::DeleteRecords);

    let mut buf = BytesMut::new();
    request.encode_v0(&mut buf).unwrap();
    assert!(!buf.is_empty());
}

#[test]
fn test_delete_records_response_decode_v0() {
    let mut buf = BytesMut::new();
    // throttle_time_ms
    buf.put_i32(0);
    // topics count
    buf.put_i32(1);
    // topic name
    let topic = "my-topic";
    buf.put_i16(topic.len() as i16);
    buf.put_slice(topic.as_bytes());
    // partitions count
    buf.put_i32(1);
    // partition_index
    buf.put_i32(0);
    // low_watermark
    buf.put_i64(100);
    // error_code
    buf.put_i16(0);

    let response = DeleteRecordsResponse::decode_v0(&mut buf.freeze()).unwrap();
    assert_eq!(response.throttle_time_ms, 0);
    assert_eq!(response.topics.len(), 1);
    assert_eq!(response.topics[0].name, "my-topic");
    assert_eq!(response.topics[0].partitions.len(), 1);
    assert_eq!(response.topics[0].partitions[0].partition_index, 0);
    assert_eq!(response.topics[0].partitions[0].low_watermark, 100);
    assert!(response.topics[0].partitions[0].error_code.is_ok());
}

#[test]
fn test_offset_for_leader_epoch_request() {
    let request = OffsetForLeaderEpochRequest {
        replica_id: -1,
        topics: vec![OffsetForLeaderEpochTopic {
            topic: "my-topic".to_string(),
            partitions: vec![OffsetForLeaderEpochPartition {
                partition: 0,
                current_leader_epoch: 5,
                leader_epoch: 4,
            }],
        }],
    };
    assert_eq!(
        OffsetForLeaderEpochRequest::api_key(),
        ApiKey::OffsetForLeaderEpoch
    );

    let mut buf = BytesMut::new();
    request.encode_v2(&mut buf).unwrap();
    assert!(!buf.is_empty());

    let mut buf3 = BytesMut::new();
    request.encode_v3(&mut buf3).unwrap();
    // v3 includes replica_id prefix, so it should be longer
    assert!(buf3.len() > buf.len());
}

#[test]
fn test_offset_for_leader_epoch_response_decode_v0() {
    let mut buf = BytesMut::new();
    // topics count
    buf.put_i32(1);
    // topic name
    let topic = "my-topic";
    buf.put_i16(topic.len() as i16);
    buf.put_slice(topic.as_bytes());
    // partitions count
    buf.put_i32(1);
    // error_code
    buf.put_i16(0);
    // partition
    buf.put_i32(0);
    // end_offset
    buf.put_i64(500);

    let response = OffsetForLeaderEpochResponse::decode_v0(&mut buf.freeze()).unwrap();
    assert_eq!(response.topics.len(), 1);
    assert_eq!(response.topics[0].topic, "my-topic");
    assert_eq!(response.topics[0].partitions.len(), 1);
    assert!(response.topics[0].partitions[0].error_code.is_ok());
    assert_eq!(response.topics[0].partitions[0].partition, 0);
    assert_eq!(response.topics[0].partitions[0].end_offset, 500);
    assert_eq!(response.topics[0].partitions[0].leader_epoch, -1); // v0 doesn't have leader_epoch
}

#[test]
fn test_offset_for_leader_epoch_response_decode_v1() {
    let mut buf = BytesMut::new();
    // topics count
    buf.put_i32(1);
    // topic name
    let topic = "my-topic";
    buf.put_i16(topic.len() as i16);
    buf.put_slice(topic.as_bytes());
    // partitions count
    buf.put_i32(1);
    // error_code
    buf.put_i16(0);
    // partition
    buf.put_i32(0);
    // leader_epoch
    buf.put_i32(5);
    // end_offset
    buf.put_i64(500);

    let response = OffsetForLeaderEpochResponse::decode_v1(&mut buf.freeze()).unwrap();
    assert_eq!(response.topics.len(), 1);
    assert_eq!(response.topics[0].partitions[0].leader_epoch, 5);
    assert_eq!(response.topics[0].partitions[0].end_offset, 500);
}

#[test]
fn test_join_group_request_encode_v5() {
    let request = JoinGroupRequest {
        group_id: "my-group".to_string(),
        session_timeout_ms: 10000,
        rebalance_timeout_ms: 300000,
        member_id: "member-1".to_string(),
        group_instance_id: Some("instance-1".to_string()),
        protocol_type: "consumer".to_string(),
        protocols: vec![JoinGroupRequestProtocol {
            name: "range".to_string(),
            metadata: Bytes::from_static(b"\x00\x00"),
        }],
    };

    let mut buf_v0 = BytesMut::new();
    request.encode_v0(&mut buf_v0).unwrap();

    let mut buf_v5 = BytesMut::new();
    request.encode_v5(&mut buf_v5).unwrap();

    // v5 should include group_instance_id, so it should be larger
    assert!(buf_v5.len() > buf_v0.len());
}

#[test]
fn test_heartbeat_request_encode_v3() {
    let request = HeartbeatRequest {
        group_id: "my-group".to_string(),
        generation_id: 1,
        member_id: "member-1".to_string(),
        group_instance_id: Some("instance-1".to_string()),
    };

    let mut buf_v0 = BytesMut::new();
    request.encode_v0(&mut buf_v0).unwrap();

    let mut buf_v3 = BytesMut::new();
    request.encode_v3(&mut buf_v3).unwrap();

    // v3 should include group_instance_id, so it should be larger
    assert!(buf_v3.len() > buf_v0.len());
}

#[test]
fn test_heartbeat_request_encode_v3_null_instance_id() {
    let request = HeartbeatRequest {
        group_id: "my-group".to_string(),
        generation_id: 1,
        member_id: "member-1".to_string(),
        group_instance_id: None,
    };

    let mut buf_v0 = BytesMut::new();
    request.encode_v0(&mut buf_v0).unwrap();

    let mut buf_v3 = BytesMut::new();
    request.encode_v3(&mut buf_v3).unwrap();

    // v3 with null instance_id should be slightly larger (null marker)
    assert!(buf_v3.len() >= buf_v0.len());
}

#[test]
fn test_join_group_response_decode_v5() {
    let mut buf = BytesMut::new();

    // throttle_time_ms
    buf.put_i32(100);
    // error_code
    buf.put_i16(0);
    // generation_id
    buf.put_i32(3);
    // protocol_name
    let proto = b"range";
    buf.put_i16(proto.len() as i16);
    buf.put_slice(proto);
    // leader
    let leader = b"member-1";
    buf.put_i16(leader.len() as i16);
    buf.put_slice(leader);
    // member_id
    let member = b"member-1";
    buf.put_i16(member.len() as i16);
    buf.put_slice(member);
    // member_count = 2
    buf.put_i32(2);
    // member 1: member_id, group_instance_id, metadata
    let m1 = b"member-1";
    buf.put_i16(m1.len() as i16);
    buf.put_slice(m1);
    let inst1 = b"instance-1";
    buf.put_i16(inst1.len() as i16);
    buf.put_slice(inst1);
    let meta1 = b"meta1";
    buf.put_i32(meta1.len() as i32);
    buf.put_slice(meta1);
    // member 2: member_id, null group_instance_id, metadata
    let m2 = b"member-2";
    buf.put_i16(m2.len() as i16);
    buf.put_slice(m2);
    buf.put_i16(-1); // null instance id
    let meta2 = b"meta2";
    buf.put_i32(meta2.len() as i32);
    buf.put_slice(meta2);

    let mut data = buf.freeze();
    let resp = JoinGroupResponse::decode_v5(&mut data).unwrap();

    assert_eq!(resp.throttle_time_ms, 100);
    assert!(resp.error_code.is_ok());
    assert_eq!(resp.generation_id, 3);
    assert_eq!(resp.protocol_name, Some("range".to_string()));
    assert_eq!(resp.leader, "member-1");
    assert_eq!(resp.member_id, "member-1");
    assert!(resp.is_leader());
    assert_eq!(resp.members.len(), 2);
    assert_eq!(resp.members[0].member_id, "member-1");
    assert_eq!(
        resp.members[0].group_instance_id,
        Some("instance-1".to_string())
    );
    assert_eq!(resp.members[1].member_id, "member-2");
    assert_eq!(resp.members[1].group_instance_id, None);
}

#[test]
fn test_offset_for_leader_epoch_response_decode_v2() {
    let mut buf = BytesMut::new();

    // throttle_time_ms (v2 adds this)
    buf.put_i32(50);
    // topic_count = 1
    buf.put_i32(1);
    // topic name
    let topic = b"my-topic";
    buf.put_i16(topic.len() as i16);
    buf.put_slice(topic);
    // partition_count = 1
    buf.put_i32(1);
    // error_code
    buf.put_i16(0);
    // partition
    buf.put_i32(0);
    // leader_epoch
    buf.put_i32(5);
    // end_offset
    buf.put_i64(1000);

    let mut data = buf.freeze();
    let resp = OffsetForLeaderEpochResponse::decode_v2(&mut data).unwrap();

    assert_eq!(resp.throttle_time_ms, 50);
    assert_eq!(resp.topics.len(), 1);
    assert_eq!(resp.topics[0].topic, "my-topic");
    assert_eq!(resp.topics[0].partitions.len(), 1);
    assert!(resp.topics[0].partitions[0].error_code.is_ok());
    assert_eq!(resp.topics[0].partitions[0].partition, 0);
    assert_eq!(resp.topics[0].partitions[0].leader_epoch, 5);
    assert_eq!(resp.topics[0].partitions[0].end_offset, 1000);
}

// SyncGroupRequest::encode_v3 includes group_instance_id.
#[test]
fn test_sync_group_request_encode_v3_includes_group_instance_id() {

    let request = SyncGroupRequest {
        group_id: "my-group".to_string(),
        generation_id: 1,
        member_id: "member-1".to_string(),
        group_instance_id: Some("instance-1".to_string()),
        protocol_type: Some("consumer".to_string()),
        protocol_name: Some("range".to_string()),
        assignments: vec![],
    };

    let mut buf = BytesMut::new();
    request.encode_v3(&mut buf).unwrap();

    // Verify the buffer contains the group_instance_id
    let data = buf.freeze();
    let data_str = String::from_utf8_lossy(&data);
    assert!(
        data_str.contains("instance-1"),
        "v3 encoding should include group_instance_id"
    );
}

// SyncGroupRequest::encode_v0 does NOT include group_instance_id.
#[test]
fn test_sync_group_request_encode_v0_omits_group_instance_id() {

    let request = SyncGroupRequest {
        group_id: "my-group".to_string(),
        generation_id: 1,
        member_id: "member-1".to_string(),
        group_instance_id: Some("instance-1".to_string()),
        protocol_type: Some("consumer".to_string()),
        protocol_name: Some("range".to_string()),
        assignments: vec![],
    };

    let mut buf = BytesMut::new();
    request.encode_v0(&mut buf).unwrap();

    let data = buf.freeze();
    let data_str = String::from_utf8_lossy(&data);
    assert!(
        !data_str.contains("instance-1"),
        "v0 encoding should NOT include group_instance_id"
    );
}

// LeaveGroupResponse decode_v0 and decode_v1 roundtrip.
#[test]
fn test_leave_group_response_decode_v0() {
    let mut buf = BytesMut::new();
    // error_code = 0 (NONE)
    buf.put_i16(0);

    let mut data = buf.freeze();
    let resp = LeaveGroupResponse::decode_v0(&mut data).unwrap();
    assert!(resp.error_code.is_ok());
    assert_eq!(resp.throttle_time_ms, 0);
    assert!(resp.members.is_empty());
}

#[test]
fn test_leave_group_response_decode_v1_with_error() {
    let mut buf = BytesMut::new();
    // throttle_time_ms
    buf.put_i32(100);
    // error_code = 16 (NOT_COORDINATOR)
    buf.put_i16(16);

    let mut data = buf.freeze();
    let resp = LeaveGroupResponse::decode_v1(&mut data).unwrap();
    assert_eq!(resp.throttle_time_ms, 100);
    assert!(!resp.error_code.is_ok());
    assert!(resp.members.is_empty());
}

#[test]
fn test_leave_group_response_decode_v3_with_members() {
    let mut buf = BytesMut::new();
    // throttle_time_ms
    buf.put_i32(50);
    // top-level error_code = 0 (NONE)
    buf.put_i16(0);
    // members array length = 2
    buf.put_i32(2);

    // member 1: member_id = "m-1", group_instance_id = "i-1", error_code = 0
    let m1 = b"m-1";
    buf.put_i16(m1.len() as i16);
    buf.put_slice(m1);
    let i1 = b"i-1";
    buf.put_i16(i1.len() as i16);
    buf.put_slice(i1);
    buf.put_i16(0);

    // member 2: member_id = "m-2", group_instance_id = null, error_code = 79 (FENCED_INSTANCE_ID)
    let m2 = b"m-2";
    buf.put_i16(m2.len() as i16);
    buf.put_slice(m2);
    buf.put_i16(-1); // null group_instance_id
    buf.put_i16(79);

    let mut data = buf.freeze();
    let resp = LeaveGroupResponse::decode_v3(&mut data).unwrap();
    assert_eq!(resp.throttle_time_ms, 50);
    assert!(resp.error_code.is_ok());
    assert_eq!(resp.members.len(), 2);

    assert_eq!(resp.members[0].member_id, "m-1");
    assert_eq!(resp.members[0].group_instance_id, Some("i-1".to_string()));
    assert!(resp.members[0].error_code.is_ok());

    assert_eq!(resp.members[1].member_id, "m-2");
    assert_eq!(resp.members[1].group_instance_id, None);
    assert!(!resp.members[1].error_code.is_ok());
}

// SyncGroupResponse decode_v1 roundtrip.
#[test]
fn test_sync_group_response_decode_v1() {
    let mut buf = BytesMut::new();
    // throttle_time_ms
    buf.put_i32(50);
    // error_code = 0 (NONE)
    buf.put_i16(0);
    // assignment (empty bytes: length = 0)
    buf.put_i32(0);

    let mut data = buf.freeze();
    let resp = SyncGroupResponse::decode_v1(&mut data).unwrap();
    assert_eq!(resp.throttle_time_ms, 50);
    assert!(resp.error_code.is_ok());
    assert!(resp.assignment.is_empty());
}

#[test]
fn test_list_offsets_response_decode_v1_empty() {
    let mut buf = BytesMut::new();
    buf.put_i32(0); // 0 topics
    let mut data = buf.freeze();
    let resp = ListOffsetsResponse::decode_v1(&mut data).unwrap();
    assert!(resp.topics.is_empty());
}

#[test]
fn test_list_offsets_response_decode_v1_truncated_no_topic_count() {
    let mut buf = BytesMut::new();
    buf.put_i8(0); // only 1 byte - not enough for i32
    let mut data = buf.freeze();
    let result = ListOffsetsResponse::decode_v1(&mut data);
    assert!(result.is_err());
}

#[test]
fn test_list_offsets_response_decode_v1_negative_topic_count() {
    let mut buf = BytesMut::new();
    buf.put_i32(-1); // negative count
    let mut data = buf.freeze();
    let result = ListOffsetsResponse::decode_v1(&mut data);
    assert!(result.is_err());
}

#[test]
fn test_list_offsets_response_decode_v1_negative_partition_count() {
    let mut buf = BytesMut::new();
    buf.put_i32(1); // 1 topic
    // topic name (short string)
    buf.put_i16(4);
    buf.put_slice(b"test");
    buf.put_i32(-1); // negative partition count
    let mut data = buf.freeze();
    let result = ListOffsetsResponse::decode_v1(&mut data);
    assert!(result.is_err());
}

#[test]
fn test_list_offsets_response_decode_v1_truncated_partition() {
    let mut buf = BytesMut::new();
    buf.put_i32(1); // 1 topic
    buf.put_i16(4);
    buf.put_slice(b"test");
    buf.put_i32(1); // 1 partition
    buf.put_i32(0); // partition_index only (missing error_code, timestamp, offset)
    let mut data = buf.freeze();
    let result = ListOffsetsResponse::decode_v1(&mut data);
    assert!(result.is_err());
}

#[test]
fn test_list_offsets_response_decode_v1_valid() {
    let mut buf = BytesMut::new();
    buf.put_i32(1); // 1 topic
    buf.put_i16(5);
    buf.put_slice(b"topic");
    buf.put_i32(1); // 1 partition
    buf.put_i32(0); // partition_index
    buf.put_i16(0); // error_code (NONE)
    buf.put_i64(1234567890); // timestamp
    buf.put_i64(42); // offset
    let mut data = buf.freeze();
    let resp = ListOffsetsResponse::decode_v1(&mut data).unwrap();
    assert_eq!(resp.topics.len(), 1);
    assert_eq!(resp.topics[0].name, "topic");
    assert_eq!(resp.topics[0].partitions.len(), 1);
    assert_eq!(resp.topics[0].partitions[0].offset, 42);
    assert_eq!(resp.topics[0].partitions[0].timestamp, 1234567890);
}

#[test]
fn test_list_offsets_response_decode_v2_empty() {
    let mut buf = BytesMut::new();
    buf.put_i32(0); // throttle_time_ms
    buf.put_i32(0); // 0 topics
    let mut data = buf.freeze();
    let resp = ListOffsetsResponse::decode_v2(&mut data).unwrap();
    assert!(resp.topics.is_empty());
}

#[test]
fn test_list_offsets_response_decode_v2_valid() {
    let mut buf = BytesMut::new();
    buf.put_i32(100); // throttle_time_ms
    buf.put_i32(1); // 1 topic
    buf.put_i16(5);
    buf.put_slice(b"topic");
    buf.put_i32(1); // 1 partition
    buf.put_i32(0); // partition_index
    buf.put_i16(0); // error_code (NONE)
    buf.put_i64(1234567890); // timestamp
    buf.put_i64(42); // offset
    let mut data = buf.freeze();
    let resp = ListOffsetsResponse::decode_v2(&mut data).unwrap();
    assert_eq!(resp.topics.len(), 1);
    assert_eq!(resp.topics[0].partitions[0].offset, 42);
}

#[test]
fn test_list_offsets_response_decode_v2_truncated() {
    let mut buf = BytesMut::new();
    buf.put_i8(0); // only 1 byte - not enough for throttle_time_ms
    let mut data = buf.freeze();
    let result = ListOffsetsResponse::decode_v2(&mut data);
    assert!(result.is_err());
}

#[test]
fn test_list_offsets_request_encode_v2_includes_isolation_level() {
    let request = ListOffsetsRequest {
        replica_id: -1,
        isolation_level: 1, // read_committed
        topics: vec![ListOffsetsRequestTopic {
            name: "test-topic".to_string(),
            partitions: vec![ListOffsetsRequestPartition {
                partition_index: 0,
                current_leader_epoch: -1,
                timestamp: -1,
            }],
        }],
    };

    let mut buf = BytesMut::new();
    request.encode_v2(&mut buf).unwrap();

    // replica_id (4 bytes) + isolation_level (1 byte) + topics
    assert_eq!(i32::from_be_bytes([buf[0], buf[1], buf[2], buf[3]]), -1);
    assert_eq!(buf[4], 1); // isolation_level = read_committed
}

#[test]
fn test_list_offsets_request_encode_v1_no_isolation_level() {
    let request = ListOffsetsRequest {
        replica_id: -1,
        isolation_level: 1,
        topics: vec![],
    };

    let mut buf_v1 = BytesMut::new();
    request.encode_v1(&mut buf_v1).unwrap();

    let mut buf_v2 = BytesMut::new();
    request.encode_v2(&mut buf_v2).unwrap();

    // v2 should be 1 byte longer (isolation_level)
    assert_eq!(buf_v2.len(), buf_v1.len() + 1);
}

#[test]
fn test_fetch_request_encode_v7_includes_session_fields() {
    let request = FetchRequest {
        replica_id: -1,
        max_wait_ms: 500,
        min_bytes: 1,
        max_bytes: 1048576,
        isolation_level: 0,
        session_id: 42,
        session_epoch: 3,
        topics: vec![FetchTopicRequest {
            topic: "test-topic".to_string(),
            partitions: vec![FetchPartitionRequest {
                partition: 0,
                current_leader_epoch: -1,
                fetch_offset: 100,
                last_fetched_epoch: -1,
                log_start_offset: -1,
                partition_max_bytes: 1048576,
            }],
        }],
        forgotten_topics: vec![FetchForgottenTopic {
            topic: "old-topic".to_string(),
            partitions: vec![1, 2],
        }],
        rack_id: String::new(),
    };

    let mut buf_v4 = BytesMut::new();
    request.encode_v4(&mut buf_v4).unwrap();

    let mut buf_v7 = BytesMut::new();
    request.encode_v7(&mut buf_v7).unwrap();

    // v7 adds session_id(4) + session_epoch(4) + log_start_offset per partition(8)
    // + forgotten_topics array (4 + topic string + partitions)
    assert!(buf_v7.len() > buf_v4.len());

    // Verify session_id and session_epoch at expected offsets:
    // replica_id(4) + max_wait_ms(4) + min_bytes(4) + max_bytes(4) + isolation_level(1) = 17
    let session_id_bytes = &buf_v7[17..21];
    assert_eq!(i32::from_be_bytes(session_id_bytes.try_into().unwrap()), 42);
    let session_epoch_bytes = &buf_v7[21..25];
    assert_eq!(
        i32::from_be_bytes(session_epoch_bytes.try_into().unwrap()),
        3
    );
}

#[test]
fn test_fetch_request_encode_v7_empty_forgotten_topics() {
    let request = FetchRequest {
        replica_id: -1,
        max_wait_ms: 500,
        min_bytes: 1,
        max_bytes: 1048576,
        isolation_level: 0,
        session_id: 0,
        session_epoch: 0,
        topics: vec![],
        forgotten_topics: vec![],
        rack_id: String::new(),
    };

    let mut buf = BytesMut::new();
    request.encode_v7(&mut buf).unwrap();

    // Should still encode: header fields + empty topics array(4) + empty forgotten array(4)
    // replica_id(4) + max_wait_ms(4) + min_bytes(4) + max_bytes(4) + isolation_level(1)
    // + session_id(4) + session_epoch(4) + topics_count(4) + forgotten_count(4) = 33
    assert_eq!(buf.len(), 33);
}

#[test]
fn test_fetch_response_decode_v7_round_trip() {
    // Build a v7 response manually: throttle(4) + error_code(2) + session_id(4) + topics
    let mut raw = BytesMut::new();
    raw.put_i32(100); // throttle_time_ms
    raw.put_i16(0); // error_code (None)
    raw.put_i32(42); // session_id
    raw.put_i32(1); // 1 topic
    // topic name
    raw.put_i16(5);
    raw.put_slice(b"topic");
    raw.put_i32(1); // 1 partition
    raw.put_i32(0); // partition id
    raw.put_i16(0); // error_code
    raw.put_i64(1000); // high_watermark
    raw.put_i64(999); // last_stable_offset
    raw.put_i64(0); // log_start_offset
    raw.put_i32(0); // 0 aborted transactions
    raw.put_i32(-1); // records (null/-1 length)

    let mut buf = raw.freeze();
    let resp = FetchResponse::decode_v7(&mut buf).unwrap();

    assert_eq!(resp.throttle_time_ms, 100);
    assert_eq!(resp.error_code, ErrorCode::NoError);
    assert_eq!(resp.session_id, 42);
    assert_eq!(resp.responses.len(), 1);
    assert_eq!(resp.responses[0].topic, "topic");
    assert_eq!(resp.responses[0].partitions.len(), 1);
    assert_eq!(resp.responses[0].partitions[0].partition, 0);
    assert_eq!(resp.responses[0].partitions[0].high_watermark, 1000);
    assert_eq!(resp.responses[0].partitions[0].last_stable_offset, 999);
    assert_eq!(resp.responses[0].partitions[0].log_start_offset, 0);
}

#[test]
fn test_fetch_response_decode_v7_session_error() {
    let mut raw = BytesMut::new();
    raw.put_i32(0); // throttle_time_ms
    raw.put_i16(70); // FetchSessionIdNotFound
    raw.put_i32(0); // session_id
    raw.put_i32(0); // 0 topics

    let mut buf = raw.freeze();
    let resp = FetchResponse::decode_v7(&mut buf).unwrap();

    assert_eq!(resp.error_code, ErrorCode::FetchSessionIdNotFound);
    assert_eq!(resp.session_id, 0);
    assert!(resp.responses.is_empty());
}

#[test]
fn test_fetch_response_decode_v7_vs_v4_extra_fields() {
    // v4 response: no error_code, no session_id
    let mut raw_v4 = BytesMut::new();
    raw_v4.put_i32(50); // throttle_time_ms
    raw_v4.put_i32(0); // 0 topics

    let mut buf_v4 = raw_v4.freeze();
    let resp_v4 = FetchResponse::decode_v4(&mut buf_v4).unwrap();
    assert_eq!(resp_v4.throttle_time_ms, 50);
    assert_eq!(resp_v4.error_code, ErrorCode::NoError); // default
    assert_eq!(resp_v4.session_id, 0); // default

    // v7 response: has error_code + session_id
    let mut raw_v7 = BytesMut::new();
    raw_v7.put_i32(50); // throttle_time_ms
    raw_v7.put_i16(0); // error_code
    raw_v7.put_i32(99); // session_id
    raw_v7.put_i32(0); // 0 topics

    let mut buf_v7 = raw_v7.freeze();
    let resp_v7 = FetchResponse::decode_v7(&mut buf_v7).unwrap();
    assert_eq!(resp_v7.throttle_time_ms, 50);
    assert_eq!(resp_v7.session_id, 99);
}

#[test]
fn test_versioned_encode_metadata_request_v0() {
    let request = MetadataRequest::all_topics();
    let mut buf = BytesMut::new();
    request.encode_versioned(0, &mut buf).unwrap();
    // Should produce the same bytes as encode_v0
    let mut expected = BytesMut::new();
    request.encode_v0(&mut expected).unwrap();
    assert_eq!(buf, expected);
}

#[test]
fn test_versioned_encode_metadata_request_v1() {
    let request = MetadataRequest::all_topics();
    let mut buf = BytesMut::new();
    request.encode_versioned(1, &mut buf).unwrap();
    let mut expected = BytesMut::new();
    request.encode_v1(&mut expected).unwrap();
    assert_eq!(buf, expected);
}

/// v0 and v1 encode differently for all_topics(): empty array vs null array.
#[test]
fn test_versioned_encode_metadata_v0_vs_v1_all_topics() {
    let request = MetadataRequest::all_topics();
    let mut buf_v0 = BytesMut::new();
    request.encode_versioned(0, &mut buf_v0).unwrap();
    let mut buf_v1 = BytesMut::new();
    request.encode_versioned(1, &mut buf_v1).unwrap();
    // v0: 0x00000000 (empty array), v1: 0xFFFFFFFF (null array)
    assert_ne!(buf_v0, buf_v1);
    assert_eq!(
        i32::from_be_bytes([buf_v0[0], buf_v0[1], buf_v0[2], buf_v0[3]]),
        0
    );
    assert_eq!(
        i32::from_be_bytes([buf_v1[0], buf_v1[1], buf_v1[2], buf_v1[3]]),
        -1
    );
}

#[test]
fn test_versioned_encode_metadata_request_v4() {
    let request = MetadataRequest::all_topics();
    let mut buf = BytesMut::new();
    request.encode_versioned(4, &mut buf).unwrap();
    let mut expected = BytesMut::new();
    request.encode_v4(&mut expected).unwrap();
    assert_eq!(buf, expected);
}

#[test]
fn test_versioned_encode_metadata_request_v8() {
    let request = MetadataRequest::all_topics();
    let mut buf = BytesMut::new();
    request.encode_versioned(8, &mut buf).unwrap();
    let mut expected = BytesMut::new();
    request.encode_v8(&mut expected).unwrap();
    assert_eq!(buf, expected);
}

#[test]
fn test_versioned_encode_metadata_request_rejects_v9() {
    let request = MetadataRequest::all_topics();
    let mut buf = BytesMut::new();
    let result = request.encode_versioned(9, &mut buf);
    assert!(result.is_err());
    let msg = result.unwrap_err().to_string();
    assert!(msg.contains("unsupported"), "got: {msg}");
}

#[test]
fn test_versioned_encode_rejects_negative_version() {
    let request = MetadataRequest::all_topics();
    let mut buf = BytesMut::new();
    let result = request.encode_versioned(-1, &mut buf);
    assert!(result.is_err());
    let msg = result.unwrap_err().to_string();
    assert!(msg.contains("unsupported"), "got: {msg}");
}

#[test]
fn test_versioned_decode_rejects_negative_version() {
    let mut buf = Bytes::new();
    let result = MetadataResponse::decode_versioned(-1, &mut buf);
    assert!(result.is_err());
    let msg = result.unwrap_err().to_string();
    assert!(msg.contains("unsupported"), "got: {msg}");
}

#[test]
fn test_versioned_decode_metadata_rejects_v9() {
    let mut buf = Bytes::new();
    let result = MetadataResponse::decode_versioned(9, &mut buf);
    assert!(result.is_err());
    let msg = result.unwrap_err().to_string();
    assert!(msg.contains("unsupported"), "got: {msg}");
}

/// v0: brokers (no rack) + topics (no is_internal), no controller_id/cluster_id/throttle.
#[test]
fn test_metadata_response_decode_v0() {
    let mut buf = BytesMut::new();
    // 1 broker
    buf.put_i32(1);
    buf.put_i32(1); // node_id
    let host = b"broker1";
    buf.put_i16(host.len() as i16);
    buf.put_slice(host);
    buf.put_i32(9092); // port
    // 1 topic
    buf.put_i32(1);
    buf.put_i16(0); // error_code
    let topic = b"test";
    buf.put_i16(topic.len() as i16);
    buf.put_slice(topic);
    // 1 partition
    buf.put_i32(1);
    buf.put_i16(0); // error_code
    buf.put_i32(0); // partition_index
    buf.put_i32(1); // leader_id
    buf.put_i32(1); // replicas count
    buf.put_i32(1); // replica
    buf.put_i32(1); // isr count
    buf.put_i32(1); // isr

    let resp = MetadataResponse::decode_versioned(0, &mut buf.freeze()).unwrap();
    assert_eq!(resp.brokers.len(), 1);
    assert_eq!(resp.brokers[0].rack, None); // no rack in v0
    assert_eq!(resp.controller_id, -1); // no controller in v0
    assert_eq!(resp.cluster_id, None);
    assert_eq!(resp.throttle_time_ms, 0);
    assert!(!resp.topics[0].is_internal); // defaults to false in v0
    assert_eq!(resp.topics[0].partitions[0].leader_epoch, -1);
    assert!(resp.topics[0].partitions[0].offline_replicas.is_empty());
}

/// Build a v1 Metadata response on the wire:
/// brokers (with rack) + controller_id + topics (with is_internal).
#[test]
fn test_metadata_response_decode_v1() {
    let mut buf = BytesMut::new();
    // 1 broker
    buf.put_i32(1);
    buf.put_i32(1); // node_id
    let host = b"broker1";
    buf.put_i16(host.len() as i16);
    buf.put_slice(host);
    buf.put_i32(9092); // port
    let rack = b"us-east-1a";
    buf.put_i16(rack.len() as i16);
    buf.put_slice(rack); // rack
    // controller_id
    buf.put_i32(1);
    // 1 topic
    buf.put_i32(1);
    buf.put_i16(0); // error_code
    let topic = b"test";
    buf.put_i16(topic.len() as i16);
    buf.put_slice(topic);
    buf.put_u8(0); // is_internal = false
    // 1 partition
    buf.put_i32(1);
    buf.put_i16(0); // error_code
    buf.put_i32(0); // partition_index
    buf.put_i32(1); // leader_id
    buf.put_i32(1); // replicas count
    buf.put_i32(1); // replica
    buf.put_i32(1); // isr count
    buf.put_i32(1); // isr

    let resp = MetadataResponse::decode_versioned(1, &mut buf.freeze()).unwrap();
    assert_eq!(resp.brokers.len(), 1);
    assert_eq!(resp.brokers[0].rack.as_deref(), Some("us-east-1a"));
    assert_eq!(resp.controller_id, 1);
    assert_eq!(resp.cluster_id, None);
    assert_eq!(resp.throttle_time_ms, 0);
    assert_eq!(resp.topics[0].partitions[0].leader_epoch, -1);
}

/// v2 adds cluster_id.
#[test]
fn test_metadata_response_decode_v2() {
    let mut buf = BytesMut::new();
    // 1 broker
    buf.put_i32(1);
    buf.put_i32(1);
    let host = b"broker1";
    buf.put_i16(host.len() as i16);
    buf.put_slice(host);
    buf.put_i32(9092);
    let rack = b"rack-a";
    buf.put_i16(rack.len() as i16);
    buf.put_slice(rack);
    // cluster_id
    let cid = b"abc-cluster";
    buf.put_i16(cid.len() as i16);
    buf.put_slice(cid);
    // controller_id
    buf.put_i32(1);
    // 0 topics
    buf.put_i32(0);

    let resp = MetadataResponse::decode_versioned(2, &mut buf.freeze()).unwrap();
    assert_eq!(resp.cluster_id.as_deref(), Some("abc-cluster"));
    assert_eq!(resp.brokers[0].rack.as_deref(), Some("rack-a"));
}

/// v3 adds throttle_time_ms.
#[test]
fn test_metadata_response_decode_v3() {
    let mut buf = BytesMut::new();
    buf.put_i32(50); // throttle_time_ms
    // 0 brokers
    buf.put_i32(0);
    // cluster_id = null
    buf.put_i16(-1);
    // controller_id
    buf.put_i32(-1);
    // 0 topics
    buf.put_i32(0);

    let resp = MetadataResponse::decode_versioned(3, &mut buf.freeze()).unwrap();
    assert_eq!(resp.throttle_time_ms, 50);
    assert_eq!(resp.cluster_id, None);
}

/// v4 response is same wire format as v3.
#[test]
fn test_metadata_response_decode_v4() {
    let mut buf = BytesMut::new();
    buf.put_i32(0); // throttle_time_ms
    buf.put_i32(0); // 0 brokers
    let cid = b"kraft-cluster-1";
    buf.put_i16(cid.len() as i16);
    buf.put_slice(cid);
    buf.put_i32(2); // controller_id
    buf.put_i32(0); // 0 topics

    let resp = MetadataResponse::decode_versioned(4, &mut buf.freeze()).unwrap();
    assert_eq!(resp.cluster_id.as_deref(), Some("kraft-cluster-1"));
    assert_eq!(resp.controller_id, 2);
}

/// v5 adds partition offline_replicas.
#[test]
fn test_metadata_response_decode_v5() {
    let mut buf = BytesMut::new();
    buf.put_i32(0); // throttle_time_ms
    buf.put_i32(0); // 0 brokers
    buf.put_i16(-1); // cluster_id null
    buf.put_i32(-1); // controller_id
    // 1 topic
    buf.put_i32(1);
    buf.put_i16(0); // error_code
    let topic = b"t1";
    buf.put_i16(topic.len() as i16);
    buf.put_slice(topic);
    buf.put_u8(0); // is_internal
    // 1 partition
    buf.put_i32(1);
    buf.put_i16(0); // error_code
    buf.put_i32(0); // partition_index
    buf.put_i32(1); // leader_id
    buf.put_i32(2); // replicas count
    buf.put_i32(1);
    buf.put_i32(2);
    buf.put_i32(2); // isr count
    buf.put_i32(1);
    buf.put_i32(2);
    buf.put_i32(1); // offline_replicas count
    buf.put_i32(2); // offline replica

    let resp = MetadataResponse::decode_versioned(5, &mut buf.freeze()).unwrap();
    assert_eq!(resp.topics[0].partitions[0].offline_replicas, vec![2]);
    assert_eq!(resp.topics[0].partitions[0].leader_epoch, -1); // not in v5
}

/// v6 has the same wire format as v5 - verify dispatch routes through decode_v5.
#[test]
fn test_metadata_response_decode_v6() {
    let mut buf = BytesMut::new();
    buf.put_i32(0); // throttle_time_ms
    buf.put_i32(0); // 0 brokers
    buf.put_i16(-1); // cluster_id null
    buf.put_i32(-1); // controller_id
    // 1 topic
    buf.put_i32(1);
    buf.put_i16(0); // error_code
    let topic = b"t2";
    buf.put_i16(topic.len() as i16);
    buf.put_slice(topic);
    buf.put_u8(1); // is_internal = true
    // 1 partition
    buf.put_i32(1);
    buf.put_i16(0); // error_code
    buf.put_i32(0); // partition_index
    buf.put_i32(1); // leader_id
    buf.put_i32(1); // replicas count
    buf.put_i32(1);
    buf.put_i32(1); // isr count
    buf.put_i32(1);
    buf.put_i32(0); // offline_replicas count

    let resp = MetadataResponse::decode_versioned(6, &mut buf.freeze()).unwrap();
    assert_eq!(resp.topics[0].name.as_deref(), Some("t2"));
    assert!(resp.topics[0].is_internal);
    assert_eq!(resp.topics[0].partitions[0].leader_epoch, -1); // not in v6
}

/// v7 adds partition leader_epoch.
#[test]
fn test_metadata_response_decode_v7() {
    let mut buf = BytesMut::new();
    buf.put_i32(0); // throttle_time_ms
    // 1 broker with rack
    buf.put_i32(1);
    buf.put_i32(1);
    let host = b"broker1";
    buf.put_i16(host.len() as i16);
    buf.put_slice(host);
    buf.put_i32(9092);
    let rack = b"az-1";
    buf.put_i16(rack.len() as i16);
    buf.put_slice(rack);
    // cluster_id
    let cid = b"kraft-id";
    buf.put_i16(cid.len() as i16);
    buf.put_slice(cid);
    buf.put_i32(1); // controller_id
    // 1 topic
    buf.put_i32(1);
    buf.put_i16(0); // error_code
    let topic = b"events";
    buf.put_i16(topic.len() as i16);
    buf.put_slice(topic);
    buf.put_u8(0); // is_internal
    // 1 partition
    buf.put_i32(1);
    buf.put_i16(0); // error_code
    buf.put_i32(0); // partition_index
    buf.put_i32(1); // leader_id
    buf.put_i32(42); // leader_epoch (new in v7)
    buf.put_i32(1); // replicas count
    buf.put_i32(1);
    buf.put_i32(1); // isr count
    buf.put_i32(1);
    buf.put_i32(0); // offline_replicas count

    let resp = MetadataResponse::decode_versioned(7, &mut buf.freeze()).unwrap();
    assert_eq!(resp.cluster_id.as_deref(), Some("kraft-id"));
    assert_eq!(resp.brokers[0].rack.as_deref(), Some("az-1"));
    assert_eq!(resp.topics[0].partitions[0].leader_epoch, 42);
    assert!(resp.topics[0].partitions[0].offline_replicas.is_empty());
}

/// v8 adds topic_authorized_operations and cluster_authorized_operations.
#[test]
fn test_metadata_response_decode_v8() {
    let mut buf = BytesMut::new();
    buf.put_i32(10); // throttle_time_ms
    buf.put_i32(0); // 0 brokers
    let cid = b"kraft-8";
    buf.put_i16(cid.len() as i16);
    buf.put_slice(cid);
    buf.put_i32(0); // controller_id
    // 1 topic
    buf.put_i32(1);
    buf.put_i16(0); // error_code
    let topic = b"orders";
    buf.put_i16(topic.len() as i16);
    buf.put_slice(topic);
    buf.put_u8(0); // is_internal
    // 0 partitions
    buf.put_i32(0);
    buf.put_i32(-2147483648_i32); // topic_authorized_operations (not requested)
    // cluster_authorized_operations
    buf.put_i32(-2147483648_i32);

    let resp = MetadataResponse::decode_versioned(8, &mut buf.freeze()).unwrap();
    assert_eq!(resp.throttle_time_ms, 10);
    assert_eq!(resp.cluster_id.as_deref(), Some("kraft-8"));
    assert_eq!(resp.topics[0].name.as_deref(), Some("orders"));
}

/// Encode v4 adds allow_auto_topic_creation byte on top of v1.
#[test]
fn test_metadata_request_encode_v4_adds_auto_create() {
    let request = MetadataRequest::all_topics();
    let mut buf_v1 = BytesMut::new();
    request.encode_v1(&mut buf_v1).unwrap();
    let mut buf_v4 = BytesMut::new();
    request.encode_v4(&mut buf_v4).unwrap();
    // v4 = v1 + 1 byte (allow_auto_topic_creation)
    assert_eq!(buf_v4.len(), buf_v1.len() + 1);
}

/// Encode v8 adds two more boolean bytes.
#[test]
fn test_metadata_request_encode_v8_adds_authorized_ops() {
    let request = MetadataRequest::all_topics();
    let mut buf_v4 = BytesMut::new();
    request.encode_v4(&mut buf_v4).unwrap();
    let mut buf_v8 = BytesMut::new();
    request.encode_v8(&mut buf_v8).unwrap();
    // v8 = v4 + 2 bytes (include_cluster/topic_authorized_operations)
    assert_eq!(buf_v8.len(), buf_v4.len() + 2);
}

#[test]
fn test_versioned_encode_decode_roundtrip_sasl_handshake() {
    let request = SaslHandshakeRequest::new("SCRAM-SHA-256");
    let mut buf = BytesMut::new();
    request.encode_versioned(0, &mut buf).unwrap();
    assert!(!buf.is_empty());
    // High version still works (dispatches to latest encoder)
    let mut buf2 = BytesMut::new();
    request.encode_versioned(1, &mut buf2).unwrap();
    assert!(!buf2.is_empty());
}

#[test]
fn test_versioned_encode_fetch_request_dispatches_correctly() {
    let request = FetchRequest {
        replica_id: -1,
        max_wait_ms: 500,
        min_bytes: 1,
        max_bytes: 1048576,
        isolation_level: 0,
        session_id: 0,
        session_epoch: -1,
        topics: vec![],
        forgotten_topics: vec![],
        rack_id: String::new(),
    };
    // v0 and v7 should use different encoders and produce different output
    let mut buf_v0 = BytesMut::new();
    request.encode_versioned(0, &mut buf_v0).unwrap();
    let mut buf_v7 = BytesMut::new();
    request.encode_versioned(7, &mut buf_v7).unwrap();
    // v7 encodes extra fields (session_id, session_epoch) so should be longer
    assert!(buf_v7.len() > buf_v0.len());
}

#[test]
fn test_fetch_request_encode_v11_appends_rack_id() {
    let request = FetchRequest {
        replica_id: -1,
        max_wait_ms: 500,
        min_bytes: 1,
        max_bytes: 1048576,
        isolation_level: 0,
        session_id: 0,
        session_epoch: 0,
        topics: vec![FetchTopicRequest {
            topic: "t".to_string(),
            partitions: vec![FetchPartitionRequest {
                partition: 0,
                current_leader_epoch: 5,
                fetch_offset: 100,
                last_fetched_epoch: -1,
                log_start_offset: 0,
                partition_max_bytes: 1048576,
            }],
        }],
        forgotten_topics: vec![],
        rack_id: "us-east-1a".to_string(),
    };

    let mut buf_v9 = BytesMut::new();
    request.encode_v9(&mut buf_v9).unwrap();

    let mut buf_v11 = BytesMut::new();
    request.encode_v11(&mut buf_v11).unwrap();

    // v11 is v9 + rack_id string (2 bytes length + 10 bytes "us-east-1a")
    assert_eq!(buf_v11.len(), buf_v9.len() + 2 + 10);

    // The v11 buffer should start with the same bytes as v9
    assert_eq!(&buf_v11[..buf_v9.len()], &buf_v9[..]);
}

#[test]
fn test_fetch_request_encode_v11_empty_rack_id() {
    let request = FetchRequest {
        replica_id: -1,
        max_wait_ms: 500,
        min_bytes: 1,
        max_bytes: 1048576,
        isolation_level: 0,
        session_id: 0,
        session_epoch: 0,
        topics: vec![],
        forgotten_topics: vec![],
        rack_id: String::new(),
    };

    let mut buf_v9 = BytesMut::new();
    request.encode_v9(&mut buf_v9).unwrap();

    let mut buf_v11 = BytesMut::new();
    request.encode_v11(&mut buf_v11).unwrap();

    // Empty rack_id: 2-byte length prefix (0) only
    assert_eq!(buf_v11.len(), buf_v9.len() + 2);
}

#[test]
fn test_fetch_response_decode_v11_preferred_read_replica() {
    // Build a v11 response: same as v7 but with preferred_read_replica per partition
    let mut raw = BytesMut::new();
    raw.put_i32(100); // throttle_time_ms
    raw.put_i16(0); // error_code (None)
    raw.put_i32(42); // session_id
    raw.put_i32(1); // 1 topic
    // topic name
    raw.put_i16(5);
    raw.put_slice(b"topic");
    raw.put_i32(1); // 1 partition
    raw.put_i32(0); // partition id
    raw.put_i16(0); // error_code
    raw.put_i64(1000); // high_watermark
    raw.put_i64(999); // last_stable_offset
    raw.put_i64(0); // log_start_offset
    raw.put_i32(0); // 0 aborted transactions
    raw.put_i32(3); // preferred_read_replica = broker 3
    raw.put_i32(-1); // records (null/-1 length)

    let mut buf = raw.freeze();
    let resp = FetchResponse::decode_v11(&mut buf).unwrap();

    assert_eq!(resp.throttle_time_ms, 100);
    assert_eq!(resp.session_id, 42);
    assert_eq!(resp.responses.len(), 1);
    let part = &resp.responses[0].partitions[0];
    assert_eq!(part.partition, 0);
    assert_eq!(part.high_watermark, 1000);
    assert_eq!(part.preferred_read_replica, 3);
}

#[test]
fn test_fetch_response_decode_v11_no_preferred_replica() {
    let mut raw = BytesMut::new();
    raw.put_i32(0); // throttle_time_ms
    raw.put_i16(0); // error_code
    raw.put_i32(0); // session_id
    raw.put_i32(1); // 1 topic
    raw.put_i16(1);
    raw.put_slice(b"t");
    raw.put_i32(1); // 1 partition
    raw.put_i32(0); // partition id
    raw.put_i16(0); // error_code
    raw.put_i64(500); // high_watermark
    raw.put_i64(499); // last_stable_offset
    raw.put_i64(0); // log_start_offset
    raw.put_i32(0); // 0 aborted transactions
    raw.put_i32(-1); // preferred_read_replica = -1 (no preference)
    raw.put_i32(-1); // records (null)

    let mut buf = raw.freeze();
    let resp = FetchResponse::decode_v11(&mut buf).unwrap();

    assert_eq!(resp.responses[0].partitions[0].preferred_read_replica, -1);
}

#[test]
fn test_versioned_encode_fetch_v11_dispatches_to_encode_v11() {
    let request = FetchRequest {
        replica_id: -1,
        max_wait_ms: 500,
        min_bytes: 1,
        max_bytes: 1048576,
        isolation_level: 0,
        session_id: 0,
        session_epoch: 0,
        topics: vec![],
        forgotten_topics: vec![],
        rack_id: "rack-a".to_string(),
    };

    let mut buf_direct = BytesMut::new();
    request.encode_v11(&mut buf_direct).unwrap();

    let mut buf_versioned = BytesMut::new();
    request.encode_versioned(11, &mut buf_versioned).unwrap();

    assert_eq!(buf_direct, buf_versioned);
}

#[test]
fn test_versioned_decode_fetch_v11_dispatches_to_decode_v11() {
    let mut raw = BytesMut::new();
    raw.put_i32(0); // throttle_time_ms
    raw.put_i16(0); // error_code
    raw.put_i32(0); // session_id
    raw.put_i32(0); // 0 topics

    let data = raw.freeze();
    let resp = FetchResponse::decode_versioned(11, &mut data.clone()).unwrap();
    assert_eq!(resp.throttle_time_ms, 0);
    assert!(resp.responses.is_empty());
}

#[test]
fn test_versioned_encode_fetch_v8_dispatches_to_v7() {
    let request = FetchRequest {
        replica_id: -1,
        max_wait_ms: 500,
        min_bytes: 1,
        max_bytes: 1048576,
        isolation_level: 0,
        session_id: 0,
        session_epoch: 0,
        topics: vec![FetchTopicRequest {
            topic: "t".to_string(),
            partitions: vec![FetchPartitionRequest {
                partition: 0,
                current_leader_epoch: -1,
                fetch_offset: 100,
                last_fetched_epoch: -1,
                log_start_offset: 0,
                partition_max_bytes: 1048576,
            }],
        }],
        forgotten_topics: vec![],
        rack_id: String::new(),
    };

    let mut buf_v7 = BytesMut::new();
    request.encode_versioned(7, &mut buf_v7).unwrap();

    let mut buf_v8 = BytesMut::new();
    request.encode_versioned(8, &mut buf_v8).unwrap();
    assert_eq!(buf_v8, buf_v7, "v8 should produce same bytes as v7");
}

#[test]
fn test_versioned_encode_fetch_v9_v10_dispatches_to_v9() {
    let request = FetchRequest {
        replica_id: -1,
        max_wait_ms: 500,
        min_bytes: 1,
        max_bytes: 1048576,
        isolation_level: 0,
        session_id: 0,
        session_epoch: 0,
        topics: vec![FetchTopicRequest {
            topic: "t".to_string(),
            partitions: vec![FetchPartitionRequest {
                partition: 0,
                current_leader_epoch: 5,
                fetch_offset: 100,
                last_fetched_epoch: -1,
                log_start_offset: 0,
                partition_max_bytes: 1048576,
            }],
        }],
        forgotten_topics: vec![],
        rack_id: String::new(),
    };

    let mut buf_v9 = BytesMut::new();
    request.encode_v9(&mut buf_v9).unwrap();

    for version in 9..=10 {
        let mut buf = BytesMut::new();
        request.encode_versioned(version, &mut buf).unwrap();
        assert_eq!(buf, buf_v9, "v{version} should produce same bytes as v9");
    }

    // v9+ includes current_leader_epoch (4 bytes per partition) that v7 omits
    let mut buf_v7 = BytesMut::new();
    request.encode_v7(&mut buf_v7).unwrap();
    assert_eq!(
        buf_v9.len(),
        buf_v7.len() + 4,
        "v9 should be 4 bytes longer than v7 (current_leader_epoch per partition)"
    );
}

#[test]
fn test_encode_oversized_string_returns_error_not_panic() {
    // A string exceeding i16::MAX bytes must produce an Err, not a panic.
    let oversized = "x".repeat(i16::MAX as usize + 1);
    let request = FindCoordinatorRequest {
        key: oversized,
        key_type: 0,
    };
    let mut buf = BytesMut::new();
    let result = request.encode_v0(&mut buf);
    assert!(result.is_err(), "expected Err for oversized string");
    let msg = result.unwrap_err().to_string();
    assert!(
        msg.contains("exceeds"),
        "error should mention size limit: {msg}"
    );
}

#[test]
fn test_encode_oversized_topic_name_returns_error_not_panic() {
    // KafkaString uses an i16 length prefix, so > 32767 bytes triggers error.
    // We can't allocate i32::MAX bytes, so we validate the fallible path
    // via the smaller KafkaString limit instead.
    let oversized_topic = "x".repeat(i16::MAX as usize + 1);
    let request = ProduceRequest {
        transactional_id: None,
        acks: -1,
        timeout_ms: 30000,
        topic_data: vec![ProduceTopicData {
            name: oversized_topic,
            partition_data: vec![],
        }],
    };
    let mut buf = BytesMut::new();
    let result = request.encode_v0(&mut buf);
    assert!(result.is_err(), "expected Err for oversized topic name");
}

#[test]
fn test_encode_versioned_oversized_returns_error() {
    // End-to-end: VersionedEncode must propagate encoding errors.
    let oversized = "x".repeat(i16::MAX as usize + 1);
    let request = FindCoordinatorRequest {
        key: oversized,
        key_type: 0,
    };
    let mut buf = BytesMut::new();
    let result = request.encode_versioned(0, &mut buf);
    assert!(
        result.is_err(),
        "VersionedEncode must propagate encoding errors"
    );
}
