//! Tests of `krafka::protocol::messages::alter_partition_reassignments`.

use bytes::{BufMut, Bytes, BytesMut};
use krafka::protocol::api::ApiKey;
use krafka::protocol::messages::{VersionedDecode, VersionedEncode};
use krafka::protocol::messages::alter_partition_reassignments::{
    AlterPartitionReassignmentsRequest, AlterPartitionReassignmentsResponse, ReassignablePartition,
    ReassignableTopic,
};
use krafka::protocol::primitives::Decode;

#[test]
fn test_alter_partition_reassignments_api_key() {
    assert_eq!(
        AlterPartitionReassignmentsRequest::api_key(),
        ApiKey::AlterPartitionReassignments
    );
}

#[test]
fn test_alter_partition_reassignments_request_encode_v0() {
    let request = AlterPartitionReassignmentsRequest {
        timeout_ms: 60_000,
        allow_replication_factor_change: true,
        topics: vec![ReassignableTopic {
            name: "my-topic".to_string(),
            partitions: vec![
                ReassignablePartition {
                    partition_index: 0,
                    replicas: Some(vec![1, 2, 3]),
                },
                ReassignablePartition {
                    partition_index: 1,
                    replicas: None, // cancel
                },
            ],
        }],
    };

    let mut buf = BytesMut::new();
    request.encode_v0(&mut buf).unwrap();
    assert!(!buf.is_empty());
}

#[test]
fn test_alter_partition_reassignments_versioned_unsupported() {
    let request = AlterPartitionReassignmentsRequest {
        timeout_ms: 60_000,
        allow_replication_factor_change: true,
        topics: Vec::new(),
    };
    let mut buf = BytesMut::new();
    assert!(request.encode_versioned(-1, &mut buf).is_err());
    assert!(request.encode_versioned(2, &mut buf).is_err());
}

/// v1 inserts `AllowReplicationFactorChange` immediately after `TimeoutMs`
/// and before the topics array. Getting that order wrong would shift every
/// subsequent field and make the broker reject the request.
#[test]
fn test_alter_partition_reassignments_request_encode_v1_field_order() {
    let request = AlterPartitionReassignmentsRequest {
        timeout_ms: 30_000,
        allow_replication_factor_change: false,
        topics: Vec::new(),
    };

    let mut buf = BytesMut::new();
    request.encode_v1(&mut buf).unwrap();

    let mut cur = Bytes::copy_from_slice(&buf);
    assert_eq!(i32::decode(&mut cur).unwrap(), 30_000);
    assert!(
        !bool::decode(&mut cur).unwrap(),
        "AllowReplicationFactorChange must follow TimeoutMs"
    );
    // Empty compact topics array is varint(1).
    assert_eq!(
        krafka::util::varint::decode_unsigned_varint(&mut cur).unwrap(),
        1
    );
    // Top-level tagged fields.
    assert_eq!(
        krafka::util::varint::decode_unsigned_varint(&mut cur).unwrap(),
        0
    );
    assert!(cur.is_empty());
}

/// v0 must not emit the v1-only field - a v0 broker would read it as the
/// leading byte of the topics array.
#[test]
fn test_alter_partition_reassignments_request_v0_omits_v1_field() {
    let request = AlterPartitionReassignmentsRequest {
        timeout_ms: 30_000,
        allow_replication_factor_change: false,
        topics: Vec::new(),
    };
    let mut v0 = BytesMut::new();
    let mut v1 = BytesMut::new();
    request.encode_v0(&mut v0).unwrap();
    request.encode_v1(&mut v1).unwrap();
    assert_eq!(v1.len(), v0.len() + 1, "v1 adds exactly one bool byte");
}

/// Build a compact (flexible) string: varint(len+1) followed by raw bytes.
fn put_compact_string(buf: &mut BytesMut, s: &str) {
    krafka::util::varint::encode_unsigned_varint((s.len() + 1) as u32, buf);
    buf.put_slice(s.as_bytes());
}

/// Write a compact nullable string set to null: varint(0).
fn put_compact_null_string(buf: &mut BytesMut) {
    krafka::util::varint::encode_unsigned_varint(0, buf);
}

/// Write a zero-length tagged-fields section.
fn put_empty_tagged_fields(buf: &mut BytesMut) {
    krafka::util::varint::encode_unsigned_varint(0, buf);
}

/// Write a compact array length: varint(count + 1).
fn put_compact_array_len(buf: &mut BytesMut, count: usize) {
    krafka::util::varint::encode_unsigned_varint((count + 1) as u32, buf);
}

#[test]
fn test_alter_partition_reassignments_response_decode_v0() {
    let mut buf = BytesMut::new();
    // throttle_time_ms
    buf.put_i32(0);
    // error_code = NONE
    buf.put_i16(0);
    // error_message = null
    put_compact_null_string(&mut buf);
    // responses compact array: count = 1
    put_compact_array_len(&mut buf, 1);
    // topic name
    put_compact_string(&mut buf, "my-topic");
    // partitions compact array: count = 2
    put_compact_array_len(&mut buf, 2);
    // partition 0: success
    buf.put_i32(0); // partition_index
    buf.put_i16(0); // error_code = NONE
    put_compact_null_string(&mut buf); // error_message
    put_empty_tagged_fields(&mut buf); // partition tagged fields
    // partition 1: error
    buf.put_i32(1); // partition_index
    buf.put_i16(87); // error_code
    put_compact_string(&mut buf, "Reassignment in progress");
    put_empty_tagged_fields(&mut buf); // partition tagged fields
    // topic tagged fields
    put_empty_tagged_fields(&mut buf);
    // top-level tagged fields
    put_empty_tagged_fields(&mut buf);

    let resp = AlterPartitionReassignmentsResponse::decode_v0(&mut buf.freeze()).unwrap();
    assert_eq!(resp.throttle_time_ms, 0);
    assert!(resp.error_code.is_ok());
    assert!(resp.error_message.is_none());
    assert_eq!(resp.responses.len(), 1);

    let topic = &resp.responses[0];
    assert_eq!(topic.name, "my-topic");
    assert_eq!(topic.partitions.len(), 2);
    assert!(topic.partitions[0].error_code.is_ok());
    assert!(!topic.partitions[1].error_code.is_ok());
    assert_eq!(
        topic.partitions[1].error_message.as_deref(),
        Some("Reassignment in progress")
    );
}

#[test]
fn test_alter_partition_reassignments_response_top_level_error() {
    let mut buf = BytesMut::new();
    buf.put_i32(50); // throttle_time_ms
    buf.put_i16(31); // error_code = CLUSTER_AUTHORIZATION_FAILED
    put_compact_string(&mut buf, "Not authorized");
    // empty responses
    put_compact_array_len(&mut buf, 0);
    put_empty_tagged_fields(&mut buf); // top-level tagged fields

    let resp = AlterPartitionReassignmentsResponse::decode_v0(&mut buf.freeze()).unwrap();
    assert_eq!(resp.throttle_time_ms, 50);
    assert!(!resp.error_code.is_ok());
    assert_eq!(resp.error_message.as_deref(), Some("Not authorized"));
    assert!(resp.responses.is_empty());
}

#[test]
fn test_alter_partition_reassignments_versioned_decode_unsupported() {
    let buf = BytesMut::new();
    assert!(
        AlterPartitionReassignmentsResponse::decode_versioned(-1, &mut buf.clone().freeze())
            .is_err()
    );
    assert!(
        AlterPartitionReassignmentsResponse::decode_versioned(2, &mut buf.freeze()).is_err()
    );
}

/// v1 echoes the applied `AllowReplicationFactorChange` right after
/// `ThrottleTimeMs`, ahead of the error code.
#[test]
fn test_alter_partition_reassignments_response_decode_v1() {
    let mut buf = BytesMut::new();
    buf.put_i32(0); // throttle_time_ms
    buf.put_u8(0); // allow_replication_factor_change = false
    buf.put_i16(0); // error_code = NONE
    put_compact_null_string(&mut buf); // error_message
    put_compact_array_len(&mut buf, 0); // responses
    put_empty_tagged_fields(&mut buf);

    let resp = AlterPartitionReassignmentsResponse::decode_versioned(1, &mut buf.freeze())
        .expect("v1 response decodes");
    assert!(!resp.allow_replication_factor_change);
    assert!(resp.error_code.is_ok());
}

/// At v0 the field is absent from the wire; the decoded value reports the
/// broker's actual v0 behaviour, which is "changes allowed".
#[test]
fn test_alter_partition_reassignments_response_v0_defaults_allow_true() {
    let mut buf = BytesMut::new();
    buf.put_i32(0);
    buf.put_i16(0);
    put_compact_null_string(&mut buf);
    put_compact_array_len(&mut buf, 0);
    put_empty_tagged_fields(&mut buf);

    let resp = AlterPartitionReassignmentsResponse::decode_v0(&mut buf.freeze()).unwrap();
    assert!(resp.allow_replication_factor_change);
}

#[test]
fn test_alter_partition_reassignments_request_empty_topics() {
    let request = AlterPartitionReassignmentsRequest {
        timeout_ms: 30_000,
        allow_replication_factor_change: true,
        topics: Vec::new(),
    };
    let mut buf = BytesMut::new();
    request.encode_v0(&mut buf).unwrap();
    // timeout (4 bytes) + compact array len=0 (varint 1) + tagged fields (varint 0)
    assert!(!buf.is_empty());
}
