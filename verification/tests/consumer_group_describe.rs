//! Tests of `krafka::protocol::messages::consumer_group_describe`.

use bytes::{Buf, BufMut, Bytes, BytesMut};
use krafka::protocol::messages::consumer_group_describe::{
    ConsumerGroupDescribeRequest, ConsumerGroupDescribeResponse,
};

/// Helper: encode a compact string into `buf`.
fn put_compact_string(buf: &mut BytesMut, s: Option<&str>) {
    match s {
        Some(val) => {
            buf.put_u8((val.len() + 1) as u8);
            buf.put_slice(val.as_bytes());
        }
        None => buf.put_u8(0),
    }
}

/// Helper: write empty tagged fields (varint 0).
fn put_tagged_fields(buf: &mut BytesMut) {
    buf.put_u8(0);
}

#[test]
fn consumer_group_describe_test_consumer_group_describe_request_encode_v0() {
    let req = ConsumerGroupDescribeRequest::new(vec!["g1".to_string()]);
    let mut buf = BytesMut::new();
    req.encode_v0(&mut buf).unwrap();

    let mut cur = Bytes::copy_from_slice(&buf);
    let arr = krafka::util::varint::decode_unsigned_varint(&mut cur).unwrap();
    assert_eq!(arr, 2); // 1 + 1
    let id_len = krafka::util::varint::decode_unsigned_varint(&mut cur).unwrap();
    assert_eq!(id_len, 3); // len("g1") + 1
    let mut id_bytes = vec![0u8; 2];
    cur.copy_to_slice(&mut id_bytes);
    assert_eq!(id_bytes, b"g1");
    assert_eq!(cur.get_u8(), 0); // include_authorized_operations = false
    assert_eq!(cur.get_u8(), 0); // tagged fields
    assert!(cur.is_empty());
}

#[test]
fn consumer_group_describe_test_consumer_group_describe_response_decode_v0_empty_group() {
    let mut buf = BytesMut::new();
    buf.put_i32(5); // throttle_time_ms
    krafka::util::varint::encode_unsigned_varint(2, &mut buf); // 1 group
    buf.put_i16(0); // error_code
    put_compact_string(&mut buf, None); // error_message null
    put_compact_string(&mut buf, Some("g1")); // group_id
    put_compact_string(&mut buf, Some("Stable")); // group_state
    buf.put_i32(1); // group_epoch
    buf.put_i32(1); // assignment_epoch
    put_compact_string(&mut buf, Some("range")); // assignor_name
    krafka::util::varint::encode_unsigned_varint(1, &mut buf); // 0 members
    buf.put_i32(0); // authorized_operations
    put_tagged_fields(&mut buf); // group tagged fields
    put_tagged_fields(&mut buf); // top-level tagged fields

    let resp = ConsumerGroupDescribeResponse::decode_v0(&mut buf.freeze()).unwrap();
    assert_eq!(resp.throttle_time_ms, 5);
    assert_eq!(resp.groups.len(), 1);
    let g = &resp.groups[0];
    assert!(g.error_code.is_ok());
    assert_eq!(g.group_id, "g1");
    assert_eq!(g.group_state, "Stable");
    assert_eq!(g.group_epoch, 1);
    assert_eq!(g.assignor_name, "range");
    assert!(g.members.is_empty());
}

#[test]
fn consumer_group_describe_test_consumer_group_describe_response_decode_v0_with_member() {
    let mut buf = BytesMut::new();
    buf.put_i32(0); // throttle_time_ms
    krafka::util::varint::encode_unsigned_varint(2, &mut buf); // 1 group
    buf.put_i16(0); // error_code
    put_compact_string(&mut buf, None); // error_message
    put_compact_string(&mut buf, Some("g")); // group_id
    put_compact_string(&mut buf, Some("S")); // group_state
    buf.put_i32(2); // group_epoch
    buf.put_i32(2); // assignment_epoch
    put_compact_string(&mut buf, Some("a")); // assignor_name
    krafka::util::varint::encode_unsigned_varint(2, &mut buf); // 1 member
    // member fields
    put_compact_string(&mut buf, Some("m1")); // member_id
    put_compact_string(&mut buf, None); // instance_id null
    put_compact_string(&mut buf, Some("rack0")); // rack_id
    buf.put_i32(3); // member_epoch
    put_compact_string(&mut buf, Some("client")); // client_id
    put_compact_string(&mut buf, Some("/127.0.0.1")); // client_host
    krafka::util::varint::encode_unsigned_varint(2, &mut buf); // 1 subscribed_topic_name
    put_compact_string(&mut buf, Some("tp1"));
    put_compact_string(&mut buf, None); // subscribed_topic_regex null
    // assignment (current): 1 topic_partition
    krafka::util::varint::encode_unsigned_varint(2, &mut buf); // 1 tp
    buf.put_slice(&[0u8; 16]); // topic_id
    put_compact_string(&mut buf, Some("tp1")); // topic_name
    krafka::util::varint::encode_unsigned_varint(3, &mut buf); // 2 partitions
    buf.put_i32(0);
    buf.put_i32(1);
    put_tagged_fields(&mut buf); // tp tagged fields
    put_tagged_fields(&mut buf); // assignment tagged fields
    // target_assignment: empty
    krafka::util::varint::encode_unsigned_varint(1, &mut buf); // 0 tp
    put_tagged_fields(&mut buf); // target assignment tagged fields
    put_tagged_fields(&mut buf); // member tagged fields
    buf.put_i32(-2_147_483_648); // authorized_operations
    put_tagged_fields(&mut buf); // group tagged fields
    put_tagged_fields(&mut buf); // top-level tagged fields

    let resp = ConsumerGroupDescribeResponse::decode_v0(&mut buf.freeze()).unwrap();
    let g = &resp.groups[0];
    assert_eq!(g.members.len(), 1);
    let m = &g.members[0];
    assert_eq!(m.member_id, "m1");
    assert!(m.instance_id.is_none());
    assert_eq!(m.rack_id.as_deref(), Some("rack0"));
    assert_eq!(m.member_epoch, 3);
    assert_eq!(m.subscribed_topic_names, vec!["tp1"]);
    assert_eq!(m.assignment.topic_partitions.len(), 1);
    assert_eq!(m.assignment.topic_partitions[0].partitions, vec![0, 1]);
    assert!(m.target_assignment.topic_partitions.is_empty());
    assert_eq!(m.member_type, -1); // v0 default
}

#[test]
fn consumer_group_describe_test_consumer_group_describe_response_decode_v1_member_type() {
    let mut buf = BytesMut::new();
    buf.put_i32(0); // throttle_time_ms
    krafka::util::varint::encode_unsigned_varint(2, &mut buf); // 1 group
    buf.put_i16(0); // error_code
    put_compact_string(&mut buf, None); // error_message
    put_compact_string(&mut buf, Some("g")); // group_id
    put_compact_string(&mut buf, Some("S")); // state
    buf.put_i32(1);
    buf.put_i32(1); // epochs
    put_compact_string(&mut buf, Some("a")); // assignor
    krafka::util::varint::encode_unsigned_varint(2, &mut buf); // 1 member
    put_compact_string(&mut buf, Some("m")); // member_id
    put_compact_string(&mut buf, None); // instance_id
    put_compact_string(&mut buf, None); // rack_id
    buf.put_i32(1); // member_epoch
    put_compact_string(&mut buf, Some("c")); // client_id
    put_compact_string(&mut buf, Some("h")); // client_host
    krafka::util::varint::encode_unsigned_varint(1, &mut buf); // 0 subscribed topics
    put_compact_string(&mut buf, None); // subscribed_topic_regex
    // current assignment: empty
    krafka::util::varint::encode_unsigned_varint(1, &mut buf);
    put_tagged_fields(&mut buf);
    // target assignment: empty
    krafka::util::varint::encode_unsigned_varint(1, &mut buf);
    put_tagged_fields(&mut buf);
    buf.put_i8(1); // member_type = consumer (v1 field)
    put_tagged_fields(&mut buf); // member tagged fields
    buf.put_i32(0); // authorized_operations
    put_tagged_fields(&mut buf); // group tagged fields
    put_tagged_fields(&mut buf); // top-level tagged fields

    let resp = ConsumerGroupDescribeResponse::decode_v1(&mut buf.freeze()).unwrap();
    let m = &resp.groups[0].members[0];
    assert_eq!(m.member_type, 1); // consumer
}
