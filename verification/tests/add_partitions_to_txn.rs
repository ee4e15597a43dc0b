//! Tests of `krafka::protocol::messages::add_partitions_to_txn`.

use bytes::{Buf, BufMut, BytesMut};
use krafka::protocol::messages::VersionedEncode;
use krafka::protocol::messages::add_partitions_to_txn::{
    AddPartitionsToTxnRequest, AddPartitionsToTxnResponse,
};
use krafka::protocol::primitives::{Decode, KafkaString};

#[test]
fn test_add_partitions_to_txn_v0_wire_format() {
    let request = AddPartitionsToTxnRequest::new("txn-1", 100, 5)
        .add_partition("topic1", 0)
        .add_partition("topic1", 1);

    let mut buf = BytesMut::new();
    request.encode_v0(&mut buf).unwrap();
    let mut data = buf.freeze();

    // transactional_id (2-byte len + 5 bytes "txn-1")
    let txn_id = KafkaString::decode(&mut data).unwrap().0.unwrap();
    assert_eq!(txn_id, "txn-1");
    assert_eq!(i64::decode(&mut data).unwrap(), 100); // producer_id
    assert_eq!(i16::decode(&mut data).unwrap(), 5); // producer_epoch
    assert_eq!(i32::decode(&mut data).unwrap(), 1); // topics count
    let name = KafkaString::decode(&mut data).unwrap().0.unwrap();
    assert_eq!(name, "topic1");
    assert_eq!(i32::decode(&mut data).unwrap(), 2); // partitions count
    assert_eq!(i32::decode(&mut data).unwrap(), 0); // partition 0
    assert_eq!(i32::decode(&mut data).unwrap(), 1); // partition 1
    assert!(!data.has_remaining());
}

#[test]
fn test_add_partitions_to_txn_v3_flexible() {
    let request = AddPartitionsToTxnRequest::new("txn-1", 100, 5).add_partition("t1", 2);

    let mut v0 = BytesMut::new();
    request.encode_v0(&mut v0).unwrap();
    let mut v3 = BytesMut::new();
    request.encode_v3(&mut v3).unwrap();

    // v3 uses compact strings (varint length) instead of i16 length
    // but also has tagged fields => different size
    assert_ne!(v0.len(), v3.len());

    // Round-trip via dispatch
    let mut buf = BytesMut::new();
    request.encode_versioned(3, &mut buf).unwrap();
    assert!(!buf.is_empty());
}

#[test]
fn test_add_partitions_to_txn_v4_batched() {
    let request = AddPartitionsToTxnRequest::new("txn-1", 100, 5).add_partition("t1", 0);

    let mut v3 = BytesMut::new();
    request.encode_v3(&mut v3).unwrap();
    let mut v4 = BytesMut::new();
    request.encode_v4(&mut v4).unwrap();

    // v4 wraps in Transactions array + VerifyOnly bool => larger
    assert!(v4.len() > v3.len());

    // Dispatch routes v4 and v5 to encode_v4
    let mut buf5 = BytesMut::new();
    request.encode_versioned(5, &mut buf5).unwrap();
    assert_eq!(v4.freeze(), buf5.freeze());
}

#[test]
fn test_add_partitions_to_txn_v1_v2_same_as_v0() {
    for version in [1i16, 2i16] {
        let request = AddPartitionsToTxnRequest::new("txn-1", 100, 5).add_partition("t1", 0);
        let mut v0 = BytesMut::new();
        request.encode_versioned(0, &mut v0).unwrap();
        let mut vn = BytesMut::new();
        request.encode_versioned(version, &mut vn).unwrap();
        assert_eq!(v0.freeze(), vn.freeze());
    }
}

#[test]
fn test_add_partitions_to_txn_response_v0_wire() {
    let mut buf = BytesMut::new();
    buf.put_i32(10); // throttle_time_ms
    buf.put_i32(1); // topics count
    let name = b"t1";
    buf.put_i16(name.len() as i16);
    buf.put_slice(name);
    buf.put_i32(1); // partitions count
    buf.put_i32(0); // partition
    buf.put_i16(0); // error_code (NONE)

    let resp = AddPartitionsToTxnResponse::decode_v0(&mut buf.freeze()).unwrap();
    assert_eq!(resp.throttle_time_ms, 10);
    assert_eq!(resp.results.len(), 1);
    assert_eq!(resp.results[0].name, "t1");
    assert_eq!(resp.results[0].partitions[0].partition, 0);
    assert!(resp.results[0].partitions[0].error_code.is_ok());
}

#[test]
fn test_add_partitions_to_txn_response_v3_flexible() {
    let mut buf = BytesMut::new();
    buf.put_i32(5); // throttle_time_ms
    krafka::util::varint::encode_unsigned_varint(2, &mut buf); // topics: 1 + 1
    // topic name compact string: len+1 as varint
    let name = b"t1";
    krafka::util::varint::encode_unsigned_varint(name.len() as u32 + 1, &mut buf);
    buf.put_slice(name);
    krafka::util::varint::encode_unsigned_varint(2, &mut buf); // partitions: 1 + 1
    buf.put_i32(3); // partition
    buf.put_i16(0); // error_code
    buf.put_u8(0); // partition tagged fields
    buf.put_u8(0); // topic tagged fields
    buf.put_u8(0); // top-level tagged fields

    let resp = AddPartitionsToTxnResponse::decode_v3(&mut buf.freeze()).unwrap();
    assert_eq!(resp.throttle_time_ms, 5);
    assert_eq!(resp.results[0].name, "t1");
    assert_eq!(resp.results[0].partitions[0].partition, 3);
}

#[test]
fn test_add_partitions_to_txn_response_v4_batched() {
    let mut buf = BytesMut::new();
    buf.put_i32(0); // throttle_time_ms
    buf.put_i16(0); // top-level error code (v4+)
    krafka::util::varint::encode_unsigned_varint(2, &mut buf); // txn count: 1 + 1
    // transactional_id compact string
    let txn = b"txn-1";
    krafka::util::varint::encode_unsigned_varint(txn.len() as u32 + 1, &mut buf);
    buf.put_slice(txn);
    krafka::util::varint::encode_unsigned_varint(2, &mut buf); // topics: 1 + 1
    let topic = b"t1";
    krafka::util::varint::encode_unsigned_varint(topic.len() as u32 + 1, &mut buf);
    buf.put_slice(topic);
    krafka::util::varint::encode_unsigned_varint(2, &mut buf); // partitions: 1 + 1
    buf.put_i32(0); // partition
    buf.put_i16(0); // error_code
    buf.put_u8(0); // partition tagged fields
    buf.put_u8(0); // topic tagged fields
    buf.put_u8(0); // txn tagged fields
    buf.put_u8(0); // top-level tagged fields

    let resp = AddPartitionsToTxnResponse::decode_v4(&mut buf.freeze()).unwrap();
    assert_eq!(resp.results.len(), 1);
    assert_eq!(resp.results[0].name, "t1");
}

#[test]
fn test_add_partitions_to_txn_response_v4_top_level_error() {
    let mut buf = BytesMut::new();
    buf.put_i32(0); // throttle_time_ms
    buf.put_i16(16); // top-level error code: NOT_COORDINATOR
    // rest of the buffer doesn't matter - decode should fail at the error check
    krafka::util::varint::encode_unsigned_varint(1, &mut buf); // txn count: 0
    buf.put_u8(0); // top-level tagged fields

    let err = AddPartitionsToTxnResponse::decode_v4(&mut buf.freeze()).unwrap_err();
    assert!(err.to_string().contains("top-level error"));
}

#[test]
fn add_partitions_to_txn_test_add_partitions_to_txn_request() {
    let request = AddPartitionsToTxnRequest::new("my-txn", 12345, 0)
        .add_partition("topic1", 0)
        .add_partition("topic1", 1)
        .add_partition("topic2", 0);

    assert_eq!(request.transactional_id, "my-txn");
    assert_eq!(request.producer_id, 12345);
    assert_eq!(request.topics.len(), 2);

    let topic1 = request.topics.iter().find(|t| t.name == "topic1").unwrap();
    assert_eq!(topic1.partitions, vec![0, 1]);

    let mut buf = BytesMut::new();
    request.encode_v0(&mut buf).unwrap();
    assert!(!buf.is_empty());
}
