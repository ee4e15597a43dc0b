//! Tests of `krafka::protocol::messages::add_offsets_to_txn`.

use bytes::{Buf, BufMut, BytesMut};
use krafka::protocol::messages::{VersionedDecode, VersionedEncode};
use krafka::protocol::messages::add_offsets_to_txn::{
    AddOffsetsToTxnRequest, AddOffsetsToTxnResponse,
};
use krafka::protocol::primitives::{Decode, KafkaString};

#[test]
fn test_add_offsets_to_txn_v0_wire_format() {
    let request = AddOffsetsToTxnRequest::new("txn-1", 100, 5, "grp-1");

    let mut buf = BytesMut::new();
    request.encode_v0(&mut buf).unwrap();
    let mut data = buf.freeze();

    let txn_id = KafkaString::decode(&mut data).unwrap().0.unwrap();
    assert_eq!(txn_id, "txn-1");
    assert_eq!(i64::decode(&mut data).unwrap(), 100);
    assert_eq!(i16::decode(&mut data).unwrap(), 5);
    let group = KafkaString::decode(&mut data).unwrap().0.unwrap();
    assert_eq!(group, "grp-1");
    assert!(!data.has_remaining());
}

#[test]
fn test_add_offsets_to_txn_v3_flexible() {
    let request = AddOffsetsToTxnRequest::new("txn-1", 100, 5, "grp-1");

    let mut v0 = BytesMut::new();
    request.encode_v0(&mut v0).unwrap();
    let mut v3 = BytesMut::new();
    request.encode_v3(&mut v3).unwrap();
    assert_ne!(v0.len(), v3.len());

    // v4 uses same wire format as v3
    let mut v4 = BytesMut::new();
    request.encode_versioned(4, &mut v4).unwrap();
    assert_eq!(v3.freeze(), v4.freeze());
}

#[test]
fn test_add_offsets_to_txn_v1_v2_same_as_v0() {
    for version in [1i16, 2i16] {
        let request = AddOffsetsToTxnRequest::new("txn-1", 100, 5, "grp-1");
        let mut v0 = BytesMut::new();
        request.encode_versioned(0, &mut v0).unwrap();
        let mut vn = BytesMut::new();
        request.encode_versioned(version, &mut vn).unwrap();
        assert_eq!(v0.freeze(), vn.freeze());
    }
}

#[test]
fn test_add_offsets_to_txn_response_v0_wire() {
    let mut buf = BytesMut::new();
    buf.put_i32(10); // throttle_time_ms
    buf.put_i16(0); // error_code

    let resp = AddOffsetsToTxnResponse::decode_v0(&mut buf.freeze()).unwrap();
    assert_eq!(resp.throttle_time_ms, 10);
    assert!(resp.error_code.is_ok());
}

#[test]
fn test_add_offsets_to_txn_response_v3_flexible() {
    let mut buf = BytesMut::new();
    buf.put_i32(5); // throttle_time_ms
    buf.put_i16(0); // error_code
    buf.put_u8(0); // tagged fields

    let resp = AddOffsetsToTxnResponse::decode_v3(&mut buf.freeze()).unwrap();
    assert_eq!(resp.throttle_time_ms, 5);
    assert!(resp.error_code.is_ok());
}

#[test]
fn test_add_offsets_to_txn_response_v3_v4_decode() {
    for version in [3i16, 4i16] {
        let mut buf = BytesMut::new();
        buf.put_i32(0);
        buf.put_i16(0);
        buf.put_u8(0);
        let resp = AddOffsetsToTxnResponse::decode_versioned(version, &mut buf.freeze()).unwrap();
        assert!(resp.error_code.is_ok());
    }
}

#[test]
fn add_offsets_to_txn_test_add_offsets_to_txn_request() {
    let request = AddOffsetsToTxnRequest::new("my-txn", 12345, 0, "my-group");

    assert_eq!(request.transactional_id, "my-txn");
    assert_eq!(request.group_id, "my-group");

    let mut buf = BytesMut::new();
    request.encode_v0(&mut buf).unwrap();
    assert!(!buf.is_empty());
}
