//! Tests of `krafka::protocol::messages::coordinator`.

use bytes::{BufMut, BytesMut};
use krafka::protocol::messages::{VersionedDecode, VersionedEncode};
use krafka::protocol::messages::coordinator::{FindCoordinatorRequest, FindCoordinatorResponse};
use krafka::protocol::primitives::{Decode, KafkaString};

#[test]
fn coordinator_test_find_coordinator_request() {
    let request = FindCoordinatorRequest::for_group("my-group");
    assert_eq!(request.key, "my-group");
    assert_eq!(request.key_type, 0);

    let request = FindCoordinatorRequest::for_transaction("my-txn");
    assert_eq!(request.key, "my-txn");
    assert_eq!(request.key_type, 1);
}

// ---- Story 1.4: FindCoordinator ----

#[test]
fn test_find_coordinator_request_v1_encode() {
    let request = FindCoordinatorRequest {
        key: "grp".to_string(),
        key_type: 0,
    };
    let mut buf = BytesMut::new();
    request.encode_versioned(1, &mut buf).unwrap();
    let mut r = buf.freeze();
    // v1: key (string)
    let key = KafkaString::decode(&mut r).unwrap().0.unwrap();
    assert_eq!(key, "grp");
    // key_type (i8)
    assert_eq!(i8::decode(&mut r).unwrap(), 0);
}

#[test]
fn test_find_coordinator_request_below_min_rejected() {
    let request = FindCoordinatorRequest {
        key: "g".to_string(),
        key_type: 0,
    };
    let mut buf = BytesMut::new();
    assert!(request.encode_versioned(0, &mut buf).is_err());
}

#[test]
fn test_find_coordinator_response_decode_v1() {
    let mut buf = BytesMut::new();
    buf.put_i32(0); // throttle_time_ms
    buf.put_i16(0); // error_code
    let msg = b"";
    buf.put_i16(msg.len() as i16);
    buf.put_slice(msg); // error_message
    buf.put_i32(1); // node_id
    let host = b"broker1";
    buf.put_i16(host.len() as i16);
    buf.put_slice(host); // host
    buf.put_i32(9092); // port

    let resp = FindCoordinatorResponse::decode_versioned(1, &mut buf.freeze()).unwrap();
    assert_eq!(resp.node_id, 1);
    assert_eq!(resp.host, "broker1");
    assert_eq!(resp.port, 9092);
    assert_eq!(resp.throttle_time_ms, 0);
}

#[test]
fn test_find_coordinator_encode_below_min() {
    for version in [0i16] {
        let request = FindCoordinatorRequest {
            key: "g".to_string(),
            key_type: 0,
        };
        let mut buf = BytesMut::new();
        assert!(request.encode_versioned(version, &mut buf).is_err());
    }
}

#[test]
fn test_find_coordinator_request_v1_v2() {
    for version in [1i16, 2i16] {
        let request = FindCoordinatorRequest {
            key: "my-group".to_string(),
            key_type: 0, // group
        };
        let mut buf = BytesMut::new();
        request.encode_versioned(version, &mut buf).unwrap();
        let mut buf2 = BytesMut::new();
        request.encode_v1(&mut buf2).unwrap();
        assert_eq!(buf, buf2);
    }
}

#[test]
fn test_find_coordinator_request_v3_flexible() {
    let request = FindCoordinatorRequest {
        key: "txn-id-1".to_string(),
        key_type: 1, // transaction
    };
    let mut buf_v2 = BytesMut::new();
    request.encode_versioned(2, &mut buf_v2).unwrap();
    let mut buf_v3 = BytesMut::new();
    request.encode_versioned(3, &mut buf_v3).unwrap();
    assert_ne!(
        buf_v2.as_ref(),
        buf_v3.as_ref(),
        "v3 flexible should differ from v2"
    );
}

#[test]
fn test_find_coordinator_request_v4_batched_keys() {
    let request = FindCoordinatorRequest {
        key: "my-group".to_string(),
        key_type: 0,
    };
    let mut buf_v3 = BytesMut::new();
    request.encode_versioned(3, &mut buf_v3).unwrap();
    let mut buf_v4 = BytesMut::new();
    request.encode_versioned(4, &mut buf_v4).unwrap();
    // v4 wraps key in CoordinatorKeys array - different structure.
    assert_ne!(
        buf_v3.as_ref(),
        buf_v4.as_ref(),
        "v4 batched should differ from v3"
    );
}

#[test]
fn test_find_coordinator_response_decode_v1_wire_format() {
    let mut buf = BytesMut::new();
    buf.put_i32(0); // throttle_time_ms
    buf.put_i16(0); // error_code
    // error_message nullable string
    buf.put_i16(-1); // null
    buf.put_i32(1); // node_id
    let host = b"broker-1";
    buf.put_i16(host.len() as i16);
    buf.put_slice(host);
    buf.put_i32(9092); // port

    let resp = FindCoordinatorResponse::decode_versioned(1, &mut buf.freeze()).unwrap();
    assert_eq!(resp.throttle_time_ms, 0);
    assert!(resp.error_code.is_ok());
    assert!(resp.error_message.is_none());
    assert_eq!(resp.node_id, 1);
    assert_eq!(resp.host, "broker-1");
    assert_eq!(resp.port, 9092);
}

#[test]
fn test_find_coordinator_response_decode_v3_flexible() {
    let mut buf = BytesMut::new();
    buf.put_i32(50); // throttle_time_ms
    buf.put_i16(0); // error_code
    // error_message null compact string
    krafka::util::varint::encode_unsigned_varint(0, &mut buf);
    buf.put_i32(2); // node_id
    // host compact string
    let host = b"kafka-0.internal";
    krafka::util::varint::encode_unsigned_varint(host.len() as u32 + 1, &mut buf);
    buf.put_slice(host);
    buf.put_i32(9093); // port
    krafka::util::varint::encode_unsigned_varint(0, &mut buf); // tagged fields

    let resp = FindCoordinatorResponse::decode_versioned(3, &mut buf.freeze()).unwrap();
    assert_eq!(resp.throttle_time_ms, 50);
    assert_eq!(resp.node_id, 2);
    assert_eq!(resp.host, "kafka-0.internal");
    assert_eq!(resp.port, 9093);
}

#[test]
fn test_find_coordinator_response_decode_v4_batched() {
    // v4: batched coordinators array, first element extracted.
    let mut buf = BytesMut::new();
    buf.put_i32(0); // throttle_time_ms
    // Coordinators compact array: 1 + 1
    krafka::util::varint::encode_unsigned_varint(2, &mut buf);
    // key compact string
    let key = b"my-group";
    krafka::util::varint::encode_unsigned_varint(key.len() as u32 + 1, &mut buf);
    buf.put_slice(key);
    buf.put_i32(3); // node_id
    // host compact string
    let host = b"broker-3";
    krafka::util::varint::encode_unsigned_varint(host.len() as u32 + 1, &mut buf);
    buf.put_slice(host);
    buf.put_i32(9094); // port
    buf.put_i16(0); // error_code
    // error_message null compact string
    krafka::util::varint::encode_unsigned_varint(0, &mut buf);
    krafka::util::varint::encode_unsigned_varint(0, &mut buf); // coordinator tagged fields
    krafka::util::varint::encode_unsigned_varint(0, &mut buf); // top-level tagged fields

    let resp = FindCoordinatorResponse::decode_versioned(4, &mut buf.freeze()).unwrap();
    assert_eq!(resp.node_id, 3);
    assert_eq!(resp.host, "broker-3");
    assert_eq!(resp.port, 9094);
    assert!(resp.error_code.is_ok());
}

#[test]
fn test_find_coordinator_request_v5_v6_same_as_v4() {
    for version in [5i16, 6i16] {
        let request = FindCoordinatorRequest {
            key: "my-group".to_string(),
            key_type: 0,
        };
        let mut buf_v4 = BytesMut::new();
        request.encode_versioned(4, &mut buf_v4).unwrap();
        let mut buf = BytesMut::new();
        request.encode_versioned(version, &mut buf).unwrap();
        assert_eq!(buf, buf_v4, "v{version} encode should equal v4");
    }
}

#[test]
fn test_find_coordinator_response_v5_v6_decode() {
    for version in [5i16, 6i16] {
        let mut buf = BytesMut::new();
        buf.put_i32(0); // throttle_time_ms
        krafka::util::varint::encode_unsigned_varint(2, &mut buf); // 1 coordinator + 1
        let key = b"grp";
        krafka::util::varint::encode_unsigned_varint(key.len() as u32 + 1, &mut buf);
        buf.put_slice(key);
        buf.put_i32(7); // node_id
        let host = b"host-7";
        krafka::util::varint::encode_unsigned_varint(host.len() as u32 + 1, &mut buf);
        buf.put_slice(host);
        buf.put_i32(9092); // port
        buf.put_i16(0); // error_code
        krafka::util::varint::encode_unsigned_varint(0, &mut buf); // error_message null
        krafka::util::varint::encode_unsigned_varint(0, &mut buf); // coordinator tagged fields
        krafka::util::varint::encode_unsigned_varint(0, &mut buf); // top-level tagged fields

        let resp = FindCoordinatorResponse::decode_versioned(version, &mut buf.freeze()).unwrap();
        assert_eq!(resp.node_id, 7);
        assert_eq!(resp.host, "host-7");
        assert_eq!(resp.port, 9092);
    }
}
