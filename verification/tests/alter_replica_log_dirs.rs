//! Tests of `krafka::protocol::messages::alter_replica_log_dirs`.

use bytes::{BufMut, BytesMut};
use krafka::protocol::api::ApiKey;
use krafka::protocol::messages::{VersionedDecode, VersionedEncode};
use krafka::protocol::messages::alter_replica_log_dirs::{
    AlterReplicaLogDir, AlterReplicaLogDirTopic, AlterReplicaLogDirsRequest,
    AlterReplicaLogDirsResponse,
};

fn put_kafka_string(buf: &mut BytesMut, s: &str) {
    buf.put_i16(s.len() as i16);
    buf.put_slice(s.as_bytes());
}

fn put_compact_string(buf: &mut BytesMut, s: &str) {
    krafka::util::varint::encode_unsigned_varint((s.len() + 1) as u32, buf);
    buf.put_slice(s.as_bytes());
}

fn put_empty_tagged_fields(buf: &mut BytesMut) {
    krafka::util::varint::encode_unsigned_varint(0, buf);
}

fn put_compact_array_len(buf: &mut BytesMut, count: usize) {
    krafka::util::varint::encode_unsigned_varint((count + 1) as u32, buf);
}

#[test]
fn test_alter_replica_log_dirs_api_key() {
    assert_eq!(
        AlterReplicaLogDirsRequest::api_key(),
        ApiKey::AlterReplicaLogDirs
    );
}

#[test]
fn test_alter_replica_log_dirs_encode_v1() {
    let request = AlterReplicaLogDirsRequest {
        dirs: vec![AlterReplicaLogDir {
            path: "/data/kafka-logs".to_string(),
            topics: vec![AlterReplicaLogDirTopic {
                name: "my-topic".to_string(),
                partitions: vec![0, 1, 2],
            }],
        }],
    };
    let mut buf = BytesMut::new();
    request.encode_v1(&mut buf).unwrap();
    assert!(!buf.is_empty());
}

#[test]
fn test_alter_replica_log_dirs_encode_v2() {
    let request = AlterReplicaLogDirsRequest {
        dirs: vec![AlterReplicaLogDir {
            path: "/data/kafka-logs-2".to_string(),
            topics: vec![AlterReplicaLogDirTopic {
                name: "other-topic".to_string(),
                partitions: vec![0],
            }],
        }],
    };
    let mut buf = BytesMut::new();
    request.encode_v2(&mut buf).unwrap();
    assert!(!buf.is_empty());
}

#[test]
fn test_alter_replica_log_dirs_versioned_dispatch() {
    let request = AlterReplicaLogDirsRequest { dirs: Vec::new() };
    for v in 1..=2 {
        let mut buf = BytesMut::new();
        request.encode_versioned(v, &mut buf).unwrap();
    }
}

#[test]
fn test_alter_replica_log_dirs_versioned_unsupported() {
    let request = AlterReplicaLogDirsRequest { dirs: Vec::new() };
    let mut buf = BytesMut::new();
    assert!(request.encode_versioned(0, &mut buf).is_err());
    assert!(request.encode_versioned(3, &mut buf).is_err());
}

#[test]
fn test_alter_replica_log_dirs_response_decode_v1() {
    let mut buf = BytesMut::new();
    buf.put_i32(0); // throttle_time_ms
    buf.put_i32(1); // 1 topic
    put_kafka_string(&mut buf, "my-topic");
    buf.put_i32(2); // 2 partitions
    buf.put_i32(0); // partition_index
    buf.put_i16(0); // error_code (None)
    buf.put_i32(1); // partition_index
    buf.put_i16(0); // error_code (None)

    let resp = AlterReplicaLogDirsResponse::decode_v1(&mut buf.freeze()).unwrap();
    assert_eq!(resp.throttle_time_ms, 0);
    assert_eq!(resp.results.len(), 1);
    assert_eq!(resp.results[0].topic_name, "my-topic");
    assert_eq!(resp.results[0].partitions.len(), 2);
    assert!(resp.results[0].partitions[0].error_code.is_ok());
    assert!(resp.results[0].partitions[1].error_code.is_ok());
}

#[test]
fn test_alter_replica_log_dirs_response_decode_v2() {
    let mut buf = BytesMut::new();
    buf.put_i32(100); // throttle_time_ms
    put_compact_array_len(&mut buf, 1); // 1 topic
    put_compact_string(&mut buf, "my-topic");
    put_compact_array_len(&mut buf, 1); // 1 partition
    buf.put_i32(0); // partition_index
    buf.put_i16(0); // error_code
    put_empty_tagged_fields(&mut buf); // partition tagged fields
    put_empty_tagged_fields(&mut buf); // topic tagged fields
    put_empty_tagged_fields(&mut buf); // top-level

    let resp = AlterReplicaLogDirsResponse::decode_v2(&mut buf.freeze()).unwrap();
    assert_eq!(resp.throttle_time_ms, 100);
    assert_eq!(resp.results.len(), 1);
    assert_eq!(resp.results[0].topic_name, "my-topic");
    assert!(resp.results[0].partitions[0].error_code.is_ok());
}

#[test]
fn test_alter_replica_log_dirs_versioned_decode_dispatch() {
    // v1 decode
    let mut buf = BytesMut::new();
    buf.put_i32(0);
    buf.put_i32(0); // 0 topics
    let resp = AlterReplicaLogDirsResponse::decode_versioned(1, &mut buf.freeze()).unwrap();
    assert!(resp.results.is_empty());

    // v2 decode
    let mut buf = BytesMut::new();
    buf.put_i32(0);
    put_compact_array_len(&mut buf, 0);
    put_empty_tagged_fields(&mut buf);
    let resp = AlterReplicaLogDirsResponse::decode_versioned(2, &mut buf.freeze()).unwrap();
    assert!(resp.results.is_empty());
}

#[test]
fn test_alter_replica_log_dirs_versioned_decode_unsupported() {
    let buf = BytesMut::new();
    assert!(
        AlterReplicaLogDirsResponse::decode_versioned(0, &mut buf.clone().freeze()).is_err()
    );
    assert!(AlterReplicaLogDirsResponse::decode_versioned(3, &mut buf.freeze()).is_err());
}
