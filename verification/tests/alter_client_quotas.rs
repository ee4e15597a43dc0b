//! Tests of `krafka::protocol::messages::alter_client_quotas`.

use bytes::{BufMut, BytesMut};
use krafka::protocol::messages::alter_client_quotas::{
    AlterClientQuotasRequest, AlterClientQuotasResponse, AlterQuotaEntity, AlterQuotaEntry,
    AlterQuotaOp,
};

#[test]
fn test_alter_client_quotas_request_roundtrip() {
    let request = AlterClientQuotasRequest {
        entries: vec![AlterQuotaEntry {
            entity: vec![AlterQuotaEntity {
                entity_type: "user".to_string(),
                entity_name: Some("alice".to_string()),
            }],
            ops: vec![
                AlterQuotaOp {
                    key: "producer_byte_rate".to_string(),
                    value: 1_048_576.0f64.to_bits(),
                    remove: false,
                },
                AlterQuotaOp {
                    key: "consumer_byte_rate".to_string(),
                    value: 0.0f64.to_bits(),
                    remove: true,
                },
            ],
        }],
        validate_only: true,
    };
    let mut buf = BytesMut::new();
    request.encode_v0(&mut buf).unwrap();
    assert!(!buf.is_empty());
}

#[test]
fn test_alter_client_quotas_response_roundtrip() {
    let mut buf = BytesMut::new();
    buf.put_i32(0); // throttle_time_ms
    buf.put_i32(1); // 1 entry result
    // entry 0: error
    buf.put_i16(0); // error_code (None)
    buf.put_i16(-1); // error_message (null)
    // entry 0: entity
    buf.put_i32(1); // 1 entity
    buf.put_i16(4);
    buf.put_slice(b"user"); // entity_type
    buf.put_i16(5);
    buf.put_slice(b"alice"); // entity_name

    let mut frozen = buf.freeze();
    let resp = AlterClientQuotasResponse::decode_v0(&mut frozen).unwrap();
    assert_eq!(resp.entries.len(), 1);
    assert!(resp.entries[0].error_code.is_ok());
    assert_eq!(resp.entries[0].entity[0].entity_type, "user");
}

#[test]
fn test_alter_client_quotas_v1_flexible() {
    let request = AlterClientQuotasRequest {
        entries: vec![AlterQuotaEntry {
            entity: vec![AlterQuotaEntity {
                entity_type: "user".to_string(),
                entity_name: Some("alice".to_string()),
            }],
            ops: vec![AlterQuotaOp {
                key: "producer_byte_rate".to_string(),
                value: 1048576.0f64.to_bits(),
                remove: false,
            }],
        }],
        validate_only: false,
    };
    let mut v0 = BytesMut::new();
    request.encode_v0(&mut v0).unwrap();
    let mut v1 = BytesMut::new();
    request.encode_v1(&mut v1).unwrap();
    assert_ne!(v0.len(), v1.len());
}

#[test]
fn test_alter_client_quotas_response_v1_roundtrip() {
    let mut buf = BytesMut::new();
    buf.put_i32(0); // throttle_time_ms
    buf.put_u8(2); // entries: compact array count=1+1=2
    buf.put_i16(0); // error_code
    buf.put_u8(0); // error_message: compact null
    buf.put_u8(2); // entity: compact array count=1+1=2
    buf.put_u8(5); // entity_type: compact string "user"
    buf.put_slice(b"user");
    buf.put_u8(6); // entity_name: compact string "alice"
    buf.put_slice(b"alice");
    buf.put_u8(0); // per-entity tagged fields
    buf.put_u8(0); // per-entry tagged fields
    buf.put_u8(0); // top-level tagged fields

    let mut frozen = buf.freeze();
    let resp = AlterClientQuotasResponse::decode_v1(&mut frozen).unwrap();
    assert_eq!(resp.entries.len(), 1);
    assert!(resp.entries[0].error_code.is_ok());
    assert_eq!(resp.entries[0].entity[0].entity_type, "user");
}
