//! Tests of `krafka::protocol::messages::config`.

use bytes::{Buf, BufMut, Bytes, BytesMut};
use krafka::protocol::api::ApiKey;
use krafka::protocol::codec::Encoder;
use krafka::protocol::header::RequestHeader;
use krafka::protocol::messages::config::{
    AlterConfigOp, AlterableConfig, ConfigResourceType, DescribeConfigsRequest,
    DescribeConfigsResource, DescribeConfigsResponse, IncrementalAlterConfigsRequest,
    IncrementalAlterConfigsResource, IncrementalAlterConfigsResponse,
};
use krafka::protocol::primitives::{Decode, Encode};

// DescribeConfigs / IncrementalAlterConfigs

/// Helper: encode a compact string into `buf`.
/// Non-null string: varint(len + 1) then bytes.
/// Null string: varint(0).
fn put_compact_string(buf: &mut BytesMut, s: Option<&str>) {
    match s {
        Some(val) => {
            // len + 1 fits in one byte for small strings
            buf.put_u8((val.len() + 1) as u8);
            buf.put_slice(val.as_bytes());
        }
        None => buf.put_u8(0),
    }
}

/// Helper: write empty tagged fields (varint 0).
fn put_tagged_fields(buf: &mut BytesMut) {
    buf.put_u8(0);
}

#[test]
fn test_describe_configs_request_encode_v1_round_trip() {
    let req = DescribeConfigsRequest {
        resources: vec![DescribeConfigsResource {
            resource_type: ConfigResourceType::Topic,
            resource_name: "test-topic".to_string(),
            config_names: Some(vec!["retention.ms".to_string()]),
        }],
        include_synonyms: true,
        include_documentation: false,
    };
    let mut buf = BytesMut::new();
    req.encode_v1(&mut buf).unwrap();

    let mut cur = Bytes::copy_from_slice(&buf);
    assert_eq!(cur.get_i32(), 1); // 1 resource
    assert_eq!(cur.get_i8(), 2); // Topic = 2
    let name_len = cur.get_i16() as usize;
    let mut name_bytes = vec![0u8; name_len];
    cur.copy_to_slice(&mut name_bytes);
    assert_eq!(name_bytes, b"test-topic");
    assert_eq!(cur.get_i32(), 1); // 1 config name
    let cfg_len = cur.get_i16() as usize;
    let mut cfg_bytes = vec![0u8; cfg_len];
    cur.copy_to_slice(&mut cfg_bytes);
    assert_eq!(cfg_bytes, b"retention.ms");
    assert_eq!(cur.get_u8(), 1); // include_synonyms = true
    assert!(cur.is_empty());
}

#[test]
fn test_describe_configs_response_decode_v1_with_synonyms() {
    let mut buf = BytesMut::new();
    buf.put_i32(10); // throttle_time_ms
    buf.put_i32(1); // 1 result
    buf.put_i16(0); // error_code NONE
    buf.put_i16(-1); // error_message null
    buf.put_i8(2); // resource_type = Topic
    buf.put_i16(5);
    buf.put_slice(b"topic");
    buf.put_i32(1); // 1 config entry
    // config entry
    buf.put_i16(12);
    buf.put_slice(b"retention.ms");
    buf.put_i16(6);
    buf.put_slice(b"604800"); // value
    buf.put_i8(0); // read_only = false
    buf.put_i8(5); // config_source = DYNAMIC_TOPIC_CONFIG
    buf.put_i8(0); // is_sensitive = false
    // 1 synonym
    buf.put_i32(1);
    buf.put_i16(12);
    buf.put_slice(b"retention.ms");
    buf.put_i16(6);
    buf.put_slice(b"604800");
    buf.put_i8(5); // source

    let resp = DescribeConfigsResponse::decode_v1(&mut buf.freeze()).unwrap();
    assert_eq!(resp.throttle_time_ms, 10);
    assert_eq!(resp.results.len(), 1);
    let r = &resp.results[0];
    assert!(r.error_code.is_ok());
    assert_eq!(r.resource_name, "topic");
    assert_eq!(r.configs.len(), 1);
    let c = &r.configs[0];
    assert_eq!(c.name, "retention.ms");
    assert_eq!(c.value.as_deref(), Some("604800"));
    assert_eq!(c.config_source, 5);
    assert_eq!(c.synonyms.len(), 1);
    assert_eq!(c.synonyms[0].name, "retention.ms");
    assert_eq!(c.synonyms[0].source, 5);
    // v1 doesn't have config_type or documentation
    assert_eq!(c.config_type, 0);
    assert!(c.documentation.is_none());
}

#[test]
fn test_describe_configs_response_decode_v3_with_type_and_docs() {
    let mut buf = BytesMut::new();
    buf.put_i32(5); // throttle_time_ms
    buf.put_i32(1); // 1 result
    buf.put_i16(0); // error_code NONE
    buf.put_i16(-1); // error_message null
    buf.put_i8(2); // resource_type = Topic
    buf.put_i16(1);
    buf.put_slice(b"t"); // resource_name
    buf.put_i32(1); // 1 config entry
    buf.put_i16(3);
    buf.put_slice(b"key"); // name
    buf.put_i16(3);
    buf.put_slice(b"val"); // value
    buf.put_i8(1); // read_only = true
    buf.put_i8(1); // config_source = DYNAMIC_TOPIC_CONFIG
    buf.put_i8(0); // is_sensitive = false
    buf.put_i32(0); // 0 synonyms
    buf.put_i8(3); // config_type = STRING
    buf.put_i16(4);
    buf.put_slice(b"docs"); // documentation

    let resp = DescribeConfigsResponse::decode_v3(&mut buf.freeze()).unwrap();
    let c = &resp.results[0].configs[0];
    assert_eq!(c.name, "key");
    assert!(c.read_only);
    assert_eq!(c.config_source, 1);
    assert_eq!(c.config_type, 3);
    assert_eq!(c.documentation.as_deref(), Some("docs"));
}

#[test]
fn test_describe_configs_request_encode_v4_flexible() {
    let req = DescribeConfigsRequest {
        resources: vec![DescribeConfigsResource {
            resource_type: ConfigResourceType::Broker,
            resource_name: "0".to_string(),
            config_names: None,
        }],
        include_synonyms: true,
        include_documentation: true,
    };
    let mut buf = BytesMut::new();
    req.encode_v4(&mut buf).unwrap();

    let mut cur = Bytes::copy_from_slice(&buf);
    let arr_varint = krafka::util::varint::decode_unsigned_varint(&mut cur).unwrap();
    assert_eq!(arr_varint, 2); // 1 resource + 1
    assert_eq!(cur.get_i8(), 4); // Broker = 4
    let name_varint = krafka::util::varint::decode_unsigned_varint(&mut cur).unwrap();
    assert_eq!(name_varint, 2); // len("0") + 1
    assert_eq!(cur.get_u8(), b'0');
    // null compact nullable array = varint(0)
    let null_varint = krafka::util::varint::decode_unsigned_varint(&mut cur).unwrap();
    assert_eq!(null_varint, 0);
    assert_eq!(cur.get_u8(), 0); // resource tagged fields
    assert_eq!(cur.get_u8(), 1); // include_synonyms
    assert_eq!(cur.get_u8(), 1); // include_documentation
    assert_eq!(cur.get_u8(), 0); // top-level tagged fields
    assert!(cur.is_empty());
}

#[test]
fn test_describe_configs_response_decode_v4_flexible() {
    let mut buf = BytesMut::new();
    buf.put_i32(0); // throttle_time_ms
    krafka::util::varint::encode_unsigned_varint(2, &mut buf); // 1 result
    buf.put_i16(0); // error_code
    put_compact_string(&mut buf, None); // error_message null
    buf.put_i8(2); // resource_type = Topic
    put_compact_string(&mut buf, Some("tp")); // resource_name
    krafka::util::varint::encode_unsigned_varint(2, &mut buf); // 1 config
    put_compact_string(&mut buf, Some("k")); // name
    put_compact_string(&mut buf, Some("v")); // value
    buf.put_i8(0); // read_only
    buf.put_i8(2); // config_source
    buf.put_i8(0); // is_sensitive
    krafka::util::varint::encode_unsigned_varint(2, &mut buf); // 1 synonym
    put_compact_string(&mut buf, Some("k")); // synonym name
    put_compact_string(&mut buf, Some("v")); // synonym value
    buf.put_i8(2); // synonym source
    put_tagged_fields(&mut buf); // synonym tagged fields
    buf.put_i8(1); // config_type = BOOLEAN
    put_compact_string(&mut buf, Some("doc")); // documentation
    put_tagged_fields(&mut buf); // config entry tagged fields
    put_tagged_fields(&mut buf); // result tagged fields
    put_tagged_fields(&mut buf); // top-level tagged fields

    let resp = DescribeConfigsResponse::decode_v4(&mut buf.freeze()).unwrap();
    assert_eq!(resp.results.len(), 1);
    let c = &resp.results[0].configs[0];
    assert_eq!(c.name, "k");
    assert_eq!(c.value.as_deref(), Some("v"));
    assert_eq!(c.config_source, 2);
    assert_eq!(c.synonyms.len(), 1);
    assert_eq!(c.config_type, 1);
    assert_eq!(c.documentation.as_deref(), Some("doc"));
}

#[test]
fn test_incremental_alter_configs_request_encode_v0_round_trip() {
    let req = IncrementalAlterConfigsRequest {
        resources: vec![IncrementalAlterConfigsResource {
            resource_type: ConfigResourceType::Topic,
            resource_name: "t".to_string(),
            configs: vec![AlterableConfig {
                name: "k".to_string(),
                config_operation: AlterConfigOp::SetValue,
                value: Some("v".to_string()),
            }],
        }],
        validate_only: false,
    };
    let mut buf = BytesMut::new();
    req.encode_v0(&mut buf).unwrap();

    let mut cur = Bytes::copy_from_slice(&buf);
    assert_eq!(cur.get_i32(), 1); // 1 resource
    assert_eq!(cur.get_i8(), 2); // Topic
    assert_eq!(cur.get_i16(), 1); // name len
    assert_eq!(cur.get_u8(), b't');
    assert_eq!(cur.get_i32(), 1); // 1 config
    assert_eq!(cur.get_i16(), 1); // key len
    assert_eq!(cur.get_u8(), b'k');
    assert_eq!(cur.get_i8(), 0); // config_operation = SET
    assert_eq!(cur.get_i16(), 1); // value len
    assert_eq!(cur.get_u8(), b'v');
    assert_eq!(cur.get_u8(), 0); // validate_only = false
    assert!(cur.is_empty());
}

#[test]
fn test_incremental_alter_configs_request_encode_v1_flexible() {
    let req = IncrementalAlterConfigsRequest {
        resources: vec![IncrementalAlterConfigsResource {
            resource_type: ConfigResourceType::Topic,
            resource_name: "t".to_string(),
            configs: vec![AlterableConfig {
                name: "k".to_string(),
                config_operation: AlterConfigOp::Delete,
                value: None,
            }],
        }],
        validate_only: true,
    };
    let mut buf = BytesMut::new();
    req.encode_v1(&mut buf).unwrap();

    let mut cur = Bytes::copy_from_slice(&buf);
    let arr = krafka::util::varint::decode_unsigned_varint(&mut cur).unwrap();
    assert_eq!(arr, 2); // 1 + 1
    assert_eq!(cur.get_i8(), 2); // Topic
    let name_v = krafka::util::varint::decode_unsigned_varint(&mut cur).unwrap();
    assert_eq!(name_v, 2); // len("t") + 1
    assert_eq!(cur.get_u8(), b't');
    let cfg_arr = krafka::util::varint::decode_unsigned_varint(&mut cur).unwrap();
    assert_eq!(cfg_arr, 2); // 1 config + 1
    let key_v = krafka::util::varint::decode_unsigned_varint(&mut cur).unwrap();
    assert_eq!(key_v, 2);
    assert_eq!(cur.get_u8(), b'k');
    assert_eq!(cur.get_i8(), 1); // DELETE
    // null compact string for value
    let val_v = krafka::util::varint::decode_unsigned_varint(&mut cur).unwrap();
    assert_eq!(val_v, 0); // null
    assert_eq!(cur.get_u8(), 0); // config tagged fields
    assert_eq!(cur.get_u8(), 0); // resource tagged fields
    assert_eq!(cur.get_u8(), 1); // validate_only = true
    assert_eq!(cur.get_u8(), 0); // top-level tagged fields
    assert!(cur.is_empty());
}

#[test]
fn test_incremental_alter_configs_response_decode_v0() {
    let mut buf = BytesMut::new();
    buf.put_i32(100); // throttle_time_ms
    buf.put_i32(1); // 1 result
    buf.put_i16(0); // error_code NONE
    buf.put_i16(-1); // error_message null
    buf.put_i8(2); // resource_type = Topic
    buf.put_i16(5);
    buf.put_slice(b"topic");

    let resp = IncrementalAlterConfigsResponse::decode_v0(&mut buf.freeze()).unwrap();
    assert_eq!(resp.throttle_time_ms, 100);
    assert_eq!(resp.results.len(), 1);
    assert!(resp.results[0].error_code.is_ok());
    assert!(resp.results[0].error_message.is_none());
    assert_eq!(resp.results[0].resource_name, "topic");
}

#[test]
fn test_incremental_alter_configs_response_decode_v1_flexible() {
    let mut buf = BytesMut::new();
    buf.put_i32(50); // throttle_time_ms
    krafka::util::varint::encode_unsigned_varint(2, &mut buf); // 1 result
    buf.put_i16(87); // error_code
    put_compact_string(&mut buf, Some("fail")); // error_message
    buf.put_i8(4); // resource_type = Broker
    put_compact_string(&mut buf, Some("0")); // resource_name
    put_tagged_fields(&mut buf); // result tagged fields
    put_tagged_fields(&mut buf); // top-level tagged fields

    let resp = IncrementalAlterConfigsResponse::decode_v1(&mut buf.freeze()).unwrap();
    assert_eq!(resp.throttle_time_ms, 50);
    assert_eq!(resp.results.len(), 1);
    assert!(!resp.results[0].error_code.is_ok());
    assert_eq!(resp.results[0].error_message.as_deref(), Some("fail"));
    assert_eq!(resp.results[0].resource_name, "0");
}

#[test]
fn test_incremental_alter_configs_full_frame_v1() {

    let request = IncrementalAlterConfigsRequest::for_topic(
        "config-alter-topic",
        vec![AlterableConfig {
            name: "retention.ms".to_string(),
            config_operation: AlterConfigOp::SetValue,
            value: Some("3600000".to_string()),
        }],
    );

    let mut encoder = Encoder::new();
    let pos = encoder.start_message();
    let header =
        RequestHeader::new(ApiKey::IncrementalAlterConfigs, 1, 42).with_client_id("krafka");
    header.encode(encoder.buffer_mut()).unwrap();
    request.encode_v1(encoder.buffer_mut()).unwrap();
    encoder.finish_message(pos).unwrap();
    let bytes = encoder.take();

    // Parse it back manually to verify correctness
    let mut cur = Bytes::copy_from_slice(&bytes);
    // 4-byte length prefix
    let frame_len = i32::decode(&mut cur).unwrap();
    assert_eq!(frame_len as usize, bytes.len() - 4);

    // Request header v2 (flexible for IncrementalAlterConfigs v1)
    let api_key = i16::decode(&mut cur).unwrap();
    assert_eq!(api_key, 44);
    let api_version = i16::decode(&mut cur).unwrap();
    assert_eq!(api_version, 1);
    let correlation_id = i32::decode(&mut cur).unwrap();
    assert_eq!(correlation_id, 42);

    // client_id uses standard (non-compact) encoding.
    // It always uses old-style 2-byte length prefix.
    let client_id_len = i16::decode(&mut cur).unwrap();
    assert_eq!(client_id_len, 6); // "krafka" = 6 bytes
    let mut client_id_bytes = vec![0u8; 6];
    cur.copy_to_slice(&mut client_id_bytes);
    assert_eq!(&client_id_bytes, b"krafka");

    // tagged fields for header
    let tags = krafka::util::varint::decode_unsigned_varint(&mut cur).unwrap();
    assert_eq!(tags, 0);

    // Now the request body - compact array of resources
    let resources_len = krafka::util::varint::decode_unsigned_varint(&mut cur).unwrap();
    assert_eq!(resources_len, 2); // 1 + 1

    // First resource
    let resource_type = cur.get_i8();
    assert_eq!(resource_type, 2); // Topic

    let name_len = krafka::util::varint::decode_unsigned_varint(&mut cur).unwrap();
    assert_eq!(name_len, 19); // "config-alter-topic" = 18 + 1
    let mut name_bytes = vec![0u8; 18];
    cur.copy_to_slice(&mut name_bytes);
    assert_eq!(&name_bytes, b"config-alter-topic");

    // configs array
    let configs_len = krafka::util::varint::decode_unsigned_varint(&mut cur).unwrap();
    assert_eq!(configs_len, 2); // 1 + 1

    // First config
    let config_name_len = krafka::util::varint::decode_unsigned_varint(&mut cur).unwrap();
    assert_eq!(config_name_len, 13); // "retention.ms" = 12 + 1
    let mut config_name = vec![0u8; 12];
    cur.copy_to_slice(&mut config_name);
    assert_eq!(&config_name, b"retention.ms");

    let config_op = cur.get_i8();
    assert_eq!(config_op, 0); // SET

    let config_val_len = krafka::util::varint::decode_unsigned_varint(&mut cur).unwrap();
    assert_eq!(config_val_len, 8); // "3600000" = 7 + 1
    let mut config_val = vec![0u8; 7];
    cur.copy_to_slice(&mut config_val);
    assert_eq!(&config_val, b"3600000");

    // config tagged fields
    let config_tags = krafka::util::varint::decode_unsigned_varint(&mut cur).unwrap();
    assert_eq!(config_tags, 0);

    // resource tagged fields
    let resource_tags = krafka::util::varint::decode_unsigned_varint(&mut cur).unwrap();
    assert_eq!(resource_tags, 0);

    // validate_only
    let validate_only = cur.get_u8();
    assert_eq!(validate_only, 0);

    // top-level tagged fields
    let top_tags = krafka::util::varint::decode_unsigned_varint(&mut cur).unwrap();
    assert_eq!(top_tags, 0);

    assert!(cur.is_empty(), "should have consumed all bytes");
}
