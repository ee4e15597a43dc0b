//! Tests of `krafka::protocol::api`.

use bytes::{Buf, BufMut, BytesMut};
use krafka::protocol::api::{ApiKey, ApiVersionRange, ApiVersionsRequest, ApiVersionsResponse};
use krafka::protocol::primitives::{Decode, Encode};

#[test]
fn test_api_key_roundtrip() {
    let keys = [
        ApiKey::Produce,
        ApiKey::Fetch,
        ApiKey::Metadata,
        ApiKey::ApiVersions,
    ];

    for key in keys {
        let mut buf = BytesMut::new();
        key.encode(&mut buf);
        let decoded = ApiKey::decode(&mut buf.freeze()).unwrap();
        assert_eq!(decoded, key);
    }
}

#[test]
fn test_api_version_range() {
    let range = ApiVersionRange::new(ApiKey::Produce, 0, 9);
    assert!(range.supports(0));
    assert!(range.supports(5));
    assert!(range.supports(9));
    assert!(!range.supports(-1));
    assert!(!range.supports(10));
}

#[test]
fn test_api_version_range_encode_decode() {
    let range = ApiVersionRange::new(ApiKey::Fetch, 0, 13);
    let mut buf = BytesMut::new();
    range.encode(&mut buf);

    let decoded = ApiVersionRange::decode(&mut buf.freeze()).unwrap();
    assert_eq!(decoded.api_key, ApiKey::Fetch);
    assert_eq!(decoded.min_version, 0);
    assert_eq!(decoded.max_version, 13);
}

#[test]
fn test_api_versions_request() {
    let request =
        ApiVersionsRequest::new().with_client_software("krafka", "0.1.0");
    assert_eq!(
        request.client_software_name.as_ref().unwrap().as_str(),
        Some("krafka")
    );
    assert_eq!(
        request.client_software_version.as_ref().unwrap().as_str(),
        Some("0.1.0")
    );
}

#[test]
fn test_api_versions_response() {
    let response = ApiVersionsResponse {
        error_code: 0,
        api_keys: vec![
            ApiVersionRange::new(ApiKey::Produce, 0, 9),
            ApiVersionRange::new(ApiKey::Fetch, 0, 13),
        ],
        throttle_time_ms: 0,
        supported_features: Vec::new(),
    };

    assert!(response.supports(ApiKey::Produce, 5));
    assert!(!response.supports(ApiKey::Produce, 10));
    assert!(response.supports(ApiKey::Fetch, 13));
    assert!(!response.supports(ApiKey::Metadata, 0));
}

#[test]
fn test_negotiate_version() {
    // Broker supports v0-v12, client supports v4-v11 -> use v11
    let range = ApiVersionRange::new(ApiKey::Fetch, 0, 12);
    assert_eq!(range.negotiate(11, 4), Some(11));

    // Broker supports v4-v8, client supports v0-v6 -> use v6
    let range = ApiVersionRange::new(ApiKey::Produce, 4, 8);
    assert_eq!(range.negotiate(6, 0), Some(6));

    // No overlap: broker v0-v3, client v5-v10 -> None
    let range = ApiVersionRange::new(ApiKey::Metadata, 0, 3);
    assert_eq!(range.negotiate(10, 5), None);

    // Exact match
    let range = ApiVersionRange::new(ApiKey::Heartbeat, 2, 2);
    assert_eq!(range.negotiate(2, 2), Some(2));

    // negotiate_max helper
    let range = ApiVersionRange::new(ApiKey::Fetch, 0, 12);
    assert_eq!(range.negotiate_max(8), Some(8));
    assert_eq!(range.negotiate_max(15), Some(12)); // capped to broker max
}

#[test]
fn test_api_key_display() {
    assert_eq!(ApiKey::Produce.to_string(), "Produce");
    assert_eq!(ApiKey::Fetch.to_string(), "Fetch");
    assert_eq!(ApiKey::Unknown(999).to_string(), "Unknown(999)");
}

#[test]
fn test_api_versions_request_v3_round_trip() {
    let request = ApiVersionsRequest::new().with_client_software("krafka", "0.4.0");
    let mut buf = BytesMut::new();
    request.encode_v3(&mut buf).unwrap();
    // v3 and v4 share the same wire format; a second encode must produce identical bytes
    let mut buf2 = BytesMut::new();
    request.encode_v3(&mut buf2).unwrap();
    assert_eq!(buf, buf2);
}

#[test]
fn test_api_versions_response_decode_v3_no_tagged_features() {
    let mut buf = BytesMut::new();
    buf.put_i16(0); // error_code
    // compact api_keys array: varint(count+1) = 1 means 0 items
    krafka::util::varint::encode_unsigned_varint(1, &mut buf);
    buf.put_i32(0); // throttle_time_ms
    buf.put_u8(0); // empty tagged fields
    let mut data = buf.freeze();
    let resp = ApiVersionsResponse::decode_v3(&mut data).unwrap();
    assert_eq!(resp.error_code, 0);
    assert!(resp.api_keys.is_empty());
    assert!(resp.supported_features.is_empty());
}

#[test]
fn test_api_versions_response_decode_v3_with_supported_features() {
    let mut buf = BytesMut::new();
    buf.put_i16(0); // error_code
    // compact api_keys array: 1 item (varint(2))
    krafka::util::varint::encode_unsigned_varint(2, &mut buf);
    // ApiVersionRange: api_key(i16) + min_version(i16) + max_version(i16)
    buf.put_i16(0); // api_key = Produce
    buf.put_i16(0); // min_version
    buf.put_i16(9); // max_version
    // per-entry tagged fields for compact api key
    buf.put_u8(0);
    buf.put_i32(0); // throttle_time_ms

    // Tagged fields: 1 field, tag 0 = SupportedFeatures
    let mut tag_data = BytesMut::new();
    // compact array of features: 2 items (varint(3) = 2+1)
    krafka::util::varint::encode_unsigned_varint(3, &mut tag_data);
    // Feature 1: "metadata.version" min=1 max=20
    let name1 = b"metadata.version";
    krafka::util::varint::encode_unsigned_varint(name1.len() as u32 + 1, &mut tag_data);
    tag_data.put_slice(name1);
    tag_data.put_i16(1); // min_version
    tag_data.put_i16(20); // max_version
    tag_data.put_u8(0); // per-entry tagged fields
    // Feature 2: "kraft.version" min=0 max=1
    let name2 = b"kraft.version";
    krafka::util::varint::encode_unsigned_varint(name2.len() as u32 + 1, &mut tag_data);
    tag_data.put_slice(name2);
    tag_data.put_i16(0); // min_version
    tag_data.put_i16(1); // max_version
    tag_data.put_u8(0); // per-entry tagged fields

    // Emit top-level tagged fields: 1 field
    krafka::util::varint::encode_unsigned_varint(1, &mut buf); // 1 tagged field
    krafka::util::varint::encode_unsigned_varint(0, &mut buf); // tag = 0
    krafka::util::varint::encode_unsigned_varint(tag_data.len() as u32, &mut buf);
    buf.extend_from_slice(&tag_data);

    let mut data = buf.freeze();
    let resp = ApiVersionsResponse::decode_v3(&mut data).unwrap();
    assert_eq!(resp.supported_features.len(), 2);
    assert_eq!(resp.supported_features[0].name, "metadata.version");
    assert_eq!(resp.supported_features[0].min_version, 1);
    assert_eq!(resp.supported_features[0].max_version, 20);
    assert_eq!(resp.supported_features[1].name, "kraft.version");
    assert_eq!(resp.supported_features[1].min_version, 0);
    assert_eq!(resp.supported_features[1].max_version, 1);

    // Test feature lookup
    let feat = resp.get_supported_feature("kraft.version").unwrap();
    assert_eq!(feat.min_version, 0);
    assert_eq!(feat.max_version, 1);
    assert!(resp.get_supported_feature("nonexistent").is_none());
}

#[test]
fn test_api_versions_response_decode_v0_no_features() {
    let mut buf = BytesMut::new();
    buf.put_i16(0); // error_code
    buf.put_i32(0); // api_keys count = 0
    let mut data = buf.freeze();
    let resp = ApiVersionsResponse::decode_v0(&mut data).unwrap();
    assert!(resp.supported_features.is_empty());
    assert_eq!(resp.throttle_time_ms, 0);
}
