//! Frames, headers and the negotiation of versions.

use bytes::{BufMut, Bytes, BytesMut};
use krafka::protocol::api::{
    ApiKey, ApiVersionRange, ApiVersionsRequest, ApiVersionsResponse, MAX_SUPPORTED_FEATURES,
};
use krafka::protocol::codec::{Decoder, Encoder, MAX_MESSAGE_SIZE};
use krafka::protocol::header::{RequestHeader, ResponseHeader};
use krafka::protocol::messages::add_partitions_to_txn::AddPartitionsToTxnRequest;
use krafka::protocol::messages::VersionedEncode;
use krafka::protocol::primitives::{Decode, Encode, TryEncode};
use krafka::util::varint::encode_unsigned_varint;

#[test]
fn what_an_encoder_frames_a_decoder_takes_out() {
    let payloads: Vec<&[u8]> = vec![b"", b"a", b"two words", &[0xff; 300]];
    let mut encoder = Encoder::with_capacity(16);
    for payload in &payloads {
        let pos = encoder.start_message();
        encoder.buffer_mut().put_slice(payload);
        encoder.finish_message(pos).unwrap();
    }
    let total: usize = payloads.iter().map(|p| p.len() + 4).sum();
    assert_eq!(encoder.len(), total);
    assert_eq!(encoder.buffer().len(), total);
    let bytes = encoder.take();
    assert!(encoder.is_empty());
    // However the bytes arrive, the payloads come out.
    for chunk in [1usize, 3, 7, 1000] {
        let mut decoder = Decoder::new();
        let mut found: Vec<Vec<u8>> = Vec::new();
        for part in bytes.chunks(chunk) {
            decoder.extend(part);
            while let Some(message) = decoder.decode().unwrap() {
                found.push(message.to_vec());
            }
        }
        assert_eq!(found, payloads.iter().map(|p| p.to_vec()).collect::<Vec<_>>());
        assert_eq!(decoder.buffered(), 0);
    }
}

#[test]
fn a_frame_is_found_only_when_whole() {
    let mut frame = BytesMut::new();
    frame.put_i32(6);
    frame.put_slice(b"sixsix");
    for n in 0..frame.len() {
        let mut decoder = Decoder::with_max_size(6);
        decoder.extend(&frame[..n]);
        assert!(decoder.decode().unwrap().is_none());
        assert_eq!(decoder.buffered(), n);
    }
}

#[test]
fn lengths_that_no_frame_has() {
    let mut decoder = Decoder::with_max_size(100);
    decoder.extend(&101i32.to_be_bytes());
    assert_eq!(
        decoder.decode().unwrap_err().to_string(),
        "message size 101 exceeds maximum 100"
    );
    assert_eq!(decoder.buffered(), 4);
    decoder.clear();
    assert_eq!(decoder.buffered(), 0);
    decoder.extend(&(-7i32).to_be_bytes());
    assert_eq!(decoder.decode().unwrap_err().to_string(), "negative message size: -7");
    assert_eq!(MAX_MESSAGE_SIZE, 100 * 1024 * 1024);
    let mut decoder = Decoder::new();
    decoder.extend(&(MAX_MESSAGE_SIZE as i32).to_be_bytes());
    assert!(decoder.decode().unwrap().is_none());
    let mut decoder = Decoder::default();
    decoder.extend(&[0, 0, 0, 0]);
    assert_eq!(decoder.decode().unwrap().unwrap().len(), 0);
    decoder.extend(&[0, 0, 0, 1, 9]);
    assert!(decoder.decode().is_err());
}

#[test]
fn request_headers_have_exact_bytes() {
    let header = RequestHeader::new(ApiKey::Fetch, 11, 258).with_client_id("me");
    let mut v1 = BytesMut::new();
    header.encode(&mut v1).unwrap();
    assert_eq!(v1.to_vec(), b"\x00\x01\x00\x0b\x00\x00\x01\x02\x00\x02me".to_vec());
    let header = RequestHeader::new(ApiKey::Fetch, 12, 258).with_client_id("me");
    let mut v2 = BytesMut::new();
    header.encode(&mut v2).unwrap();
    assert_eq!(v2.to_vec(), b"\x00\x01\x00\x0c\x00\x00\x01\x02\x00\x02me\x00".to_vec());
}

#[test]
fn response_headers_follow_the_version() {
    let mut plain = Bytes::from_static(b"\x00\x00\x00\x2a\x00");
    let header = ResponseHeader::decode(&mut plain, ApiKey::Fetch, 11).unwrap();
    assert_eq!(header.correlation_id, 42);
    assert_eq!(plain.len(), 1);
    let mut flexible = Bytes::from_static(b"\x00\x00\x00\x2a\x00");
    let header = ResponseHeader::decode(&mut flexible, ApiKey::Fetch, 12).unwrap();
    assert_eq!(header.correlation_id, ResponseHeader::new(42).correlation_id);
    assert!(flexible.is_empty());
    let mut bootstrap = Bytes::from_static(b"\x00\x00\x00\x2a\x00");
    ResponseHeader::decode(&mut bootstrap, ApiKey::ApiVersions, 4).unwrap();
    assert_eq!(bootstrap.len(), 1);
}

#[test]
fn api_keys_and_numbers() {
    for n in -5i16..200 {
        assert_eq!(ApiKey::from_i16(n).to_i16(), n);
        assert_eq!(i16::from(ApiKey::from(n)), n);
    }
    assert_eq!(ApiKey::from_i16(70), ApiKey::Unknown(70));
    assert_eq!(ApiKey::from_i16(79), ApiKey::ShareAcknowledge);
    assert_eq!(ApiKey::Unknown(-4).to_string(), "Unknown(-4)");
    assert_eq!(ApiKey::Unknown(3).flexible_version(), i16::MAX);
    assert_eq!(ApiKey::SaslHandshake.flexible_version(), i16::MAX);
    assert_eq!(ApiKey::AddPartitionsToTxn.flexible_version(), 3);
    assert_eq!(ApiKey::Metadata.flexible_version(), 9);
}

#[test]
fn version_ranges_in_both_forms() {
    let range = ApiVersionRange::new(ApiKey::Metadata, 1, 12);
    let mut buf = BytesMut::new();
    range.encode(&mut buf);
    assert_eq!(buf.to_vec(), vec![0, 3, 0, 1, 0, 12]);
    assert_eq!(ApiVersionRange::decode(&mut buf.freeze()).unwrap(), range);
    let mut buf = BytesMut::new();
    range.try_encode_compact(&mut buf).unwrap();
    assert_eq!(buf.to_vec(), vec![0, 3, 0, 1, 0, 12, 0]);
    let mut read = buf.freeze();
    assert_eq!(ApiVersionRange::decode_compact(&mut read).unwrap(), range);
    assert!(read.is_empty());
}

#[test]
fn negotiation_finds_the_highest_common_version() {
    let range = ApiVersionRange::new(ApiKey::Fetch, 3, 9);
    for client_min in -1i16..12 {
        for client_max in -1i16..12 {
            let best = (3..=9).filter(|v| client_min <= *v && *v <= client_max).max();
            assert_eq!(range.negotiate(client_max, client_min), best);
        }
        assert_eq!(
            range.negotiate_max(client_min),
            (3..=9).filter(|v| *v <= client_min).max()
        );
    }
}

#[test]
fn api_versions_requests_have_exact_bytes() {
    let request = ApiVersionsRequest::new().with_client_software("n", "v");
    let mut buf = BytesMut::new();
    request.encode_v0(&mut buf).unwrap();
    assert!(buf.is_empty());
    request.encode_v3(&mut buf).unwrap();
    assert_eq!(buf.to_vec(), vec![2, b'n', 2, b'v', 0]);
    let mut request = ApiVersionsRequest::default();
    request.cluster_id = Some("c".to_string());
    let mut buf = BytesMut::new();
    request.encode_v5(&mut buf).unwrap();
    assert_eq!(buf.to_vec(), vec![0, 0, 2, b'c', 0xff, 0xff, 0xff, 0xff, 0]);
    assert_eq!(ApiVersionsRequest::api_key(), ApiKey::ApiVersions);
}

fn response_with_field(data: &[u8]) -> Bytes {
    let mut buf = BytesMut::new();
    buf.put_i16(0);
    encode_unsigned_varint(1, &mut buf);
    buf.put_i32(5);
    encode_unsigned_varint(2, &mut buf);
    // A field that is passed over.
    buf.put_slice(&[7, 1, 9]);
    encode_unsigned_varint(0, &mut buf);
    encode_unsigned_varint(data.len() as u32, &mut buf);
    buf.put_slice(data);
    buf.freeze()
}

#[test]
fn supported_features_are_checked() {
    let none = ApiVersionsResponse::decode_v3(&mut response_with_field(&[0])).unwrap();
    assert!(none.supported_features.is_empty());
    assert_eq!(none.throttle_time_ms, 5);
    let one = response_with_field(&[2, 2, b'f', 0, 1, 0, 2, 0]);
    let response = ApiVersionsResponse::decode_v3(&mut one.clone()).unwrap();
    assert_eq!(response.supported_features.len(), 1);
    assert_eq!(response.get_supported_feature("f").unwrap().max_version, 2);
    let trailing = response_with_field(&[2, 2, b'f', 0, 1, 0, 2, 0, 1, 1]);
    assert_eq!(
        ApiVersionsResponse::decode_v3(&mut trailing.clone()).unwrap_err().to_string(),
        "SupportedFeatures: 2 trailing bytes after parsing 1 entries"
    );
    // One more than the limit: a count of 257 is written as 258.
    assert_eq!(MAX_SUPPORTED_FEATURES, 256);
    let many = response_with_field(&[0x82, 2]);
    assert_eq!(
        ApiVersionsResponse::decode_v3(&mut many.clone()).unwrap_err().to_string(),
        "SupportedFeatures array too large: 257"
    );
    let nameless = response_with_field(&[2, 0, 0, 1, 0, 2, 0]);
    assert_eq!(
        ApiVersionsResponse::decode_v3(&mut nameless.clone()).unwrap_err().to_string(),
        "feature name must not be null"
    );
}

#[test]
fn api_versions_responses_of_the_plain_versions() {
    let mut v1 = Bytes::from_static(b"\x00\x23\x00\x00\x00\x01\x00\x12\x00\x00\x00\x04\x00\x00\x00\x0a");
    let response = ApiVersionsResponse::decode_v1(&mut v1).unwrap();
    assert_eq!(response.error_code, 35);
    assert_eq!(response.throttle_time_ms, 10);
    let range = response.get_api_version(ApiKey::ApiVersions).unwrap();
    assert_eq!((range.min_version, range.max_version), (0, 4));
    assert!(response.supports(ApiKey::ApiVersions, 4));
    assert!(!response.supports(ApiKey::ApiVersions, 5));
    assert!(response.get_api_version(ApiKey::Fetch).is_none());
    assert_eq!(ApiVersionsResponse::default().error_code, 0);
}

#[test]
fn a_body_is_flexible_from_the_version_of_its_header() {
    let request = AddPartitionsToTxnRequest::new("x", 1, 2);
    let key = ApiKey::AddPartitionsToTxn;
    assert_eq!(RequestHeader::header_version(key, 2), 1);
    let mut plain = BytesMut::new();
    request.encode_versioned(2, &mut plain).unwrap();
    assert_eq!(&plain[..], b"\x00\x01x\x00\x00\x00\x00\x00\x00\x00\x01\x00\x02\x00\x00\x00\x00");
    assert_eq!(RequestHeader::header_version(key, 3), 2);
    assert_eq!(ResponseHeader::header_version(key, 3), 1);
    let mut flexible = BytesMut::new();
    request.encode_versioned(3, &mut flexible).unwrap();
    assert_eq!(&flexible[..], b"\x02x\x00\x00\x00\x00\x00\x00\x00\x01\x00\x02\x01\x00");
}
