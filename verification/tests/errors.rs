//! Error codes and the sentences of errors.

use bytes::{Bytes, BytesMut};
use krafka::error::{ErrorCode, KrafkaError, ProtocolErrorKind, Reason};
use krafka::protocol::messages::{
    FetchRequest, FetchResponse, HeartbeatRequest, VersionedDecode, VersionedEncode,
};

#[test]
fn every_code_keeps_its_number() {
    for n in -200i16..400 {
        assert_eq!(ErrorCode::from_i16(n).to_i16(), n);
        assert_eq!(ErrorCode::from(n), ErrorCode::from_i16(n));
        assert_eq!(ErrorCode::from_i16(n).is_ok(), n == 0);
    }
    assert_eq!(ErrorCode::from_i16(0), ErrorCode::NoError);
    assert_eq!(ErrorCode::from_i16(16), ErrorCode::NotCoordinator);
    assert_eq!(ErrorCode::from_i16(9999), ErrorCode::Unknown(9999));
    assert_eq!(ErrorCode::default(), ErrorCode::NoError);
}

#[test]
fn sentences_of_errors() {
    let cases: Vec<(Reason, &str)> = vec![
        (Reason::Text("a"), "a"),
        (Reason::Number("n: ", -5), "n: -5"),
        (Reason::NumberThen("v ", 0, " is low"), "v 0 is low"),
        (Reason::Named("host", " must not be null"), "host must not be null"),
        (Reason::NamedNumber("x", " has ", 12), "x has 12"),
        (Reason::Exceeds("size", 10, 9), "size 10 exceeds maximum 9"),
        (Reason::Truncated(4, 3), "need 4 bytes, 3 left"),
        (
            Reason::Trailing(7, 2),
            "SupportedFeatures: 7 trailing bytes after parsing 2 entries",
        ),
        (Reason::UnsupportedEncode("M", 9), "unsupported M encode version 9"),
        (Reason::UnsupportedDecode("M", -1), "unsupported M decode version -1"),
    ];
    for (reason, text) in cases {
        assert_eq!(reason.to_string(), text);
        let err = KrafkaError::Protocol(ProtocolErrorKind::Malformed, reason);
        assert_eq!(err.to_string(), text);
    }
    assert_eq!(KrafkaError::protocol("plain").to_string(), "plain");
    assert_eq!(
        KrafkaError::Broker(ErrorCode::NotCoordinator, "refused").to_string(),
        "refused (code 16)"
    );
    let least = KrafkaError::Protocol(
        ProtocolErrorKind::InvalidLength,
        Reason::Number("", i64::MIN),
    );
    assert_eq!(least.to_string(), "-9223372036854775808");
}

#[test]
fn an_unsupported_version_changes_nothing() {
    let mut buf = BytesMut::from(&b"kept"[..]);
    for version in [-1i16, 5, 6, 12] {
        let err = FetchRequest::default().encode_versioned(version, &mut buf).unwrap_err();
        assert_eq!(
            err.to_string(),
            format!("unsupported FetchRequest encode version {version}")
        );
        assert_eq!(buf.to_vec(), b"kept".to_vec());
    }
    let mut data = Bytes::from_static(b"kept");
    for version in [-1i16, 5, 6, 12] {
        let err = FetchResponse::decode_versioned(version, &mut data).unwrap_err();
        assert_eq!(
            err.to_string(),
            format!("unsupported FetchResponse decode version {version}")
        );
        assert_eq!(data.len(), 4);
    }
}

#[test]
fn what_stands_before_an_error_stays() {
    let request = HeartbeatRequest {
        group_id: "g".to_string(),
        generation_id: 5,
        member_id: "m".repeat(40_000),
        group_instance_id: None,
    };
    let mut buf = BytesMut::from(&b"kept"[..]);
    let err = request.encode_versioned(0, &mut buf).unwrap_err();
    assert_eq!(err.to_string(), "string length 40000 exceeds maximum 32767");
    assert_eq!(buf.to_vec(), b"kept\x00\x01g\x00\x00\x00\x05".to_vec());
}
