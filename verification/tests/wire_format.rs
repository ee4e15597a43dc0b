//! Exact bytes of the primitive values, and the errors of values that are not there.

use bytes::{Bytes, BytesMut};
use krafka::error::{KrafkaError, ProtocolErrorKind, Reason};
use krafka::protocol::primitives::{
    Decode, Encode, KafkaArray, KafkaBytes, KafkaString, TaggedFields, TryEncode,
};
use krafka::protocol::wire::TaggedField;
use krafka::util::varint::{decode_unsigned_varint, encode_unsigned_varint};
use krafka::util::{duration_to_millis_i32, saturating_millis};
use std::time::Duration;

fn bytes_of(value: &impl TryEncode) -> Vec<u8> {
    let mut buf = BytesMut::new();
    value.try_encode(&mut buf).unwrap();
    buf.to_vec()
}

fn compact_bytes_of(value: &impl TryEncode) -> Vec<u8> {
    let mut buf = BytesMut::new();
    value.try_encode_compact(&mut buf).unwrap();
    buf.to_vec()
}

fn message<T>(res: Result<T, KrafkaError>) -> String {
    match res {
        Ok(_) => panic!("an error was expected"),
        Err(e) => e.to_string(),
    }
}

#[test]
fn integers_are_big_endian() {
    let mut buf = BytesMut::new();
    (-2i8).encode(&mut buf);
    0x0102i16.encode(&mut buf);
    (-2i32).encode(&mut buf);
    0x0102_0304_0506_0708i64.encode(&mut buf);
    true.encode(&mut buf);
    false.encode(&mut buf);
    assert_eq!(
        buf.to_vec(),
        vec![0xfe, 1, 2, 0xff, 0xff, 0xff, 0xfe, 1, 2, 3, 4, 5, 6, 7, 8, 1, 0]
    );
    let mut read = buf.freeze();
    assert_eq!(i8::decode(&mut read).unwrap(), -2);
    assert_eq!(i16::decode(&mut read).unwrap(), 0x0102);
    assert_eq!(i32::decode(&mut read).unwrap(), -2);
    assert_eq!(i64::decode(&mut read).unwrap(), 0x0102_0304_0506_0708);
    assert!(bool::decode(&mut read).unwrap());
    assert!(!bool::decode(&mut read).unwrap());
    assert!(read.is_empty());
}

#[test]
fn extreme_integers_come_back() {
    for v in [i64::MIN, -1, 0, 1, i64::MAX, -256, 0x7f00_0000_0000_00ff] {
        let mut buf = BytesMut::new();
        v.encode(&mut buf);
        assert_eq!(buf.to_vec(), v.to_be_bytes().to_vec());
        assert_eq!(i64::decode(&mut buf.freeze()).unwrap(), v);
    }
    for v in [i32::MIN, -1, 0, i32::MAX, -65536] {
        let mut buf = BytesMut::new();
        v.encode(&mut buf);
        assert_eq!(buf.to_vec(), v.to_be_bytes().to_vec());
        assert_eq!(i32::decode(&mut buf.freeze()).unwrap(), v);
    }
    for v in [i16::MIN, -1, 0, i16::MAX, -256] {
        let mut buf = BytesMut::new();
        v.encode_compact(&mut buf);
        assert_eq!(i16::decode_compact(&mut buf.freeze()).unwrap(), v);
    }
}

#[test]
fn a_truncated_integer_is_left_in_the_buffer() {
    let mut buf = Bytes::copy_from_slice(&[1, 2]);
    let err = i32::decode(&mut buf).unwrap_err();
    assert_eq!(err.to_string(), "need 4 bytes, 2 left");
    assert!(matches!(
        err,
        KrafkaError::Protocol(ProtocolErrorKind::TruncatedFrame, Reason::Truncated(4, 2))
    ));
    assert_eq!(buf.len(), 2);
    assert_eq!(message(i8::decode(&mut Bytes::new())), "need 1 bytes, 0 left");
    assert_eq!(message(i16::decode(&mut Bytes::copy_from_slice(&[1]))), "need 2 bytes, 1 left");
    assert_eq!(message(i64::decode(&mut buf)), "need 8 bytes, 2 left");
    assert_eq!(message(bool::decode(&mut Bytes::new())), "need 1 bytes, 0 left");
}

#[test]
fn any_byte_but_zero_is_true() {
    assert!(bool::decode(&mut Bytes::copy_from_slice(&[0xff])).unwrap());
    assert!(bool::decode(&mut Bytes::copy_from_slice(&[2])).unwrap());
}

#[test]
fn varints_have_seven_bits_in_a_byte() {
    let cases: Vec<(u32, Vec<u8>)> = vec![
        (0, vec![0]),
        (1, vec![1]),
        (127, vec![0x7f]),
        (128, vec![0x80, 1]),
        (300, vec![0xac, 2]),
        (16_384, vec![0x80, 0x80, 1]),
        (u32::MAX, vec![0xff, 0xff, 0xff, 0xff, 0x0f]),
    ];
    for (n, expected) in cases {
        let mut buf = BytesMut::new();
        encode_unsigned_varint(n, &mut buf);
        assert_eq!(buf.to_vec(), expected);
        let mut read = buf.freeze();
        assert_eq!(decode_unsigned_varint(&mut read).unwrap(), n);
        assert!(read.is_empty());
    }
}

#[test]
fn bad_varints_are_refused() {
    let mut long = Bytes::copy_from_slice(&[0x80, 0x80, 0x80, 0x80, 0x80, 0]);
    assert_eq!(message(decode_unsigned_varint(&mut long)), "varint is longer than 5 bytes");
    assert_eq!(long.len(), 1);
    let mut large = Bytes::copy_from_slice(&[0xff, 0xff, 0xff, 0xff, 0x10]);
    assert_eq!(message(decode_unsigned_varint(&mut large)), "varint exceeds 32 bits");
    let mut short = Bytes::copy_from_slice(&[0x80]);
    assert_eq!(message(decode_unsigned_varint(&mut short)), "need 1 bytes, 0 left");
}

#[test]
fn strings_in_both_forms() {
    assert_eq!(bytes_of(&KafkaString::new("ab")), vec![0, 2, b'a', b'b']);
    assert_eq!(bytes_of(&KafkaString::new("")), vec![0, 0]);
    assert_eq!(bytes_of(&KafkaString::null()), vec![0xff, 0xff]);
    assert_eq!(compact_bytes_of(&KafkaString::new("ab")), vec![3, b'a', b'b']);
    assert_eq!(compact_bytes_of(&KafkaString::new("")), vec![1]);
    assert_eq!(compact_bytes_of(&KafkaString::null()), vec![0]);
    // Two bytes of UTF-8 in one character.
    assert_eq!(bytes_of(&KafkaString::new("\u{e9}")), vec![0, 2, 0xc3, 0xa9]);
    for text in ["", "ab", "\u{e9}\u{20ac}\u{1f600}"] {
        let mut buf = Bytes::from(bytes_of(&KafkaString::new(text)));
        assert_eq!(KafkaString::decode(&mut buf).unwrap().as_str(), Some(text));
        let mut buf = Bytes::from(compact_bytes_of(&KafkaString::new(text)));
        assert_eq!(KafkaString::decode_compact(&mut buf).unwrap().as_str(), Some(text));
    }
    assert!(KafkaString::decode(&mut Bytes::from(vec![0xff, 0xff])).unwrap().is_null());
    assert!(KafkaString::decode_compact(&mut Bytes::from(vec![0])).unwrap().is_null());
}

#[test]
fn bad_strings_are_refused() {
    let mut negative = Bytes::from(vec![0xff, 0xfe, 1]);
    assert_eq!(message(KafkaString::decode(&mut negative)), "invalid string length: -2");
    assert_eq!(negative.len(), 1);
    let mut short = Bytes::from(vec![0, 3, b'a']);
    assert_eq!(message(KafkaString::decode(&mut short)), "need 3 bytes, 1 left");
    let mut invalid = Bytes::from(vec![0, 1, 0xff]);
    assert_eq!(message(KafkaString::decode(&mut invalid)), "string is not valid UTF-8");
}

#[test]
fn an_oversized_string_is_refused_and_nothing_written() {
    let text = "x".repeat(32_768);
    let mut buf = BytesMut::new();
    7i8.encode(&mut buf);
    let err = KafkaString::new(&text).try_encode(&mut buf).unwrap_err();
    assert_eq!(err.to_string(), "string length 32768 exceeds maximum 32767");
    assert!(matches!(err, KrafkaError::Protocol(ProtocolErrorKind::InvalidLength, _)));
    assert_eq!(buf.to_vec(), vec![7]);
    // One byte less fits, and the compact form has room for more.
    KafkaString::new(&text[1..]).try_encode(&mut buf).unwrap();
    assert_eq!(buf.len(), 1 + 2 + 32_767);
    let mut buf = BytesMut::new();
    KafkaString::new(&text).try_encode_compact(&mut buf).unwrap();
    assert_eq!(buf.len(), 3 + 32_768);
}

#[test]
fn byte_strings_in_both_forms() {
    let data = KafkaBytes::new(Bytes::from_static(b"\x01\x02"));
    assert_eq!(bytes_of(&data), vec![0, 0, 0, 2, 1, 2]);
    assert_eq!(compact_bytes_of(&data), vec![3, 1, 2]);
    assert_eq!(bytes_of(&KafkaBytes::null()), vec![0xff, 0xff, 0xff, 0xff]);
    assert_eq!(compact_bytes_of(&KafkaBytes::null()), vec![0]);
    let mut buf = Bytes::from(vec![0, 0, 0, 2, 1, 2, 9]);
    assert_eq!(KafkaBytes::decode(&mut buf).unwrap().0.unwrap().to_vec(), vec![1, 2]);
    assert_eq!(buf.to_vec(), vec![9]);
    let mut negative = Bytes::from(vec![0xff, 0xff, 0xff, 0xfd]);
    assert_eq!(message(KafkaBytes::decode(&mut negative)), "invalid bytes length: -3");
}

#[test]
fn arrays_in_both_forms() {
    let items: KafkaArray<i32> = KafkaArray::new(vec![1, -1]);
    assert_eq!(bytes_of(&items), vec![0, 0, 0, 2, 0, 0, 0, 1, 0xff, 0xff, 0xff, 0xff]);
    assert_eq!(compact_bytes_of(&items), vec![3, 0, 0, 0, 1, 0xff, 0xff, 0xff, 0xff]);
    let none: KafkaArray<i32> = KafkaArray::null();
    assert_eq!(bytes_of(&none), vec![0xff, 0xff, 0xff, 0xff]);
    assert_eq!(compact_bytes_of(&none), vec![0]);
    let mut buf = Bytes::from(bytes_of(&items));
    assert_eq!(KafkaArray::<i32>::decode(&mut buf).unwrap().0, Some(vec![1, -1]));
    let mut buf = Bytes::from(compact_bytes_of(&none));
    assert_eq!(KafkaArray::<i32>::decode_compact(&mut buf).unwrap().0, None);
    let mut negative = Bytes::from(vec![0xff, 0xff, 0xff, 0xfe]);
    assert_eq!(message(KafkaArray::<i32>::decode(&mut negative)), "invalid array length: -2");
    // The array ends in the middle of its second element.
    let mut short = Bytes::from(vec![0, 0, 0, 2, 0, 0, 0, 1, 0]);
    assert_eq!(message(KafkaArray::<i32>::decode(&mut short)), "need 4 bytes, 1 left");
    assert_eq!(short.len(), 1);
}

#[test]
fn tagged_fields_come_back() {
    let fields = TaggedFields(vec![
        TaggedField { tag: 0, data: Bytes::from_static(b"abc") },
        TaggedField { tag: 300, data: Bytes::new() },
    ]);
    let bytes = bytes_of(&fields);
    assert_eq!(bytes, vec![2, 0, 3, b'a', b'b', b'c', 0xac, 2, 0]);
    let mut buf = Bytes::from(bytes);
    let back = TaggedFields::decode(&mut buf).unwrap();
    assert_eq!(back.0.len(), 2);
    assert_eq!(back.0[0].tag, 0);
    assert_eq!(back.0[0].data.to_vec(), b"abc".to_vec());
    assert_eq!(back.0[1].tag, 300);
    assert!(back.0[1].data.is_empty());
    assert!(buf.is_empty());
    assert_eq!(bytes_of(&TaggedFields::default()), vec![0]);
}

#[test]
fn milliseconds_are_capped() {
    assert_eq!(saturating_millis(0), 0);
    assert_eq!(saturating_millis(2_147_483_647), i32::MAX);
    assert_eq!(saturating_millis(2_147_483_648), i32::MAX);
    assert_eq!(saturating_millis(u128::MAX), i32::MAX);
    assert_eq!(duration_to_millis_i32(Duration::from_micros(1_999)), 1);
    assert_eq!(duration_to_millis_i32(Duration::from_secs(30)), 30_000);
    assert_eq!(duration_to_millis_i32(Duration::MAX), i32::MAX);
}
