//! Tests of `krafka::protocol::codec`.

use bytes::{BufMut, BytesMut};
use krafka::protocol::codec::{Decoder, Encoder};

#[test]
fn test_encoder_basic() {
    let mut encoder = Encoder::new();
    let pos = encoder.start_message();
    encoder.buffer_mut().put_slice(b"hello");
    encoder.finish_message(pos).unwrap();

    let bytes = encoder.take();
    assert_eq!(bytes.len(), 9); // 4 bytes size + 5 bytes data

    let size = i32::from_be_bytes([bytes[0], bytes[1], bytes[2], bytes[3]]);
    assert_eq!(size, 5);
    assert_eq!(&bytes[4..], b"hello");
}

#[test]
fn test_encoder_reset() {
    let mut encoder = Encoder::new();
    encoder.buffer_mut().put_slice(b"test");
    assert!(!encoder.is_empty());
    encoder.reset();
    assert!(encoder.is_empty());
}

#[test]
fn test_decoder_complete_message() {
    let mut decoder = Decoder::new();

    // Create a message with size prefix
    let mut msg = BytesMut::new();
    msg.put_i32(5);
    msg.put_slice(b"hello");

    decoder.extend(&msg);

    let result = decoder.decode().unwrap();
    assert!(result.is_some());
    assert_eq!(result.unwrap().as_ref(), b"hello");
    assert_eq!(decoder.buffered(), 0);
}

#[test]
fn test_decoder_incomplete_header() {
    let mut decoder = Decoder::new();
    decoder.extend(&[0, 0]); // Only 2 bytes

    let result = decoder.decode().unwrap();
    assert!(result.is_none());
}

#[test]
fn test_decoder_incomplete_message() {
    let mut decoder = Decoder::new();

    // Create an incomplete message
    let mut msg = BytesMut::new();
    msg.put_i32(10); // Claims 10 bytes
    msg.put_slice(b"hello"); // Only 5 bytes

    decoder.extend(&msg);

    let result = decoder.decode().unwrap();
    assert!(result.is_none());
}

#[test]
fn test_decoder_multiple_messages() {
    let mut decoder = Decoder::new();

    // Create two messages
    let mut msg = BytesMut::new();
    msg.put_i32(5);
    msg.put_slice(b"hello");
    msg.put_i32(5);
    msg.put_slice(b"world");

    decoder.extend(&msg);

    let result1 = decoder.decode().unwrap();
    assert_eq!(result1.unwrap().as_ref(), b"hello");

    let result2 = decoder.decode().unwrap();
    assert_eq!(result2.unwrap().as_ref(), b"world");

    let result3 = decoder.decode().unwrap();
    assert!(result3.is_none());
}

#[test]
fn test_decoder_message_too_large() {
    let mut decoder = Decoder::with_max_size(100);

    // Create a message claiming to be too large
    let mut msg = BytesMut::new();
    msg.put_i32(1000); // Claims 1000 bytes
    msg.put_slice(b"test");

    decoder.extend(&msg);

    let result = decoder.decode();
    assert!(result.is_err());
}

#[test]
fn test_decoder_streaming() {
    let mut decoder = Decoder::new();

    // Add data in chunks
    let mut msg = BytesMut::new();
    msg.put_i32(10);
    msg.put_slice(b"0123456789");

    // First chunk - size only
    decoder.extend(&msg[..4]);
    assert!(decoder.decode().unwrap().is_none());

    // Second chunk - partial data
    decoder.extend(&msg[4..8]);
    assert!(decoder.decode().unwrap().is_none());

    // Third chunk - complete
    decoder.extend(&msg[8..]);
    let result = decoder.decode().unwrap();
    assert_eq!(result.unwrap().as_ref(), b"0123456789");
}

#[test]
fn test_decoder_negative_size() {
    // A negative message size should produce a clear error, not wrap to usize::MAX
    let mut decoder = Decoder::new();
    let mut msg = BytesMut::new();
    msg.put_i32(-1); // negative size
    msg.put_slice(b"junk");

    decoder.extend(&msg);

    let result = decoder.decode();
    assert!(result.is_err(), "negative message size should be rejected");
    let err_msg = result.unwrap_err().to_string();
    assert!(
        err_msg.contains("negative message size"),
        "error should mention negative size: {err_msg}"
    );
}
