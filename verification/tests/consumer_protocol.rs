//! The embedded consumer protocol.

use bytes::{Bytes, BytesMut};
use krafka::error::{KrafkaError, ProtocolErrorKind};
use krafka::protocol::messages::consumer_protocol::{
    decode_consumer_protocol_assignment, decode_consumer_protocol_subscription,
    encode_consumer_protocol_assignment, encode_consumer_protocol_subscription,
    CONSUMER_PROTOCOL_MAX_VERSION, CONSUMER_PROTOCOL_TYPE, CONSUMER_PROTOCOL_V1,
    CONSUMER_PROTOCOL_V2, CONSUMER_PROTOCOL_V3, ConsumerProtocolAssignment,
    ConsumerProtocolSubscription, ConsumerProtocolTopicPartitions,
};

fn owned(topic: &str, partitions: Vec<i32>) -> ConsumerProtocolTopicPartitions {
    ConsumerProtocolTopicPartitions { topic: topic.to_string(), partitions }
}

fn subscription_bytes(subscription: &ConsumerProtocolSubscription) -> Bytes {
    let mut buf = BytesMut::new();
    encode_consumer_protocol_subscription(subscription, &mut buf).unwrap();
    buf.freeze()
}

fn refusal(subscription: &ConsumerProtocolSubscription) -> String {
    let mut buf = BytesMut::new();
    let err = encode_consumer_protocol_subscription(subscription, &mut buf).unwrap_err();
    assert!(matches!(err, KrafkaError::Protocol(ProtocolErrorKind::InvalidLength, _)));
    assert!(buf.is_empty());
    err.to_string()
}

#[test]
fn constants_of_the_consumer_protocol() {
    assert_eq!(CONSUMER_PROTOCOL_TYPE, "consumer");
    assert_eq!(CONSUMER_PROTOCOL_MAX_VERSION, 3);
    assert_eq!([CONSUMER_PROTOCOL_V1, CONSUMER_PROTOCOL_V2, CONSUMER_PROTOCOL_V3], [1, 2, 3]);
}

#[test]
fn a_plain_subscription_has_exact_bytes() {
    let subscription = ConsumerProtocolSubscription::new(vec!["t1".to_string()]);
    assert_eq!(subscription.version, 0);
    assert_eq!(subscription.generation_id, -1);
    assert_eq!(
        subscription_bytes(&subscription).to_vec(),
        b"\x00\x00\x00\x00\x00\x01\x00\x02t1\xff\xff\xff\xff".to_vec()
    );
}

#[test]
fn a_full_subscription_has_exact_bytes() {
    let mut subscription = ConsumerProtocolSubscription::new(vec!["t".to_string()])
        .with_owned_partitions(vec![owned("t", vec![0, 7])])
        .with_generation_id(9)
        .with_rack_id("r");
    subscription.user_data = Some(Bytes::from_static(b"u"));
    assert_eq!(subscription.version, 3);
    assert_eq!(
        subscription_bytes(&subscription).to_vec(),
        b"\x00\x03\x00\x00\x00\x01\x00\x01t\x00\x00\x00\x01u\x00\x00\x00\x01\x00\x01t\
          \x00\x00\x00\x02\x00\x00\x00\x00\x00\x00\x00\x07\x00\x00\x00\x09\x00\x01r"
            .to_vec()
    );
}

#[test]
fn builders_raise_the_version_and_never_lower_it() {
    let plain = ConsumerProtocolSubscription::new(Vec::new());
    assert_eq!(plain.clone().with_owned_partitions(Vec::new()).version, 1);
    assert_eq!(plain.clone().with_generation_id(4).version, 2);
    let racked = plain.with_rack_id("r");
    assert_eq!(racked.version, 3);
    assert_eq!(racked.clone().with_generation_id(4).version, 3);
    assert_eq!(racked.with_owned_partitions(Vec::new()).version, 3);
}

#[test]
fn subscriptions_come_back_at_every_version() {
    let plain = ConsumerProtocolSubscription::new(vec!["a".to_string(), "b".to_string()]);
    let owning = plain.clone().with_owned_partitions(vec![owned("a", vec![1, 2]), owned("b", vec![])]);
    let dated = owning.clone().with_generation_id(12);
    let mut racked = dated.clone().with_rack_id("rack");
    racked.user_data = Some(Bytes::from_static(b"state"));
    let mut newer = racked.clone();
    newer.version = 7;
    for subscription in [plain, owning, dated, racked, newer] {
        let blob = subscription_bytes(&subscription);
        assert_eq!(decode_consumer_protocol_subscription(&blob).unwrap(), subscription);
        // Trailing bytes are ignored, and the blob is not consumed.
        let mut longer = blob.to_vec();
        longer.extend_from_slice(b"more");
        let longer = Bytes::from(longer);
        assert_eq!(decode_consumer_protocol_subscription(&longer).unwrap(), subscription);
        assert_eq!(longer.len(), blob.len() + 4);
    }
}

#[test]
fn assignments_come_back_at_every_version() {
    for version in [0i16, 1, 2, 3, 9] {
        let mut assignment =
            ConsumerProtocolAssignment::new(version, vec![owned("a", vec![3]), owned("b", vec![])]);
        if version > 1 {
            assignment.user_data = Some(Bytes::from_static(b"x"));
        }
        let mut buf = BytesMut::new();
        encode_consumer_protocol_assignment(&assignment, &mut buf).unwrap();
        let blob = buf.freeze();
        assert_eq!(decode_consumer_protocol_assignment(&blob).unwrap(), assignment);
    }
}

#[test]
fn an_empty_blob_is_an_empty_value() {
    let subscription = decode_consumer_protocol_subscription(&Bytes::new()).unwrap();
    assert_eq!(subscription, ConsumerProtocolSubscription::default());
    assert_eq!(subscription.version, 0);
    assert!(subscription.topics.is_empty());
    assert_eq!(subscription.generation_id, -1);
    let assignment = decode_consumer_protocol_assignment(&Bytes::new()).unwrap();
    assert_eq!(assignment, ConsumerProtocolAssignment::default());
    assert!(assignment.assigned_partitions.is_empty());
}

#[test]
fn a_negative_version_is_malformed() {
    let blob = Bytes::from_static(b"\xff\xff\x00\x00\x00\x00\xff\xff\xff\xff");
    let err = decode_consumer_protocol_subscription(&blob).unwrap_err();
    assert_eq!(err.to_string(), "ConsumerProtocolSubscription has negative version -1");
    assert!(matches!(err, KrafkaError::Protocol(ProtocolErrorKind::Malformed, _)));
    let err = decode_consumer_protocol_assignment(&blob).unwrap_err();
    assert_eq!(err.to_string(), "ConsumerProtocolAssignment has negative version -1");
}

#[test]
fn a_null_topic_is_malformed() {
    let names = Bytes::from_static(b"\x00\x00\x00\x00\x00\x01\xff\xff");
    assert_eq!(
        decode_consumer_protocol_subscription(&names).unwrap_err().to_string(),
        "null topic name in subscription topic"
    );
    let owned = Bytes::from_static(b"\x00\x01\x00\x00\x00\x00\xff\xff\xff\xff\x00\x00\x00\x01\xff\xff");
    assert_eq!(
        decode_consumer_protocol_subscription(&owned).unwrap_err().to_string(),
        "null topic name in owned partitions"
    );
    let assigned = Bytes::from_static(b"\x00\x00\x00\x00\x00\x01\xff\xff");
    assert_eq!(
        decode_consumer_protocol_assignment(&assigned).unwrap_err().to_string(),
        "null topic name in assigned partitions"
    );
}

#[test]
fn a_blob_that_ends_mid_field_is_truncated() {
    let subscription = ConsumerProtocolSubscription::new(vec!["topic".to_string()])
        .with_owned_partitions(vec![owned("topic", vec![1])])
        .with_generation_id(3)
        .with_rack_id("rack");
    let blob = subscription_bytes(&subscription);
    for n in 1..blob.len() {
        let err = decode_consumer_protocol_subscription(&blob.slice(..n)).unwrap_err();
        assert!(matches!(err, KrafkaError::Protocol(ProtocolErrorKind::TruncatedFrame, _)));
    }
}

#[test]
fn a_field_without_a_place_is_refused() {
    let mut subscription = ConsumerProtocolSubscription::new(Vec::new());
    subscription.version = -3;
    assert_eq!(refusal(&subscription), "ConsumerProtocolSubscription version -3 is negative");
    subscription.version = 0;
    subscription.owned_partitions = vec![owned("t", vec![0])];
    assert_eq!(
        refusal(&subscription),
        "owned partitions need ConsumerProtocolSubscription v1 or newer"
    );
    subscription.version = 1;
    subscription.generation_id = 0;
    assert_eq!(
        refusal(&subscription),
        "generation_id needs ConsumerProtocolSubscription v2 or newer"
    );
    subscription.version = 2;
    subscription.rack_id = Some("r".to_string());
    assert_eq!(refusal(&subscription), "rack_id needs ConsumerProtocolSubscription v3 or newer");
    let assignment = ConsumerProtocolAssignment::new(-1, Vec::new());
    let mut buf = BytesMut::new();
    let err = encode_consumer_protocol_assignment(&assignment, &mut buf).unwrap_err();
    assert_eq!(err.to_string(), "ConsumerProtocolAssignment version -1 is negative");
    assert!(buf.is_empty());
}

#[test]
fn oversized_user_data_is_refused() {
    let text = "bytes length 2147483648 exceeds maximum 2147483647";
    let data = Bytes::from(vec![0u8; 1 << 31]);
    let mut assignment = ConsumerProtocolAssignment::new(0, Vec::new());
    assignment.user_data = Some(data.clone());
    let err = encode_consumer_protocol_assignment(&assignment, &mut BytesMut::new()).unwrap_err();
    assert!(matches!(err, KrafkaError::Protocol(ProtocolErrorKind::InvalidLength, _)));
    assert_eq!(err.to_string(), text);
    let mut subscription = ConsumerProtocolSubscription::new(Vec::new());
    subscription.user_data = Some(data);
    let mut buf = BytesMut::new();
    let err = encode_consumer_protocol_subscription(&subscription, &mut buf).unwrap_err();
    assert!(matches!(err, KrafkaError::Protocol(ProtocolErrorKind::InvalidLength, _)));
    assert_eq!(err.to_string(), text);
}
