//! Kafka wire protocol.

pub mod api;
pub mod codec;
pub mod header;
pub mod layouts;
pub mod messages;
pub mod primitives;
pub mod round_trip;
pub mod wire;
