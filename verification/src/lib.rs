//! Wire protocol of a Kafka client.

pub mod buffer;
pub mod error;
pub mod protocol;
pub mod util;
