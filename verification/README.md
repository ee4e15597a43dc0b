# krafka

The wire protocol of a Kafka client, verified with Verus.

- `src/buffer.rs`: the byte buffers of the `bytes` crate and what is trusted of them.
- `src/error.rs`: errors, their sentences, and the error codes of brokers.
- `src/protocol/wire.rs`, `wire/`: models of reading and writing, and the functions
  that are proved against them.
- `src/protocol/primitives.rs`: strings, byte strings, arrays and tagged fields.
- `src/protocol/round_trip.rs`: what is written is read back.
- `src/protocol/api.rs`, `header.rs`, `codec.rs`: API keys and the negotiation of
  versions, headers, and frames.
- `src/protocol/messages/`: requests and responses, one contract for each version.
- `app/`: conversions that need floating-point numbers or `Display`.
