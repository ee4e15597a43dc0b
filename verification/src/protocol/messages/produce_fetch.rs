//! Produce and Fetch.

use crate::buffer::{as_slice, optional_bytes, Octets};
use crate::error::{ErrorCode, KrafkaError, ProtocolErrorKind, Reason, Result};
use crate::protocol::api::ApiKey;
use crate::protocol::messages::{VersionedDecode, VersionedEncode};
use crate::protocol::wire::{
    decoded, encoded, fits, group_appends, group_consumes, group_cut, group_followed, group_grows,
    no_items, optional_text, read_array, read_array_or_empty, read_error_code, read_i32, read_i64,
    read_nullable_bytes, read_string_or_empty, result_view, views, write_array, write_bytes,
    write_i16, write_i32, write_i64, write_i8, write_nullable_string, write_string, Format, Reader,
    WireDecode, WireEncode, Writer,
};
use bytes::{Bytes, BytesMut};
use vstd::prelude::*;

verus! {

/// Produce request.
#[derive(Debug, Clone)]
pub struct ProduceRequest {
    /// Transactional ID (v3+).
    pub transactional_id: Option<String>,
    /// Required acks (-1, 0, 1).
    pub acks: i16,
    /// Timeout in milliseconds.
    pub timeout_ms: i32,
    /// Topic data.
    pub topic_data: Vec<ProduceTopicData>,
}

/// Topic data in produce request.
#[derive(Debug, Clone)]
pub struct ProduceTopicData {
    /// Topic name.
    pub name: String,
    /// Partition data.
    pub partition_data: Vec<ProducePartitionData>,
}

/// Partition data in produce request.
#[derive(Debug, Clone)]
pub struct ProducePartitionData {
    /// Partition index.
    pub index: i32,
    /// Record batch data.
    pub records: Bytes,
}

impl WireEncode for ProducePartitionData {
    open spec fn written(&self, f: Format, w: Writer) -> Writer {
        let w = w.i32(self.index);
        w.bytes(self.records@, f.flexible)
    }

    proof fn lemma_grows(&self, f: Format, w: Writer) {
        broadcast use group_grows;

    }

    proof fn law_appends(&self, f: Format, w: Writer) {
        broadcast use group_appends;

    }

    fn encode_wire(&self, f: Format, buf: &mut BytesMut) -> (res: Result<()>) {
        broadcast use group_grows;

        write_i32(self.index, buf);
        write_bytes(as_slice(&self.records), f.flexible, buf)?;
        Ok(())
    }
}

impl WireEncode for ProduceTopicData {
    open spec fn written(&self, f: Format, w: Writer) -> Writer {
        let w = w.string(self.name@, f.flexible);
        w.array(self.partition_data@, f)
    }

    proof fn lemma_grows(&self, f: Format, w: Writer) {
        broadcast use group_grows;

    }

    proof fn law_appends(&self, f: Format, w: Writer) {
        broadcast use group_appends;

    }

    fn encode_wire(&self, f: Format, buf: &mut BytesMut) -> (res: Result<()>) {
        broadcast use group_grows;

        write_string(self.name.as_str(), f.flexible, buf)?;
        write_array(&self.partition_data, f, buf)?;
        Ok(())
    }
}

impl WireEncode for ProduceRequest {
    open spec fn written(&self, f: Format, w: Writer) -> Writer {
        let w = if f.version >= 3 {
            w.nullable_string(optional_text(self.transactional_id), f.flexible)
        } else {
            w
        };
        let w = w.i16(self.acks);
        let w = w.i32(self.timeout_ms);
        w.array(self.topic_data@, f)
    }

    proof fn lemma_grows(&self, f: Format, w: Writer) {
        broadcast use group_grows;

    }

    proof fn law_appends(&self, f: Format, w: Writer) {
        broadcast use group_appends;

    }

    fn encode_wire(&self, f: Format, buf: &mut BytesMut) -> (res: Result<()>) {
        broadcast use group_grows;

        if f.version >= 3 {
            write_nullable_string(&self.transactional_id, f.flexible, buf)?;
        }
        write_i16(self.acks, buf);
        write_i32(self.timeout_ms, buf);
        write_array(&self.topic_data, f, buf)?;
        Ok(())
    }
}

impl ProduceRequest {
    /// Get the API key.
    pub fn api_key() -> (r: ApiKey)
        ensures
            r == ApiKey::Produce,
    {
        ApiKey::Produce
    }
}

impl ProduceRequest {
    /// Encode for version 0-2.
    pub fn encode_v0(&self, buf: &mut BytesMut) -> (res: Result<()>)
        requires
            fits(self.written(Format::plain(0), Writer::at(old(buf)@))),
        ensures
            encoded(res, final(buf)@, self.written(Format::plain(0), Writer::at(old(buf)@))),
    {
        self.encode_wire(Format::plain(0), buf)
    }

    /// Encode for version 3+.
    pub fn encode_v3(&self, buf: &mut BytesMut) -> (res: Result<()>)
        requires
            fits(self.written(Format::plain(3), Writer::at(old(buf)@))),
        ensures
            encoded(res, final(buf)@, self.written(Format::plain(3), Writer::at(old(buf)@))),
    {
        self.encode_wire(Format::plain(3), buf)
    }
}

/// Partition response in produce response.
#[derive(Debug, Clone)]
pub struct ProducePartitionResponse {
    /// Partition index.
    pub index: i32,
    /// Error code.
    pub error_code: ErrorCode,
    /// Base offset.
    pub base_offset: i64,
    /// Log append time.
    pub log_append_time_ms: i64,
    /// Log start offset (v5+).
    pub log_start_offset: i64,
}

impl View for ProducePartitionResponse {
    type V = ProducePartitionResponse;

    open spec fn view(&self) -> ProducePartitionResponse {
        *self
    }
}

impl WireDecode for ProducePartitionResponse {
    open spec fn read(f: Format, r: Reader) -> (ProducePartitionResponse, Reader) {
        let (index, r) = r.i32();
        let (error_code, r) = r.error_code();
        let (base_offset, r) = r.i64();
        let (log_append_time_ms, r) = if f.version >= 2 {
            r.i64()
        } else {
            ((-1) as i64, r)
        };
        let value = ProducePartitionResponse {
            index,
            error_code,
            base_offset,
            log_append_time_ms,
            log_start_offset: (-1) as i64,
        };
        (value, r)
    }

    fn decode_wire(f: Format, buf: &mut Bytes) -> (res: Result<Self>) {
        let index = read_i32(buf)?;
        let error_code = read_error_code(buf)?;
        let base_offset = read_i64(buf)?;
        let log_append_time_ms: i64 = if f.version >= 2 {
            read_i64(buf)?
        } else {
            -1
        };
        Ok(ProducePartitionResponse {
            index,
            error_code,
            base_offset,
            log_append_time_ms,
            log_start_offset: -1,
        })
    }

    proof fn law_consumes(f: Format, r: Reader) {
        broadcast use group_consumes;

    }

    proof fn law_ignores_what_follows(f: Format, r: Reader, more: Seq<u8>) {
        broadcast use group_consumes, group_followed;

    }

    proof fn law_needs_only_what_it_takes(f: Format, r: Reader, k: nat) {
        broadcast use group_consumes, group_cut;

    }
}

/// Topic response in produce response.
#[derive(Debug, Clone)]
pub struct ProduceTopicResponse {
    /// Topic name.
    pub name: String,
    /// Partition responses.
    pub partition_responses: Vec<ProducePartitionResponse>,
}

/// What a [`ProduceTopicResponse`] holds.
pub struct ProduceTopicResponseView {
    /// Topic name.
    pub name: Seq<char>,
    /// Partition responses.
    pub partition_responses: Seq<ProducePartitionResponse>,
}

impl View for ProduceTopicResponse {
    type V = ProduceTopicResponseView;

    open spec fn view(&self) -> ProduceTopicResponseView {
        ProduceTopicResponseView {
            name: self.name@,
            partition_responses: views(self.partition_responses@),
        }
    }
}

impl WireDecode for ProduceTopicResponse {
    open spec fn read(f: Format, r: Reader) -> (ProduceTopicResponseView, Reader) {
        let (name, r) = r.string_or_empty(f.flexible);
        let (partition_responses, r) = r.array::<ProducePartitionResponse>(f);
        let value = ProduceTopicResponseView {
            name,
            partition_responses,
        };
        (value, r)
    }

    fn decode_wire(f: Format, buf: &mut Bytes) -> (res: Result<Self>) {
        let name = read_string_or_empty(f.flexible, buf)?;
        let partition_responses = read_array::<ProducePartitionResponse>(f, buf)?;
        Ok(ProduceTopicResponse {
            name,
            partition_responses,
        })
    }

    proof fn law_consumes(f: Format, r: Reader) {
        broadcast use group_consumes;

    }

    proof fn law_ignores_what_follows(f: Format, r: Reader, more: Seq<u8>) {
        broadcast use group_consumes, group_followed;

    }

    proof fn law_needs_only_what_it_takes(f: Format, r: Reader, k: nat) {
        broadcast use group_consumes, group_cut;

    }
}

/// Produce response.
#[derive(Debug, Clone)]
pub struct ProduceResponse {
    /// Topic responses.
    pub responses: Vec<ProduceTopicResponse>,
    /// Throttle time in milliseconds.
    pub throttle_time_ms: i32,
}

impl Default for ProduceResponse {
    fn default() -> (r: Self)
        ensures
            r.responses@.len() == 0,
            r.throttle_time_ms == 0,
    {
        ProduceResponse {
            responses: Vec::new(),
            throttle_time_ms: 0,
        }
    }
}

/// What a [`ProduceResponse`] holds.
pub struct ProduceResponseView {
    /// Topic responses.
    pub responses: Seq<ProduceTopicResponseView>,
    /// Throttle time in milliseconds.
    pub throttle_time_ms: i32,
}

impl View for ProduceResponse {
    type V = ProduceResponseView;

    open spec fn view(&self) -> ProduceResponseView {
        ProduceResponseView {
            responses: views(self.responses@),
            throttle_time_ms: self.throttle_time_ms,
        }
    }
}

impl WireDecode for ProduceResponse {
    open spec fn read(f: Format, r: Reader) -> (ProduceResponseView, Reader) {
        let (responses, r) = r.array::<ProduceTopicResponse>(f);
        let (throttle_time_ms, r) = if f.version >= 1 {
            r.i32()
        } else {
            (0, r)
        };
        let value = ProduceResponseView {
            responses,
            throttle_time_ms,
        };
        (value, r)
    }

    fn decode_wire(f: Format, buf: &mut Bytes) -> (res: Result<Self>) {
        let responses = read_array::<ProduceTopicResponse>(f, buf)?;
        let throttle_time_ms: i32 = if f.version >= 1 {
            read_i32(buf)?
        } else {
            0
        };
        Ok(ProduceResponse {
            responses,
            throttle_time_ms,
        })
    }

    proof fn law_consumes(f: Format, r: Reader) {
        broadcast use group_consumes;

    }

    proof fn law_ignores_what_follows(f: Format, r: Reader, more: Seq<u8>) {
        broadcast use group_consumes, group_followed;

    }

    proof fn law_needs_only_what_it_takes(f: Format, r: Reader, k: nat) {
        broadcast use group_consumes, group_cut;

    }
}

impl ProduceResponse {
    /// Decode from version 0.
    pub fn decode_v0(buf: &mut Bytes) -> (res: Result<Self>)
        ensures
            decoded(
                result_view(res),
                final(buf)@,
                Self::read(Format::plain(0), Reader::on(old(buf)@)),
            ),
    {
        Self::decode_wire(Format::plain(0), buf)
    }

    /// Decode from version 1+.
    pub fn decode_v1(buf: &mut Bytes) -> (res: Result<Self>)
        ensures
            decoded(
                result_view(res),
                final(buf)@,
                Self::read(Format::plain(1), Reader::on(old(buf)@)),
            ),
    {
        Self::decode_wire(Format::plain(1), buf)
    }

    /// Decode from version 2+.
    pub fn decode_v2(buf: &mut Bytes) -> (res: Result<Self>)
        ensures
            decoded(
                result_view(res),
                final(buf)@,
                Self::read(Format::plain(2), Reader::on(old(buf)@)),
            ),
    {
        Self::decode_wire(Format::plain(2), buf)
    }
}

impl VersionedEncode for ProduceRequest {
    open spec fn request_key() -> ApiKey {
        ApiKey::Produce
    }

    open spec fn encodes(version: i16) -> bool {
        0 <= version <= 3
    }

    open spec fn request_format(version: i16) -> Format {
        match version {
            0 | 1 | 2 => Format::plain(0),
            _ => Format::plain(3),
        }
    }

    open spec fn request_name() -> &'static str {
        "ProduceRequest"
    }

    fn encode_versioned(&self, version: i16, buf: &mut BytesMut) -> (res: Result<()>) {
        match version {
            0 | 1 | 2 => self.encode_v0(buf),
            3 => self.encode_v3(buf),
            _ => Err(
                KrafkaError::Protocol(
                    ProtocolErrorKind::Malformed,
                    Reason::UnsupportedEncode("ProduceRequest", version),
                ),
            ),
        }
    }

    proof fn law_request_format(&self, version: i16, w: Writer) {
    }

    proof fn law_unsupported_encode(&self, version: i16, w: Writer) {
    }
}

impl VersionedDecode for ProduceResponse {
    open spec fn response_key() -> ApiKey {
        ApiKey::Produce
    }

    open spec fn decodes(version: i16) -> bool {
        0 <= version <= 3
    }

    open spec fn response_format(version: i16) -> Format {
        match version {
            0 => Format::plain(0),
            1 => Format::plain(1),
            _ => Format::plain(2),
        }
    }

    open spec fn response_name() -> &'static str {
        "ProduceResponse"
    }

    fn decode_versioned(version: i16, buf: &mut Bytes) -> (res: Result<Self>) {
        match version {
            0 => Self::decode_v0(buf),
            1 => Self::decode_v1(buf),
            2 | 3 => Self::decode_v2(buf),
            _ => Err(
                KrafkaError::Protocol(
                    ProtocolErrorKind::Malformed,
                    Reason::UnsupportedDecode("ProduceResponse", version),
                ),
            ),
        }
    }

    proof fn law_response_format(version: i16, r: Reader) {
    }

    proof fn law_unsupported_decode(version: i16, r: Reader) {
    }
}

/// Fetch request.
///
/// Use [`Default::default()`] and then set the fields you need.
#[derive(Debug, Clone)]
pub struct FetchRequest {
    /// Replica ID (-1 for consumers).
    pub replica_id: i32,
    /// Max wait time in milliseconds.
    pub max_wait_ms: i32,
    /// Min bytes to return.
    pub min_bytes: i32,
    /// Max bytes to return (v3+).
    pub max_bytes: i32,
    /// Isolation level (v4+).
    pub isolation_level: i8,
    /// Session ID (v7+).
    pub session_id: i32,
    /// Session epoch (v7+).
    pub session_epoch: i32,
    /// Topic data.
    pub topics: Vec<FetchTopicRequest>,
    /// Forgotten topics/partitions to remove from the session (v7+).
    pub forgotten_topics: Vec<FetchForgottenTopic>,
    /// Consumer rack ID for closest-replica routing (v11+, KIP-392).
    pub rack_id: String,
}

impl Default for FetchRequest {
    fn default() -> (r: Self)
        ensures
            r.replica_id == -1,
            r.max_wait_ms == 0,
            r.min_bytes == 0,
            r.max_bytes == 0,
            r.isolation_level == 0,
            r.session_id == 0,
            r.session_epoch == -1,
            r.topics@.len() == 0,
            r.forgotten_topics@.len() == 0,
            r.rack_id@.len() == 0,
    {
        FetchRequest {
            replica_id: -1,
            max_wait_ms: 0,
            min_bytes: 0,
            max_bytes: 0,
            isolation_level: 0,
            session_id: 0,
            session_epoch: -1,
            topics: Vec::new(),
            forgotten_topics: Vec::new(),
            rack_id: String::new(),
        }
    }
}

/// Topic-partitions to forget from a fetch session (v7+).
#[derive(Debug, Clone, PartialEq, Eq)]
pub struct FetchForgottenTopic {
    /// Topic name.
    pub topic: String,
    /// Partition IDs to forget.
    pub partitions: Vec<i32>,
}

impl Default for FetchForgottenTopic {
    fn default() -> (r: Self)
        ensures
            r.topic@.len() == 0,
            r.partitions@.len() == 0,
    {
        FetchForgottenTopic {
            topic: String::new(),
            partitions: Vec::new(),
        }
    }
}

/// Topic in fetch request.
#[derive(Debug, Clone)]
pub struct FetchTopicRequest {
    /// Topic name.
    pub topic: String,
    /// Partition data.
    pub partitions: Vec<FetchPartitionRequest>,
}

impl Default for FetchTopicRequest {
    fn default() -> (r: Self)
        ensures
            r.topic@.len() == 0,
            r.partitions@.len() == 0,
    {
        FetchTopicRequest {
            topic: String::new(),
            partitions: Vec::new(),
        }
    }
}

/// Partition in fetch request.
#[derive(Debug, Clone)]
pub struct FetchPartitionRequest {
    /// Partition ID.
    pub partition: i32,
    /// Current leader epoch (v9+).
    pub current_leader_epoch: i32,
    /// Fetch offset.
    pub fetch_offset: i64,
    /// Last fetched epoch (v12+).
    pub last_fetched_epoch: i32,
    /// Log start offset (v5+).
    pub log_start_offset: i64,
    /// Partition max bytes.
    pub partition_max_bytes: i32,
}

impl Default for FetchPartitionRequest {
    fn default() -> (r: Self)
        ensures
            r.partition == 0,
            r.current_leader_epoch == -1,
            r.fetch_offset == 0,
            r.last_fetched_epoch == -1,
            r.log_start_offset == -1,
            r.partition_max_bytes == 0,
    {
        FetchPartitionRequest {
            partition: 0,
            current_leader_epoch: -1,
            fetch_offset: 0,
            last_fetched_epoch: -1,
            log_start_offset: -1,
            partition_max_bytes: 0,
        }
    }
}

impl WireEncode for FetchPartitionRequest {
    open spec fn written(&self, f: Format, w: Writer) -> Writer {
        let w = w.i32(self.partition);
        let w = if f.version >= 9 {
            w.i32(self.current_leader_epoch)
        } else {
            w
        };
        let w = w.i64(self.fetch_offset);
        let w = if f.version >= 7 {
            w.i64(self.log_start_offset)
        } else {
            w
        };
        w.i32(self.partition_max_bytes)
    }

    proof fn lemma_grows(&self, f: Format, w: Writer) {
        broadcast use group_grows;

    }

    proof fn law_appends(&self, f: Format, w: Writer) {
        broadcast use group_appends;

    }

    fn encode_wire(&self, f: Format, buf: &mut BytesMut) -> (res: Result<()>) {
        broadcast use group_grows;

        write_i32(self.partition, buf);
        if f.version >= 9 {
            write_i32(self.current_leader_epoch, buf);
        }
        write_i64(self.fetch_offset, buf);
        if f.version >= 7 {
            write_i64(self.log_start_offset, buf);
        }
        write_i32(self.partition_max_bytes, buf);
        Ok(())
    }
}

impl WireEncode for FetchTopicRequest {
    open spec fn written(&self, f: Format, w: Writer) -> Writer {
        let w = w.string(self.topic@, f.flexible);
        w.array(self.partitions@, f)
    }

    proof fn lemma_grows(&self, f: Format, w: Writer) {
        broadcast use group_grows;

    }

    proof fn law_appends(&self, f: Format, w: Writer) {
        broadcast use group_appends;

    }

    fn encode_wire(&self, f: Format, buf: &mut BytesMut) -> (res: Result<()>) {
        broadcast use group_grows;

        write_string(self.topic.as_str(), f.flexible, buf)?;
        write_array(&self.partitions, f, buf)?;
        Ok(())
    }
}

impl WireEncode for FetchForgottenTopic {
    open spec fn written(&self, f: Format, w: Writer) -> Writer {
        let w = w.string(self.topic@, f.flexible);
        w.array(self.partitions@, f)
    }

    proof fn lemma_grows(&self, f: Format, w: Writer) {
        broadcast use group_grows;

    }

    proof fn law_appends(&self, f: Format, w: Writer) {
        broadcast use group_appends;

    }

    fn encode_wire(&self, f: Format, buf: &mut BytesMut) -> (res: Result<()>) {
        broadcast use group_grows;

        write_string(self.topic.as_str(), f.flexible, buf)?;
        write_array(&self.partitions, f, buf)?;
        Ok(())
    }
}

impl WireEncode for FetchRequest {
    open spec fn written(&self, f: Format, w: Writer) -> Writer {
        let w = w.i32(self.replica_id);
        let w = w.i32(self.max_wait_ms);
        let w = w.i32(self.min_bytes);
        let w = if f.version >= 3 {
            w.i32(self.max_bytes)
        } else {
            w
        };
        let w = if f.version >= 4 {
            w.i8(self.isolation_level)
        } else {
            w
        };
        let w = if f.version >= 7 {
            w.i32(self.session_id)
        } else {
            w
        };
        let w = if f.version >= 7 {
            w.i32(self.session_epoch)
        } else {
            w
        };
        let w = w.array(self.topics@, f);
        let w = if f.version >= 7 {
            w.array(self.forgotten_topics@, f)
        } else {
            w
        };
        if f.version >= 11 {
            w.string(self.rack_id@, f.flexible)
        } else {
            w
        }
    }

    proof fn lemma_grows(&self, f: Format, w: Writer) {
        broadcast use group_grows;

    }

    proof fn law_appends(&self, f: Format, w: Writer) {
        broadcast use group_appends;

    }

    fn encode_wire(&self, f: Format, buf: &mut BytesMut) -> (res: Result<()>) {
        broadcast use group_grows;

        write_i32(self.replica_id, buf);
        write_i32(self.max_wait_ms, buf);
        write_i32(self.min_bytes, buf);
        if f.version >= 3 {
            write_i32(self.max_bytes, buf);
        }
        if f.version >= 4 {
            write_i8(self.isolation_level, buf);
        }
        if f.version >= 7 {
            write_i32(self.session_id, buf);
        }
        if f.version >= 7 {
            write_i32(self.session_epoch, buf);
        }
        write_array(&self.topics, f, buf)?;
        if f.version >= 7 {
            write_array(&self.forgotten_topics, f, buf)?;
        }
        if f.version >= 11 {
            write_string(self.rack_id.as_str(), f.flexible, buf)?;
        }
        Ok(())
    }
}

impl FetchRequest {
    /// Get the API key.
    pub fn api_key() -> (r: ApiKey)
        ensures
            r == ApiKey::Fetch,
    {
        ApiKey::Fetch
    }
}

impl FetchRequest {
    /// Encode for version 0-2.
    pub fn encode_v0(&self, buf: &mut BytesMut) -> (res: Result<()>)
        requires
            fits(self.written(Format::plain(0), Writer::at(old(buf)@))),
        ensures
            encoded(res, final(buf)@, self.written(Format::plain(0), Writer::at(old(buf)@))),
    {
        self.encode_wire(Format::plain(0), buf)
    }

    /// Encode for version 3.
    pub fn encode_v3(&self, buf: &mut BytesMut) -> (res: Result<()>)
        requires
            fits(self.written(Format::plain(3), Writer::at(old(buf)@))),
        ensures
            encoded(res, final(buf)@, self.written(Format::plain(3), Writer::at(old(buf)@))),
    {
        self.encode_wire(Format::plain(3), buf)
    }

    /// Encode for version 4.
    pub fn encode_v4(&self, buf: &mut BytesMut) -> (res: Result<()>)
        requires
            fits(self.written(Format::plain(4), Writer::at(old(buf)@))),
        ensures
            encoded(res, final(buf)@, self.written(Format::plain(4), Writer::at(old(buf)@))),
    {
        self.encode_wire(Format::plain(4), buf)
    }

    /// Encode for version 7 (fetch sessions: session_id, session_epoch, forgotten_topics).
    pub fn encode_v7(&self, buf: &mut BytesMut) -> (res: Result<()>)
        requires
            fits(self.written(Format::plain(7), Writer::at(old(buf)@))),
        ensures
            encoded(res, final(buf)@, self.written(Format::plain(7), Writer::at(old(buf)@))),
    {
        self.encode_wire(Format::plain(7), buf)
    }

    /// Encode for version 9 (v7 + `current_leader_epoch` per partition, KIP-320).
    pub fn encode_v9(&self, buf: &mut BytesMut) -> (res: Result<()>)
        requires
            fits(self.written(Format::plain(9), Writer::at(old(buf)@))),
        ensures
            encoded(res, final(buf)@, self.written(Format::plain(9), Writer::at(old(buf)@))),
    {
        self.encode_wire(Format::plain(9), buf)
    }

    /// Encode for version 11 (v9 + rack_id for closest-replica routing, KIP-392).
    pub fn encode_v11(&self, buf: &mut BytesMut) -> (res: Result<()>)
        requires
            fits(self.written(Format::plain(11), Writer::at(old(buf)@))),
        ensures
            encoded(res, final(buf)@, self.written(Format::plain(11), Writer::at(old(buf)@))),
    {
        self.encode_wire(Format::plain(11), buf)
    }
}

/// Aborted transaction info.
#[derive(Debug, Clone)]
pub struct AbortedTransaction {
    /// Producer ID.
    pub producer_id: i64,
    /// First offset.
    pub first_offset: i64,
}

impl View for AbortedTransaction {
    type V = AbortedTransaction;

    open spec fn view(&self) -> AbortedTransaction {
        *self
    }
}

impl WireDecode for AbortedTransaction {
    open spec fn read(f: Format, r: Reader) -> (AbortedTransaction, Reader) {
        let (producer_id, r) = r.i64();
        let (first_offset, r) = r.i64();
        let value = AbortedTransaction {
            producer_id,
            first_offset,
        };
        (value, r)
    }

    fn decode_wire(f: Format, buf: &mut Bytes) -> (res: Result<Self>) {
        let producer_id = read_i64(buf)?;
        let first_offset = read_i64(buf)?;
        Ok(AbortedTransaction {
            producer_id,
            first_offset,
        })
    }

    proof fn law_consumes(f: Format, r: Reader) {
        broadcast use group_consumes;

    }

    proof fn law_ignores_what_follows(f: Format, r: Reader, more: Seq<u8>) {
        broadcast use group_consumes, group_followed;

    }

    proof fn law_needs_only_what_it_takes(f: Format, r: Reader, k: nat) {
        broadcast use group_consumes, group_cut;

    }
}

/// Partition in fetch response.
#[derive(Debug, Clone)]
pub struct FetchPartitionResponse {
    /// Partition ID.
    pub partition: i32,
    /// Error code.
    pub error_code: ErrorCode,
    /// High watermark.
    pub high_watermark: i64,
    /// Last stable offset (v4+).
    pub last_stable_offset: i64,
    /// Log start offset (v5+).
    pub log_start_offset: i64,
    /// Aborted transactions (v4+).
    pub aborted_transactions: Vec<AbortedTransaction>,
    /// Preferred read replica ID for closest-replica routing (v11+, KIP-392).
    ///
    /// When >= 0, the consumer should preferentially fetch from this replica
    /// (reduces cross-rack traffic). When -1, no preference; use the leader.
    /// v7-v10 responses always set this to -1.
    pub preferred_read_replica: i32,
    /// Record batches.
    pub records: Option<Bytes>,
}

impl Default for FetchPartitionResponse {
    fn default() -> (r: Self)
        ensures
            r.partition == 0,
            r.error_code == ErrorCode::NoError,
            r.high_watermark == -1,
            r.last_stable_offset == -1,
            r.log_start_offset == -1,
            r.aborted_transactions@.len() == 0,
            r.preferred_read_replica == -1,
            r.records is None,
    {
        FetchPartitionResponse {
            partition: 0,
            error_code: ErrorCode::NoError,
            high_watermark: -1,
            last_stable_offset: -1,
            log_start_offset: -1,
            aborted_transactions: Vec::new(),
            preferred_read_replica: -1,
            records: None,
        }
    }
}

/// What a [`FetchPartitionResponse`] holds.
pub struct FetchPartitionResponseView {
    /// Partition ID.
    pub partition: i32,
    /// Error code.
    pub error_code: ErrorCode,
    /// High watermark.
    pub high_watermark: i64,
    /// Last stable offset (v4+).
    pub last_stable_offset: i64,
    /// Log start offset (v5+).
    pub log_start_offset: i64,
    /// Aborted transactions (v4+).
    pub aborted_transactions: Seq<AbortedTransaction>,
    /// Preferred read replica ID for closest-replica routing (v11+, KIP-392).
    pub preferred_read_replica: i32,
    /// Record batches.
    pub records: Option<Seq<u8>>,
}

impl View for FetchPartitionResponse {
    type V = FetchPartitionResponseView;

    open spec fn view(&self) -> FetchPartitionResponseView {
        FetchPartitionResponseView {
            partition: self.partition,
            error_code: self.error_code,
            high_watermark: self.high_watermark,
            last_stable_offset: self.last_stable_offset,
            log_start_offset: self.log_start_offset,
            aborted_transactions: views(self.aborted_transactions@),
            preferred_read_replica: self.preferred_read_replica,
            records: optional_bytes(self.records),
        }
    }
}

impl WireDecode for FetchPartitionResponse {
    open spec fn read(f: Format, r: Reader) -> (FetchPartitionResponseView, Reader) {
        let (partition, r) = r.i32();
        let (error_code, r) = r.error_code();
        let (high_watermark, r) = r.i64();
        let (last_stable_offset, r) = if f.version >= 4 {
            r.i64()
        } else {
            ((-1) as i64, r)
        };
        let (log_start_offset, r) = if f.version >= 7 {
            r.i64()
        } else {
            ((-1) as i64, r)
        };
        let (aborted_transactions, r) = if f.version >= 4 {
            r.array_or_empty::<AbortedTransaction>(f)
        } else {
            (Seq::empty(), r)
        };
        let (preferred_read_replica, r) = if f.version >= 11 {
            r.i32()
        } else {
            ((-1) as i32, r)
        };
        let (records, r) = r.nullable_bytes(f.flexible);
        let value = FetchPartitionResponseView {
            partition,
            error_code,
            high_watermark,
            last_stable_offset,
            log_start_offset,
            aborted_transactions,
            preferred_read_replica,
            records,
        };
        (value, r)
    }

    fn decode_wire(f: Format, buf: &mut Bytes) -> (res: Result<Self>) {
        let partition = read_i32(buf)?;
        let error_code = read_error_code(buf)?;
        let high_watermark = read_i64(buf)?;
        let last_stable_offset: i64 = if f.version >= 4 {
            read_i64(buf)?
        } else {
            -1
        };
        let log_start_offset: i64 = if f.version >= 7 {
            read_i64(buf)?
        } else {
            -1
        };
        let aborted_transactions: Vec<AbortedTransaction> = if f.version >= 4 {
            read_array_or_empty::<AbortedTransaction>(f, buf)?
        } else {
            no_items()
        };
        let preferred_read_replica: i32 = if f.version >= 11 {
            read_i32(buf)?
        } else {
            -1
        };
        let records = read_nullable_bytes(f.flexible, buf)?;
        Ok(FetchPartitionResponse {
            partition,
            error_code,
            high_watermark,
            last_stable_offset,
            log_start_offset,
            aborted_transactions,
            preferred_read_replica,
            records,
        })
    }

    proof fn law_consumes(f: Format, r: Reader) {
        broadcast use group_consumes;

    }

    proof fn law_ignores_what_follows(f: Format, r: Reader, more: Seq<u8>) {
        broadcast use group_consumes, group_followed;

    }

    #[verifier::rlimit(60)]
    proof fn law_needs_only_what_it_takes(f: Format, r: Reader, k: nat) {
        broadcast use group_consumes, group_cut;

    }
}

/// Topic in fetch response.
#[derive(Debug, Clone)]
pub struct FetchTopicResponse {
    /// Topic name.
    pub topic: String,
    /// Partition responses.
    pub partitions: Vec<FetchPartitionResponse>,
}

impl Default for FetchTopicResponse {
    fn default() -> (r: Self)
        ensures
            r.topic@.len() == 0,
            r.partitions@.len() == 0,
    {
        FetchTopicResponse {
            topic: String::new(),
            partitions: Vec::new(),
        }
    }
}

/// What a [`FetchTopicResponse`] holds.
pub struct FetchTopicResponseView {
    /// Topic name.
    pub topic: Seq<char>,
    /// Partition responses.
    pub partitions: Seq<FetchPartitionResponseView>,
}

impl View for FetchTopicResponse {
    type V = FetchTopicResponseView;

    open spec fn view(&self) -> FetchTopicResponseView {
        FetchTopicResponseView {
            topic: self.topic@,
            partitions: views(self.partitions@),
        }
    }
}

impl WireDecode for FetchTopicResponse {
    open spec fn read(f: Format, r: Reader) -> (FetchTopicResponseView, Reader) {
        let (topic, r) = r.string_or_empty(f.flexible);
        let (partitions, r) = r.array::<FetchPartitionResponse>(f);
        let value = FetchTopicResponseView {
            topic,
            partitions,
        };
        (value, r)
    }

    fn decode_wire(f: Format, buf: &mut Bytes) -> (res: Result<Self>) {
        let topic = read_string_or_empty(f.flexible, buf)?;
        let partitions = read_array::<FetchPartitionResponse>(f, buf)?;
        Ok(FetchTopicResponse {
            topic,
            partitions,
        })
    }

    proof fn law_consumes(f: Format, r: Reader) {
        broadcast use group_consumes;

    }

    proof fn law_ignores_what_follows(f: Format, r: Reader, more: Seq<u8>) {
        broadcast use group_consumes, group_followed;

    }

    proof fn law_needs_only_what_it_takes(f: Format, r: Reader, k: nat) {
        broadcast use group_consumes, group_cut;

    }
}

/// Fetch response.
#[derive(Debug, Clone)]
pub struct FetchResponse {
    /// Throttle time.
    pub throttle_time_ms: i32,
    /// Error code (v7+).
    pub error_code: ErrorCode,
    /// Session ID (v7+).
    pub session_id: i32,
    /// Topic responses.
    pub responses: Vec<FetchTopicResponse>,
}

impl Default for FetchResponse {
    fn default() -> (r: Self)
        ensures
            r.throttle_time_ms == 0,
            r.error_code == ErrorCode::NoError,
            r.session_id == 0,
            r.responses@.len() == 0,
    {
        FetchResponse {
            throttle_time_ms: 0,
            error_code: ErrorCode::NoError,
            session_id: 0,
            responses: Vec::new(),
        }
    }
}

/// What a [`FetchResponse`] holds.
pub struct FetchResponseView {
    /// Throttle time.
    pub throttle_time_ms: i32,
    /// Error code (v7+).
    pub error_code: ErrorCode,
    /// Session ID (v7+).
    pub session_id: i32,
    /// Topic responses.
    pub responses: Seq<FetchTopicResponseView>,
}

impl View for FetchResponse {
    type V = FetchResponseView;

    open spec fn view(&self) -> FetchResponseView {
        FetchResponseView {
            throttle_time_ms: self.throttle_time_ms,
            error_code: self.error_code,
            session_id: self.session_id,
            responses: views(self.responses@),
        }
    }
}

impl WireDecode for FetchResponse {
    open spec fn read(f: Format, r: Reader) -> (FetchResponseView, Reader) {
        let (throttle_time_ms, r) = if f.version >= 1 {
            r.i32()
        } else {
            (0, r)
        };
        let (error_code, r) = if f.version >= 7 {
            r.error_code()
        } else {
            (ErrorCode::NoError, r)
        };
        let (session_id, r) = if f.version >= 7 {
            r.i32()
        } else {
            (0, r)
        };
        let (responses, r) = r.array::<FetchTopicResponse>(f);
        let value = FetchResponseView {
            throttle_time_ms,
            error_code,
            session_id,
            responses,
        };
        (value, r)
    }

    fn decode_wire(f: Format, buf: &mut Bytes) -> (res: Result<Self>) {
        let throttle_time_ms: i32 = if f.version >= 1 {
            read_i32(buf)?
        } else {
            0
        };
        let error_code: ErrorCode = if f.version >= 7 {
            read_error_code(buf)?
        } else {
            ErrorCode::NoError
        };
        let session_id: i32 = if f.version >= 7 {
            read_i32(buf)?
        } else {
            0
        };
        let responses = read_array::<FetchTopicResponse>(f, buf)?;
        Ok(FetchResponse {
            throttle_time_ms,
            error_code,
            session_id,
            responses,
        })
    }

    proof fn law_consumes(f: Format, r: Reader) {
        broadcast use group_consumes;

    }

    proof fn law_ignores_what_follows(f: Format, r: Reader, more: Seq<u8>) {
        broadcast use group_consumes, group_followed;

    }

    proof fn law_needs_only_what_it_takes(f: Format, r: Reader, k: nat) {
        broadcast use group_consumes, group_cut;

    }
}

impl FetchResponse {
    /// Decode from version 0.
    pub fn decode_v0(buf: &mut Bytes) -> (res: Result<Self>)
        ensures
            decoded(
                result_view(res),
                final(buf)@,
                Self::read(Format::plain(0), Reader::on(old(buf)@)),
            ),
    {
        Self::decode_wire(Format::plain(0), buf)
    }

    /// Decode from version 1+.
    pub fn decode_v1(buf: &mut Bytes) -> (res: Result<Self>)
        ensures
            decoded(
                result_view(res),
                final(buf)@,
                Self::read(Format::plain(1), Reader::on(old(buf)@)),
            ),
    {
        Self::decode_wire(Format::plain(1), buf)
    }

    /// Decode from version 4 (includes last_stable_offset and aborted_transactions).
    pub fn decode_v4(buf: &mut Bytes) -> (res: Result<Self>)
        ensures
            decoded(
                result_view(res),
                final(buf)@,
                Self::read(Format::plain(4), Reader::on(old(buf)@)),
            ),
    {
        Self::decode_wire(Format::plain(4), buf)
    }

    /// Decode from version 7 (includes error_code, session_id, log_start_offset).
    pub fn decode_v7(buf: &mut Bytes) -> (res: Result<Self>)
        ensures
            decoded(
                result_view(res),
                final(buf)@,
                Self::read(Format::plain(7), Reader::on(old(buf)@)),
            ),
    {
        Self::decode_wire(Format::plain(7), buf)
    }

    /// Decode from version 11 (v7 + preferred_read_replica per partition, KIP-392).
    pub fn decode_v11(buf: &mut Bytes) -> (res: Result<Self>)
        ensures
            decoded(
                result_view(res),
                final(buf)@,
                Self::read(Format::plain(11), Reader::on(old(buf)@)),
            ),
    {
        Self::decode_wire(Format::plain(11), buf)
    }
}

impl VersionedEncode for FetchRequest {
    open spec fn request_key() -> ApiKey {
        ApiKey::Fetch
    }

    open spec fn encodes(version: i16) -> bool {
        0 <= version <= 4 || 7 <= version <= 11
    }

    open spec fn request_format(version: i16) -> Format {
        match version {
            0 | 1 | 2 => Format::plain(0),
            3 => Format::plain(3),
            4 => Format::plain(4),
            7 | 8 => Format::plain(7),
            9 | 10 => Format::plain(9),
            _ => Format::plain(11),
        }
    }

    open spec fn request_name() -> &'static str {
        "FetchRequest"
    }

    fn encode_versioned(&self, version: i16, buf: &mut BytesMut) -> (res: Result<()>) {
        match version {
            0 | 1 | 2 => self.encode_v0(buf),
            3 => self.encode_v3(buf),
            4 => self.encode_v4(buf),
            7 | 8 => self.encode_v7(buf),
            9 | 10 => self.encode_v9(buf),
            11 => self.encode_v11(buf),
            _ => Err(
                KrafkaError::Protocol(
                    ProtocolErrorKind::Malformed,
                    Reason::UnsupportedEncode("FetchRequest", version),
                ),
            ),
        }
    }

    proof fn law_request_format(&self, version: i16, w: Writer) {
    }

    proof fn law_unsupported_encode(&self, version: i16, w: Writer) {
    }
}

impl VersionedDecode for FetchResponse {
    open spec fn response_key() -> ApiKey {
        ApiKey::Fetch
    }

    open spec fn decodes(version: i16) -> bool {
        0 <= version <= 4 || 7 <= version <= 11
    }

    open spec fn response_format(version: i16) -> Format {
        match version {
            0 => Format::plain(0),
            1 | 2 | 3 => Format::plain(1),
            4 => Format::plain(4),
            7 | 8 | 9 | 10 => Format::plain(7),
            _ => Format::plain(11),
        }
    }

    open spec fn response_name() -> &'static str {
        "FetchResponse"
    }

    fn decode_versioned(version: i16, buf: &mut Bytes) -> (res: Result<Self>) {
        match version {
            0 => Self::decode_v0(buf),
            1 | 2 | 3 => Self::decode_v1(buf),
            4 => Self::decode_v4(buf),
            7 | 8 | 9 | 10 => Self::decode_v7(buf),
            11 => Self::decode_v11(buf),
            _ => Err(
                KrafkaError::Protocol(
                    ProtocolErrorKind::Malformed,
                    Reason::UnsupportedDecode("FetchResponse", version),
                ),
            ),
        }
    }

    proof fn law_response_format(version: i16, r: Reader) {
    }

    proof fn law_unsupported_decode(version: i16, r: Reader) {
    }
}

/// Versions 7 and 8 of the request have one format, and so have 9 and 10, and 0 to 2.
pub proof fn law_fetch_requests_share_formats(request: FetchRequest, w: Writer)
    ensures
        request.written_versioned(1, w) == request.written_versioned(0, w),
        request.written_versioned(2, w) == request.written_versioned(0, w),
        request.written_versioned(8, w) == request.written_versioned(7, w),
        request.written_versioned(10, w) == request.written_versioned(9, w),
{
}

/// Versions 7 to 10 of the response have one format, and so have 1 to 3.
pub proof fn law_fetch_responses_share_formats(r: Reader)
    ensures
        FetchResponse::read_versioned(2, r) == FetchResponse::read_versioned(1, r),
        FetchResponse::read_versioned(3, r) == FetchResponse::read_versioned(1, r),
        FetchResponse::read_versioned(8, r) == FetchResponse::read_versioned(7, r),
        FetchResponse::read_versioned(9, r) == FetchResponse::read_versioned(7, r),
        FetchResponse::read_versioned(10, r) == FetchResponse::read_versioned(7, r),
{
}

/// The number of partitions in the first `n` topics.
pub open spec fn partitions_in(topics: Seq<FetchTopicRequest>, n: nat) -> nat
    decreases n,
{
    if n == 0 {
        0
    } else {
        partitions_in(topics, (n - 1) as nat) + topics[n - 1].partitions@.len()
    }
}

/// Whether two writers have met the same error, or none and the first has written
/// `d` bytes more.
pub open spec fn ahead(a: Writer, b: Writer, d: nat) -> bool {
    &&& a.failure == b.failure
    &&& !b.failed() ==> a.bytes.len() == b.bytes.len() + d
}

/// A text keeps one writer ahead of another.
proof fn lemma_string_keeps_ahead(a: Writer, b: Writer, d: nat, text: Seq<char>)
    requires
        ahead(a, b, d),
    ensures
        ahead(a.string(text, false), b.string(text, false), d),
{
    reveal(Writer::nullable_string);
}

/// A length keeps one writer ahead of another.
proof fn lemma_array_len_keeps_ahead(a: Writer, b: Writer, d: nat, n: nat)
    requires
        ahead(a, b, d),
    ensures
        ahead(a.array_len(n, false), b.array_len(n, false), d),
{
    reveal(Writer::array_len);
}

/// Each partition puts version 9 four bytes ahead of version 7.
proof fn lemma_partitions_get_ahead(
    a: Writer,
    b: Writer,
    d: nat,
    partitions: Seq<FetchPartitionRequest>,
    n: nat,
)
    requires
        ahead(a, b, d),
    ensures
        ahead(
            a.items(partitions, Format::plain(9), n),
            b.items(partitions, Format::plain(7), n),
            d + 4 * n,
        ),
    decreases n,
{
    if n > 0 {
        lemma_partitions_get_ahead(a, b, d, partitions, (n - 1) as nat);
    }
}

/// Each partition of the topics puts version 9 four bytes ahead of version 7.
proof fn lemma_topics_get_ahead(
    a: Writer,
    b: Writer,
    topics: Seq<FetchTopicRequest>,
    n: nat,
)
    requires
        ahead(a, b, 0),
    ensures
        ahead(
            a.items(topics, Format::plain(9), n),
            b.items(topics, Format::plain(7), n),
            4 * partitions_in(topics, n),
        ),
    decreases n,
{
    if n > 0 {
        lemma_topics_get_ahead(a, b, topics, (n - 1) as nat);
        let d = 4 * partitions_in(topics, (n - 1) as nat);
        let x = a.items(topics, Format::plain(9), (n - 1) as nat);
        let y = b.items(topics, Format::plain(7), (n - 1) as nat);
        let topic = topics[n - 1];
        let len = topic.partitions@.len();
        lemma_string_keeps_ahead(x, y, d, topic.topic@);
        let x = x.string(topic.topic@, false);
        let y = y.string(topic.topic@, false);
        lemma_array_len_keeps_ahead(x, y, d, len);
        lemma_partitions_get_ahead(
            x.array_len(len, false),
            y.array_len(len, false),
            d,
            topic.partitions@,
            len,
        );
    }
}

/// Partition numbers keep one writer ahead of another.
proof fn lemma_numbers_keep_ahead(a: Writer, b: Writer, d: nat, numbers: Seq<i32>, n: nat)
    requires
        ahead(a, b, d),
    ensures
        ahead(
            a.items(numbers, Format::plain(9), n),
            b.items(numbers, Format::plain(7), n),
            d,
        ),
    decreases n,
{
    if n > 0 {
        lemma_numbers_keep_ahead(a, b, d, numbers, (n - 1) as nat);
    }
}

/// Forgotten topics keep one writer ahead of another.
proof fn lemma_forgotten_keep_ahead(
    a: Writer,
    b: Writer,
    d: nat,
    topics: Seq<FetchForgottenTopic>,
    n: nat,
)
    requires
        ahead(a, b, d),
    ensures
        ahead(
            a.items(topics, Format::plain(9), n),
            b.items(topics, Format::plain(7), n),
            d,
        ),
    decreases n,
{
    if n > 0 {
        lemma_forgotten_keep_ahead(a, b, d, topics, (n - 1) as nat);
        let x = a.items(topics, Format::plain(9), (n - 1) as nat);
        let y = b.items(topics, Format::plain(7), (n - 1) as nat);
        let topic = topics[n - 1];
        let len = topic.partitions@.len();
        lemma_string_keeps_ahead(x, y, d, topic.topic@);
        let x = x.string(topic.topic@, false);
        let y = y.string(topic.topic@, false);
        lemma_array_len_keeps_ahead(x, y, d, len);
        lemma_numbers_keep_ahead(
            x.array_len(len, false),
            y.array_len(len, false),
            d,
            topic.partitions@,
            len,
        );
    }
}

/// Version 9 of the request meets the errors that version 7 meets, and where there
/// is none it is four bytes longer for each partition, which hold the leader epoch.
pub proof fn law_fetch_v9_adds_leader_epochs(request: FetchRequest, w: Writer)
    ensures
        ({
            let v7 = request.written_versioned(7, w);
            let v9 = request.written_versioned(9, w);
            &&& v9.failure == v7.failure
            &&& !v7.failed() ==> v9.bytes.len() == v7.bytes.len() + 4 * partitions_in(
                request.topics@,
                request.topics@.len(),
            )
        }),
{
    let w = w.i32(request.replica_id).i32(request.max_wait_ms).i32(request.min_bytes);
    let w = w.i32(request.max_bytes).i8(request.isolation_level);
    let w = w.i32(request.session_id).i32(request.session_epoch);
    let n = request.topics@.len();
    let len = request.forgotten_topics@.len();
    let counted = w.array_len(n, false);
    lemma_topics_get_ahead(counted, counted, request.topics@, n);
    let a = counted.items(request.topics@, Format::plain(9), n);
    let b = counted.items(request.topics@, Format::plain(7), n);
    let d = 4 * partitions_in(request.topics@, n);
    lemma_array_len_keeps_ahead(a, b, d, len);
    lemma_forgotten_keep_ahead(
        a.array_len(len, false),
        b.array_len(len, false),
        d,
        request.forgotten_topics@,
        len,
    );
}

/// Partitions have one format in versions 9 and 11.
proof fn lemma_partitions_alike(w: Writer, partitions: Seq<FetchPartitionRequest>, n: nat)
    ensures
        w.items(partitions, Format::plain(11), n) == w.items(partitions, Format::plain(9), n),
    decreases n,
{
    if n > 0 {
        lemma_partitions_alike(w, partitions, (n - 1) as nat);
    }
}

/// Topics have one format in versions 9 and 11.
proof fn lemma_topics_alike(w: Writer, topics: Seq<FetchTopicRequest>, n: nat)
    ensures
        w.items(topics, Format::plain(11), n) == w.items(topics, Format::plain(9), n),
    decreases n,
{
    if n > 0 {
        lemma_topics_alike(w, topics, (n - 1) as nat);
        let topic = topics[n - 1];
        let len = topic.partitions@.len();
        let named = w.items(topics, Format::plain(9), (n - 1) as nat).string(topic.topic@, false);
        lemma_partitions_alike(named.array_len(len, false), topic.partitions@, len);
    }
}

/// Partition numbers have one format in versions 9 and 11.
proof fn lemma_numbers_alike(w: Writer, numbers: Seq<i32>, n: nat)
    ensures
        w.items(numbers, Format::plain(11), n) == w.items(numbers, Format::plain(9), n),
    decreases n,
{
    if n > 0 {
        lemma_numbers_alike(w, numbers, (n - 1) as nat);
    }
}

/// Forgotten topics have one format in versions 9 and 11.
proof fn lemma_forgotten_alike(w: Writer, topics: Seq<FetchForgottenTopic>, n: nat)
    ensures
        w.items(topics, Format::plain(11), n) == w.items(topics, Format::plain(9), n),
    decreases n,
{
    if n > 0 {
        lemma_forgotten_alike(w, topics, (n - 1) as nat);
        let topic = topics[n - 1];
        let len = topic.partitions@.len();
        let named = w.items(topics, Format::plain(9), (n - 1) as nat).string(topic.topic@, false);
        lemma_numbers_alike(named.array_len(len, false), topic.partitions@, len);
    }
}

/// Version 11 of the request is version 9 with the rack behind it.
pub proof fn law_fetch_v11_appends_the_rack(request: FetchRequest, w: Writer)
    ensures
        request.written_versioned(11, w) == request.written_versioned(9, w).string(
            request.rack_id@,
            false,
        ),
{
    let w = w.i32(request.replica_id).i32(request.max_wait_ms).i32(request.min_bytes);
    let w = w.i32(request.max_bytes).i8(request.isolation_level);
    let w = w.i32(request.session_id).i32(request.session_epoch);
    let n = request.topics@.len();
    let len = request.forgotten_topics@.len();
    let counted = w.array_len(n, false);
    lemma_topics_alike(counted, request.topics@, n);
    let listed = counted.items(request.topics@, Format::plain(9), n);
    lemma_forgotten_alike(listed.array_len(len, false), request.forgotten_topics@, len);
}

} // verus!
