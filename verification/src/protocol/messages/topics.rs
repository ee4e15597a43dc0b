//! Administration of topics, their configuration and their records.

use crate::buffer::Octets;
use crate::error::{
    decimal, decimal_text, ErrorCode, KrafkaError, ProtocolErrorKind, Reason, Result,
};
use crate::protocol::api::ApiKey;
use crate::protocol::messages::{VersionedDecode, VersionedEncode};
use crate::protocol::wire::{
    decoded, encoded, fits, group_appends, group_consumes, group_cut, group_followed, group_grows,
    optional_text, read_array, read_bool, read_error_code, read_i32, read_i64, read_i8,
    read_nullable_string, read_string_or_empty, result_view, views, write_array, write_bool,
    write_i16, write_i32, write_i64, write_i8, write_nullable_string, write_optional_array,
    write_string, Format, Reader, WireDecode, WireEncode, Writer,
};
use bytes::{Bytes, BytesMut};
use vstd::prelude::*;
use crate::util::{duration_millis, duration_to_millis_i32};
use std::time::Duration;

verus! {

/// Topic configuration for CreateTopics.
#[derive(Debug, Clone)]
pub struct CreatableTopicConfig {
    /// Config name.
    pub name: String,
    /// Config value.
    pub value: Option<String>,
}

impl WireEncode for CreatableTopicConfig {
    open spec fn written(&self, f: Format, w: Writer) -> Writer {
        let w = w.string(self.name@, f.flexible);
        w.nullable_string(optional_text(self.value), f.flexible)
    }

    proof fn lemma_grows(&self, f: Format, w: Writer) {
        broadcast use group_grows;

    }

    proof fn law_appends(&self, f: Format, w: Writer) {
        broadcast use group_appends;

    }

    fn encode_wire(&self, f: Format, buf: &mut BytesMut) -> (res: Result<()>) {
        broadcast use group_grows;

        write_string(self.name.as_str(), f.flexible, buf)?;
        write_nullable_string(&self.value, f.flexible, buf)?;
        Ok(())
    }
}

/// Replica assignment.
#[derive(Debug, Clone)]
pub struct CreatableReplicaAssignment {
    /// Partition index.
    pub partition_index: i32,
    /// Broker IDs.
    pub broker_ids: Vec<i32>,
}

impl WireEncode for CreatableReplicaAssignment {
    open spec fn written(&self, f: Format, w: Writer) -> Writer {
        let w = w.i32(self.partition_index);
        w.array(self.broker_ids@, f)
    }

    proof fn lemma_grows(&self, f: Format, w: Writer) {
        broadcast use group_grows;

    }

    proof fn law_appends(&self, f: Format, w: Writer) {
        broadcast use group_appends;

    }

    fn encode_wire(&self, f: Format, buf: &mut BytesMut) -> (res: Result<()>) {
        broadcast use group_grows;

        write_i32(self.partition_index, buf);
        write_array(&self.broker_ids, f, buf)?;
        Ok(())
    }
}

/// Topic to create.
#[derive(Debug, Clone)]
pub struct CreatableTopic {
    /// Topic name.
    pub name: String,
    /// Number of partitions (-1 = default).
    pub num_partitions: i32,
    /// Replication factor (-1 = default).
    pub replication_factor: i16,
    /// Manual replica assignments.
    pub assignments: Vec<CreatableReplicaAssignment>,
    /// Topic configs.
    pub configs: Vec<CreatableTopicConfig>,
}

impl WireEncode for CreatableTopic {
    open spec fn written(&self, f: Format, w: Writer) -> Writer {
        let w = w.string(self.name@, f.flexible);
        let w = w.i32(self.num_partitions);
        let w = w.i16(self.replication_factor);
        let w = w.array(self.assignments@, f);
        w.array(self.configs@, f)
    }

    proof fn lemma_grows(&self, f: Format, w: Writer) {
        broadcast use group_grows;

    }

    proof fn law_appends(&self, f: Format, w: Writer) {
        broadcast use group_appends;

    }

    fn encode_wire(&self, f: Format, buf: &mut BytesMut) -> (res: Result<()>) {
        broadcast use group_grows;

        write_string(self.name.as_str(), f.flexible, buf)?;
        write_i32(self.num_partitions, buf);
        write_i16(self.replication_factor, buf);
        write_array(&self.assignments, f, buf)?;
        write_array(&self.configs, f, buf)?;
        Ok(())
    }
}

/// CreateTopics request.
#[derive(Debug, Clone)]
pub struct CreateTopicsRequest {
    /// Topics to create.
    pub topics: Vec<CreatableTopic>,
    /// Timeout in milliseconds.
    pub timeout_ms: i32,
    /// Validate only (v1+).
    pub validate_only: bool,
}

impl CreateTopicsRequest {
    /// Get the API key.
    pub fn api_key() -> (r: ApiKey)
        ensures
            r == ApiKey::CreateTopics,
    {
        ApiKey::CreateTopics
    }
}

impl WireEncode for CreateTopicsRequest {
    open spec fn written(&self, f: Format, w: Writer) -> Writer {
        let w = w.array(self.topics@, f);
        let w = w.i32(self.timeout_ms);
        if f.version >= 1 {
            w.bool(self.validate_only)
        } else {
            w
        }
    }

    proof fn lemma_grows(&self, f: Format, w: Writer) {
        broadcast use group_grows;

    }

    proof fn law_appends(&self, f: Format, w: Writer) {
        broadcast use group_appends;

    }

    fn encode_wire(&self, f: Format, buf: &mut BytesMut) -> (res: Result<()>) {
        broadcast use group_grows;

        write_array(&self.topics, f, buf)?;
        write_i32(self.timeout_ms, buf);
        if f.version >= 1 {
            write_bool(self.validate_only, buf);
        }
        Ok(())
    }
}

impl CreateTopicsRequest {
    /// Encode for version 0.
    pub fn encode_v0(&self, buf: &mut BytesMut) -> (res: Result<()>)
        requires
            fits(self.written(Format::plain(0), Writer::at(old(buf)@))),
        ensures
            encoded(res, final(buf)@, self.written(Format::plain(0), Writer::at(old(buf)@))),
    {
        self.encode_wire(Format::plain(0), buf)
    }

    /// Encode for version 1+.
    pub fn encode_v1(&self, buf: &mut BytesMut) -> (res: Result<()>)
        requires
            fits(self.written(Format::plain(1), Writer::at(old(buf)@))),
        ensures
            encoded(res, final(buf)@, self.written(Format::plain(1), Writer::at(old(buf)@))),
    {
        self.encode_wire(Format::plain(1), buf)
    }
}

/// Result for a created topic.
#[derive(Debug, Clone)]
pub struct CreatableTopicResult {
    /// Topic name.
    pub name: String,
    /// Error code.
    pub error_code: ErrorCode,
    /// Error message (v1+).
    pub error_message: Option<String>,
    /// Number of partitions (v5+).
    pub num_partitions: i32,
    /// Replication factor (v5+).
    pub replication_factor: i16,
}

/// What a [`CreatableTopicResult`] holds.
pub struct CreatableTopicResultView {
    /// Topic name.
    pub name: Seq<char>,
    /// Error code.
    pub error_code: ErrorCode,
    /// Error message (v1+).
    pub error_message: Option<Seq<char>>,
    /// Number of partitions (v5+).
    pub num_partitions: i32,
    /// Replication factor (v5+).
    pub replication_factor: i16,
}

impl View for CreatableTopicResult {
    type V = CreatableTopicResultView;

    open spec fn view(&self) -> CreatableTopicResultView {
        CreatableTopicResultView {
            name: self.name@,
            error_code: self.error_code,
            error_message: optional_text(self.error_message),
            num_partitions: self.num_partitions,
            replication_factor: self.replication_factor,
        }
    }
}

impl WireDecode for CreatableTopicResult {
    open spec fn read(f: Format, r: Reader) -> (CreatableTopicResultView, Reader) {
        let (name, r) = r.string_or_empty(f.flexible);
        let (error_code, r) = r.error_code();
        let (error_message, r) = if f.version >= 1 {
            r.nullable_string(f.flexible)
        } else {
            (None, r)
        };
        let value = CreatableTopicResultView {
            name,
            error_code,
            error_message,
            num_partitions: (-1) as i32,
            replication_factor: (-1) as i16,
        };
        (value, r)
    }

    fn decode_wire(f: Format, buf: &mut Bytes) -> (res: Result<Self>) {
        let name = read_string_or_empty(f.flexible, buf)?;
        let error_code = read_error_code(buf)?;
        let error_message: Option<String> = if f.version >= 1 {
            read_nullable_string(f.flexible, buf)?
        } else {
            None
        };
        Ok(CreatableTopicResult {
            name,
            error_code,
            error_message,
            num_partitions: -1,
            replication_factor: -1,
        })
    }

    proof fn law_consumes(f: Format, r: Reader) {
        broadcast use group_consumes;

    }

    proof fn law_ignores_what_follows(f: Format, r: Reader, more: Seq<u8>) {
        broadcast use group_consumes, group_followed;

    }

    proof fn law_needs_only_what_it_takes(f: Format, r: Reader, k: nat) {
        broadcast use group_consumes, group_cut;

    }
}

/// CreateTopics response.
#[derive(Debug, Clone)]
pub struct CreateTopicsResponse {
    /// Throttle time.
    pub throttle_time_ms: i32,
    /// Topics.
    pub topics: Vec<CreatableTopicResult>,
}

/// What a [`CreateTopicsResponse`] holds.
pub struct CreateTopicsResponseView {
    /// Throttle time.
    pub throttle_time_ms: i32,
    /// Topics.
    pub topics: Seq<CreatableTopicResultView>,
}

impl View for CreateTopicsResponse {
    type V = CreateTopicsResponseView;

    open spec fn view(&self) -> CreateTopicsResponseView {
        CreateTopicsResponseView {
            throttle_time_ms: self.throttle_time_ms,
            topics: views(self.topics@),
        }
    }
}

impl WireDecode for CreateTopicsResponse {
    open spec fn read(f: Format, r: Reader) -> (CreateTopicsResponseView, Reader) {
        let (throttle_time_ms, r) = if f.version >= 2 {
            r.i32()
        } else {
            (0, r)
        };
        let (topics, r) = r.array::<CreatableTopicResult>(f);
        let value = CreateTopicsResponseView {
            throttle_time_ms,
            topics,
        };
        (value, r)
    }

    fn decode_wire(f: Format, buf: &mut Bytes) -> (res: Result<Self>) {
        let throttle_time_ms: i32 = if f.version >= 2 {
            read_i32(buf)?
        } else {
            0
        };
        let topics = read_array::<CreatableTopicResult>(f, buf)?;
        Ok(CreateTopicsResponse {
            throttle_time_ms,
            topics,
        })
    }

    proof fn law_consumes(f: Format, r: Reader) {
        broadcast use group_consumes;

    }

    proof fn law_ignores_what_follows(f: Format, r: Reader, more: Seq<u8>) {
        broadcast use group_consumes, group_followed;

    }

    proof fn law_needs_only_what_it_takes(f: Format, r: Reader, k: nat) {
        broadcast use group_consumes, group_cut;

    }
}

impl CreateTopicsResponse {
    /// Decode from version 0.
    pub fn decode_v0(buf: &mut Bytes) -> (res: Result<Self>)
        ensures
            decoded(
                result_view(res),
                final(buf)@,
                Self::read(Format::plain(0), Reader::on(old(buf)@)),
            ),
    {
        Self::decode_wire(Format::plain(0), buf)
    }

    /// Decode from version 1.
    pub fn decode_v1(buf: &mut Bytes) -> (res: Result<Self>)
        ensures
            decoded(
                result_view(res),
                final(buf)@,
                Self::read(Format::plain(1), Reader::on(old(buf)@)),
            ),
    {
        Self::decode_wire(Format::plain(1), buf)
    }

    /// Decode from version 2+.
    pub fn decode_v2(buf: &mut Bytes) -> (res: Result<Self>)
        ensures
            decoded(
                result_view(res),
                final(buf)@,
                Self::read(Format::plain(2), Reader::on(old(buf)@)),
            ),
    {
        Self::decode_wire(Format::plain(2), buf)
    }
}

impl VersionedEncode for CreateTopicsRequest {
    open spec fn request_key() -> ApiKey {
        ApiKey::CreateTopics
    }

    open spec fn encodes(version: i16) -> bool {
        0 <= version <= 2
    }

    open spec fn request_format(version: i16) -> Format {
        match version {
            0 => Format::plain(0),
            _ => Format::plain(1),
        }
    }

    open spec fn request_name() -> &'static str {
        "CreateTopicsRequest"
    }

    fn encode_versioned(&self, version: i16, buf: &mut BytesMut) -> (res: Result<()>) {
        match version {
            0 => self.encode_v0(buf),
            1 | 2 => self.encode_v1(buf),
            _ => Err(
                KrafkaError::Protocol(
                    ProtocolErrorKind::Malformed,
                    Reason::UnsupportedEncode("CreateTopicsRequest", version),
                ),
            ),
        }
    }

    proof fn law_request_format(&self, version: i16, w: Writer) {
    }

    proof fn law_unsupported_encode(&self, version: i16, w: Writer) {
    }
}

impl VersionedDecode for CreateTopicsResponse {
    open spec fn response_key() -> ApiKey {
        ApiKey::CreateTopics
    }

    open spec fn decodes(version: i16) -> bool {
        0 <= version <= 2
    }

    open spec fn response_format(version: i16) -> Format {
        match version {
            0 => Format::plain(0),
            1 => Format::plain(1),
            _ => Format::plain(2),
        }
    }

    open spec fn response_name() -> &'static str {
        "CreateTopicsResponse"
    }

    fn decode_versioned(version: i16, buf: &mut Bytes) -> (res: Result<Self>) {
        match version {
            0 => Self::decode_v0(buf),
            1 => Self::decode_v1(buf),
            2 => Self::decode_v2(buf),
            _ => Err(
                KrafkaError::Protocol(
                    ProtocolErrorKind::Malformed,
                    Reason::UnsupportedDecode("CreateTopicsResponse", version),
                ),
            ),
        }
    }

    proof fn law_response_format(version: i16, r: Reader) {
    }

    proof fn law_unsupported_decode(version: i16, r: Reader) {
    }
}

/// DeleteTopics request.
#[derive(Debug, Clone)]
pub struct DeleteTopicsRequest {
    /// Topic names.
    pub topic_names: Vec<String>,
    /// Timeout in milliseconds.
    pub timeout_ms: i32,
}

impl DeleteTopicsRequest {
    /// Get the API key.
    pub fn api_key() -> (r: ApiKey)
        ensures
            r == ApiKey::DeleteTopics,
    {
        ApiKey::DeleteTopics
    }
}

impl WireEncode for DeleteTopicsRequest {
    open spec fn written(&self, f: Format, w: Writer) -> Writer {
        let w = w.array(self.topic_names@, f);
        w.i32(self.timeout_ms)
    }

    proof fn lemma_grows(&self, f: Format, w: Writer) {
        broadcast use group_grows;

    }

    proof fn law_appends(&self, f: Format, w: Writer) {
        broadcast use group_appends;

    }

    fn encode_wire(&self, f: Format, buf: &mut BytesMut) -> (res: Result<()>) {
        broadcast use group_grows;

        write_array(&self.topic_names, f, buf)?;
        write_i32(self.timeout_ms, buf);
        Ok(())
    }
}

impl DeleteTopicsRequest {
    /// Encode for version 0+.
    pub fn encode_v0(&self, buf: &mut BytesMut) -> (res: Result<()>)
        requires
            fits(self.written(Format::plain(0), Writer::at(old(buf)@))),
        ensures
            encoded(res, final(buf)@, self.written(Format::plain(0), Writer::at(old(buf)@))),
    {
        self.encode_wire(Format::plain(0), buf)
    }
}

/// Result for a deleted topic.
#[derive(Debug, Clone)]
pub struct DeletableTopicResult {
    /// Topic name.
    pub name: Option<String>,
    /// Error code.
    pub error_code: ErrorCode,
    /// Error message (v5+).
    pub error_message: Option<String>,
}

/// What a [`DeletableTopicResult`] holds.
pub struct DeletableTopicResultView {
    /// Topic name.
    pub name: Option<Seq<char>>,
    /// Error code.
    pub error_code: ErrorCode,
    /// Error message (v5+).
    pub error_message: Option<Seq<char>>,
}

impl View for DeletableTopicResult {
    type V = DeletableTopicResultView;

    open spec fn view(&self) -> DeletableTopicResultView {
        DeletableTopicResultView {
            name: optional_text(self.name),
            error_code: self.error_code,
            error_message: optional_text(self.error_message),
        }
    }
}

impl WireDecode for DeletableTopicResult {
    open spec fn read(f: Format, r: Reader) -> (DeletableTopicResultView, Reader) {
        let (name, r) = r.nullable_string(f.flexible);
        let (error_code, r) = r.error_code();
        let value = DeletableTopicResultView {
            name,
            error_code,
            error_message: None,
        };
        (value, r)
    }

    fn decode_wire(f: Format, buf: &mut Bytes) -> (res: Result<Self>) {
        let name = read_nullable_string(f.flexible, buf)?;
        let error_code = read_error_code(buf)?;
        Ok(DeletableTopicResult {
            name,
            error_code,
            error_message: None,
        })
    }

    proof fn law_consumes(f: Format, r: Reader) {
        broadcast use group_consumes;

    }

    proof fn law_ignores_what_follows(f: Format, r: Reader, more: Seq<u8>) {
        broadcast use group_consumes, group_followed;

    }

    proof fn law_needs_only_what_it_takes(f: Format, r: Reader, k: nat) {
        broadcast use group_consumes, group_cut;

    }
}

/// DeleteTopics response.
#[derive(Debug, Clone)]
pub struct DeleteTopicsResponse {
    /// Throttle time.
    pub throttle_time_ms: i32,
    /// Responses.
    pub responses: Vec<DeletableTopicResult>,
}

/// What a [`DeleteTopicsResponse`] holds.
pub struct DeleteTopicsResponseView {
    /// Throttle time.
    pub throttle_time_ms: i32,
    /// Responses.
    pub responses: Seq<DeletableTopicResultView>,
}

impl View for DeleteTopicsResponse {
    type V = DeleteTopicsResponseView;

    open spec fn view(&self) -> DeleteTopicsResponseView {
        DeleteTopicsResponseView {
            throttle_time_ms: self.throttle_time_ms,
            responses: views(self.responses@),
        }
    }
}

impl WireDecode for DeleteTopicsResponse {
    open spec fn read(f: Format, r: Reader) -> (DeleteTopicsResponseView, Reader) {
        let (throttle_time_ms, r) = if f.version >= 1 {
            r.i32()
        } else {
            (0, r)
        };
        let (responses, r) = r.array::<DeletableTopicResult>(f);
        let value = DeleteTopicsResponseView {
            throttle_time_ms,
            responses,
        };
        (value, r)
    }

    fn decode_wire(f: Format, buf: &mut Bytes) -> (res: Result<Self>) {
        let throttle_time_ms: i32 = if f.version >= 1 {
            read_i32(buf)?
        } else {
            0
        };
        let responses = read_array::<DeletableTopicResult>(f, buf)?;
        Ok(DeleteTopicsResponse {
            throttle_time_ms,
            responses,
        })
    }

    proof fn law_consumes(f: Format, r: Reader) {
        broadcast use group_consumes;

    }

    proof fn law_ignores_what_follows(f: Format, r: Reader, more: Seq<u8>) {
        broadcast use group_consumes, group_followed;

    }

    proof fn law_needs_only_what_it_takes(f: Format, r: Reader, k: nat) {
        broadcast use group_consumes, group_cut;

    }
}

impl DeleteTopicsResponse {
    /// Decode from version 0.
    pub fn decode_v0(buf: &mut Bytes) -> (res: Result<Self>)
        ensures
            decoded(
                result_view(res),
                final(buf)@,
                Self::read(Format::plain(0), Reader::on(old(buf)@)),
            ),
    {
        Self::decode_wire(Format::plain(0), buf)
    }

    /// Decode from version 1+.
    pub fn decode_v1(buf: &mut Bytes) -> (res: Result<Self>)
        ensures
            decoded(
                result_view(res),
                final(buf)@,
                Self::read(Format::plain(1), Reader::on(old(buf)@)),
            ),
    {
        Self::decode_wire(Format::plain(1), buf)
    }
}

impl VersionedEncode for DeleteTopicsRequest {
    open spec fn request_key() -> ApiKey {
        ApiKey::DeleteTopics
    }

    open spec fn encodes(version: i16) -> bool {
        0 <= version <= 1
    }

    open spec fn request_format(version: i16) -> Format {
        Format::plain(0)
    }

    open spec fn request_name() -> &'static str {
        "DeleteTopicsRequest"
    }

    fn encode_versioned(&self, version: i16, buf: &mut BytesMut) -> (res: Result<()>) {
        match version {
            0 | 1 => self.encode_v0(buf),
            _ => Err(
                KrafkaError::Protocol(
                    ProtocolErrorKind::Malformed,
                    Reason::UnsupportedEncode("DeleteTopicsRequest", version),
                ),
            ),
        }
    }

    proof fn law_request_format(&self, version: i16, w: Writer) {
    }

    proof fn law_unsupported_encode(&self, version: i16, w: Writer) {
    }
}

impl VersionedDecode for DeleteTopicsResponse {
    open spec fn response_key() -> ApiKey {
        ApiKey::DeleteTopics
    }

    open spec fn decodes(version: i16) -> bool {
        0 <= version <= 1
    }

    open spec fn response_format(version: i16) -> Format {
        match version {
            0 => Format::plain(0),
            _ => Format::plain(1),
        }
    }

    open spec fn response_name() -> &'static str {
        "DeleteTopicsResponse"
    }

    fn decode_versioned(version: i16, buf: &mut Bytes) -> (res: Result<Self>) {
        match version {
            0 => Self::decode_v0(buf),
            1 => Self::decode_v1(buf),
            _ => Err(
                KrafkaError::Protocol(
                    ProtocolErrorKind::Malformed,
                    Reason::UnsupportedDecode("DeleteTopicsResponse", version),
                ),
            ),
        }
    }

    proof fn law_response_format(version: i16, r: Reader) {
    }

    proof fn law_unsupported_decode(version: i16, r: Reader) {
    }
}

/// CreatePartitions request.
#[derive(Debug, Clone)]
pub struct CreatePartitionsRequest {
    /// Topics to create partitions for.
    pub topics: Vec<CreatePartitionsTopic>,
    /// Timeout in milliseconds.
    pub timeout_ms: i32,
    /// If true, validate the request without actually creating partitions.
    pub validate_only: bool,
}

/// Topic in CreatePartitions request.
#[derive(Debug, Clone)]
pub struct CreatePartitionsTopic {
    /// Topic name.
    pub name: String,
    /// New total partition count.
    pub count: i32,
    /// Assignment of new partitions to brokers.
    pub assignments: Option<Vec<CreatePartitionsAssignment>>,
}

/// Partition assignment in CreatePartitions request.
#[derive(Debug, Clone)]
pub struct CreatePartitionsAssignment {
    /// Broker IDs to assign the partition replicas to.
    pub broker_ids: Vec<i32>,
}

impl WireEncode for CreatePartitionsAssignment {
    open spec fn written(&self, f: Format, w: Writer) -> Writer {
        w.array(self.broker_ids@, f)
    }

    proof fn lemma_grows(&self, f: Format, w: Writer) {
        broadcast use group_grows;

    }

    proof fn law_appends(&self, f: Format, w: Writer) {
        broadcast use group_appends;

    }

    fn encode_wire(&self, f: Format, buf: &mut BytesMut) -> (res: Result<()>) {
        broadcast use group_grows;

        write_array(&self.broker_ids, f, buf)?;
        Ok(())
    }
}

impl WireEncode for CreatePartitionsTopic {
    open spec fn written(&self, f: Format, w: Writer) -> Writer {
        let w = w.string(self.name@, f.flexible);
        let w = w.i32(self.count);
        w.optional_array(self.assignments, f)
    }

    proof fn lemma_grows(&self, f: Format, w: Writer) {
        broadcast use group_grows;

    }

    proof fn law_appends(&self, f: Format, w: Writer) {
        broadcast use group_appends;

    }

    fn encode_wire(&self, f: Format, buf: &mut BytesMut) -> (res: Result<()>) {
        broadcast use group_grows;

        write_string(self.name.as_str(), f.flexible, buf)?;
        write_i32(self.count, buf);
        write_optional_array(&self.assignments, f, buf)?;
        Ok(())
    }
}

impl WireEncode for CreatePartitionsRequest {
    open spec fn written(&self, f: Format, w: Writer) -> Writer {
        let w = w.array(self.topics@, f);
        let w = w.i32(self.timeout_ms);
        w.bool(self.validate_only)
    }

    proof fn lemma_grows(&self, f: Format, w: Writer) {
        broadcast use group_grows;

    }

    proof fn law_appends(&self, f: Format, w: Writer) {
        broadcast use group_appends;

    }

    fn encode_wire(&self, f: Format, buf: &mut BytesMut) -> (res: Result<()>) {
        broadcast use group_grows;

        write_array(&self.topics, f, buf)?;
        write_i32(self.timeout_ms, buf);
        write_bool(self.validate_only, buf);
        Ok(())
    }
}

impl CreatePartitionsRequest {
    /// Create a new request to increase partitions for a topic.
    pub fn new(topic: &str, count: i32, timeout: Duration) -> (r: Self)
        ensures
            r.topics@.len() == 1,
            r.topics@[0].name@ == topic@,
            r.topics@[0].count == count,
            r.topics@[0].assignments is None,
            r.timeout_ms == if duration_millis(timeout) > i32::MAX {
                i32::MAX as int
            } else {
                duration_millis(timeout) as int
            },
            !r.validate_only,
    {
        CreatePartitionsRequest {
            topics: vec![
                CreatePartitionsTopic { name: topic.to_owned(), count, assignments: None },
            ],
            timeout_ms: duration_to_millis_i32(timeout),
            validate_only: false,
        }
    }
}

impl CreatePartitionsRequest {
    /// Encode for version 0.
    pub fn encode_v0(&self, buf: &mut BytesMut) -> (res: Result<()>)
        requires
            fits(self.written(Format::plain(0), Writer::at(old(buf)@))),
        ensures
            encoded(res, final(buf)@, self.written(Format::plain(0), Writer::at(old(buf)@))),
    {
        self.encode_wire(Format::plain(0), buf)
    }
}

/// Result for a topic in CreatePartitions response.
#[derive(Debug, Clone)]
pub struct CreatePartitionsTopicResult {
    /// Topic name.
    pub name: String,
    /// Error code.
    pub error_code: ErrorCode,
    /// Error message.
    pub error_message: Option<String>,
}

/// What a [`CreatePartitionsTopicResult`] holds.
pub struct CreatePartitionsTopicResultView {
    /// Topic name.
    pub name: Seq<char>,
    /// Error code.
    pub error_code: ErrorCode,
    /// Error message.
    pub error_message: Option<Seq<char>>,
}

impl View for CreatePartitionsTopicResult {
    type V = CreatePartitionsTopicResultView;

    open spec fn view(&self) -> CreatePartitionsTopicResultView {
        CreatePartitionsTopicResultView {
            name: self.name@,
            error_code: self.error_code,
            error_message: optional_text(self.error_message),
        }
    }
}

impl WireDecode for CreatePartitionsTopicResult {
    open spec fn read(f: Format, r: Reader) -> (CreatePartitionsTopicResultView, Reader) {
        let (name, r) = r.string_or_empty(f.flexible);
        let (error_code, r) = r.error_code();
        let (error_message, r) = r.nullable_string(f.flexible);
        let value = CreatePartitionsTopicResultView {
            name,
            error_code,
            error_message,
        };
        (value, r)
    }

    fn decode_wire(f: Format, buf: &mut Bytes) -> (res: Result<Self>) {
        let name = read_string_or_empty(f.flexible, buf)?;
        let error_code = read_error_code(buf)?;
        let error_message = read_nullable_string(f.flexible, buf)?;
        Ok(CreatePartitionsTopicResult {
            name,
            error_code,
            error_message,
        })
    }

    proof fn law_consumes(f: Format, r: Reader) {
        broadcast use group_consumes;

    }

    proof fn law_ignores_what_follows(f: Format, r: Reader, more: Seq<u8>) {
        broadcast use group_consumes, group_followed;

    }

    proof fn law_needs_only_what_it_takes(f: Format, r: Reader, k: nat) {
        broadcast use group_consumes, group_cut;

    }
}

/// CreatePartitions response.
#[derive(Debug, Clone)]
pub struct CreatePartitionsResponse {
    /// Throttle time in milliseconds.
    pub throttle_time_ms: i32,
    /// Results per topic.
    pub results: Vec<CreatePartitionsTopicResult>,
}

/// What a [`CreatePartitionsResponse`] holds.
pub struct CreatePartitionsResponseView {
    /// Throttle time in milliseconds.
    pub throttle_time_ms: i32,
    /// Results per topic.
    pub results: Seq<CreatePartitionsTopicResultView>,
}

impl View for CreatePartitionsResponse {
    type V = CreatePartitionsResponseView;

    open spec fn view(&self) -> CreatePartitionsResponseView {
        CreatePartitionsResponseView {
            throttle_time_ms: self.throttle_time_ms,
            results: views(self.results@),
        }
    }
}

impl WireDecode for CreatePartitionsResponse {
    open spec fn read(f: Format, r: Reader) -> (CreatePartitionsResponseView, Reader) {
        let (throttle_time_ms, r) = r.i32();
        let (results, r) = r.array::<CreatePartitionsTopicResult>(f);
        let value = CreatePartitionsResponseView {
            throttle_time_ms,
            results,
        };
        (value, r)
    }

    fn decode_wire(f: Format, buf: &mut Bytes) -> (res: Result<Self>) {
        let throttle_time_ms = read_i32(buf)?;
        let results = read_array::<CreatePartitionsTopicResult>(f, buf)?;
        Ok(CreatePartitionsResponse {
            throttle_time_ms,
            results,
        })
    }

    proof fn law_consumes(f: Format, r: Reader) {
        broadcast use group_consumes;

    }

    proof fn law_ignores_what_follows(f: Format, r: Reader, more: Seq<u8>) {
        broadcast use group_consumes, group_followed;

    }

    proof fn law_needs_only_what_it_takes(f: Format, r: Reader, k: nat) {
        broadcast use group_consumes, group_cut;

    }
}

impl CreatePartitionsResponse {
    /// Decode from version 0.
    pub fn decode_v0(buf: &mut Bytes) -> (res: Result<Self>)
        ensures
            decoded(
                result_view(res),
                final(buf)@,
                Self::read(Format::plain(0), Reader::on(old(buf)@)),
            ),
    {
        Self::decode_wire(Format::plain(0), buf)
    }
}

impl VersionedEncode for CreatePartitionsRequest {
    open spec fn request_key() -> ApiKey {
        ApiKey::CreatePartitions
    }

    open spec fn encodes(version: i16) -> bool {
        version == 0
    }

    open spec fn request_format(version: i16) -> Format {
        Format::plain(0)
    }

    open spec fn request_name() -> &'static str {
        "CreatePartitionsRequest"
    }

    fn encode_versioned(&self, version: i16, buf: &mut BytesMut) -> (res: Result<()>) {
        match version {
            0 => self.encode_v0(buf),
            _ => Err(
                KrafkaError::Protocol(
                    ProtocolErrorKind::Malformed,
                    Reason::UnsupportedEncode("CreatePartitionsRequest", version),
                ),
            ),
        }
    }

    proof fn law_request_format(&self, version: i16, w: Writer) {
    }

    proof fn law_unsupported_encode(&self, version: i16, w: Writer) {
    }
}

impl VersionedDecode for CreatePartitionsResponse {
    open spec fn response_key() -> ApiKey {
        ApiKey::CreatePartitions
    }

    open spec fn decodes(version: i16) -> bool {
        version == 0
    }

    open spec fn response_format(version: i16) -> Format {
        Format::plain(0)
    }

    open spec fn response_name() -> &'static str {
        "CreatePartitionsResponse"
    }

    fn decode_versioned(version: i16, buf: &mut Bytes) -> (res: Result<Self>) {
        match version {
            0 => Self::decode_v0(buf),
            _ => Err(
                KrafkaError::Protocol(
                    ProtocolErrorKind::Malformed,
                    Reason::UnsupportedDecode("CreatePartitionsResponse", version),
                ),
            ),
        }
    }

    proof fn law_response_format(version: i16, r: Reader) {
    }

    proof fn law_unsupported_decode(version: i16, r: Reader) {
    }
}

/// Resource type for config operations.
#[derive(Debug, Clone, Copy, PartialEq, Eq, Structural)]
pub enum ConfigResourceType {
    /// Unknown resource type.
    Unknown,
    /// Topic resource.
    Topic,
    /// Broker resource.
    Broker,
    /// Broker logger resource.
    BrokerLogger,
}

impl ConfigResourceType {
    /// What a number on the wire stands for.
    pub open spec fn of(value: i8) -> ConfigResourceType {
        match value {
            2 => Self::Topic,
            4 => Self::Broker,
            8 => Self::BrokerLogger,
            _ => Self::Unknown,
        }
    }

    /// The number on the wire.
    pub open spec fn code(self) -> i8 {
        match self {
            Self::Unknown => 0,
            Self::Topic => 2,
            Self::Broker => 4,
            Self::BrokerLogger => 8,
        }
    }

    /// Create from i8.
    pub fn from_i8(value: i8) -> (r: Self)
        ensures
            r == Self::of(value),
    {
        match value {
            2 => Self::Topic,
            4 => Self::Broker,
            8 => Self::BrokerLogger,
            _ => Self::Unknown,
        }
    }

    /// Convert to i8.
    pub fn to_i8(self) -> (r: i8)
        ensures
            r == self.code(),
    {
        match self {
            Self::Unknown => 0,
            Self::Topic => 2,
            Self::Broker => 4,
            Self::BrokerLogger => 8,
        }
    }
}

/// Every [`ConfigResourceType`] comes back from its number.
pub proof fn law_config_resource_type_keeps_code(value: ConfigResourceType)
    ensures
        ConfigResourceType::of(value.code()) == value,
{
}

/// DescribeConfigs request.
#[derive(Debug, Clone)]
pub struct DescribeConfigsRequest {
    /// Resources to describe.
    pub resources: Vec<DescribeConfigsResource>,
    /// Include synonyms in response.
    pub include_synonyms: bool,
    /// Include documentation in response.
    pub include_documentation: bool,
}

/// Resource in DescribeConfigs request.
#[derive(Debug, Clone)]
pub struct DescribeConfigsResource {
    /// Resource type.
    pub resource_type: ConfigResourceType,
    /// Resource name (topic name or broker ID as string).
    pub resource_name: String,
    /// Config names to describe (null for all).
    pub config_names: Option<Vec<String>>,
}

impl WireEncode for DescribeConfigsResource {
    open spec fn written(&self, f: Format, w: Writer) -> Writer {
        let w = w.i8(self.resource_type.code());
        let w = w.string(self.resource_name@, f.flexible);
        w.optional_array(self.config_names, f)
    }

    proof fn lemma_grows(&self, f: Format, w: Writer) {
        broadcast use group_grows;

    }

    proof fn law_appends(&self, f: Format, w: Writer) {
        broadcast use group_appends;

    }

    fn encode_wire(&self, f: Format, buf: &mut BytesMut) -> (res: Result<()>) {
        broadcast use group_grows;

        write_i8(self.resource_type.to_i8(), buf);
        write_string(self.resource_name.as_str(), f.flexible, buf)?;
        write_optional_array(&self.config_names, f, buf)?;
        Ok(())
    }
}

impl WireEncode for DescribeConfigsRequest {
    open spec fn written(&self, f: Format, w: Writer) -> Writer {
        w.array(self.resources@, f)
    }

    proof fn lemma_grows(&self, f: Format, w: Writer) {
        broadcast use group_grows;

    }

    proof fn law_appends(&self, f: Format, w: Writer) {
        broadcast use group_appends;

    }

    fn encode_wire(&self, f: Format, buf: &mut BytesMut) -> (res: Result<()>) {
        broadcast use group_grows;

        write_array(&self.resources, f, buf)?;
        Ok(())
    }
}

impl DescribeConfigsRequest {
    /// Create a request to describe a topic's configuration.
    pub fn for_topic(topic: &str) -> (r: Self)
        ensures
            r.resources@.len() == 1,
            r.resources@[0].resource_type == ConfigResourceType::Topic,
            r.resources@[0].resource_name@ == topic@,
            r.resources@[0].config_names is None,
            !r.include_synonyms,
            !r.include_documentation,
    {
        DescribeConfigsRequest {
            resources: vec![
                DescribeConfigsResource {
                    resource_type: ConfigResourceType::Topic,
                    resource_name: topic.to_owned(),
                    config_names: None,
                },
            ],
            include_synonyms: false,
            include_documentation: false,
        }
    }

    /// Create a request to describe a broker's configuration.
    pub fn for_broker(broker_id: i32) -> (r: Self)
        ensures
            r.resources@.len() == 1,
            r.resources@[0].resource_type == ConfigResourceType::Broker,
            r.resources@[0].resource_name@ == decimal(broker_id as int),
            r.resources@[0].config_names is None,
            !r.include_synonyms,
            !r.include_documentation,
    {
        DescribeConfigsRequest {
            resources: vec![
                DescribeConfigsResource {
                    resource_type: ConfigResourceType::Broker,
                    resource_name: decimal_text(broker_id as i128),
                    config_names: None,
                },
            ],
            include_synonyms: false,
            include_documentation: false,
        }
    }
}

impl DescribeConfigsRequest {
    /// Encode for version 0.
    pub fn encode_v0(&self, buf: &mut BytesMut) -> (res: Result<()>)
        requires
            fits(self.written(Format::plain(0), Writer::at(old(buf)@))),
        ensures
            encoded(res, final(buf)@, self.written(Format::plain(0), Writer::at(old(buf)@))),
    {
        self.encode_wire(Format::plain(0), buf)
    }
}

/// Configuration entry in DescribeConfigs response.
#[derive(Debug, Clone)]
pub struct DescribeConfigsEntry {
    /// Config name.
    pub name: String,
    /// Config value.
    pub value: Option<String>,
    /// Whether the config is read-only.
    pub read_only: bool,
    /// Whether the config is the default value.
    pub is_default: bool,
    /// Whether the config is sensitive.
    pub is_sensitive: bool,
}

/// What a [`DescribeConfigsEntry`] holds.
pub struct DescribeConfigsEntryView {
    /// Config name.
    pub name: Seq<char>,
    /// Config value.
    pub value: Option<Seq<char>>,
    /// Whether the config is read-only.
    pub read_only: bool,
    /// Whether the config is the default value.
    pub is_default: bool,
    /// Whether the config is sensitive.
    pub is_sensitive: bool,
}

impl View for DescribeConfigsEntry {
    type V = DescribeConfigsEntryView;

    open spec fn view(&self) -> DescribeConfigsEntryView {
        DescribeConfigsEntryView {
            name: self.name@,
            value: optional_text(self.value),
            read_only: self.read_only,
            is_default: self.is_default,
            is_sensitive: self.is_sensitive,
        }
    }
}

impl WireDecode for DescribeConfigsEntry {
    open spec fn read(f: Format, r: Reader) -> (DescribeConfigsEntryView, Reader) {
        let (name, r) = r.string_or_empty(f.flexible);
        let (value, r) = r.nullable_string(f.flexible);
        let (read_only, r) = r.bool();
        let (is_default, r) = r.bool();
        let (is_sensitive, r) = r.bool();
        let value = DescribeConfigsEntryView {
            name,
            value,
            read_only,
            is_default,
            is_sensitive,
        };
        (value, r)
    }

    fn decode_wire(f: Format, buf: &mut Bytes) -> (res: Result<Self>) {
        let name = read_string_or_empty(f.flexible, buf)?;
        let value = read_nullable_string(f.flexible, buf)?;
        let read_only = read_bool(buf)?;
        let is_default = read_bool(buf)?;
        let is_sensitive = read_bool(buf)?;
        Ok(DescribeConfigsEntry {
            name,
            value,
            read_only,
            is_default,
            is_sensitive,
        })
    }

    proof fn law_consumes(f: Format, r: Reader) {
        broadcast use group_consumes;

    }

    proof fn law_ignores_what_follows(f: Format, r: Reader, more: Seq<u8>) {
        broadcast use group_consumes, group_followed;

    }

    proof fn law_needs_only_what_it_takes(f: Format, r: Reader, k: nat) {
        broadcast use group_consumes, group_cut;

    }
}

/// Result for a resource in DescribeConfigs response.
#[derive(Debug, Clone)]
pub struct DescribeConfigsResult {
    /// Error code.
    pub error_code: ErrorCode,
    /// Error message.
    pub error_message: Option<String>,
    /// Resource type.
    pub resource_type: ConfigResourceType,
    /// Resource name.
    pub resource_name: String,
    /// Configuration entries.
    pub configs: Vec<DescribeConfigsEntry>,
}

/// What a [`DescribeConfigsResult`] holds.
pub struct DescribeConfigsResultView {
    /// Error code.
    pub error_code: ErrorCode,
    /// Error message.
    pub error_message: Option<Seq<char>>,
    /// Resource type.
    pub resource_type: ConfigResourceType,
    /// Resource name.
    pub resource_name: Seq<char>,
    /// Configuration entries.
    pub configs: Seq<DescribeConfigsEntryView>,
}

impl View for DescribeConfigsResult {
    type V = DescribeConfigsResultView;

    open spec fn view(&self) -> DescribeConfigsResultView {
        DescribeConfigsResultView {
            error_code: self.error_code,
            error_message: optional_text(self.error_message),
            resource_type: self.resource_type,
            resource_name: self.resource_name@,
            configs: views(self.configs@),
        }
    }
}

impl WireDecode for DescribeConfigsResult {
    open spec fn read(f: Format, r: Reader) -> (DescribeConfigsResultView, Reader) {
        let (error_code, r) = r.error_code();
        let (error_message, r) = r.nullable_string(f.flexible);
        let (resource_type, r) = {
            let (n, r) = r.i8();
            (ConfigResourceType::of(n), r)
        };
        let (resource_name, r) = r.string_or_empty(f.flexible);
        let (configs, r) = r.array::<DescribeConfigsEntry>(f);
        let value = DescribeConfigsResultView {
            error_code,
            error_message,
            resource_type,
            resource_name,
            configs,
        };
        (value, r)
    }

    fn decode_wire(f: Format, buf: &mut Bytes) -> (res: Result<Self>) {
        let error_code = read_error_code(buf)?;
        let error_message = read_nullable_string(f.flexible, buf)?;
        let resource_type = ConfigResourceType::from_i8(read_i8(buf)?);
        let resource_name = read_string_or_empty(f.flexible, buf)?;
        let configs = read_array::<DescribeConfigsEntry>(f, buf)?;
        Ok(DescribeConfigsResult {
            error_code,
            error_message,
            resource_type,
            resource_name,
            configs,
        })
    }

    proof fn law_consumes(f: Format, r: Reader) {
        broadcast use group_consumes;

    }

    proof fn law_ignores_what_follows(f: Format, r: Reader, more: Seq<u8>) {
        broadcast use group_consumes, group_followed;

    }

    proof fn law_needs_only_what_it_takes(f: Format, r: Reader, k: nat) {
        broadcast use group_consumes, group_cut;

    }
}

/// DescribeConfigs response.
#[derive(Debug, Clone)]
pub struct DescribeConfigsResponse {
    /// Throttle time in milliseconds.
    pub throttle_time_ms: i32,
    /// Results per resource.
    pub results: Vec<DescribeConfigsResult>,
}

/// What a [`DescribeConfigsResponse`] holds.
pub struct DescribeConfigsResponseView {
    /// Throttle time in milliseconds.
    pub throttle_time_ms: i32,
    /// Results per resource.
    pub results: Seq<DescribeConfigsResultView>,
}

impl View for DescribeConfigsResponse {
    type V = DescribeConfigsResponseView;

    open spec fn view(&self) -> DescribeConfigsResponseView {
        DescribeConfigsResponseView {
            throttle_time_ms: self.throttle_time_ms,
            results: views(self.results@),
        }
    }
}

impl WireDecode for DescribeConfigsResponse {
    open spec fn read(f: Format, r: Reader) -> (DescribeConfigsResponseView, Reader) {
        let (throttle_time_ms, r) = r.i32();
        let (results, r) = r.array::<DescribeConfigsResult>(f);
        let value = DescribeConfigsResponseView {
            throttle_time_ms,
            results,
        };
        (value, r)
    }

    fn decode_wire(f: Format, buf: &mut Bytes) -> (res: Result<Self>) {
        let throttle_time_ms = read_i32(buf)?;
        let results = read_array::<DescribeConfigsResult>(f, buf)?;
        Ok(DescribeConfigsResponse {
            throttle_time_ms,
            results,
        })
    }

    proof fn law_consumes(f: Format, r: Reader) {
        broadcast use group_consumes;

    }

    proof fn law_ignores_what_follows(f: Format, r: Reader, more: Seq<u8>) {
        broadcast use group_consumes, group_followed;

    }

    proof fn law_needs_only_what_it_takes(f: Format, r: Reader, k: nat) {
        broadcast use group_consumes, group_cut;

    }
}

impl DescribeConfigsResponse {
    /// Decode from version 0.
    pub fn decode_v0(buf: &mut Bytes) -> (res: Result<Self>)
        ensures
            decoded(
                result_view(res),
                final(buf)@,
                Self::read(Format::plain(0), Reader::on(old(buf)@)),
            ),
    {
        Self::decode_wire(Format::plain(0), buf)
    }
}

impl VersionedEncode for DescribeConfigsRequest {
    open spec fn request_key() -> ApiKey {
        ApiKey::DescribeConfigs
    }

    open spec fn encodes(version: i16) -> bool {
        version == 0
    }

    open spec fn request_format(version: i16) -> Format {
        Format::plain(0)
    }

    open spec fn request_name() -> &'static str {
        "DescribeConfigsRequest"
    }

    fn encode_versioned(&self, version: i16, buf: &mut BytesMut) -> (res: Result<()>) {
        match version {
            0 => self.encode_v0(buf),
            _ => Err(
                KrafkaError::Protocol(
                    ProtocolErrorKind::Malformed,
                    Reason::UnsupportedEncode("DescribeConfigsRequest", version),
                ),
            ),
        }
    }

    proof fn law_request_format(&self, version: i16, w: Writer) {
    }

    proof fn law_unsupported_encode(&self, version: i16, w: Writer) {
    }
}

impl VersionedDecode for DescribeConfigsResponse {
    open spec fn response_key() -> ApiKey {
        ApiKey::DescribeConfigs
    }

    open spec fn decodes(version: i16) -> bool {
        version == 0
    }

    open spec fn response_format(version: i16) -> Format {
        Format::plain(0)
    }

    open spec fn response_name() -> &'static str {
        "DescribeConfigsResponse"
    }

    fn decode_versioned(version: i16, buf: &mut Bytes) -> (res: Result<Self>) {
        match version {
            0 => Self::decode_v0(buf),
            _ => Err(
                KrafkaError::Protocol(
                    ProtocolErrorKind::Malformed,
                    Reason::UnsupportedDecode("DescribeConfigsResponse", version),
                ),
            ),
        }
    }

    proof fn law_response_format(version: i16, r: Reader) {
    }

    proof fn law_unsupported_decode(version: i16, r: Reader) {
    }
}

/// AlterConfigs request.
#[derive(Debug, Clone)]
pub struct AlterConfigsRequest {
    /// Resources to alter.
    pub resources: Vec<AlterConfigsResource>,
    /// If true, validate without actually changing configs.
    pub validate_only: bool,
}

/// Resource in AlterConfigs request.
#[derive(Debug, Clone)]
pub struct AlterConfigsResource {
    /// Resource type.
    pub resource_type: ConfigResourceType,
    /// Resource name.
    pub resource_name: String,
    /// Configurations to set.
    pub configs: Vec<AlterConfigsEntry>,
}

/// Configuration entry in AlterConfigs request.
#[derive(Debug, Clone)]
pub struct AlterConfigsEntry {
    /// Config name.
    pub name: String,
    /// Config value.
    pub value: Option<String>,
}

impl WireEncode for AlterConfigsEntry {
    open spec fn written(&self, f: Format, w: Writer) -> Writer {
        let w = w.string(self.name@, f.flexible);
        w.nullable_string(optional_text(self.value), f.flexible)
    }

    proof fn lemma_grows(&self, f: Format, w: Writer) {
        broadcast use group_grows;

    }

    proof fn law_appends(&self, f: Format, w: Writer) {
        broadcast use group_appends;

    }

    fn encode_wire(&self, f: Format, buf: &mut BytesMut) -> (res: Result<()>) {
        broadcast use group_grows;

        write_string(self.name.as_str(), f.flexible, buf)?;
        write_nullable_string(&self.value, f.flexible, buf)?;
        Ok(())
    }
}

impl WireEncode for AlterConfigsResource {
    open spec fn written(&self, f: Format, w: Writer) -> Writer {
        let w = w.i8(self.resource_type.code());
        let w = w.string(self.resource_name@, f.flexible);
        w.array(self.configs@, f)
    }

    proof fn lemma_grows(&self, f: Format, w: Writer) {
        broadcast use group_grows;

    }

    proof fn law_appends(&self, f: Format, w: Writer) {
        broadcast use group_appends;

    }

    fn encode_wire(&self, f: Format, buf: &mut BytesMut) -> (res: Result<()>) {
        broadcast use group_grows;

        write_i8(self.resource_type.to_i8(), buf);
        write_string(self.resource_name.as_str(), f.flexible, buf)?;
        write_array(&self.configs, f, buf)?;
        Ok(())
    }
}

impl WireEncode for AlterConfigsRequest {
    open spec fn written(&self, f: Format, w: Writer) -> Writer {
        let w = w.array(self.resources@, f);
        w.bool(self.validate_only)
    }

    proof fn lemma_grows(&self, f: Format, w: Writer) {
        broadcast use group_grows;

    }

    proof fn law_appends(&self, f: Format, w: Writer) {
        broadcast use group_appends;

    }

    fn encode_wire(&self, f: Format, buf: &mut BytesMut) -> (res: Result<()>) {
        broadcast use group_grows;

        write_array(&self.resources, f, buf)?;
        write_bool(self.validate_only, buf);
        Ok(())
    }
}

impl AlterConfigsRequest {
    /// Create a request to alter a topic's configuration.
    pub fn for_topic(topic: &str, configs: Vec<(String, String)>) -> (r: Self)
        ensures
            r.resources@.len() == 1,
            r.resources@[0].resource_type == ConfigResourceType::Topic,
            r.resources@[0].resource_name@ == topic@,
            r.resources@[0].configs@.len() == configs@.len(),
            forall|i: int|
                0 <= i < configs@.len() ==> {
                    &&& (#[trigger] r.resources@[0].configs@[i]).name@ == configs@[i].0@
                    &&& optional_text(r.resources@[0].configs@[i].value) == Some(configs@[i].1@)
                },
            !r.validate_only,
    {
        let mut entries: Vec<AlterConfigsEntry> = Vec::new();
        let mut i: usize = 0;
        while i < configs.len()
            invariant
                i <= configs@.len(),
                entries@.len() == i,
                forall|k: int|
                    0 <= k < i ==> {
                        &&& (#[trigger] entries@[k]).name@ == configs@[k].0@
                        &&& optional_text(entries@[k].value) == Some(configs@[k].1@)
                    },
            decreases configs@.len() - i,
        {
            let name = configs[i].0.clone();
            let value = configs[i].1.clone();
            entries.push(AlterConfigsEntry { name, value: Some(value) });
            i = i + 1;
        }
        AlterConfigsRequest {
            resources: vec![
                AlterConfigsResource {
                    resource_type: ConfigResourceType::Topic,
                    resource_name: topic.to_owned(),
                    configs: entries,
                },
            ],
            validate_only: false,
        }
    }
}

impl AlterConfigsRequest {
    /// Encode for version 0.
    pub fn encode_v0(&self, buf: &mut BytesMut) -> (res: Result<()>)
        requires
            fits(self.written(Format::plain(0), Writer::at(old(buf)@))),
        ensures
            encoded(res, final(buf)@, self.written(Format::plain(0), Writer::at(old(buf)@))),
    {
        self.encode_wire(Format::plain(0), buf)
    }
}

/// Result for a resource in AlterConfigs response.
#[derive(Debug, Clone)]
pub struct AlterConfigsResult {
    /// Error code.
    pub error_code: ErrorCode,
    /// Error message.
    pub error_message: Option<String>,
    /// Resource type.
    pub resource_type: ConfigResourceType,
    /// Resource name.
    pub resource_name: String,
}

/// What a [`AlterConfigsResult`] holds.
pub struct AlterConfigsResultView {
    /// Error code.
    pub error_code: ErrorCode,
    /// Error message.
    pub error_message: Option<Seq<char>>,
    /// Resource type.
    pub resource_type: ConfigResourceType,
    /// Resource name.
    pub resource_name: Seq<char>,
}

impl View for AlterConfigsResult {
    type V = AlterConfigsResultView;

    open spec fn view(&self) -> AlterConfigsResultView {
        AlterConfigsResultView {
            error_code: self.error_code,
            error_message: optional_text(self.error_message),
            resource_type: self.resource_type,
            resource_name: self.resource_name@,
        }
    }
}

impl WireDecode for AlterConfigsResult {
    open spec fn read(f: Format, r: Reader) -> (AlterConfigsResultView, Reader) {
        let (error_code, r) = r.error_code();
        let (error_message, r) = r.nullable_string(f.flexible);
        let (resource_type, r) = {
            let (n, r) = r.i8();
            (ConfigResourceType::of(n), r)
        };
        let (resource_name, r) = r.string_or_empty(f.flexible);
        let value = AlterConfigsResultView {
            error_code,
            error_message,
            resource_type,
            resource_name,
        };
        (value, r)
    }

    fn decode_wire(f: Format, buf: &mut Bytes) -> (res: Result<Self>) {
        let error_code = read_error_code(buf)?;
        let error_message = read_nullable_string(f.flexible, buf)?;
        let resource_type = ConfigResourceType::from_i8(read_i8(buf)?);
        let resource_name = read_string_or_empty(f.flexible, buf)?;
        Ok(AlterConfigsResult {
            error_code,
            error_message,
            resource_type,
            resource_name,
        })
    }

    proof fn law_consumes(f: Format, r: Reader) {
        broadcast use group_consumes;

    }

    proof fn law_ignores_what_follows(f: Format, r: Reader, more: Seq<u8>) {
        broadcast use group_consumes, group_followed;

    }

    proof fn law_needs_only_what_it_takes(f: Format, r: Reader, k: nat) {
        broadcast use group_consumes, group_cut;

    }
}

/// AlterConfigs response.
#[derive(Debug, Clone)]
pub struct AlterConfigsResponse {
    /// Throttle time in milliseconds.
    pub throttle_time_ms: i32,
    /// Results per resource.
    pub results: Vec<AlterConfigsResult>,
}

/// What a [`AlterConfigsResponse`] holds.
pub struct AlterConfigsResponseView {
    /// Throttle time in milliseconds.
    pub throttle_time_ms: i32,
    /// Results per resource.
    pub results: Seq<AlterConfigsResultView>,
}

impl View for AlterConfigsResponse {
    type V = AlterConfigsResponseView;

    open spec fn view(&self) -> AlterConfigsResponseView {
        AlterConfigsResponseView {
            throttle_time_ms: self.throttle_time_ms,
            results: views(self.results@),
        }
    }
}

impl WireDecode for AlterConfigsResponse {
    open spec fn read(f: Format, r: Reader) -> (AlterConfigsResponseView, Reader) {
        let (throttle_time_ms, r) = r.i32();
        let (results, r) = r.array::<AlterConfigsResult>(f);
        let value = AlterConfigsResponseView {
            throttle_time_ms,
            results,
        };
        (value, r)
    }

    fn decode_wire(f: Format, buf: &mut Bytes) -> (res: Result<Self>) {
        let throttle_time_ms = read_i32(buf)?;
        let results = read_array::<AlterConfigsResult>(f, buf)?;
        Ok(AlterConfigsResponse {
            throttle_time_ms,
            results,
        })
    }

    proof fn law_consumes(f: Format, r: Reader) {
        broadcast use group_consumes;

    }

    proof fn law_ignores_what_follows(f: Format, r: Reader, more: Seq<u8>) {
        broadcast use group_consumes, group_followed;

    }

    proof fn law_needs_only_what_it_takes(f: Format, r: Reader, k: nat) {
        broadcast use group_consumes, group_cut;

    }
}

impl AlterConfigsResponse {
    /// Decode from version 0.
    pub fn decode_v0(buf: &mut Bytes) -> (res: Result<Self>)
        ensures
            decoded(
                result_view(res),
                final(buf)@,
                Self::read(Format::plain(0), Reader::on(old(buf)@)),
            ),
    {
        Self::decode_wire(Format::plain(0), buf)
    }
}

impl VersionedEncode for AlterConfigsRequest {
    open spec fn request_key() -> ApiKey {
        ApiKey::AlterConfigs
    }

    open spec fn encodes(version: i16) -> bool {
        version == 0
    }

    open spec fn request_format(version: i16) -> Format {
        Format::plain(0)
    }

    open spec fn request_name() -> &'static str {
        "AlterConfigsRequest"
    }

    fn encode_versioned(&self, version: i16, buf: &mut BytesMut) -> (res: Result<()>) {
        match version {
            0 => self.encode_v0(buf),
            _ => Err(
                KrafkaError::Protocol(
                    ProtocolErrorKind::Malformed,
                    Reason::UnsupportedEncode("AlterConfigsRequest", version),
                ),
            ),
        }
    }

    proof fn law_request_format(&self, version: i16, w: Writer) {
    }

    proof fn law_unsupported_encode(&self, version: i16, w: Writer) {
    }
}

impl VersionedDecode for AlterConfigsResponse {
    open spec fn response_key() -> ApiKey {
        ApiKey::AlterConfigs
    }

    open spec fn decodes(version: i16) -> bool {
        version == 0
    }

    open spec fn response_format(version: i16) -> Format {
        Format::plain(0)
    }

    open spec fn response_name() -> &'static str {
        "AlterConfigsResponse"
    }

    fn decode_versioned(version: i16, buf: &mut Bytes) -> (res: Result<Self>) {
        match version {
            0 => Self::decode_v0(buf),
            _ => Err(
                KrafkaError::Protocol(
                    ProtocolErrorKind::Malformed,
                    Reason::UnsupportedDecode("AlterConfigsResponse", version),
                ),
            ),
        }
    }

    proof fn law_response_format(version: i16, r: Reader) {
    }

    proof fn law_unsupported_decode(version: i16, r: Reader) {
    }
}

/// Partition data for DeleteRecords request.
#[derive(Debug, Clone)]
pub struct DeleteRecordsPartition {
    /// Partition index.
    pub partition_index: i32,
    /// The offset before which records should be deleted.
    /// Records with offsets less than this value will be deleted.
    pub offset: i64,
}

impl WireEncode for DeleteRecordsPartition {
    open spec fn written(&self, f: Format, w: Writer) -> Writer {
        let w = w.i32(self.partition_index);
        w.i64(self.offset)
    }

    proof fn lemma_grows(&self, f: Format, w: Writer) {
        broadcast use group_grows;

    }

    proof fn law_appends(&self, f: Format, w: Writer) {
        broadcast use group_appends;

    }

    fn encode_wire(&self, f: Format, buf: &mut BytesMut) -> (res: Result<()>) {
        broadcast use group_grows;

        write_i32(self.partition_index, buf);
        write_i64(self.offset, buf);
        Ok(())
    }
}

/// Topic data for DeleteRecords request.
#[derive(Debug, Clone)]
pub struct DeleteRecordsTopic {
    /// Topic name.
    pub name: String,
    /// Partitions.
    pub partitions: Vec<DeleteRecordsPartition>,
}

impl WireEncode for DeleteRecordsTopic {
    open spec fn written(&self, f: Format, w: Writer) -> Writer {
        let w = w.string(self.name@, f.flexible);
        w.array(self.partitions@, f)
    }

    proof fn lemma_grows(&self, f: Format, w: Writer) {
        broadcast use group_grows;

    }

    proof fn law_appends(&self, f: Format, w: Writer) {
        broadcast use group_appends;

    }

    fn encode_wire(&self, f: Format, buf: &mut BytesMut) -> (res: Result<()>) {
        broadcast use group_grows;

        write_string(self.name.as_str(), f.flexible, buf)?;
        write_array(&self.partitions, f, buf)?;
        Ok(())
    }
}

/// DeleteRecords request.
#[derive(Debug, Clone)]
pub struct DeleteRecordsRequest {
    /// Topics to delete records from.
    pub topics: Vec<DeleteRecordsTopic>,
    /// Timeout in milliseconds.
    pub timeout_ms: i32,
}

impl DeleteRecordsRequest {
    /// Get the API key.
    pub fn api_key() -> (r: ApiKey)
        ensures
            r == ApiKey::DeleteRecords,
    {
        ApiKey::DeleteRecords
    }
}

impl WireEncode for DeleteRecordsRequest {
    open spec fn written(&self, f: Format, w: Writer) -> Writer {
        let w = w.array(self.topics@, f);
        w.i32(self.timeout_ms)
    }

    proof fn lemma_grows(&self, f: Format, w: Writer) {
        broadcast use group_grows;

    }

    proof fn law_appends(&self, f: Format, w: Writer) {
        broadcast use group_appends;

    }

    fn encode_wire(&self, f: Format, buf: &mut BytesMut) -> (res: Result<()>) {
        broadcast use group_grows;

        write_array(&self.topics, f, buf)?;
        write_i32(self.timeout_ms, buf);
        Ok(())
    }
}

impl DeleteRecordsRequest {
    /// Encode for version 0+.
    pub fn encode_v0(&self, buf: &mut BytesMut) -> (res: Result<()>)
        requires
            fits(self.written(Format::plain(0), Writer::at(old(buf)@))),
        ensures
            encoded(res, final(buf)@, self.written(Format::plain(0), Writer::at(old(buf)@))),
    {
        self.encode_wire(Format::plain(0), buf)
    }
}

/// Partition result for DeleteRecords response.
#[derive(Debug, Clone)]
pub struct DeleteRecordsPartitionResult {
    /// Partition index.
    pub partition_index: i32,
    /// Low watermark after deletion.
    pub low_watermark: i64,
    /// Error code.
    pub error_code: ErrorCode,
}

impl View for DeleteRecordsPartitionResult {
    type V = DeleteRecordsPartitionResult;

    open spec fn view(&self) -> DeleteRecordsPartitionResult {
        *self
    }
}

impl WireDecode for DeleteRecordsPartitionResult {
    open spec fn read(f: Format, r: Reader) -> (DeleteRecordsPartitionResult, Reader) {
        let (partition_index, r) = r.i32();
        let (low_watermark, r) = r.i64();
        let (error_code, r) = r.error_code();
        let value = DeleteRecordsPartitionResult {
            partition_index,
            low_watermark,
            error_code,
        };
        (value, r)
    }

    fn decode_wire(f: Format, buf: &mut Bytes) -> (res: Result<Self>) {
        let partition_index = read_i32(buf)?;
        let low_watermark = read_i64(buf)?;
        let error_code = read_error_code(buf)?;
        Ok(DeleteRecordsPartitionResult {
            partition_index,
            low_watermark,
            error_code,
        })
    }

    proof fn law_consumes(f: Format, r: Reader) {
        broadcast use group_consumes;

    }

    proof fn law_ignores_what_follows(f: Format, r: Reader, more: Seq<u8>) {
        broadcast use group_consumes, group_followed;

    }

    proof fn law_needs_only_what_it_takes(f: Format, r: Reader, k: nat) {
        broadcast use group_consumes, group_cut;

    }
}

/// Topic result for DeleteRecords response.
#[derive(Debug, Clone)]
pub struct DeleteRecordsTopicResult {
    /// Topic name.
    pub name: String,
    /// Partitions.
    pub partitions: Vec<DeleteRecordsPartitionResult>,
}

/// What a [`DeleteRecordsTopicResult`] holds.
pub struct DeleteRecordsTopicResultView {
    /// Topic name.
    pub name: Seq<char>,
    /// Partitions.
    pub partitions: Seq<DeleteRecordsPartitionResult>,
}

impl View for DeleteRecordsTopicResult {
    type V = DeleteRecordsTopicResultView;

    open spec fn view(&self) -> DeleteRecordsTopicResultView {
        DeleteRecordsTopicResultView {
            name: self.name@,
            partitions: views(self.partitions@),
        }
    }
}

impl WireDecode for DeleteRecordsTopicResult {
    open spec fn read(f: Format, r: Reader) -> (DeleteRecordsTopicResultView, Reader) {
        let (name, r) = r.string_or_empty(f.flexible);
        let (partitions, r) = r.array::<DeleteRecordsPartitionResult>(f);
        let value = DeleteRecordsTopicResultView {
            name,
            partitions,
        };
        (value, r)
    }

    fn decode_wire(f: Format, buf: &mut Bytes) -> (res: Result<Self>) {
        let name = read_string_or_empty(f.flexible, buf)?;
        let partitions = read_array::<DeleteRecordsPartitionResult>(f, buf)?;
        Ok(DeleteRecordsTopicResult {
            name,
            partitions,
        })
    }

    proof fn law_consumes(f: Format, r: Reader) {
        broadcast use group_consumes;

    }

    proof fn law_ignores_what_follows(f: Format, r: Reader, more: Seq<u8>) {
        broadcast use group_consumes, group_followed;

    }

    proof fn law_needs_only_what_it_takes(f: Format, r: Reader, k: nat) {
        broadcast use group_consumes, group_cut;

    }
}

/// DeleteRecords response.
#[derive(Debug, Clone)]
pub struct DeleteRecordsResponse {
    /// Throttle time.
    pub throttle_time_ms: i32,
    /// Topic results.
    pub topics: Vec<DeleteRecordsTopicResult>,
}

/// What a [`DeleteRecordsResponse`] holds.
pub struct DeleteRecordsResponseView {
    /// Throttle time.
    pub throttle_time_ms: i32,
    /// Topic results.
    pub topics: Seq<DeleteRecordsTopicResultView>,
}

impl View for DeleteRecordsResponse {
    type V = DeleteRecordsResponseView;

    open spec fn view(&self) -> DeleteRecordsResponseView {
        DeleteRecordsResponseView {
            throttle_time_ms: self.throttle_time_ms,
            topics: views(self.topics@),
        }
    }
}

impl WireDecode for DeleteRecordsResponse {
    open spec fn read(f: Format, r: Reader) -> (DeleteRecordsResponseView, Reader) {
        let (throttle_time_ms, r) = r.i32();
        let (topics, r) = r.array::<DeleteRecordsTopicResult>(f);
        let value = DeleteRecordsResponseView {
            throttle_time_ms,
            topics,
        };
        (value, r)
    }

    fn decode_wire(f: Format, buf: &mut Bytes) -> (res: Result<Self>) {
        let throttle_time_ms = read_i32(buf)?;
        let topics = read_array::<DeleteRecordsTopicResult>(f, buf)?;
        Ok(DeleteRecordsResponse {
            throttle_time_ms,
            topics,
        })
    }

    proof fn law_consumes(f: Format, r: Reader) {
        broadcast use group_consumes;

    }

    proof fn law_ignores_what_follows(f: Format, r: Reader, more: Seq<u8>) {
        broadcast use group_consumes, group_followed;

    }

    proof fn law_needs_only_what_it_takes(f: Format, r: Reader, k: nat) {
        broadcast use group_consumes, group_cut;

    }
}

impl DeleteRecordsResponse {
    /// Decode from version 0+.
    pub fn decode_v0(buf: &mut Bytes) -> (res: Result<Self>)
        ensures
            decoded(
                result_view(res),
                final(buf)@,
                Self::read(Format::plain(0), Reader::on(old(buf)@)),
            ),
    {
        Self::decode_wire(Format::plain(0), buf)
    }
}

impl VersionedEncode for DeleteRecordsRequest {
    open spec fn request_key() -> ApiKey {
        ApiKey::DeleteRecords
    }

    open spec fn encodes(version: i16) -> bool {
        version == 0
    }

    open spec fn request_format(version: i16) -> Format {
        Format::plain(0)
    }

    open spec fn request_name() -> &'static str {
        "DeleteRecordsRequest"
    }

    fn encode_versioned(&self, version: i16, buf: &mut BytesMut) -> (res: Result<()>) {
        match version {
            0 => self.encode_v0(buf),
            _ => Err(
                KrafkaError::Protocol(
                    ProtocolErrorKind::Malformed,
                    Reason::UnsupportedEncode("DeleteRecordsRequest", version),
                ),
            ),
        }
    }

    proof fn law_request_format(&self, version: i16, w: Writer) {
    }

    proof fn law_unsupported_encode(&self, version: i16, w: Writer) {
    }
}

impl VersionedDecode for DeleteRecordsResponse {
    open spec fn response_key() -> ApiKey {
        ApiKey::DeleteRecords
    }

    open spec fn decodes(version: i16) -> bool {
        version == 0
    }

    open spec fn response_format(version: i16) -> Format {
        Format::plain(0)
    }

    open spec fn response_name() -> &'static str {
        "DeleteRecordsResponse"
    }

    fn decode_versioned(version: i16, buf: &mut Bytes) -> (res: Result<Self>) {
        match version {
            0 => Self::decode_v0(buf),
            _ => Err(
                KrafkaError::Protocol(
                    ProtocolErrorKind::Malformed,
                    Reason::UnsupportedDecode("DeleteRecordsResponse", version),
                ),
            ),
        }
    }

    proof fn law_response_format(version: i16, r: Reader) {
    }

    proof fn law_unsupported_decode(version: i16, r: Reader) {
    }
}

} // verus!
