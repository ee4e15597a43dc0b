//! Offsets of consumer groups and of partitions.

use crate::buffer::Octets;
use crate::error::{ErrorCode, KrafkaError, ProtocolErrorKind, Reason, Result};
use crate::protocol::api::ApiKey;
use crate::protocol::messages::{VersionedDecode, VersionedEncode};
use crate::protocol::wire::{
    decoded, encoded, fits, group_appends, group_consumes, group_cut, group_followed, group_grows,
    need_bytes, optional_text, read_array, read_error_code, read_i32, read_i64,
    read_nullable_string, read_string_or_empty, result_view, truncated, views, write_array,
    write_i32, write_i64, write_i8, write_nullable_string, write_optional_array, write_string,
    Format, Reader, WireDecode, WireEncode, Writer,
};
use bytes::{Bytes, BytesMut};
use vstd::prelude::*;

verus! {

/// Partition in OffsetCommit request.
#[derive(Debug, Clone)]
pub struct OffsetCommitRequestPartition {
    /// Partition index.
    pub partition_index: i32,
    /// Committed offset.
    pub committed_offset: i64,
    /// Committed leader epoch (v6+).
    pub committed_leader_epoch: i32,
    /// Commit timestamp (v1; deprecated in v2+).
    pub commit_timestamp: i64,
    /// Metadata.
    pub committed_metadata: Option<String>,
}

impl WireEncode for OffsetCommitRequestPartition {
    open spec fn written(&self, f: Format, w: Writer) -> Writer {
        let w = w.i32(self.partition_index);
        let w = w.i64(self.committed_offset);
        let w = if f.version == 1 {
            w.i64(self.commit_timestamp)
        } else {
            w
        };
        w.nullable_string(optional_text(self.committed_metadata), f.flexible)
    }

    proof fn lemma_grows(&self, f: Format, w: Writer) {
        broadcast use group_grows;

    }

    proof fn law_appends(&self, f: Format, w: Writer) {
        broadcast use group_appends;

    }

    fn encode_wire(&self, f: Format, buf: &mut BytesMut) -> (res: Result<()>) {
        broadcast use group_grows;

        write_i32(self.partition_index, buf);
        write_i64(self.committed_offset, buf);
        if f.version == 1 {
            write_i64(self.commit_timestamp, buf);
        }
        write_nullable_string(&self.committed_metadata, f.flexible, buf)?;
        Ok(())
    }
}

/// Topic in OffsetCommit request.
#[derive(Debug, Clone)]
pub struct OffsetCommitRequestTopic {
    /// Topic name.
    pub name: String,
    /// Partitions.
    pub partitions: Vec<OffsetCommitRequestPartition>,
}

impl WireEncode for OffsetCommitRequestTopic {
    open spec fn written(&self, f: Format, w: Writer) -> Writer {
        let w = w.string(self.name@, f.flexible);
        w.array(self.partitions@, f)
    }

    proof fn lemma_grows(&self, f: Format, w: Writer) {
        broadcast use group_grows;

    }

    proof fn law_appends(&self, f: Format, w: Writer) {
        broadcast use group_appends;

    }

    fn encode_wire(&self, f: Format, buf: &mut BytesMut) -> (res: Result<()>) {
        broadcast use group_grows;

        write_string(self.name.as_str(), f.flexible, buf)?;
        write_array(&self.partitions, f, buf)?;
        Ok(())
    }
}

/// OffsetCommit request.
#[derive(Debug, Clone)]
pub struct OffsetCommitRequest {
    /// Group ID.
    pub group_id: String,
    /// Generation ID (v1+).
    pub generation_id: i32,
    /// Member ID (v1+).
    pub member_id: String,
    /// Group instance ID (v7+).
    pub group_instance_id: Option<String>,
    /// Retention time (v2-v4; deprecated).
    pub retention_time_ms: i64,
    /// Topics.
    pub topics: Vec<OffsetCommitRequestTopic>,
}

impl OffsetCommitRequest {
    /// Get the API key.
    pub fn api_key() -> (r: ApiKey)
        ensures
            r == ApiKey::OffsetCommit,
    {
        ApiKey::OffsetCommit
    }
}

impl WireEncode for OffsetCommitRequest {
    open spec fn written(&self, f: Format, w: Writer) -> Writer {
        let w = w.string(self.group_id@, f.flexible);
        let w = if f.version >= 1 {
            w.i32(self.generation_id)
        } else {
            w
        };
        let w = if f.version >= 1 {
            w.string(self.member_id@, f.flexible)
        } else {
            w
        };
        let w = if f.version >= 2 {
            w.i64(self.retention_time_ms)
        } else {
            w
        };
        w.array(self.topics@, f)
    }

    proof fn lemma_grows(&self, f: Format, w: Writer) {
        broadcast use group_grows;

    }

    proof fn law_appends(&self, f: Format, w: Writer) {
        broadcast use group_appends;

    }

    fn encode_wire(&self, f: Format, buf: &mut BytesMut) -> (res: Result<()>) {
        broadcast use group_grows;

        write_string(self.group_id.as_str(), f.flexible, buf)?;
        if f.version >= 1 {
            write_i32(self.generation_id, buf);
        }
        if f.version >= 1 {
            write_string(self.member_id.as_str(), f.flexible, buf)?;
        }
        if f.version >= 2 {
            write_i64(self.retention_time_ms, buf);
        }
        write_array(&self.topics, f, buf)?;
        Ok(())
    }
}

impl OffsetCommitRequest {
    /// Encode for version 0.
    pub fn encode_v0(&self, buf: &mut BytesMut) -> (res: Result<()>)
        requires
            fits(self.written(Format::plain(0), Writer::at(old(buf)@))),
        ensures
            encoded(res, final(buf)@, self.written(Format::plain(0), Writer::at(old(buf)@))),
    {
        self.encode_wire(Format::plain(0), buf)
    }

    /// Encode for version 1.
    pub fn encode_v1(&self, buf: &mut BytesMut) -> (res: Result<()>)
        requires
            fits(self.written(Format::plain(1), Writer::at(old(buf)@))),
        ensures
            encoded(res, final(buf)@, self.written(Format::plain(1), Writer::at(old(buf)@))),
    {
        self.encode_wire(Format::plain(1), buf)
    }

    /// Encode for version 2+.
    pub fn encode_v2(&self, buf: &mut BytesMut) -> (res: Result<()>)
        requires
            fits(self.written(Format::plain(2), Writer::at(old(buf)@))),
        ensures
            encoded(res, final(buf)@, self.written(Format::plain(2), Writer::at(old(buf)@))),
    {
        self.encode_wire(Format::plain(2), buf)
    }
}

/// Partition in OffsetCommit response.
#[derive(Debug, Clone)]
pub struct OffsetCommitResponsePartition {
    /// Partition index.
    pub partition_index: i32,
    /// Error code.
    pub error_code: ErrorCode,
}

impl View for OffsetCommitResponsePartition {
    type V = OffsetCommitResponsePartition;

    open spec fn view(&self) -> OffsetCommitResponsePartition {
        *self
    }
}

impl WireDecode for OffsetCommitResponsePartition {
    open spec fn read(f: Format, r: Reader) -> (OffsetCommitResponsePartition, Reader) {
        let (partition_index, r) = r.i32();
        let (error_code, r) = r.error_code();
        let value = OffsetCommitResponsePartition {
            partition_index,
            error_code,
        };
        (value, r)
    }

    fn decode_wire(f: Format, buf: &mut Bytes) -> (res: Result<Self>) {
        let partition_index = read_i32(buf)?;
        let error_code = read_error_code(buf)?;
        Ok(OffsetCommitResponsePartition {
            partition_index,
            error_code,
        })
    }

    proof fn law_consumes(f: Format, r: Reader) {
        broadcast use group_consumes;

    }

    proof fn law_ignores_what_follows(f: Format, r: Reader, more: Seq<u8>) {
        broadcast use group_consumes, group_followed;

    }

    proof fn law_needs_only_what_it_takes(f: Format, r: Reader, k: nat) {
        broadcast use group_consumes, group_cut;

    }
}

/// Topic in OffsetCommit response.
#[derive(Debug, Clone)]
pub struct OffsetCommitResponseTopic {
    /// Topic name.
    pub name: String,
    /// Partitions.
    pub partitions: Vec<OffsetCommitResponsePartition>,
}

/// What a [`OffsetCommitResponseTopic`] holds.
pub struct OffsetCommitResponseTopicView {
    /// Topic name.
    pub name: Seq<char>,
    /// Partitions.
    pub partitions: Seq<OffsetCommitResponsePartition>,
}

impl View for OffsetCommitResponseTopic {
    type V = OffsetCommitResponseTopicView;

    open spec fn view(&self) -> OffsetCommitResponseTopicView {
        OffsetCommitResponseTopicView {
            name: self.name@,
            partitions: views(self.partitions@),
        }
    }
}

impl WireDecode for OffsetCommitResponseTopic {
    open spec fn read(f: Format, r: Reader) -> (OffsetCommitResponseTopicView, Reader) {
        let (name, r) = r.string_or_empty(f.flexible);
        let (partitions, r) = r.array::<OffsetCommitResponsePartition>(f);
        let value = OffsetCommitResponseTopicView {
            name,
            partitions,
        };
        (value, r)
    }

    fn decode_wire(f: Format, buf: &mut Bytes) -> (res: Result<Self>) {
        let name = read_string_or_empty(f.flexible, buf)?;
        let partitions = read_array::<OffsetCommitResponsePartition>(f, buf)?;
        Ok(OffsetCommitResponseTopic {
            name,
            partitions,
        })
    }

    proof fn law_consumes(f: Format, r: Reader) {
        broadcast use group_consumes;

    }

    proof fn law_ignores_what_follows(f: Format, r: Reader, more: Seq<u8>) {
        broadcast use group_consumes, group_followed;

    }

    proof fn law_needs_only_what_it_takes(f: Format, r: Reader, k: nat) {
        broadcast use group_consumes, group_cut;

    }
}

/// OffsetCommit response.
#[derive(Debug, Clone)]
pub struct OffsetCommitResponse {
    /// Throttle time.
    pub throttle_time_ms: i32,
    /// Topics.
    pub topics: Vec<OffsetCommitResponseTopic>,
}

/// What a [`OffsetCommitResponse`] holds.
pub struct OffsetCommitResponseView {
    /// Throttle time.
    pub throttle_time_ms: i32,
    /// Topics.
    pub topics: Seq<OffsetCommitResponseTopicView>,
}

impl View for OffsetCommitResponse {
    type V = OffsetCommitResponseView;

    open spec fn view(&self) -> OffsetCommitResponseView {
        OffsetCommitResponseView {
            throttle_time_ms: self.throttle_time_ms,
            topics: views(self.topics@),
        }
    }
}

impl WireDecode for OffsetCommitResponse {
    open spec fn read(f: Format, r: Reader) -> (OffsetCommitResponseView, Reader) {
        let (throttle_time_ms, r) = if f.version >= 3 {
            r.i32()
        } else {
            (0, r)
        };
        let (topics, r) = r.array::<OffsetCommitResponseTopic>(f);
        let value = OffsetCommitResponseView {
            throttle_time_ms,
            topics,
        };
        (value, r)
    }

    fn decode_wire(f: Format, buf: &mut Bytes) -> (res: Result<Self>) {
        let throttle_time_ms: i32 = if f.version >= 3 {
            read_i32(buf)?
        } else {
            0
        };
        let topics = read_array::<OffsetCommitResponseTopic>(f, buf)?;
        Ok(OffsetCommitResponse {
            throttle_time_ms,
            topics,
        })
    }

    proof fn law_consumes(f: Format, r: Reader) {
        broadcast use group_consumes;

    }

    proof fn law_ignores_what_follows(f: Format, r: Reader, more: Seq<u8>) {
        broadcast use group_consumes, group_followed;

    }

    proof fn law_needs_only_what_it_takes(f: Format, r: Reader, k: nat) {
        broadcast use group_consumes, group_cut;

    }
}

impl OffsetCommitResponse {
    /// Decode from version 0.
    pub fn decode_v0(buf: &mut Bytes) -> (res: Result<Self>)
        ensures
            decoded(
                result_view(res),
                final(buf)@,
                Self::read(Format::plain(0), Reader::on(old(buf)@)),
            ),
    {
        Self::decode_wire(Format::plain(0), buf)
    }

    /// Decode from version 3+.
    pub fn decode_v3(buf: &mut Bytes) -> (res: Result<Self>)
        ensures
            decoded(
                result_view(res),
                final(buf)@,
                Self::read(Format::plain(3), Reader::on(old(buf)@)),
            ),
    {
        Self::decode_wire(Format::plain(3), buf)
    }
}

impl OffsetCommitResponse {
    /// Check if all partitions succeeded.
    pub fn all_success(&self) -> (r: bool)
        ensures
            r == (forall|i: int, j: int|
                0 <= i < self.topics@.len() && 0 <= j < self.topics@[i].partitions@.len() ==> (
                #[trigger] self.topics@[i].partitions@[j]).error_code == ErrorCode::NoError),
    {
        let mut i: usize = 0;
        while i < self.topics.len()
            invariant
                i <= self.topics@.len(),
                forall|k: int, j: int|
                    0 <= k < i && 0 <= j < self.topics@[k].partitions@.len() ==> (
                    #[trigger] self.topics@[k].partitions@[j]).error_code == ErrorCode::NoError,
            decreases self.topics@.len() - i,
        {
            let mut j: usize = 0;
            while j < self.topics[i].partitions.len()
                invariant
                    i < self.topics@.len(),
                    j <= self.topics@[i as int].partitions@.len(),
                    forall|k: int|
                        0 <= k < j ==> (#[trigger] self.topics@[i as int].partitions@[k]).error_code
                            == ErrorCode::NoError,
                decreases self.topics@[i as int].partitions@.len() - j,
            {
                if !self.topics[i].partitions[j].error_code.is_ok() {
                    assert(self.topics@[i as int].partitions@[j as int].error_code
                        != ErrorCode::NoError);
                    return false;
                }
                j = j + 1;
            }
            i = i + 1;
        }
        true
    }
}

impl VersionedEncode for OffsetCommitRequest {
    open spec fn request_key() -> ApiKey {
        ApiKey::OffsetCommit
    }

    open spec fn encodes(version: i16) -> bool {
        0 <= version <= 2
    }

    open spec fn request_format(version: i16) -> Format {
        match version {
            0 => Format::plain(0),
            1 => Format::plain(1),
            _ => Format::plain(2),
        }
    }

    open spec fn request_name() -> &'static str {
        "OffsetCommitRequest"
    }

    fn encode_versioned(&self, version: i16, buf: &mut BytesMut) -> (res: Result<()>) {
        match version {
            0 => self.encode_v0(buf),
            1 => self.encode_v1(buf),
            2 => self.encode_v2(buf),
            _ => Err(
                KrafkaError::Protocol(
                    ProtocolErrorKind::Malformed,
                    Reason::UnsupportedEncode("OffsetCommitRequest", version),
                ),
            ),
        }
    }

    proof fn law_request_format(&self, version: i16, w: Writer) {
    }

    proof fn law_unsupported_encode(&self, version: i16, w: Writer) {
    }
}

impl VersionedDecode for OffsetCommitResponse {
    open spec fn response_key() -> ApiKey {
        ApiKey::OffsetCommit
    }

    open spec fn decodes(version: i16) -> bool {
        0 <= version <= 2
    }

    open spec fn response_format(version: i16) -> Format {
        Format::plain(0)
    }

    open spec fn response_name() -> &'static str {
        "OffsetCommitResponse"
    }

    fn decode_versioned(version: i16, buf: &mut Bytes) -> (res: Result<Self>) {
        match version {
            0 | 1 | 2 => Self::decode_v0(buf),
            _ => Err(
                KrafkaError::Protocol(
                    ProtocolErrorKind::Malformed,
                    Reason::UnsupportedDecode("OffsetCommitResponse", version),
                ),
            ),
        }
    }

    proof fn law_response_format(version: i16, r: Reader) {
    }

    proof fn law_unsupported_decode(version: i16, r: Reader) {
    }
}

/// Partition in ListOffsets request.
#[derive(Debug, Clone)]
pub struct ListOffsetsRequestPartition {
    /// Partition index.
    pub partition_index: i32,
    /// The current leader epoch (use -1 if not available).
    pub current_leader_epoch: i32,
    /// The target timestamp (-1 = latest, -2 = earliest).
    pub timestamp: i64,
}

impl WireEncode for ListOffsetsRequestPartition {
    open spec fn written(&self, f: Format, w: Writer) -> Writer {
        let w = w.i32(self.partition_index);
        w.i64(self.timestamp)
    }

    proof fn lemma_grows(&self, f: Format, w: Writer) {
        broadcast use group_grows;

    }

    proof fn law_appends(&self, f: Format, w: Writer) {
        broadcast use group_appends;

    }

    fn encode_wire(&self, f: Format, buf: &mut BytesMut) -> (res: Result<()>) {
        broadcast use group_grows;

        write_i32(self.partition_index, buf);
        write_i64(self.timestamp, buf);
        Ok(())
    }
}

/// Topic in ListOffsets request.
#[derive(Debug, Clone)]
pub struct ListOffsetsRequestTopic {
    /// Topic name.
    pub name: String,
    /// Partitions.
    pub partitions: Vec<ListOffsetsRequestPartition>,
}

impl WireEncode for ListOffsetsRequestTopic {
    open spec fn written(&self, f: Format, w: Writer) -> Writer {
        let w = w.string(self.name@, f.flexible);
        w.array(self.partitions@, f)
    }

    proof fn lemma_grows(&self, f: Format, w: Writer) {
        broadcast use group_grows;

    }

    proof fn law_appends(&self, f: Format, w: Writer) {
        broadcast use group_appends;

    }

    fn encode_wire(&self, f: Format, buf: &mut BytesMut) -> (res: Result<()>) {
        broadcast use group_grows;

        write_string(self.name.as_str(), f.flexible, buf)?;
        write_array(&self.partitions, f, buf)?;
        Ok(())
    }
}

/// ListOffsets request.
#[derive(Debug, Clone)]
pub struct ListOffsetsRequest {
    /// Broker ID of the requester (-1 for a consumer).
    pub replica_id: i32,
    /// Isolation level (0 = read_uncommitted, 1 = read_committed).
    pub isolation_level: i8,
    /// Topics.
    pub topics: Vec<ListOffsetsRequestTopic>,
}

impl ListOffsetsRequest {
    /// Get the API key.
    pub fn api_key() -> (r: ApiKey)
        ensures
            r == ApiKey::ListOffsets,
    {
        ApiKey::ListOffsets
    }
}

impl WireEncode for ListOffsetsRequest {
    open spec fn written(&self, f: Format, w: Writer) -> Writer {
        let w = w.i32(self.replica_id);
        let w = if f.version >= 2 {
            w.i8(self.isolation_level)
        } else {
            w
        };
        w.array(self.topics@, f)
    }

    proof fn lemma_grows(&self, f: Format, w: Writer) {
        broadcast use group_grows;

    }

    proof fn law_appends(&self, f: Format, w: Writer) {
        broadcast use group_appends;

    }

    fn encode_wire(&self, f: Format, buf: &mut BytesMut) -> (res: Result<()>) {
        broadcast use group_grows;

        write_i32(self.replica_id, buf);
        if f.version >= 2 {
            write_i8(self.isolation_level, buf);
        }
        write_array(&self.topics, f, buf)?;
        Ok(())
    }
}

impl ListOffsetsRequest {
    /// Encode for version 1 (single offset response per partition).
    pub fn encode_v1(&self, buf: &mut BytesMut) -> (res: Result<()>)
        requires
            fits(self.written(Format::plain(1), Writer::at(old(buf)@))),
        ensures
            encoded(res, final(buf)@, self.written(Format::plain(1), Writer::at(old(buf)@))),
    {
        self.encode_wire(Format::plain(1), buf)
    }

    /// Encode for version 2+ (includes `isolation_level`).
    ///
    /// Version 2 adds `isolation_level` after `replica_id`, which controls
    /// whether transactional (uncommitted) records are visible.
    pub fn encode_v2(&self, buf: &mut BytesMut) -> (res: Result<()>)
        requires
            fits(self.written(Format::plain(2), Writer::at(old(buf)@))),
        ensures
            encoded(res, final(buf)@, self.written(Format::plain(2), Writer::at(old(buf)@))),
    {
        self.encode_wire(Format::plain(2), buf)
    }
}

/// Partition in ListOffsets response.
#[derive(Debug, Clone)]
pub struct ListOffsetsResponsePartition {
    /// Partition index.
    pub partition_index: i32,
    /// Error code.
    pub error_code: ErrorCode,
    /// The result timestamp (-1 if not set).
    pub timestamp: i64,
    /// The result offset.
    pub offset: i64,
}

impl View for ListOffsetsResponsePartition {
    type V = ListOffsetsResponsePartition;

    open spec fn view(&self) -> ListOffsetsResponsePartition {
        *self
    }
}

impl WireDecode for ListOffsetsResponsePartition {
    open spec fn read(f: Format, r: Reader) -> (ListOffsetsResponsePartition, Reader) {
        let r = r.need(22, "ListOffsetsResponse: truncated partition data");
        let (partition_index, r) = r.i32();
        let (error_code, r) = r.error_code();
        let (timestamp, r) = r.i64();
        let (offset, r) = r.i64();
        let value = ListOffsetsResponsePartition {
            partition_index,
            error_code,
            timestamp,
            offset,
        };
        (value, r)
    }

    fn decode_wire(f: Format, buf: &mut Bytes) -> (res: Result<Self>) {
        need_bytes(22, "ListOffsetsResponse: truncated partition data", buf)?;
        let partition_index = read_i32(buf)?;
        let error_code = read_error_code(buf)?;
        let timestamp = read_i64(buf)?;
        let offset = read_i64(buf)?;
        Ok(ListOffsetsResponsePartition {
            partition_index,
            error_code,
            timestamp,
            offset,
        })
    }

    proof fn law_consumes(f: Format, r: Reader) {
        broadcast use group_consumes;

    }

    proof fn law_ignores_what_follows(f: Format, r: Reader, more: Seq<u8>) {
        broadcast use group_consumes, group_followed;

    }

    proof fn law_needs_only_what_it_takes(f: Format, r: Reader, k: nat) {
        broadcast use group_consumes, group_cut;

    }
}

/// Topic in ListOffsets response.
#[derive(Debug, Clone)]
pub struct ListOffsetsResponseTopic {
    /// Topic name.
    pub name: String,
    /// Partitions.
    pub partitions: Vec<ListOffsetsResponsePartition>,
}

/// What a [`ListOffsetsResponseTopic`] holds.
pub struct ListOffsetsResponseTopicView {
    /// Topic name.
    pub name: Seq<char>,
    /// Partitions.
    pub partitions: Seq<ListOffsetsResponsePartition>,
}

impl View for ListOffsetsResponseTopic {
    type V = ListOffsetsResponseTopicView;

    open spec fn view(&self) -> ListOffsetsResponseTopicView {
        ListOffsetsResponseTopicView {
            name: self.name@,
            partitions: views(self.partitions@),
        }
    }
}

impl WireDecode for ListOffsetsResponseTopic {
    open spec fn read(f: Format, r: Reader) -> (ListOffsetsResponseTopicView, Reader) {
        let (name, r) = r.string_or_empty(false);
        let r = r.need(4, "ListOffsetsResponse: truncated (no partition count)");
        let (partitions, r) = r.array::<ListOffsetsResponsePartition>(Format::plain(f.version));
        let value = ListOffsetsResponseTopicView {
            name,
            partitions,
        };
        (value, r)
    }

    fn decode_wire(f: Format, buf: &mut Bytes) -> (res: Result<Self>) {
        let name = read_string_or_empty(false, buf)?;
        need_bytes(4, "ListOffsetsResponse: truncated (no partition count)", buf)?;
        let partitions = read_array::<ListOffsetsResponsePartition>(Format::plain(f.version), buf)?;
        Ok(ListOffsetsResponseTopic {
            name,
            partitions,
        })
    }

    proof fn law_consumes(f: Format, r: Reader) {
        broadcast use group_consumes;

    }

    proof fn law_ignores_what_follows(f: Format, r: Reader, more: Seq<u8>) {
        broadcast use group_consumes, group_followed;

    }

    proof fn law_needs_only_what_it_takes(f: Format, r: Reader, k: nat) {
        broadcast use group_consumes, group_cut;

    }
}

/// ListOffsets response.
#[derive(Debug, Clone)]
pub struct ListOffsetsResponse {
    /// Topics.
    pub topics: Vec<ListOffsetsResponseTopic>,
}

/// What a [`ListOffsetsResponse`] holds.
pub struct ListOffsetsResponseView {
    /// Topics.
    pub topics: Seq<ListOffsetsResponseTopicView>,
}

impl View for ListOffsetsResponse {
    type V = ListOffsetsResponseView;

    open spec fn view(&self) -> ListOffsetsResponseView {
        ListOffsetsResponseView {
            topics: views(self.topics@),
        }
    }
}

impl WireDecode for ListOffsetsResponse {
    open spec fn read(f: Format, r: Reader) -> (ListOffsetsResponseView, Reader) {
        let r = if f.version >= 2 {
            r.need(4, "ListOffsetsResponse v2: truncated (no throttle_time_ms)")
        } else {
            r
        };
        let r = if f.version >= 2 {
            r.i32().1
        } else {
            r
        };
        let r = r.need(4, "ListOffsetsResponse: truncated (no topic count)");
        let (topics, r) = r.array::<ListOffsetsResponseTopic>(Format::plain(f.version));
        let value = ListOffsetsResponseView {
            topics,
        };
        (value, r)
    }

    fn decode_wire(f: Format, buf: &mut Bytes) -> (res: Result<Self>) {
        if f.version >= 2 {
            need_bytes(4, "ListOffsetsResponse v2: truncated (no throttle_time_ms)", buf)?;
        }
        if f.version >= 2 {
            read_i32(buf)?;
        }
        need_bytes(4, "ListOffsetsResponse: truncated (no topic count)", buf)?;
        let topics = read_array::<ListOffsetsResponseTopic>(Format::plain(f.version), buf)?;
        Ok(ListOffsetsResponse {
            topics,
        })
    }

    proof fn law_consumes(f: Format, r: Reader) {
        broadcast use group_consumes;

    }

    proof fn law_ignores_what_follows(f: Format, r: Reader, more: Seq<u8>) {
        broadcast use group_consumes, group_followed;

    }

    proof fn law_needs_only_what_it_takes(f: Format, r: Reader, k: nat) {
        broadcast use group_consumes, group_cut;

    }
}

impl ListOffsetsResponse {
    /// Decode version 1 response.
    ///
    /// Uses checked reads to avoid panics on truncated data and guards
    /// negative counts to prevent OOM allocations.
    ///
    /// The v1 response format has the topics array directly (no throttle_time_ms).
    pub fn decode_v1(buf: &mut Bytes) -> (res: Result<Self>)
        ensures
            decoded(
                result_view(res),
                final(buf)@,
                Self::read(Format::plain(1), Reader::on(old(buf)@)),
            ),
    {
        Self::decode_wire(Format::plain(1), buf)
    }

    /// Decode version 2+ response (includes `throttle_time_ms`).
    ///
    /// The v2+ response format starts with `throttle_time_ms` (INT32)
    /// followed by the same topics array as v1.
    pub fn decode_v2(buf: &mut Bytes) -> (res: Result<Self>)
        ensures
            decoded(
                result_view(res),
                final(buf)@,
                Self::read(Format::plain(2), Reader::on(old(buf)@)),
            ),
    {
        Self::decode_wire(Format::plain(2), buf)
    }
}

impl VersionedEncode for ListOffsetsRequest {
    open spec fn request_key() -> ApiKey {
        ApiKey::ListOffsets
    }

    open spec fn encodes(version: i16) -> bool {
        1 <= version <= 2
    }

    open spec fn request_format(version: i16) -> Format {
        match version {
            1 => Format::plain(1),
            _ => Format::plain(2),
        }
    }

    open spec fn request_name() -> &'static str {
        "ListOffsetsRequest"
    }

    fn encode_versioned(&self, version: i16, buf: &mut BytesMut) -> (res: Result<()>) {
        match version {
            1 => self.encode_v1(buf),
            2 => self.encode_v2(buf),
            _ => Err(
                KrafkaError::Protocol(
                    ProtocolErrorKind::Malformed,
                    Reason::UnsupportedEncode("ListOffsetsRequest", version),
                ),
            ),
        }
    }

    proof fn law_request_format(&self, version: i16, w: Writer) {
    }

    proof fn law_unsupported_encode(&self, version: i16, w: Writer) {
    }
}

impl VersionedDecode for ListOffsetsResponse {
    open spec fn response_key() -> ApiKey {
        ApiKey::ListOffsets
    }

    open spec fn decodes(version: i16) -> bool {
        1 <= version <= 2
    }

    open spec fn response_format(version: i16) -> Format {
        match version {
            1 => Format::plain(1),
            _ => Format::plain(2),
        }
    }

    open spec fn response_name() -> &'static str {
        "ListOffsetsResponse"
    }

    fn decode_versioned(version: i16, buf: &mut Bytes) -> (res: Result<Self>) {
        match version {
            1 => Self::decode_v1(buf),
            2 => Self::decode_v2(buf),
            _ => Err(
                KrafkaError::Protocol(
                    ProtocolErrorKind::Malformed,
                    Reason::UnsupportedDecode("ListOffsetsResponse", version),
                ),
            ),
        }
    }

    proof fn law_response_format(version: i16, r: Reader) {
    }

    proof fn law_unsupported_decode(version: i16, r: Reader) {
    }
}

/// Topic in OffsetFetch request.
#[derive(Debug, Clone)]
pub struct OffsetFetchRequestTopic {
    /// Topic name.
    pub name: String,
    /// Partition indices.
    pub partition_indexes: Vec<i32>,
}

impl WireEncode for OffsetFetchRequestTopic {
    open spec fn written(&self, f: Format, w: Writer) -> Writer {
        let w = w.string(self.name@, f.flexible);
        w.array(self.partition_indexes@, f)
    }

    proof fn lemma_grows(&self, f: Format, w: Writer) {
        broadcast use group_grows;

    }

    proof fn law_appends(&self, f: Format, w: Writer) {
        broadcast use group_appends;

    }

    fn encode_wire(&self, f: Format, buf: &mut BytesMut) -> (res: Result<()>) {
        broadcast use group_grows;

        write_string(self.name.as_str(), f.flexible, buf)?;
        write_array(&self.partition_indexes, f, buf)?;
        Ok(())
    }
}

/// OffsetFetch request.
#[derive(Debug, Clone)]
pub struct OffsetFetchRequest {
    /// Group ID.
    pub group_id: String,
    /// Topics (null = all topics in group).
    pub topics: Option<Vec<OffsetFetchRequestTopic>>,
    /// Require stable offsets (v7+).
    pub require_stable: bool,
}

impl OffsetFetchRequest {
    /// Get the API key.
    pub fn api_key() -> (r: ApiKey)
        ensures
            r == ApiKey::OffsetFetch,
    {
        ApiKey::OffsetFetch
    }
}

impl WireEncode for OffsetFetchRequest {
    open spec fn written(&self, f: Format, w: Writer) -> Writer {
        let w = w.string(self.group_id@, f.flexible);
        w.optional_array(self.topics, f)
    }

    proof fn lemma_grows(&self, f: Format, w: Writer) {
        broadcast use group_grows;

    }

    proof fn law_appends(&self, f: Format, w: Writer) {
        broadcast use group_appends;

    }

    fn encode_wire(&self, f: Format, buf: &mut BytesMut) -> (res: Result<()>) {
        broadcast use group_grows;

        write_string(self.group_id.as_str(), f.flexible, buf)?;
        write_optional_array(&self.topics, f, buf)?;
        Ok(())
    }
}

impl OffsetFetchRequest {
    /// Encode for version 0-1.
    pub fn encode_v0(&self, buf: &mut BytesMut) -> (res: Result<()>)
        requires
            fits(self.written(Format::plain(0), Writer::at(old(buf)@))),
        ensures
            encoded(res, final(buf)@, self.written(Format::plain(0), Writer::at(old(buf)@))),
    {
        self.encode_wire(Format::plain(0), buf)
    }
}

/// Partition in OffsetFetch response.
#[derive(Debug, Clone)]
pub struct OffsetFetchResponsePartition {
    /// Partition index.
    pub partition_index: i32,
    /// Committed offset.
    pub committed_offset: i64,
    /// Committed leader epoch (v5+).
    pub committed_leader_epoch: i32,
    /// Metadata.
    pub metadata: Option<String>,
    /// Error code.
    pub error_code: ErrorCode,
}

/// What a [`OffsetFetchResponsePartition`] holds.
pub struct OffsetFetchResponsePartitionView {
    /// Partition index.
    pub partition_index: i32,
    /// Committed offset.
    pub committed_offset: i64,
    /// Committed leader epoch (v5+).
    pub committed_leader_epoch: i32,
    /// Metadata.
    pub metadata: Option<Seq<char>>,
    /// Error code.
    pub error_code: ErrorCode,
}

impl View for OffsetFetchResponsePartition {
    type V = OffsetFetchResponsePartitionView;

    open spec fn view(&self) -> OffsetFetchResponsePartitionView {
        OffsetFetchResponsePartitionView {
            partition_index: self.partition_index,
            committed_offset: self.committed_offset,
            committed_leader_epoch: self.committed_leader_epoch,
            metadata: optional_text(self.metadata),
            error_code: self.error_code,
        }
    }
}

impl WireDecode for OffsetFetchResponsePartition {
    open spec fn read(f: Format, r: Reader) -> (OffsetFetchResponsePartitionView, Reader) {
        let (partition_index, r) = r.i32();
        let (committed_offset, r) = r.i64();
        let (metadata, r) = r.nullable_string(f.flexible);
        let (error_code, r) = r.error_code();
        let value = OffsetFetchResponsePartitionView {
            partition_index,
            committed_offset,
            committed_leader_epoch: (-1) as i32,
            metadata,
            error_code,
        };
        (value, r)
    }

    fn decode_wire(f: Format, buf: &mut Bytes) -> (res: Result<Self>) {
        let partition_index = read_i32(buf)?;
        let committed_offset = read_i64(buf)?;
        let metadata = read_nullable_string(f.flexible, buf)?;
        let error_code = read_error_code(buf)?;
        Ok(OffsetFetchResponsePartition {
            partition_index,
            committed_offset,
            committed_leader_epoch: -1,
            metadata,
            error_code,
        })
    }

    proof fn law_consumes(f: Format, r: Reader) {
        broadcast use group_consumes;

    }

    proof fn law_ignores_what_follows(f: Format, r: Reader, more: Seq<u8>) {
        broadcast use group_consumes, group_followed;

    }

    proof fn law_needs_only_what_it_takes(f: Format, r: Reader, k: nat) {
        broadcast use group_consumes, group_cut;

    }
}

/// Topic in OffsetFetch response.
#[derive(Debug, Clone)]
pub struct OffsetFetchResponseTopic {
    /// Topic name.
    pub name: String,
    /// Partitions.
    pub partitions: Vec<OffsetFetchResponsePartition>,
}

/// What a [`OffsetFetchResponseTopic`] holds.
pub struct OffsetFetchResponseTopicView {
    /// Topic name.
    pub name: Seq<char>,
    /// Partitions.
    pub partitions: Seq<OffsetFetchResponsePartitionView>,
}

impl View for OffsetFetchResponseTopic {
    type V = OffsetFetchResponseTopicView;

    open spec fn view(&self) -> OffsetFetchResponseTopicView {
        OffsetFetchResponseTopicView {
            name: self.name@,
            partitions: views(self.partitions@),
        }
    }
}

impl WireDecode for OffsetFetchResponseTopic {
    open spec fn read(f: Format, r: Reader) -> (OffsetFetchResponseTopicView, Reader) {
        let (name, r) = r.string_or_empty(f.flexible);
        let (partitions, r) = r.array::<OffsetFetchResponsePartition>(f);
        let value = OffsetFetchResponseTopicView {
            name,
            partitions,
        };
        (value, r)
    }

    fn decode_wire(f: Format, buf: &mut Bytes) -> (res: Result<Self>) {
        let name = read_string_or_empty(f.flexible, buf)?;
        let partitions = read_array::<OffsetFetchResponsePartition>(f, buf)?;
        Ok(OffsetFetchResponseTopic {
            name,
            partitions,
        })
    }

    proof fn law_consumes(f: Format, r: Reader) {
        broadcast use group_consumes;

    }

    proof fn law_ignores_what_follows(f: Format, r: Reader, more: Seq<u8>) {
        broadcast use group_consumes, group_followed;

    }

    proof fn law_needs_only_what_it_takes(f: Format, r: Reader, k: nat) {
        broadcast use group_consumes, group_cut;

    }
}

/// OffsetFetch response.
#[derive(Debug, Clone)]
pub struct OffsetFetchResponse {
    /// Throttle time.
    pub throttle_time_ms: i32,
    /// Topics.
    pub topics: Vec<OffsetFetchResponseTopic>,
    /// Error code (v2+).
    pub error_code: ErrorCode,
}

/// What a [`OffsetFetchResponse`] holds.
pub struct OffsetFetchResponseView {
    /// Throttle time.
    pub throttle_time_ms: i32,
    /// Topics.
    pub topics: Seq<OffsetFetchResponseTopicView>,
    /// Error code (v2+).
    pub error_code: ErrorCode,
}

impl View for OffsetFetchResponse {
    type V = OffsetFetchResponseView;

    open spec fn view(&self) -> OffsetFetchResponseView {
        OffsetFetchResponseView {
            throttle_time_ms: self.throttle_time_ms,
            topics: views(self.topics@),
            error_code: self.error_code,
        }
    }
}

impl WireDecode for OffsetFetchResponse {
    open spec fn read(f: Format, r: Reader) -> (OffsetFetchResponseView, Reader) {
        let (throttle_time_ms, r) = if f.version >= 3 {
            r.i32()
        } else {
            (0, r)
        };
        let (topics, r) = r.array::<OffsetFetchResponseTopic>(f);
        let (error_code, r) = if f.version >= 2 {
            r.error_code()
        } else {
            (ErrorCode::NoError, r)
        };
        let value = OffsetFetchResponseView {
            throttle_time_ms,
            topics,
            error_code,
        };
        (value, r)
    }

    fn decode_wire(f: Format, buf: &mut Bytes) -> (res: Result<Self>) {
        let throttle_time_ms: i32 = if f.version >= 3 {
            read_i32(buf)?
        } else {
            0
        };
        let topics = read_array::<OffsetFetchResponseTopic>(f, buf)?;
        let error_code: ErrorCode = if f.version >= 2 {
            read_error_code(buf)?
        } else {
            ErrorCode::NoError
        };
        Ok(OffsetFetchResponse {
            throttle_time_ms,
            topics,
            error_code,
        })
    }

    proof fn law_consumes(f: Format, r: Reader) {
        broadcast use group_consumes;

    }

    proof fn law_ignores_what_follows(f: Format, r: Reader, more: Seq<u8>) {
        broadcast use group_consumes, group_followed;

    }

    proof fn law_needs_only_what_it_takes(f: Format, r: Reader, k: nat) {
        broadcast use group_consumes, group_cut;

    }
}

impl OffsetFetchResponse {
    /// Decode from version 0-1.
    pub fn decode_v0(buf: &mut Bytes) -> (res: Result<Self>)
        ensures
            decoded(
                result_view(res),
                final(buf)@,
                Self::read(Format::plain(0), Reader::on(old(buf)@)),
            ),
    {
        Self::decode_wire(Format::plain(0), buf)
    }

    /// Decode from version 2.
    pub fn decode_v2(buf: &mut Bytes) -> (res: Result<Self>)
        ensures
            decoded(
                result_view(res),
                final(buf)@,
                Self::read(Format::plain(2), Reader::on(old(buf)@)),
            ),
    {
        Self::decode_wire(Format::plain(2), buf)
    }

    /// Decode from version 3+.
    pub fn decode_v3(buf: &mut Bytes) -> (res: Result<Self>)
        ensures
            decoded(
                result_view(res),
                final(buf)@,
                Self::read(Format::plain(3), Reader::on(old(buf)@)),
            ),
    {
        Self::decode_wire(Format::plain(3), buf)
    }
}

/// The committed offset of a partition among the entries of a topic, from the
/// entry at `from` on.
pub open spec fn offset_of(
    partitions: Seq<OffsetFetchResponsePartitionView>,
    partition: i32,
    from: nat,
) -> Option<i64>
    decreases partitions.len() - from,
{
    if from >= partitions.len() {
        None
    } else if partitions[from as int].partition_index == partition {
        Some(partitions[from as int].committed_offset)
    } else {
        offset_of(partitions, partition, from + 1)
    }
}

/// The committed offset of a partition of the first topic with a name, from the
/// topic at `from` on.
pub open spec fn topic_offset_of(
    topics: Seq<OffsetFetchResponseTopicView>,
    topic: Seq<char>,
    partition: i32,
    from: nat,
) -> Option<i64>
    decreases topics.len() - from,
{
    if from >= topics.len() {
        None
    } else if topics[from as int].name == topic {
        offset_of(topics[from as int].partitions, partition, 0)
    } else {
        topic_offset_of(topics, topic, partition, from + 1)
    }
}

impl OffsetFetchResponse {
    /// Get offset for a specific topic-partition.
    pub fn get_offset(&self, topic: &str, partition: i32) -> (r: Option<i64>)
        ensures
            r == topic_offset_of(self@.topics, topic@, partition, 0),
    {
        let wanted = topic.to_owned();
        let mut i: usize = 0;
        while i < self.topics.len()
            invariant
                i <= self.topics@.len(),
                wanted@ == topic@,
                topic_offset_of(self@.topics, topic@, partition, 0) == topic_offset_of(
                    self@.topics,
                    topic@,
                    partition,
                    i as nat,
                ),
            decreases self.topics@.len() - i,
        {
            assert(self@.topics[i as int] == self.topics@[i as int]@);
            if self.topics[i].name == wanted {
                let ghost entries = self.topics@[i as int]@.partitions;
                let mut k: usize = 0;
                while k < self.topics[i].partitions.len()
                    invariant
                        i < self.topics@.len(),
                        k <= self.topics@[i as int].partitions@.len(),
                        entries == views(self.topics@[i as int].partitions@),
                        topic_offset_of(self@.topics, topic@, partition, 0) == offset_of(
                            entries,
                            partition,
                            k as nat,
                        ),
                    decreases self.topics@[i as int].partitions@.len() - k,
                {
                    let found = &self.topics[i].partitions[k];
                    assert(entries[k as int] == found@);
                    if found.partition_index == partition {
                        return Some(found.committed_offset);
                    }
                    k = k + 1;
                }
                return None;
            }
            i = i + 1;
        }
        None
    }
}

impl VersionedEncode for OffsetFetchRequest {
    open spec fn request_key() -> ApiKey {
        ApiKey::OffsetFetch
    }

    open spec fn encodes(version: i16) -> bool {
        0 <= version <= 1
    }

    open spec fn request_format(version: i16) -> Format {
        Format::plain(0)
    }

    open spec fn request_name() -> &'static str {
        "OffsetFetchRequest"
    }

    fn encode_versioned(&self, version: i16, buf: &mut BytesMut) -> (res: Result<()>) {
        match version {
            0 | 1 => self.encode_v0(buf),
            _ => Err(
                KrafkaError::Protocol(
                    ProtocolErrorKind::Malformed,
                    Reason::UnsupportedEncode("OffsetFetchRequest", version),
                ),
            ),
        }
    }

    proof fn law_request_format(&self, version: i16, w: Writer) {
    }

    proof fn law_unsupported_encode(&self, version: i16, w: Writer) {
    }
}

impl VersionedDecode for OffsetFetchResponse {
    open spec fn response_key() -> ApiKey {
        ApiKey::OffsetFetch
    }

    open spec fn decodes(version: i16) -> bool {
        0 <= version <= 1
    }

    open spec fn response_format(version: i16) -> Format {
        Format::plain(0)
    }

    open spec fn response_name() -> &'static str {
        "OffsetFetchResponse"
    }

    fn decode_versioned(version: i16, buf: &mut Bytes) -> (res: Result<Self>) {
        match version {
            0 | 1 => Self::decode_v0(buf),
            _ => Err(
                KrafkaError::Protocol(
                    ProtocolErrorKind::Malformed,
                    Reason::UnsupportedDecode("OffsetFetchResponse", version),
                ),
            ),
        }
    }

    proof fn law_response_format(version: i16, r: Reader) {
    }

    proof fn law_unsupported_decode(version: i16, r: Reader) {
    }
}

/// Partition in OffsetForLeaderEpoch request.
#[derive(Debug, Clone)]
pub struct OffsetForLeaderEpochPartition {
    /// Partition index.
    pub partition: i32,
    /// Current leader epoch (v2+, for fencing).
    pub current_leader_epoch: i32,
    /// Requested leader epoch.
    pub leader_epoch: i32,
}

impl WireEncode for OffsetForLeaderEpochPartition {
    open spec fn written(&self, f: Format, w: Writer) -> Writer {
        let w = w.i32(self.partition);
        let w = if f.version >= 2 {
            w.i32(self.current_leader_epoch)
        } else {
            w
        };
        w.i32(self.leader_epoch)
    }

    proof fn lemma_grows(&self, f: Format, w: Writer) {
        broadcast use group_grows;

    }

    proof fn law_appends(&self, f: Format, w: Writer) {
        broadcast use group_appends;

    }

    fn encode_wire(&self, f: Format, buf: &mut BytesMut) -> (res: Result<()>) {
        broadcast use group_grows;

        write_i32(self.partition, buf);
        if f.version >= 2 {
            write_i32(self.current_leader_epoch, buf);
        }
        write_i32(self.leader_epoch, buf);
        Ok(())
    }
}

/// Topic in OffsetForLeaderEpoch request.
#[derive(Debug, Clone)]
pub struct OffsetForLeaderEpochTopic {
    /// Topic name.
    pub topic: String,
    /// Partitions.
    pub partitions: Vec<OffsetForLeaderEpochPartition>,
}

impl WireEncode for OffsetForLeaderEpochTopic {
    open spec fn written(&self, f: Format, w: Writer) -> Writer {
        let w = w.string(self.topic@, f.flexible);
        w.array(self.partitions@, f)
    }

    proof fn lemma_grows(&self, f: Format, w: Writer) {
        broadcast use group_grows;

    }

    proof fn law_appends(&self, f: Format, w: Writer) {
        broadcast use group_appends;

    }

    fn encode_wire(&self, f: Format, buf: &mut BytesMut) -> (res: Result<()>) {
        broadcast use group_grows;

        write_string(self.topic.as_str(), f.flexible, buf)?;
        write_array(&self.partitions, f, buf)?;
        Ok(())
    }
}

/// OffsetForLeaderEpoch request.
#[derive(Debug, Clone)]
pub struct OffsetForLeaderEpochRequest {
    /// Replica ID (-1 for consumers, broker ID for followers).
    pub replica_id: i32,
    /// Topics.
    pub topics: Vec<OffsetForLeaderEpochTopic>,
}

impl OffsetForLeaderEpochRequest {
    /// Get the API key.
    pub fn api_key() -> (r: ApiKey)
        ensures
            r == ApiKey::OffsetForLeaderEpoch,
    {
        ApiKey::OffsetForLeaderEpoch
    }
}

impl WireEncode for OffsetForLeaderEpochRequest {
    open spec fn written(&self, f: Format, w: Writer) -> Writer {
        let w = if f.version >= 3 {
            w.i32(self.replica_id)
        } else {
            w
        };
        w.array(self.topics@, f)
    }

    proof fn lemma_grows(&self, f: Format, w: Writer) {
        broadcast use group_grows;

    }

    proof fn law_appends(&self, f: Format, w: Writer) {
        broadcast use group_appends;

    }

    fn encode_wire(&self, f: Format, buf: &mut BytesMut) -> (res: Result<()>) {
        broadcast use group_grows;

        if f.version >= 3 {
            write_i32(self.replica_id, buf);
        }
        write_array(&self.topics, f, buf)?;
        Ok(())
    }
}

impl OffsetForLeaderEpochRequest {
    /// Encode for version 0-1 (no current_leader_epoch field).
    pub fn encode_v0(&self, buf: &mut BytesMut) -> (res: Result<()>)
        requires
            fits(self.written(Format::plain(0), Writer::at(old(buf)@))),
        ensures
            encoded(res, final(buf)@, self.written(Format::plain(0), Writer::at(old(buf)@))),
    {
        self.encode_wire(Format::plain(0), buf)
    }

    /// Encode for version 2 (adds current_leader_epoch per partition for fencing).
    pub fn encode_v2(&self, buf: &mut BytesMut) -> (res: Result<()>)
        requires
            fits(self.written(Format::plain(2), Writer::at(old(buf)@))),
        ensures
            encoded(res, final(buf)@, self.written(Format::plain(2), Writer::at(old(buf)@))),
    {
        self.encode_wire(Format::plain(2), buf)
    }

    /// Encode for version 3+ (adds replica_id field).
    pub fn encode_v3(&self, buf: &mut BytesMut) -> (res: Result<()>)
        requires
            fits(self.written(Format::plain(3), Writer::at(old(buf)@))),
        ensures
            encoded(res, final(buf)@, self.written(Format::plain(3), Writer::at(old(buf)@))),
    {
        self.encode_wire(Format::plain(3), buf)
    }
}

/// Partition in OffsetForLeaderEpoch response.
#[derive(Debug, Clone)]
pub struct OffsetForLeaderEpochPartitionResult {
    /// Error code.
    pub error_code: ErrorCode,
    /// Partition index.
    pub partition: i32,
    /// Leader epoch.
    pub leader_epoch: i32,
    /// End offset for the requested leader epoch.
    pub end_offset: i64,
}

impl View for OffsetForLeaderEpochPartitionResult {
    type V = OffsetForLeaderEpochPartitionResult;

    open spec fn view(&self) -> OffsetForLeaderEpochPartitionResult {
        *self
    }
}

impl WireDecode for OffsetForLeaderEpochPartitionResult {
    open spec fn read(f: Format, r: Reader) -> (OffsetForLeaderEpochPartitionResult, Reader) {
        let (error_code, r) = r.error_code();
        let (partition, r) = r.i32();
        let (leader_epoch, r) = if f.version >= 1 {
            r.i32()
        } else {
            ((-1) as i32, r)
        };
        let (end_offset, r) = r.i64();
        let value = OffsetForLeaderEpochPartitionResult {
            error_code,
            partition,
            leader_epoch,
            end_offset,
        };
        (value, r)
    }

    fn decode_wire(f: Format, buf: &mut Bytes) -> (res: Result<Self>) {
        let error_code = read_error_code(buf)?;
        let partition = read_i32(buf)?;
        let leader_epoch: i32 = if f.version >= 1 {
            read_i32(buf)?
        } else {
            -1
        };
        let end_offset = read_i64(buf)?;
        Ok(OffsetForLeaderEpochPartitionResult {
            error_code,
            partition,
            leader_epoch,
            end_offset,
        })
    }

    proof fn law_consumes(f: Format, r: Reader) {
        broadcast use group_consumes;

    }

    proof fn law_ignores_what_follows(f: Format, r: Reader, more: Seq<u8>) {
        broadcast use group_consumes, group_followed;

    }

    proof fn law_needs_only_what_it_takes(f: Format, r: Reader, k: nat) {
        broadcast use group_consumes, group_cut;

    }
}

/// Topic in OffsetForLeaderEpoch response.
#[derive(Debug, Clone)]
pub struct OffsetForLeaderEpochTopicResult {
    /// Topic name.
    pub topic: String,
    /// Partitions.
    pub partitions: Vec<OffsetForLeaderEpochPartitionResult>,
}

/// What a [`OffsetForLeaderEpochTopicResult`] holds.
pub struct OffsetForLeaderEpochTopicResultView {
    /// Topic name.
    pub topic: Seq<char>,
    /// Partitions.
    pub partitions: Seq<OffsetForLeaderEpochPartitionResult>,
}

impl View for OffsetForLeaderEpochTopicResult {
    type V = OffsetForLeaderEpochTopicResultView;

    open spec fn view(&self) -> OffsetForLeaderEpochTopicResultView {
        OffsetForLeaderEpochTopicResultView {
            topic: self.topic@,
            partitions: views(self.partitions@),
        }
    }
}

impl WireDecode for OffsetForLeaderEpochTopicResult {
    open spec fn read(f: Format, r: Reader) -> (OffsetForLeaderEpochTopicResultView, Reader) {
        let (topic, r) = r.string_or_empty(f.flexible);
        let (partitions, r) = r.array::<OffsetForLeaderEpochPartitionResult>(f);
        let value = OffsetForLeaderEpochTopicResultView {
            topic,
            partitions,
        };
        (value, r)
    }

    fn decode_wire(f: Format, buf: &mut Bytes) -> (res: Result<Self>) {
        let topic = read_string_or_empty(f.flexible, buf)?;
        let partitions = read_array::<OffsetForLeaderEpochPartitionResult>(f, buf)?;
        Ok(OffsetForLeaderEpochTopicResult {
            topic,
            partitions,
        })
    }

    proof fn law_consumes(f: Format, r: Reader) {
        broadcast use group_consumes;

    }

    proof fn law_ignores_what_follows(f: Format, r: Reader, more: Seq<u8>) {
        broadcast use group_consumes, group_followed;

    }

    proof fn law_needs_only_what_it_takes(f: Format, r: Reader, k: nat) {
        broadcast use group_consumes, group_cut;

    }
}

/// OffsetForLeaderEpoch response.
#[derive(Debug, Clone)]
pub struct OffsetForLeaderEpochResponse {
    /// Throttle time (v2+).
    pub throttle_time_ms: i32,
    /// Topics.
    pub topics: Vec<OffsetForLeaderEpochTopicResult>,
}

/// What a [`OffsetForLeaderEpochResponse`] holds.
pub struct OffsetForLeaderEpochResponseView {
    /// Throttle time (v2+).
    pub throttle_time_ms: i32,
    /// Topics.
    pub topics: Seq<OffsetForLeaderEpochTopicResultView>,
}

impl View for OffsetForLeaderEpochResponse {
    type V = OffsetForLeaderEpochResponseView;

    open spec fn view(&self) -> OffsetForLeaderEpochResponseView {
        OffsetForLeaderEpochResponseView {
            throttle_time_ms: self.throttle_time_ms,
            topics: views(self.topics@),
        }
    }
}

impl WireDecode for OffsetForLeaderEpochResponse {
    open spec fn read(f: Format, r: Reader) -> (OffsetForLeaderEpochResponseView, Reader) {
        let (throttle_time_ms, r) = if f.version >= 2 {
            r.i32()
        } else {
            (0, r)
        };
        let (topics, r) = r.array::<OffsetForLeaderEpochTopicResult>(f);
        let value = OffsetForLeaderEpochResponseView {
            throttle_time_ms,
            topics,
        };
        (value, r)
    }

    fn decode_wire(f: Format, buf: &mut Bytes) -> (res: Result<Self>) {
        let throttle_time_ms: i32 = if f.version >= 2 {
            read_i32(buf)?
        } else {
            0
        };
        let topics = read_array::<OffsetForLeaderEpochTopicResult>(f, buf)?;
        Ok(OffsetForLeaderEpochResponse {
            throttle_time_ms,
            topics,
        })
    }

    proof fn law_consumes(f: Format, r: Reader) {
        broadcast use group_consumes;

    }

    proof fn law_ignores_what_follows(f: Format, r: Reader, more: Seq<u8>) {
        broadcast use group_consumes, group_followed;

    }

    proof fn law_needs_only_what_it_takes(f: Format, r: Reader, k: nat) {
        broadcast use group_consumes, group_cut;

    }
}

impl OffsetForLeaderEpochResponse {
    /// Decode from version 0+.
    pub fn decode_v0(buf: &mut Bytes) -> (res: Result<Self>)
        ensures
            decoded(
                result_view(res),
                final(buf)@,
                Self::read(Format::plain(0), Reader::on(old(buf)@)),
            ),
    {
        Self::decode_wire(Format::plain(0), buf)
    }

    /// Decode from version 1+ (adds leader_epoch to response).
    pub fn decode_v1(buf: &mut Bytes) -> (res: Result<Self>)
        ensures
            decoded(
                result_view(res),
                final(buf)@,
                Self::read(Format::plain(1), Reader::on(old(buf)@)),
            ),
    {
        Self::decode_wire(Format::plain(1), buf)
    }

    /// Decode from version 2+ (adds throttle_time_ms header).
    pub fn decode_v2(buf: &mut Bytes) -> (res: Result<Self>)
        ensures
            decoded(
                result_view(res),
                final(buf)@,
                Self::read(Format::plain(2), Reader::on(old(buf)@)),
            ),
    {
        Self::decode_wire(Format::plain(2), buf)
    }
}

impl VersionedEncode for OffsetForLeaderEpochRequest {
    open spec fn request_key() -> ApiKey {
        ApiKey::OffsetForLeaderEpoch
    }

    open spec fn encodes(version: i16) -> bool {
        0 <= version <= 3
    }

    open spec fn request_format(version: i16) -> Format {
        match version {
            0 | 1 => Format::plain(0),
            2 => Format::plain(2),
            _ => Format::plain(3),
        }
    }

    open spec fn request_name() -> &'static str {
        "OffsetForLeaderEpochRequest"
    }

    fn encode_versioned(&self, version: i16, buf: &mut BytesMut) -> (res: Result<()>) {
        match version {
            0 | 1 => self.encode_v0(buf),
            2 => self.encode_v2(buf),
            3 => self.encode_v3(buf),
            _ => Err(
                KrafkaError::Protocol(
                    ProtocolErrorKind::Malformed,
                    Reason::UnsupportedEncode("OffsetForLeaderEpochRequest", version),
                ),
            ),
        }
    }

    proof fn law_request_format(&self, version: i16, w: Writer) {
    }

    proof fn law_unsupported_encode(&self, version: i16, w: Writer) {
    }
}

impl VersionedDecode for OffsetForLeaderEpochResponse {
    open spec fn response_key() -> ApiKey {
        ApiKey::OffsetForLeaderEpoch
    }

    open spec fn decodes(version: i16) -> bool {
        0 <= version <= 3
    }

    open spec fn response_format(version: i16) -> Format {
        match version {
            0 => Format::plain(0),
            1 => Format::plain(1),
            _ => Format::plain(2),
        }
    }

    open spec fn response_name() -> &'static str {
        "OffsetForLeaderEpochResponse"
    }

    fn decode_versioned(version: i16, buf: &mut Bytes) -> (res: Result<Self>) {
        match version {
            0 => Self::decode_v0(buf),
            1 => Self::decode_v1(buf),
            2 | 3 => Self::decode_v2(buf),
            _ => Err(
                KrafkaError::Protocol(
                    ProtocolErrorKind::Malformed,
                    Reason::UnsupportedDecode("OffsetForLeaderEpochResponse", version),
                ),
            ),
        }
    }

    proof fn law_response_format(version: i16, r: Reader) {
    }

    proof fn law_unsupported_decode(version: i16, r: Reader) {
    }
}

/// Where the first entry of a partition stands, its offset is found.
proof fn lemma_offset_of(
    partitions: Seq<OffsetFetchResponsePartitionView>,
    partition: i32,
    from: nat,
    k: nat,
)
    requires
        from <= k <= partitions.len(),
        forall|j: int| from <= j < k ==> (#[trigger] partitions[j]).partition_index != partition,
        k < partitions.len() ==> partitions[k as int].partition_index == partition,
    ensures
        offset_of(partitions, partition, from) == (if k < partitions.len() {
            Some(partitions[k as int].committed_offset)
        } else {
            None
        }),
    decreases k - from,
{
    if from < k {
        assert(partitions[from as int].partition_index != partition);
        lemma_offset_of(partitions, partition, from + 1, k);
    }
}

/// Where the first topic of a name stands, offsets are looked up in it.
proof fn lemma_topic_offset_of(
    topics: Seq<OffsetFetchResponseTopicView>,
    topic: Seq<char>,
    partition: i32,
    from: nat,
    i: nat,
)
    requires
        from <= i <= topics.len(),
        forall|j: int| from <= j < i ==> (#[trigger] topics[j]).name != topic,
        i < topics.len() ==> topics[i as int].name == topic,
    ensures
        topic_offset_of(topics, topic, partition, from) == (if i < topics.len() {
            offset_of(topics[i as int].partitions, partition, 0)
        } else {
            None
        }),
    decreases i - from,
{
    if from < i {
        assert(topics[from as int].name != topic);
        lemma_topic_offset_of(topics, topic, partition, from + 1, i);
    }
}

/// An offset is found in the first topic of its name and there in the first entry of
/// its partition; without such a topic or entry there is none.
pub proof fn law_offset_lookup(
    response: OffsetFetchResponse,
    topic: Seq<char>,
    partition: i32,
    i: nat,
    k: nat,
)
    requires
        i <= response.topics@.len(),
        forall|j: int| 0 <= j < i ==> (#[trigger] response.topics@[j]).name@ != topic,
        i < response.topics@.len() ==> {
            let entries = response.topics@[i as int].partitions@;
            &&& response.topics@[i as int].name@ == topic
            &&& k <= entries.len()
            &&& forall|j: int| 0 <= j < k ==> (#[trigger] entries[j]).partition_index != partition
            &&& k < entries.len() ==> entries[k as int].partition_index == partition
        },
    ensures
        topic_offset_of(response@.topics, topic, partition, 0) == (if i < response.topics@.len()
            && k < response.topics@[i as int].partitions@.len() {
            Some(response.topics@[i as int].partitions@[k as int].committed_offset)
        } else {
            None
        }),
{
    let topics = response@.topics;
    assert forall|j: int| 0 <= j < i implies (#[trigger] topics[j]).name != topic by {
        assert(response.topics@[j].name@ != topic);
    }
    lemma_topic_offset_of(topics, topic, partition, 0, i);
    if i < topics.len() {
        let entries = response.topics@[i as int].partitions@;
        let seen = topics[i as int].partitions;
        assert forall|j: int| 0 <= j < k implies (#[trigger] seen[j]).partition_index
            != partition by {
            assert(entries[j].partition_index != partition);
        }
        lemma_offset_of(seen, partition, 0, k);
    }
}

} // verus!
