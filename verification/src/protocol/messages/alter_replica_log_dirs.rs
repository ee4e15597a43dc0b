//! AlterReplicaLogDirs (API key 34).

use crate::buffer::Octets;
use crate::error::{ErrorCode, KrafkaError, ProtocolErrorKind, Reason, Result};
use crate::protocol::api::ApiKey;
use crate::protocol::messages::{VersionedDecode, VersionedEncode};
use crate::protocol::wire::{
    decoded, encoded, fits, group_appends, group_consumes, group_cut, group_followed, group_grows,
    read_array, read_error_code, read_i32, read_string, read_tags, result_view, views, write_array,
    write_string, write_tags, Format, Reader, WireDecode, WireEncode, Writer,
};
use bytes::{Bytes, BytesMut};
use vstd::prelude::*;

verus! {

/// Topic-partitions to move to a specific log directory.
#[derive(Debug, Clone)]
pub struct AlterReplicaLogDirTopic {
    /// Topic name.
    pub name: String,
    /// Partition indexes to move.
    pub partitions: Vec<i32>,
}

impl WireEncode for AlterReplicaLogDirTopic {
    open spec fn written(&self, f: Format, w: Writer) -> Writer {
        let w = w.string(self.name@, f.flexible);
        let w = w.array(self.partitions@, f);
        w.tags(f.flexible)
    }

    proof fn lemma_grows(&self, f: Format, w: Writer) {
        broadcast use group_grows;

    }

    proof fn law_appends(&self, f: Format, w: Writer) {
        broadcast use group_appends;

    }

    fn encode_wire(&self, f: Format, buf: &mut BytesMut) -> (res: Result<()>) {
        broadcast use group_grows;

        write_string(self.name.as_str(), f.flexible, buf)?;
        write_array(&self.partitions, f, buf)?;
        write_tags(f.flexible, buf);
        Ok(())
    }
}

/// A log directory assignment: move the given topic-partitions to `path`.
#[derive(Debug, Clone)]
pub struct AlterReplicaLogDir {
    /// Absolute path of the target log directory on the broker.
    pub path: String,
    /// Topics and partitions to move into this directory.
    pub topics: Vec<AlterReplicaLogDirTopic>,
}

impl WireEncode for AlterReplicaLogDir {
    open spec fn written(&self, f: Format, w: Writer) -> Writer {
        let w = w.string(self.path@, f.flexible);
        let w = w.array(self.topics@, f);
        w.tags(f.flexible)
    }

    proof fn lemma_grows(&self, f: Format, w: Writer) {
        broadcast use group_grows;

    }

    proof fn law_appends(&self, f: Format, w: Writer) {
        broadcast use group_appends;

    }

    fn encode_wire(&self, f: Format, buf: &mut BytesMut) -> (res: Result<()>) {
        broadcast use group_grows;

        write_string(self.path.as_str(), f.flexible, buf)?;
        write_array(&self.topics, f, buf)?;
        write_tags(f.flexible, buf);
        Ok(())
    }
}

/// AlterReplicaLogDirs request.
#[derive(Debug, Clone)]
pub struct AlterReplicaLogDirsRequest {
    /// Log directory assignments.
    pub dirs: Vec<AlterReplicaLogDir>,
}

impl AlterReplicaLogDirsRequest {
    /// Get the API key.
    pub fn api_key() -> (r: ApiKey)
        ensures
            r == ApiKey::AlterReplicaLogDirs,
    {
        ApiKey::AlterReplicaLogDirs
    }
}

impl WireEncode for AlterReplicaLogDirsRequest {
    open spec fn written(&self, f: Format, w: Writer) -> Writer {
        let w = w.array(self.dirs@, f);
        w.tags(f.flexible)
    }

    proof fn lemma_grows(&self, f: Format, w: Writer) {
        broadcast use group_grows;

    }

    proof fn law_appends(&self, f: Format, w: Writer) {
        broadcast use group_appends;

    }

    fn encode_wire(&self, f: Format, buf: &mut BytesMut) -> (res: Result<()>) {
        broadcast use group_grows;

        write_array(&self.dirs, f, buf)?;
        write_tags(f.flexible, buf);
        Ok(())
    }
}

impl AlterReplicaLogDirsRequest {
    /// Encode for version 1 (non-flexible).
    pub fn encode_v1(&self, buf: &mut BytesMut) -> (res: Result<()>)
        requires
            fits(self.written(Format::plain(1), Writer::at(old(buf)@))),
        ensures
            encoded(res, final(buf)@, self.written(Format::plain(1), Writer::at(old(buf)@))),
    {
        self.encode_wire(Format::plain(1), buf)
    }

    /// Encode for version 2 (flexible encoding).
    pub fn encode_v2(&self, buf: &mut BytesMut) -> (res: Result<()>)
        requires
            fits(self.written(Format::flexible(2), Writer::at(old(buf)@))),
        ensures
            encoded(res, final(buf)@, self.written(Format::flexible(2), Writer::at(old(buf)@))),
    {
        self.encode_wire(Format::flexible(2), buf)
    }
}

/// Per-partition result from AlterReplicaLogDirs.
#[derive(Debug, Clone)]
pub struct AlterReplicaLogDirsPartitionResult {
    /// Partition index.
    pub partition_index: i32,
    /// Error code.
    pub error_code: ErrorCode,
}

impl View for AlterReplicaLogDirsPartitionResult {
    type V = AlterReplicaLogDirsPartitionResult;

    open spec fn view(&self) -> AlterReplicaLogDirsPartitionResult {
        *self
    }
}

impl WireDecode for AlterReplicaLogDirsPartitionResult {
    open spec fn read(f: Format, r: Reader) -> (AlterReplicaLogDirsPartitionResult, Reader) {
        let (partition_index, r) = r.i32();
        let (error_code, r) = r.error_code();
        let r = r.tags(f.flexible);
        let value = AlterReplicaLogDirsPartitionResult {
            partition_index,
            error_code,
        };
        (value, r)
    }

    fn decode_wire(f: Format, buf: &mut Bytes) -> (res: Result<Self>) {
        let partition_index = read_i32(buf)?;
        let error_code = read_error_code(buf)?;
        read_tags(f.flexible, buf)?;
        Ok(AlterReplicaLogDirsPartitionResult {
            partition_index,
            error_code,
        })
    }

    proof fn law_consumes(f: Format, r: Reader) {
        broadcast use group_consumes;

    }

    proof fn law_ignores_what_follows(f: Format, r: Reader, more: Seq<u8>) {
        broadcast use group_consumes, group_followed;

    }

    proof fn law_needs_only_what_it_takes(f: Format, r: Reader, k: nat) {
        broadcast use group_consumes, group_cut;

    }
}

/// Per-topic result from AlterReplicaLogDirs.
#[derive(Debug, Clone)]
pub struct AlterReplicaLogDirsTopicResult {
    /// Topic name.
    pub topic_name: String,
    /// Per-partition results.
    pub partitions: Vec<AlterReplicaLogDirsPartitionResult>,
}

/// What a [`AlterReplicaLogDirsTopicResult`] holds.
pub struct AlterReplicaLogDirsTopicResultView {
    /// Topic name.
    pub topic_name: Seq<char>,
    /// Per-partition results.
    pub partitions: Seq<AlterReplicaLogDirsPartitionResult>,
}

impl View for AlterReplicaLogDirsTopicResult {
    type V = AlterReplicaLogDirsTopicResultView;

    open spec fn view(&self) -> AlterReplicaLogDirsTopicResultView {
        AlterReplicaLogDirsTopicResultView {
            topic_name: self.topic_name@,
            partitions: views(self.partitions@),
        }
    }
}

impl WireDecode for AlterReplicaLogDirsTopicResult {
    open spec fn read(f: Format, r: Reader) -> (AlterReplicaLogDirsTopicResultView, Reader) {
        let (topic_name, r) = r.string("topic_name", f.flexible);
        let (partitions, r) = r.array::<AlterReplicaLogDirsPartitionResult>(f);
        let r = r.tags(f.flexible);
        let value = AlterReplicaLogDirsTopicResultView {
            topic_name,
            partitions,
        };
        (value, r)
    }

    fn decode_wire(f: Format, buf: &mut Bytes) -> (res: Result<Self>) {
        let topic_name = read_string("topic_name", f.flexible, buf)?;
        let partitions = read_array::<AlterReplicaLogDirsPartitionResult>(f, buf)?;
        read_tags(f.flexible, buf)?;
        Ok(AlterReplicaLogDirsTopicResult {
            topic_name,
            partitions,
        })
    }

    proof fn law_consumes(f: Format, r: Reader) {
        broadcast use group_consumes;

    }

    proof fn law_ignores_what_follows(f: Format, r: Reader, more: Seq<u8>) {
        broadcast use group_consumes, group_followed;

    }

    proof fn law_needs_only_what_it_takes(f: Format, r: Reader, k: nat) {
        broadcast use group_consumes, group_cut;

    }
}

/// AlterReplicaLogDirs response.
#[derive(Debug, Clone)]
pub struct AlterReplicaLogDirsResponse {
    /// Throttle time in milliseconds.
    pub throttle_time_ms: i32,
    /// Per-topic results.
    pub results: Vec<AlterReplicaLogDirsTopicResult>,
}

/// What a [`AlterReplicaLogDirsResponse`] holds.
pub struct AlterReplicaLogDirsResponseView {
    /// Throttle time in milliseconds.
    pub throttle_time_ms: i32,
    /// Per-topic results.
    pub results: Seq<AlterReplicaLogDirsTopicResultView>,
}

impl View for AlterReplicaLogDirsResponse {
    type V = AlterReplicaLogDirsResponseView;

    open spec fn view(&self) -> AlterReplicaLogDirsResponseView {
        AlterReplicaLogDirsResponseView {
            throttle_time_ms: self.throttle_time_ms,
            results: views(self.results@),
        }
    }
}

impl WireDecode for AlterReplicaLogDirsResponse {
    open spec fn read(f: Format, r: Reader) -> (AlterReplicaLogDirsResponseView, Reader) {
        let (throttle_time_ms, r) = r.i32();
        let (results, r) = r.array::<AlterReplicaLogDirsTopicResult>(f);
        let r = r.tags(f.flexible);
        let value = AlterReplicaLogDirsResponseView {
            throttle_time_ms,
            results,
        };
        (value, r)
    }

    fn decode_wire(f: Format, buf: &mut Bytes) -> (res: Result<Self>) {
        let throttle_time_ms = read_i32(buf)?;
        let results = read_array::<AlterReplicaLogDirsTopicResult>(f, buf)?;
        read_tags(f.flexible, buf)?;
        Ok(AlterReplicaLogDirsResponse {
            throttle_time_ms,
            results,
        })
    }

    proof fn law_consumes(f: Format, r: Reader) {
        broadcast use group_consumes;

    }

    proof fn law_ignores_what_follows(f: Format, r: Reader, more: Seq<u8>) {
        broadcast use group_consumes, group_followed;

    }

    proof fn law_needs_only_what_it_takes(f: Format, r: Reader, k: nat) {
        broadcast use group_consumes, group_cut;

    }
}

impl AlterReplicaLogDirsResponse {
    /// Decode from version 1 (non-flexible).
    pub fn decode_v1(buf: &mut Bytes) -> (res: Result<Self>)
        ensures
            decoded(
                result_view(res),
                final(buf)@,
                Self::read(Format::plain(1), Reader::on(old(buf)@)),
            ),
    {
        Self::decode_wire(Format::plain(1), buf)
    }

    /// Decode from version 2 (flexible encoding).
    pub fn decode_v2(buf: &mut Bytes) -> (res: Result<Self>)
        ensures
            decoded(
                result_view(res),
                final(buf)@,
                Self::read(Format::flexible(2), Reader::on(old(buf)@)),
            ),
    {
        Self::decode_wire(Format::flexible(2), buf)
    }
}

impl VersionedEncode for AlterReplicaLogDirsRequest {
    open spec fn request_key() -> ApiKey {
        ApiKey::AlterReplicaLogDirs
    }

    open spec fn encodes(version: i16) -> bool {
        1 <= version <= 2
    }

    open spec fn request_format(version: i16) -> Format {
        match version {
            1 => Format::plain(1),
            _ => Format::flexible(2),
        }
    }

    open spec fn request_name() -> &'static str {
        "AlterReplicaLogDirsRequest"
    }

    fn encode_versioned(&self, version: i16, buf: &mut BytesMut) -> (res: Result<()>) {
        match version {
            1 => self.encode_v1(buf),
            2 => self.encode_v2(buf),
            _ => Err(
                KrafkaError::Protocol(
                    ProtocolErrorKind::Malformed,
                    Reason::UnsupportedEncode("AlterReplicaLogDirsRequest", version),
                ),
            ),
        }
    }

    proof fn law_request_format(&self, version: i16, w: Writer) {
    }

    proof fn law_unsupported_encode(&self, version: i16, w: Writer) {
    }
}

impl VersionedDecode for AlterReplicaLogDirsResponse {
    open spec fn response_key() -> ApiKey {
        ApiKey::AlterReplicaLogDirs
    }

    open spec fn decodes(version: i16) -> bool {
        1 <= version <= 2
    }

    open spec fn response_format(version: i16) -> Format {
        match version {
            1 => Format::plain(1),
            _ => Format::flexible(2),
        }
    }

    open spec fn response_name() -> &'static str {
        "AlterReplicaLogDirsResponse"
    }

    fn decode_versioned(version: i16, buf: &mut Bytes) -> (res: Result<Self>) {
        match version {
            1 => Self::decode_v1(buf),
            2 => Self::decode_v2(buf),
            _ => Err(
                KrafkaError::Protocol(
                    ProtocolErrorKind::Malformed,
                    Reason::UnsupportedDecode("AlterReplicaLogDirsResponse", version),
                ),
            ),
        }
    }

    proof fn law_response_format(version: i16, r: Reader) {
    }

    proof fn law_unsupported_decode(version: i16, r: Reader) {
    }
}

} // verus!
