//! AlterPartitionReassignments (API key 45).

use crate::buffer::Octets;
use crate::error::{ErrorCode, KrafkaError, ProtocolErrorKind, Reason, Result};
use crate::protocol::api::ApiKey;
use crate::protocol::messages::{VersionedDecode, VersionedEncode};
use crate::protocol::wire::{
    decoded, encoded, fits, group_appends, group_consumes, group_cut, group_followed, group_grows,
    optional_text, read_array, read_bool, read_error_code, read_i32, read_nullable_string,
    read_string, read_tags, result_view, views, write_array, write_bool, write_i32,
    write_optional_array, write_string, write_tags, Format, Reader, WireDecode, WireEncode, Writer,
};
use bytes::{Bytes, BytesMut};
use vstd::prelude::*;

verus! {

/// A partition reassignment specification.
#[derive(Debug, Clone)]
pub struct ReassignablePartition {
    /// Partition index.
    pub partition_index: i32,
    /// Target replica set, or `None` to cancel a pending reassignment.
    pub replicas: Option<Vec<i32>>,
}

impl WireEncode for ReassignablePartition {
    open spec fn written(&self, f: Format, w: Writer) -> Writer {
        let w = w.i32(self.partition_index);
        let w = w.optional_array(self.replicas, f);
        w.tags(f.flexible)
    }

    proof fn lemma_grows(&self, f: Format, w: Writer) {
        broadcast use group_grows;

    }

    proof fn law_appends(&self, f: Format, w: Writer) {
        broadcast use group_appends;

    }

    fn encode_wire(&self, f: Format, buf: &mut BytesMut) -> (res: Result<()>) {
        broadcast use group_grows;

        write_i32(self.partition_index, buf);
        write_optional_array(&self.replicas, f, buf)?;
        write_tags(f.flexible, buf);
        Ok(())
    }
}

/// A topic with partitions to reassign.
#[derive(Debug, Clone)]
pub struct ReassignableTopic {
    /// Topic name.
    pub name: String,
    /// Partitions to reassign.
    pub partitions: Vec<ReassignablePartition>,
}

impl WireEncode for ReassignableTopic {
    open spec fn written(&self, f: Format, w: Writer) -> Writer {
        let w = w.string(self.name@, f.flexible);
        let w = w.array(self.partitions@, f);
        w.tags(f.flexible)
    }

    proof fn lemma_grows(&self, f: Format, w: Writer) {
        broadcast use group_grows;

    }

    proof fn law_appends(&self, f: Format, w: Writer) {
        broadcast use group_appends;

    }

    fn encode_wire(&self, f: Format, buf: &mut BytesMut) -> (res: Result<()>) {
        broadcast use group_grows;

        write_string(self.name.as_str(), f.flexible, buf)?;
        write_array(&self.partitions, f, buf)?;
        write_tags(f.flexible, buf);
        Ok(())
    }
}

/// AlterPartitionReassignments request.
#[derive(Debug, Clone)]
pub struct AlterPartitionReassignmentsRequest {
    /// Timeout in milliseconds.
    pub timeout_ms: i32,
    /// Whether a reassignment may change a partition's replication factor
    /// (v1+, Kafka 4.1).
    ///
    /// `true` - the broker default and the v0 behaviour - accepts a target
    /// replica set of a different size than the current one, silently changing
    /// the topic's replication factor.
    ///
    /// `false` asks the broker to reject any such move with
    /// `INVALID_REPLICATION_FACTOR` instead. That is the safer choice for a
    /// rebalance tool: an off-by-one in a generated reassignment plan then
    /// fails loudly rather than quietly reducing durability.
    ///
    /// Ignored when the negotiated version is v0, where the field does not
    /// exist on the wire.
    pub allow_replication_factor_change: bool,
    /// Topics to reassign.
    pub topics: Vec<ReassignableTopic>,
}

impl AlterPartitionReassignmentsRequest {
    /// Get the API key.
    pub fn api_key() -> (r: ApiKey)
        ensures
            r == ApiKey::AlterPartitionReassignments,
    {
        ApiKey::AlterPartitionReassignments
    }
}

impl WireEncode for AlterPartitionReassignmentsRequest {
    open spec fn written(&self, f: Format, w: Writer) -> Writer {
        let w = w.i32(self.timeout_ms);
        let w = if f.version >= 1 {
            w.bool(self.allow_replication_factor_change)
        } else {
            w
        };
        let w = w.array(self.topics@, f);
        w.tags(f.flexible)
    }

    proof fn lemma_grows(&self, f: Format, w: Writer) {
        broadcast use group_grows;

    }

    proof fn law_appends(&self, f: Format, w: Writer) {
        broadcast use group_appends;

    }

    fn encode_wire(&self, f: Format, buf: &mut BytesMut) -> (res: Result<()>) {
        broadcast use group_grows;

        write_i32(self.timeout_ms, buf);
        if f.version >= 1 {
            write_bool(self.allow_replication_factor_change, buf);
        }
        write_array(&self.topics, f, buf)?;
        write_tags(f.flexible, buf);
        Ok(())
    }
}

impl AlterPartitionReassignmentsRequest {
    /// Encode for version 0 (flexible encoding).
    pub fn encode_v0(&self, buf: &mut BytesMut) -> (res: Result<()>)
        requires
            fits(self.written(Format::flexible(0), Writer::at(old(buf)@))),
        ensures
            encoded(res, final(buf)@, self.written(Format::flexible(0), Writer::at(old(buf)@))),
    {
        self.encode_wire(Format::flexible(0), buf)
    }

    /// Encode for version 1 (adds `AllowReplicationFactorChange`).
    pub fn encode_v1(&self, buf: &mut BytesMut) -> (res: Result<()>)
        requires
            fits(self.written(Format::flexible(1), Writer::at(old(buf)@))),
        ensures
            encoded(res, final(buf)@, self.written(Format::flexible(1), Writer::at(old(buf)@))),
    {
        self.encode_wire(Format::flexible(1), buf)
    }
}

/// Per-partition reassignment result.
#[derive(Debug, Clone)]
pub struct ReassignablePartitionResponse {
    /// Partition index.
    pub partition_index: i32,
    /// Error code for this partition.
    pub error_code: ErrorCode,
    /// Error message, or `None` if successful.
    pub error_message: Option<String>,
}

/// What a [`ReassignablePartitionResponse`] holds.
pub struct ReassignablePartitionResponseView {
    /// Partition index.
    pub partition_index: i32,
    /// Error code for this partition.
    pub error_code: ErrorCode,
    /// Error message, or `None` if successful.
    pub error_message: Option<Seq<char>>,
}

impl View for ReassignablePartitionResponse {
    type V = ReassignablePartitionResponseView;

    open spec fn view(&self) -> ReassignablePartitionResponseView {
        ReassignablePartitionResponseView {
            partition_index: self.partition_index,
            error_code: self.error_code,
            error_message: optional_text(self.error_message),
        }
    }
}

impl WireDecode for ReassignablePartitionResponse {
    open spec fn read(f: Format, r: Reader) -> (ReassignablePartitionResponseView, Reader) {
        let (partition_index, r) = r.i32();
        let (error_code, r) = r.error_code();
        let (error_message, r) = r.nullable_string(f.flexible);
        let r = r.tags(f.flexible);
        let value = ReassignablePartitionResponseView {
            partition_index,
            error_code,
            error_message,
        };
        (value, r)
    }

    fn decode_wire(f: Format, buf: &mut Bytes) -> (res: Result<Self>) {
        let partition_index = read_i32(buf)?;
        let error_code = read_error_code(buf)?;
        let error_message = read_nullable_string(f.flexible, buf)?;
        read_tags(f.flexible, buf)?;
        Ok(ReassignablePartitionResponse {
            partition_index,
            error_code,
            error_message,
        })
    }

    proof fn law_consumes(f: Format, r: Reader) {
        broadcast use group_consumes;

    }

    proof fn law_ignores_what_follows(f: Format, r: Reader, more: Seq<u8>) {
        broadcast use group_consumes, group_followed;

    }

    proof fn law_needs_only_what_it_takes(f: Format, r: Reader, k: nat) {
        broadcast use group_consumes, group_cut;

    }
}

/// Per-topic reassignment result.
#[derive(Debug, Clone)]
pub struct ReassignableTopicResponse {
    /// Topic name.
    pub name: String,
    /// Partition results.
    pub partitions: Vec<ReassignablePartitionResponse>,
}

/// What a [`ReassignableTopicResponse`] holds.
pub struct ReassignableTopicResponseView {
    /// Topic name.
    pub name: Seq<char>,
    /// Partition results.
    pub partitions: Seq<ReassignablePartitionResponseView>,
}

impl View for ReassignableTopicResponse {
    type V = ReassignableTopicResponseView;

    open spec fn view(&self) -> ReassignableTopicResponseView {
        ReassignableTopicResponseView {
            name: self.name@,
            partitions: views(self.partitions@),
        }
    }
}

impl WireDecode for ReassignableTopicResponse {
    open spec fn read(f: Format, r: Reader) -> (ReassignableTopicResponseView, Reader) {
        let (name, r) = r.string("topic name", f.flexible);
        let (partitions, r) = r.array::<ReassignablePartitionResponse>(f);
        let r = r.tags(f.flexible);
        let value = ReassignableTopicResponseView {
            name,
            partitions,
        };
        (value, r)
    }

    fn decode_wire(f: Format, buf: &mut Bytes) -> (res: Result<Self>) {
        let name = read_string("topic name", f.flexible, buf)?;
        let partitions = read_array::<ReassignablePartitionResponse>(f, buf)?;
        read_tags(f.flexible, buf)?;
        Ok(ReassignableTopicResponse {
            name,
            partitions,
        })
    }

    proof fn law_consumes(f: Format, r: Reader) {
        broadcast use group_consumes;

    }

    proof fn law_ignores_what_follows(f: Format, r: Reader, more: Seq<u8>) {
        broadcast use group_consumes, group_followed;

    }

    proof fn law_needs_only_what_it_takes(f: Format, r: Reader, k: nat) {
        broadcast use group_consumes, group_cut;

    }
}

/// AlterPartitionReassignments response.
#[derive(Debug, Clone)]
pub struct AlterPartitionReassignmentsResponse {
    /// Throttle time in milliseconds.
    pub throttle_time_ms: i32,
    /// Top-level error code.
    pub error_code: ErrorCode,
    /// Top-level error message, or `None` if no error.
    pub error_message: Option<String>,
    /// v1+: the `AllowReplicationFactorChange` value the broker actually
    /// applied. Always `true` at v0, where the field does not exist and the
    /// broker's behaviour is unconditionally "allowed".
    pub allow_replication_factor_change: bool,
    /// Per-topic results.
    pub responses: Vec<ReassignableTopicResponse>,
}

/// What a [`AlterPartitionReassignmentsResponse`] holds.
pub struct AlterPartitionReassignmentsResponseView {
    /// Throttle time in milliseconds.
    pub throttle_time_ms: i32,
    /// Top-level error code.
    pub error_code: ErrorCode,
    /// Top-level error message, or `None` if no error.
    pub error_message: Option<Seq<char>>,
    /// v1+: the `AllowReplicationFactorChange` value the broker actually
    /// applied; `true` at v0.
    pub allow_replication_factor_change: bool,
    /// Per-topic results.
    pub responses: Seq<ReassignableTopicResponseView>,
}

impl View for AlterPartitionReassignmentsResponse {
    type V = AlterPartitionReassignmentsResponseView;

    open spec fn view(&self) -> AlterPartitionReassignmentsResponseView {
        AlterPartitionReassignmentsResponseView {
            throttle_time_ms: self.throttle_time_ms,
            error_code: self.error_code,
            error_message: optional_text(self.error_message),
            allow_replication_factor_change: self.allow_replication_factor_change,
            responses: views(self.responses@),
        }
    }
}

impl WireDecode for AlterPartitionReassignmentsResponse {
    open spec fn read(f: Format, r: Reader) -> (AlterPartitionReassignmentsResponseView, Reader) {
        let (throttle_time_ms, r) = r.i32();
        let (allow_replication_factor_change, r) = if f.version >= 1 {
            r.bool()
        } else {
            (true, r)
        };
        let (error_code, r) = r.error_code();
        let (error_message, r) = r.nullable_string(f.flexible);
        let (responses, r) = r.array::<ReassignableTopicResponse>(f);
        let r = r.tags(f.flexible);
        let value = AlterPartitionReassignmentsResponseView {
            throttle_time_ms,
            error_code,
            error_message,
            allow_replication_factor_change,
            responses,
        };
        (value, r)
    }

    fn decode_wire(f: Format, buf: &mut Bytes) -> (res: Result<Self>) {
        let throttle_time_ms = read_i32(buf)?;
        let allow_replication_factor_change: bool = if f.version >= 1 {
            read_bool(buf)?
        } else {
            true
        };
        let error_code = read_error_code(buf)?;
        let error_message = read_nullable_string(f.flexible, buf)?;
        let responses = read_array::<ReassignableTopicResponse>(f, buf)?;
        read_tags(f.flexible, buf)?;
        Ok(AlterPartitionReassignmentsResponse {
            throttle_time_ms,
            error_code,
            error_message,
            allow_replication_factor_change,
            responses,
        })
    }

    proof fn law_consumes(f: Format, r: Reader) {
        broadcast use group_consumes;

    }

    proof fn law_ignores_what_follows(f: Format, r: Reader, more: Seq<u8>) {
        broadcast use group_consumes, group_followed;

    }

    proof fn law_needs_only_what_it_takes(f: Format, r: Reader, k: nat) {
        broadcast use group_consumes, group_cut;

    }
}

impl AlterPartitionReassignmentsResponse {
    /// Decode from version 0 (flexible encoding).
    pub fn decode_v0(buf: &mut Bytes) -> (res: Result<Self>)
        ensures
            decoded(
                result_view(res),
                final(buf)@,
                Self::read(Format::flexible(0), Reader::on(old(buf)@)),
            ),
    {
        Self::decode_wire(Format::flexible(0), buf)
    }

    /// Decode from version 1 (adds `AllowReplicationFactorChange`).
    pub fn decode_v1(buf: &mut Bytes) -> (res: Result<Self>)
        ensures
            decoded(
                result_view(res),
                final(buf)@,
                Self::read(Format::flexible(1), Reader::on(old(buf)@)),
            ),
    {
        Self::decode_wire(Format::flexible(1), buf)
    }
}

impl VersionedEncode for AlterPartitionReassignmentsRequest {
    open spec fn request_key() -> ApiKey {
        ApiKey::AlterPartitionReassignments
    }

    open spec fn encodes(version: i16) -> bool {
        0 <= version <= 1
    }

    open spec fn request_format(version: i16) -> Format {
        match version {
            0 => Format::flexible(0),
            _ => Format::flexible(1),
        }
    }

    open spec fn request_name() -> &'static str {
        "AlterPartitionReassignmentsRequest"
    }

    fn encode_versioned(&self, version: i16, buf: &mut BytesMut) -> (res: Result<()>) {
        match version {
            0 => self.encode_v0(buf),
            1 => self.encode_v1(buf),
            _ => Err(
                KrafkaError::Protocol(
                    ProtocolErrorKind::Malformed,
                    Reason::UnsupportedEncode("AlterPartitionReassignmentsRequest", version),
                ),
            ),
        }
    }

    proof fn law_request_format(&self, version: i16, w: Writer) {
    }

    proof fn law_unsupported_encode(&self, version: i16, w: Writer) {
    }
}

impl VersionedDecode for AlterPartitionReassignmentsResponse {
    open spec fn response_key() -> ApiKey {
        ApiKey::AlterPartitionReassignments
    }

    open spec fn decodes(version: i16) -> bool {
        0 <= version <= 1
    }

    open spec fn response_format(version: i16) -> Format {
        match version {
            0 => Format::flexible(0),
            _ => Format::flexible(1),
        }
    }

    open spec fn response_name() -> &'static str {
        "AlterPartitionReassignmentsResponse"
    }

    fn decode_versioned(version: i16, buf: &mut Bytes) -> (res: Result<Self>) {
        match version {
            0 => Self::decode_v0(buf),
            1 => Self::decode_v1(buf),
            _ => Err(
                KrafkaError::Protocol(
                    ProtocolErrorKind::Malformed,
                    Reason::UnsupportedDecode("AlterPartitionReassignmentsResponse", version),
                ),
            ),
        }
    }

    proof fn law_response_format(version: i16, r: Reader) {
    }

    proof fn law_unsupported_decode(version: i16, r: Reader) {
    }
}

/// Replicas are written alike in every version.
proof fn lemma_replicas_alike(w: Writer, replicas: Seq<i32>, f: Format, g: Format, n: nat)
    ensures
        w.items(replicas, f, n) == w.items(replicas, g, n),
    decreases n,
{
    if n > 0 {
        lemma_replicas_alike(w, replicas, f, g, (n - 1) as nat);
    }
}

/// Partitions are written alike in every version.
proof fn lemma_partitions_alike(
    w: Writer,
    partitions: Seq<ReassignablePartition>,
    f: Format,
    g: Format,
    n: nat,
)
    requires
        f.flexible == g.flexible,
    ensures
        w.items(partitions, f, n) == w.items(partitions, g, n),
    decreases n,
{
    if n > 0 {
        lemma_partitions_alike(w, partitions, f, g, (n - 1) as nat);
        let before = w.items(partitions, f, (n - 1) as nat);
        let indexed = before.i32(partitions[n - 1].partition_index);
        if let Some(replicas) = partitions[n - 1].replicas {
            let count = replicas@.len();
            lemma_replicas_alike(indexed.array_len(count, f.flexible), replicas@, f, g, count);
        }
    }
}

/// Topics are written alike in every version.
proof fn lemma_topics_alike(
    w: Writer,
    topics: Seq<ReassignableTopic>,
    f: Format,
    g: Format,
    n: nat,
)
    requires
        f.flexible == g.flexible,
    ensures
        w.items(topics, f, n) == w.items(topics, g, n),
    decreases n,
{
    if n > 0 {
        lemma_topics_alike(w, topics, f, g, (n - 1) as nat);
        let before = w.items(topics, f, (n - 1) as nat);
        let partitions = topics[n - 1].partitions@;
        let named = before.string(topics[n - 1].name@, f.flexible);
        lemma_partitions_alike(
            named.array_len(partitions.len(), f.flexible),
            partitions,
            f,
            g,
            partitions.len(),
        );
    }
}

/// Version 1 of the request has one byte behind the timeout that version 0 has not.
pub proof fn law_reassignment_request_adds_a_byte(
    request: AlterPartitionReassignmentsRequest,
    w: Writer,
)
    ensures
        request.written_versioned(0, w) == w.i32(request.timeout_ms).array(
            request.topics@,
            Format::flexible(0),
        ).tags(true),
        request.written_versioned(1, w) == w.i32(request.timeout_ms).bool(
            request.allow_replication_factor_change,
        ).array(request.topics@, Format::flexible(0)).tags(true),
{
    let flagged = w.i32(request.timeout_ms).bool(request.allow_replication_factor_change);
    let n = request.topics@.len();
    lemma_topics_alike(
        flagged.array_len(n, true),
        request.topics@,
        Format::flexible(1),
        Format::flexible(0),
        n,
    );
}

/// A response of version 0 says that the replication factor may change, since the
/// field is not there.
pub proof fn law_reassignment_response_default(r: Reader)
    ensures
        AlterPartitionReassignmentsResponse::read_versioned(
            0,
            r,
        ).0.allow_replication_factor_change,
{
}

} // verus!
