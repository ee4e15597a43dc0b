//! Consumer group coordination.

use crate::buffer::{as_slice, Octets};
use crate::error::{ErrorCode, KrafkaError, ProtocolErrorKind, Reason, Result};
use crate::protocol::api::ApiKey;
use crate::protocol::messages::{VersionedDecode, VersionedEncode};
use crate::protocol::wire::{
    decoded, encoded, fits, group_appends, group_consumes, group_cut, group_followed, group_grows,
    no_items, optional_text, read_array, read_bytes_or_empty, read_error_code, read_i32,
    read_nullable_string, read_string_or_empty, result_view, views, write_array, write_bytes,
    write_i32, write_i8, write_nullable_string, write_string, Format, Reader, WireDecode,
    WireEncode, Writer,
};
use bytes::{Bytes, BytesMut};
use vstd::prelude::*;

verus! {

/// Find coordinator request.
#[derive(Debug, Clone)]
pub struct FindCoordinatorRequest {
    /// Key (group ID or transactional ID).
    pub key: String,
    /// Key type (0 = group, 1 = txn).
    pub key_type: i8,
}

impl FindCoordinatorRequest {
    /// Create a request for a consumer group.
    pub fn for_group(group_id: &str) -> (r: Self)
        ensures
            r.key@ == group_id@,
            r.key_type == 0,
    {
        FindCoordinatorRequest {
            key: group_id.to_owned(),
            key_type: 0,
        }
    }
}

impl FindCoordinatorRequest {
    /// Create a request for a transaction.
    pub fn for_transaction(transactional_id: &str) -> (r: Self)
        ensures
            r.key@ == transactional_id@,
            r.key_type == 1,
    {
        FindCoordinatorRequest {
            key: transactional_id.to_owned(),
            key_type: 1,
        }
    }
}

impl FindCoordinatorRequest {
    /// Get the API key.
    pub fn api_key() -> (r: ApiKey)
        ensures
            r == ApiKey::FindCoordinator,
    {
        ApiKey::FindCoordinator
    }
}

impl WireEncode for FindCoordinatorRequest {
    open spec fn written(&self, f: Format, w: Writer) -> Writer {
        let w = w.string(self.key@, f.flexible);
        if f.version >= 1 {
            w.i8(self.key_type)
        } else {
            w
        }
    }

    proof fn lemma_grows(&self, f: Format, w: Writer) {
        broadcast use group_grows;

    }

    proof fn law_appends(&self, f: Format, w: Writer) {
        broadcast use group_appends;

    }

    fn encode_wire(&self, f: Format, buf: &mut BytesMut) -> (res: Result<()>) {
        broadcast use group_grows;

        write_string(self.key.as_str(), f.flexible, buf)?;
        if f.version >= 1 {
            write_i8(self.key_type, buf);
        }
        Ok(())
    }
}

impl FindCoordinatorRequest {
    /// Encode for version 0.
    pub fn encode_v0(&self, buf: &mut BytesMut) -> (res: Result<()>)
        requires
            fits(self.written(Format::plain(0), Writer::at(old(buf)@))),
        ensures
            encoded(res, final(buf)@, self.written(Format::plain(0), Writer::at(old(buf)@))),
    {
        self.encode_wire(Format::plain(0), buf)
    }

    /// Encode for version 1+.
    pub fn encode_v1(&self, buf: &mut BytesMut) -> (res: Result<()>)
        requires
            fits(self.written(Format::plain(1), Writer::at(old(buf)@))),
        ensures
            encoded(res, final(buf)@, self.written(Format::plain(1), Writer::at(old(buf)@))),
    {
        self.encode_wire(Format::plain(1), buf)
    }
}

/// Find coordinator response.
#[derive(Debug, Clone)]
pub struct FindCoordinatorResponse {
    /// Throttle time.
    pub throttle_time_ms: i32,
    /// Error code.
    pub error_code: ErrorCode,
    /// Error message.
    pub error_message: Option<String>,
    /// Coordinator node ID.
    pub node_id: i32,
    /// Coordinator host.
    pub host: String,
    /// Coordinator port.
    pub port: i32,
}

/// What a [`FindCoordinatorResponse`] holds.
pub struct FindCoordinatorResponseView {
    /// Throttle time.
    pub throttle_time_ms: i32,
    /// Error code.
    pub error_code: ErrorCode,
    /// Error message.
    pub error_message: Option<Seq<char>>,
    /// Coordinator node ID.
    pub node_id: i32,
    /// Coordinator host.
    pub host: Seq<char>,
    /// Coordinator port.
    pub port: i32,
}

impl View for FindCoordinatorResponse {
    type V = FindCoordinatorResponseView;

    open spec fn view(&self) -> FindCoordinatorResponseView {
        FindCoordinatorResponseView {
            throttle_time_ms: self.throttle_time_ms,
            error_code: self.error_code,
            error_message: optional_text(self.error_message),
            node_id: self.node_id,
            host: self.host@,
            port: self.port,
        }
    }
}

impl WireDecode for FindCoordinatorResponse {
    open spec fn read(f: Format, r: Reader) -> (FindCoordinatorResponseView, Reader) {
        let (throttle_time_ms, r) = if f.version >= 1 {
            r.i32()
        } else {
            (0, r)
        };
        let (error_code, r) = r.error_code();
        let (error_message, r) = if f.version >= 1 {
            r.nullable_string(f.flexible)
        } else {
            (None, r)
        };
        let (node_id, r) = r.i32();
        let (host, r) = r.string_or_empty(f.flexible);
        let (port, r) = r.i32();
        let value = FindCoordinatorResponseView {
            throttle_time_ms,
            error_code,
            error_message,
            node_id,
            host,
            port,
        };
        (value, r)
    }

    fn decode_wire(f: Format, buf: &mut Bytes) -> (res: Result<Self>) {
        let throttle_time_ms: i32 = if f.version >= 1 {
            read_i32(buf)?
        } else {
            0
        };
        let error_code = read_error_code(buf)?;
        let error_message: Option<String> = if f.version >= 1 {
            read_nullable_string(f.flexible, buf)?
        } else {
            None
        };
        let node_id = read_i32(buf)?;
        let host = read_string_or_empty(f.flexible, buf)?;
        let port = read_i32(buf)?;
        Ok(FindCoordinatorResponse {
            throttle_time_ms,
            error_code,
            error_message,
            node_id,
            host,
            port,
        })
    }

    proof fn law_consumes(f: Format, r: Reader) {
        broadcast use group_consumes;

    }

    proof fn law_ignores_what_follows(f: Format, r: Reader, more: Seq<u8>) {
        broadcast use group_consumes, group_followed;

    }

    proof fn law_needs_only_what_it_takes(f: Format, r: Reader, k: nat) {
        broadcast use group_consumes, group_cut;

    }
}

impl FindCoordinatorResponse {
    /// Decode from version 0.
    pub fn decode_v0(buf: &mut Bytes) -> (res: Result<Self>)
        ensures
            decoded(
                result_view(res),
                final(buf)@,
                Self::read(Format::plain(0), Reader::on(old(buf)@)),
            ),
    {
        Self::decode_wire(Format::plain(0), buf)
    }

    /// Decode from version 1+.
    pub fn decode_v1(buf: &mut Bytes) -> (res: Result<Self>)
        ensures
            decoded(
                result_view(res),
                final(buf)@,
                Self::read(Format::plain(1), Reader::on(old(buf)@)),
            ),
    {
        Self::decode_wire(Format::plain(1), buf)
    }
}

impl VersionedEncode for FindCoordinatorRequest {
    open spec fn request_key() -> ApiKey {
        ApiKey::FindCoordinator
    }

    open spec fn encodes(version: i16) -> bool {
        0 <= version <= 1
    }

    open spec fn request_format(version: i16) -> Format {
        match version {
            0 => Format::plain(0),
            _ => Format::plain(1),
        }
    }

    open spec fn request_name() -> &'static str {
        "FindCoordinatorRequest"
    }

    fn encode_versioned(&self, version: i16, buf: &mut BytesMut) -> (res: Result<()>) {
        match version {
            0 => self.encode_v0(buf),
            1 => self.encode_v1(buf),
            _ => Err(
                KrafkaError::Protocol(
                    ProtocolErrorKind::Malformed,
                    Reason::UnsupportedEncode("FindCoordinatorRequest", version),
                ),
            ),
        }
    }

    proof fn law_request_format(&self, version: i16, w: Writer) {
    }

    proof fn law_unsupported_encode(&self, version: i16, w: Writer) {
    }
}

impl VersionedDecode for FindCoordinatorResponse {
    open spec fn response_key() -> ApiKey {
        ApiKey::FindCoordinator
    }

    open spec fn decodes(version: i16) -> bool {
        0 <= version <= 1
    }

    open spec fn response_format(version: i16) -> Format {
        match version {
            0 => Format::plain(0),
            _ => Format::plain(1),
        }
    }

    open spec fn response_name() -> &'static str {
        "FindCoordinatorResponse"
    }

    fn decode_versioned(version: i16, buf: &mut Bytes) -> (res: Result<Self>) {
        match version {
            0 => Self::decode_v0(buf),
            1 => Self::decode_v1(buf),
            _ => Err(
                KrafkaError::Protocol(
                    ProtocolErrorKind::Malformed,
                    Reason::UnsupportedDecode("FindCoordinatorResponse", version),
                ),
            ),
        }
    }

    proof fn law_response_format(version: i16, r: Reader) {
    }

    proof fn law_unsupported_decode(version: i16, r: Reader) {
    }
}

/// JoinGroup request protocol.
#[derive(Debug, Clone)]
pub struct JoinGroupRequestProtocol {
    /// Protocol name.
    pub name: String,
    /// Protocol metadata.
    pub metadata: Bytes,
}

impl WireEncode for JoinGroupRequestProtocol {
    open spec fn written(&self, f: Format, w: Writer) -> Writer {
        let w = w.string(self.name@, f.flexible);
        w.bytes(self.metadata@, f.flexible)
    }

    proof fn lemma_grows(&self, f: Format, w: Writer) {
        broadcast use group_grows;

    }

    proof fn law_appends(&self, f: Format, w: Writer) {
        broadcast use group_appends;

    }

    fn encode_wire(&self, f: Format, buf: &mut BytesMut) -> (res: Result<()>) {
        broadcast use group_grows;

        write_string(self.name.as_str(), f.flexible, buf)?;
        write_bytes(as_slice(&self.metadata), f.flexible, buf)?;
        Ok(())
    }
}

/// JoinGroup request.
#[derive(Debug, Clone)]
pub struct JoinGroupRequest {
    /// Group ID.
    pub group_id: String,
    /// Session timeout.
    pub session_timeout_ms: i32,
    /// Rebalance timeout (v1+).
    pub rebalance_timeout_ms: i32,
    /// Member ID.
    pub member_id: String,
    /// Group instance ID (v5+).
    pub group_instance_id: Option<String>,
    /// Protocol type (e.g., "consumer").
    pub protocol_type: String,
    /// Supported protocols.
    pub protocols: Vec<JoinGroupRequestProtocol>,
}

impl JoinGroupRequest {
    /// Get the API key.
    pub fn api_key() -> (r: ApiKey)
        ensures
            r == ApiKey::JoinGroup,
    {
        ApiKey::JoinGroup
    }
}

impl WireEncode for JoinGroupRequest {
    open spec fn written(&self, f: Format, w: Writer) -> Writer {
        let w = w.string(self.group_id@, f.flexible);
        let w = w.i32(self.session_timeout_ms);
        let w = if f.version >= 1 {
            w.i32(self.rebalance_timeout_ms)
        } else {
            w
        };
        let w = w.string(self.member_id@, f.flexible);
        let w = if f.version >= 5 {
            w.nullable_string(optional_text(self.group_instance_id), f.flexible)
        } else {
            w
        };
        let w = w.string(self.protocol_type@, f.flexible);
        w.array(self.protocols@, f)
    }

    proof fn lemma_grows(&self, f: Format, w: Writer) {
        broadcast use group_grows;

    }

    proof fn law_appends(&self, f: Format, w: Writer) {
        broadcast use group_appends;

    }

    fn encode_wire(&self, f: Format, buf: &mut BytesMut) -> (res: Result<()>) {
        broadcast use group_grows;

        write_string(self.group_id.as_str(), f.flexible, buf)?;
        write_i32(self.session_timeout_ms, buf);
        if f.version >= 1 {
            write_i32(self.rebalance_timeout_ms, buf);
        }
        write_string(self.member_id.as_str(), f.flexible, buf)?;
        if f.version >= 5 {
            write_nullable_string(&self.group_instance_id, f.flexible, buf)?;
        }
        write_string(self.protocol_type.as_str(), f.flexible, buf)?;
        write_array(&self.protocols, f, buf)?;
        Ok(())
    }
}

impl JoinGroupRequest {
    /// Encode for version 0.
    pub fn encode_v0(&self, buf: &mut BytesMut) -> (res: Result<()>)
        requires
            fits(self.written(Format::plain(0), Writer::at(old(buf)@))),
        ensures
            encoded(res, final(buf)@, self.written(Format::plain(0), Writer::at(old(buf)@))),
    {
        self.encode_wire(Format::plain(0), buf)
    }

    /// Encode for version 1+.
    pub fn encode_v1(&self, buf: &mut BytesMut) -> (res: Result<()>)
        requires
            fits(self.written(Format::plain(1), Writer::at(old(buf)@))),
        ensures
            encoded(res, final(buf)@, self.written(Format::plain(1), Writer::at(old(buf)@))),
    {
        self.encode_wire(Format::plain(1), buf)
    }

    /// Encode for version 5+ (adds group_instance_id for KIP-345 static membership).
    pub fn encode_v5(&self, buf: &mut BytesMut) -> (res: Result<()>)
        requires
            fits(self.written(Format::plain(5), Writer::at(old(buf)@))),
        ensures
            encoded(res, final(buf)@, self.written(Format::plain(5), Writer::at(old(buf)@))),
    {
        self.encode_wire(Format::plain(5), buf)
    }
}

/// Member in JoinGroup response.
#[derive(Debug, Clone)]
pub struct JoinGroupResponseMember {
    /// Member ID.
    pub member_id: String,
    /// Group instance ID.
    pub group_instance_id: Option<String>,
    /// Member metadata.
    pub metadata: Bytes,
}

/// What a [`JoinGroupResponseMember`] holds.
pub struct JoinGroupResponseMemberView {
    /// Member ID.
    pub member_id: Seq<char>,
    /// Group instance ID.
    pub group_instance_id: Option<Seq<char>>,
    /// Member metadata.
    pub metadata: Seq<u8>,
}

impl View for JoinGroupResponseMember {
    type V = JoinGroupResponseMemberView;

    open spec fn view(&self) -> JoinGroupResponseMemberView {
        JoinGroupResponseMemberView {
            member_id: self.member_id@,
            group_instance_id: optional_text(self.group_instance_id),
            metadata: self.metadata@,
        }
    }
}

impl WireDecode for JoinGroupResponseMember {
    open spec fn read(f: Format, r: Reader) -> (JoinGroupResponseMemberView, Reader) {
        let (member_id, r) = r.string_or_empty(f.flexible);
        let (group_instance_id, r) = if f.version >= 5 {
            r.nullable_string(f.flexible)
        } else {
            (None, r)
        };
        let (metadata, r) = r.bytes_or_empty(f.flexible);
        let value = JoinGroupResponseMemberView {
            member_id,
            group_instance_id,
            metadata,
        };
        (value, r)
    }

    fn decode_wire(f: Format, buf: &mut Bytes) -> (res: Result<Self>) {
        let member_id = read_string_or_empty(f.flexible, buf)?;
        let group_instance_id: Option<String> = if f.version >= 5 {
            read_nullable_string(f.flexible, buf)?
        } else {
            None
        };
        let metadata = read_bytes_or_empty(f.flexible, buf)?;
        Ok(JoinGroupResponseMember {
            member_id,
            group_instance_id,
            metadata,
        })
    }

    proof fn law_consumes(f: Format, r: Reader) {
        broadcast use group_consumes;

    }

    proof fn law_ignores_what_follows(f: Format, r: Reader, more: Seq<u8>) {
        broadcast use group_consumes, group_followed;

    }

    proof fn law_needs_only_what_it_takes(f: Format, r: Reader, k: nat) {
        broadcast use group_consumes, group_cut;

    }
}

/// JoinGroup response.
#[derive(Debug, Clone)]
pub struct JoinGroupResponse {
    /// Throttle time.
    pub throttle_time_ms: i32,
    /// Error code.
    pub error_code: ErrorCode,
    /// Generation ID.
    pub generation_id: i32,
    /// Protocol type.
    pub protocol_type: Option<String>,
    /// Selected protocol name.
    pub protocol_name: Option<String>,
    /// Leader member ID.
    pub leader: String,
    /// This member's ID.
    pub member_id: String,
    /// Members (only for leader).
    pub members: Vec<JoinGroupResponseMember>,
}

/// What a [`JoinGroupResponse`] holds.
pub struct JoinGroupResponseView {
    /// Throttle time.
    pub throttle_time_ms: i32,
    /// Error code.
    pub error_code: ErrorCode,
    /// Generation ID.
    pub generation_id: i32,
    /// Protocol type.
    pub protocol_type: Option<Seq<char>>,
    /// Selected protocol name.
    pub protocol_name: Option<Seq<char>>,
    /// Leader member ID.
    pub leader: Seq<char>,
    /// This member's ID.
    pub member_id: Seq<char>,
    /// Members (only for leader).
    pub members: Seq<JoinGroupResponseMemberView>,
}

impl View for JoinGroupResponse {
    type V = JoinGroupResponseView;

    open spec fn view(&self) -> JoinGroupResponseView {
        JoinGroupResponseView {
            throttle_time_ms: self.throttle_time_ms,
            error_code: self.error_code,
            generation_id: self.generation_id,
            protocol_type: optional_text(self.protocol_type),
            protocol_name: optional_text(self.protocol_name),
            leader: self.leader@,
            member_id: self.member_id@,
            members: views(self.members@),
        }
    }
}

impl WireDecode for JoinGroupResponse {
    open spec fn read(f: Format, r: Reader) -> (JoinGroupResponseView, Reader) {
        let (throttle_time_ms, r) = if f.version >= 2 {
            r.i32()
        } else {
            (0, r)
        };
        let (error_code, r) = r.error_code();
        let (generation_id, r) = r.i32();
        let (protocol_name, r) = r.nullable_string(f.flexible);
        let (leader, r) = r.string_or_empty(f.flexible);
        let (member_id, r) = r.string_or_empty(f.flexible);
        let (members, r) = r.array::<JoinGroupResponseMember>(f);
        let value = JoinGroupResponseView {
            throttle_time_ms,
            error_code,
            generation_id,
            protocol_type: None,
            protocol_name,
            leader,
            member_id,
            members,
        };
        (value, r)
    }

    fn decode_wire(f: Format, buf: &mut Bytes) -> (res: Result<Self>) {
        let throttle_time_ms: i32 = if f.version >= 2 {
            read_i32(buf)?
        } else {
            0
        };
        let error_code = read_error_code(buf)?;
        let generation_id = read_i32(buf)?;
        let protocol_name = read_nullable_string(f.flexible, buf)?;
        let leader = read_string_or_empty(f.flexible, buf)?;
        let member_id = read_string_or_empty(f.flexible, buf)?;
        let members = read_array::<JoinGroupResponseMember>(f, buf)?;
        Ok(JoinGroupResponse {
            throttle_time_ms,
            error_code,
            generation_id,
            protocol_type: None,
            protocol_name,
            leader,
            member_id,
            members,
        })
    }

    proof fn law_consumes(f: Format, r: Reader) {
        broadcast use group_consumes;

    }

    proof fn law_ignores_what_follows(f: Format, r: Reader, more: Seq<u8>) {
        broadcast use group_consumes, group_followed;

    }

    proof fn law_needs_only_what_it_takes(f: Format, r: Reader, k: nat) {
        broadcast use group_consumes, group_cut;

    }
}

impl JoinGroupResponse {
    /// Decode from version 0.
    pub fn decode_v0(buf: &mut Bytes) -> (res: Result<Self>)
        ensures
            decoded(
                result_view(res),
                final(buf)@,
                Self::read(Format::plain(0), Reader::on(old(buf)@)),
            ),
    {
        Self::decode_wire(Format::plain(0), buf)
    }

    /// Decode from version 2+.
    pub fn decode_v2(buf: &mut Bytes) -> (res: Result<Self>)
        ensures
            decoded(
                result_view(res),
                final(buf)@,
                Self::read(Format::plain(2), Reader::on(old(buf)@)),
            ),
    {
        Self::decode_wire(Format::plain(2), buf)
    }

    /// Decode from version 5+ (adds group_instance_id per member).
    pub fn decode_v5(buf: &mut Bytes) -> (res: Result<Self>)
        ensures
            decoded(
                result_view(res),
                final(buf)@,
                Self::read(Format::plain(5), Reader::on(old(buf)@)),
            ),
    {
        Self::decode_wire(Format::plain(5), buf)
    }
}

impl JoinGroupResponse {
    /// Check if this member is the leader.
    pub fn is_leader(&self) -> (r: bool)
        ensures
            r == (self.member_id@ == self.leader@),
    {
        self.member_id == self.leader
    }
}

impl VersionedEncode for JoinGroupRequest {
    open spec fn request_key() -> ApiKey {
        ApiKey::JoinGroup
    }

    open spec fn encodes(version: i16) -> bool {
        0 <= version <= 5
    }

    open spec fn request_format(version: i16) -> Format {
        match version {
            0 => Format::plain(0),
            1 | 2 | 3 | 4 => Format::plain(1),
            _ => Format::plain(5),
        }
    }

    open spec fn request_name() -> &'static str {
        "JoinGroupRequest"
    }

    fn encode_versioned(&self, version: i16, buf: &mut BytesMut) -> (res: Result<()>) {
        match version {
            0 => self.encode_v0(buf),
            1 | 2 | 3 | 4 => self.encode_v1(buf),
            5 => self.encode_v5(buf),
            _ => Err(
                KrafkaError::Protocol(
                    ProtocolErrorKind::Malformed,
                    Reason::UnsupportedEncode("JoinGroupRequest", version),
                ),
            ),
        }
    }

    proof fn law_request_format(&self, version: i16, w: Writer) {
    }

    proof fn law_unsupported_encode(&self, version: i16, w: Writer) {
    }
}

impl VersionedDecode for JoinGroupResponse {
    open spec fn response_key() -> ApiKey {
        ApiKey::JoinGroup
    }

    open spec fn decodes(version: i16) -> bool {
        0 <= version <= 5
    }

    open spec fn response_format(version: i16) -> Format {
        match version {
            0 | 1 => Format::plain(0),
            2 | 3 | 4 => Format::plain(2),
            _ => Format::plain(5),
        }
    }

    open spec fn response_name() -> &'static str {
        "JoinGroupResponse"
    }

    fn decode_versioned(version: i16, buf: &mut Bytes) -> (res: Result<Self>) {
        match version {
            0 | 1 => Self::decode_v0(buf),
            2 | 3 | 4 => Self::decode_v2(buf),
            5 => Self::decode_v5(buf),
            _ => Err(
                KrafkaError::Protocol(
                    ProtocolErrorKind::Malformed,
                    Reason::UnsupportedDecode("JoinGroupResponse", version),
                ),
            ),
        }
    }

    proof fn law_response_format(version: i16, r: Reader) {
    }

    proof fn law_unsupported_decode(version: i16, r: Reader) {
    }
}

/// Assignment for a member in SyncGroup.
#[derive(Debug, Clone)]
pub struct SyncGroupRequestAssignment {
    /// Member ID.
    pub member_id: String,
    /// Assignment data.
    pub assignment: Bytes,
}

impl WireEncode for SyncGroupRequestAssignment {
    open spec fn written(&self, f: Format, w: Writer) -> Writer {
        let w = w.string(self.member_id@, f.flexible);
        w.bytes(self.assignment@, f.flexible)
    }

    proof fn lemma_grows(&self, f: Format, w: Writer) {
        broadcast use group_grows;

    }

    proof fn law_appends(&self, f: Format, w: Writer) {
        broadcast use group_appends;

    }

    fn encode_wire(&self, f: Format, buf: &mut BytesMut) -> (res: Result<()>) {
        broadcast use group_grows;

        write_string(self.member_id.as_str(), f.flexible, buf)?;
        write_bytes(as_slice(&self.assignment), f.flexible, buf)?;
        Ok(())
    }
}

/// SyncGroup request.
#[derive(Debug, Clone)]
pub struct SyncGroupRequest {
    /// Group ID.
    pub group_id: String,
    /// Generation ID.
    pub generation_id: i32,
    /// Member ID.
    pub member_id: String,
    /// Group instance ID (v3+).
    pub group_instance_id: Option<String>,
    /// Protocol type (v5+).
    pub protocol_type: Option<String>,
    /// Protocol name (v5+).
    pub protocol_name: Option<String>,
    /// Assignments (only from leader).
    pub assignments: Vec<SyncGroupRequestAssignment>,
}

impl SyncGroupRequest {
    /// Get the API key.
    pub fn api_key() -> (r: ApiKey)
        ensures
            r == ApiKey::SyncGroup,
    {
        ApiKey::SyncGroup
    }
}

impl WireEncode for SyncGroupRequest {
    open spec fn written(&self, f: Format, w: Writer) -> Writer {
        let w = w.string(self.group_id@, f.flexible);
        let w = w.i32(self.generation_id);
        let w = w.string(self.member_id@, f.flexible);
        let w = if f.version >= 3 {
            w.nullable_string(optional_text(self.group_instance_id), f.flexible)
        } else {
            w
        };
        w.array(self.assignments@, f)
    }

    proof fn lemma_grows(&self, f: Format, w: Writer) {
        broadcast use group_grows;

    }

    proof fn law_appends(&self, f: Format, w: Writer) {
        broadcast use group_appends;

    }

    fn encode_wire(&self, f: Format, buf: &mut BytesMut) -> (res: Result<()>) {
        broadcast use group_grows;

        write_string(self.group_id.as_str(), f.flexible, buf)?;
        write_i32(self.generation_id, buf);
        write_string(self.member_id.as_str(), f.flexible, buf)?;
        if f.version >= 3 {
            write_nullable_string(&self.group_instance_id, f.flexible, buf)?;
        }
        write_array(&self.assignments, f, buf)?;
        Ok(())
    }
}

impl SyncGroupRequest {
    /// Encode for version 0.
    pub fn encode_v0(&self, buf: &mut BytesMut) -> (res: Result<()>)
        requires
            fits(self.written(Format::plain(0), Writer::at(old(buf)@))),
        ensures
            encoded(res, final(buf)@, self.written(Format::plain(0), Writer::at(old(buf)@))),
    {
        self.encode_wire(Format::plain(0), buf)
    }

    /// Encode for version 3+ (KIP-345: includes group_instance_id).
    pub fn encode_v3(&self, buf: &mut BytesMut) -> (res: Result<()>)
        requires
            fits(self.written(Format::plain(3), Writer::at(old(buf)@))),
        ensures
            encoded(res, final(buf)@, self.written(Format::plain(3), Writer::at(old(buf)@))),
    {
        self.encode_wire(Format::plain(3), buf)
    }
}

/// SyncGroup response.
#[derive(Debug, Clone)]
pub struct SyncGroupResponse {
    /// Throttle time.
    pub throttle_time_ms: i32,
    /// Error code.
    pub error_code: ErrorCode,
    /// Protocol type (v5+).
    pub protocol_type: Option<String>,
    /// Protocol name (v5+).
    pub protocol_name: Option<String>,
    /// Assignment for this member.
    pub assignment: Bytes,
}

/// What a [`SyncGroupResponse`] holds.
pub struct SyncGroupResponseView {
    /// Throttle time.
    pub throttle_time_ms: i32,
    /// Error code.
    pub error_code: ErrorCode,
    /// Protocol type (v5+).
    pub protocol_type: Option<Seq<char>>,
    /// Protocol name (v5+).
    pub protocol_name: Option<Seq<char>>,
    /// Assignment for this member.
    pub assignment: Seq<u8>,
}

impl View for SyncGroupResponse {
    type V = SyncGroupResponseView;

    open spec fn view(&self) -> SyncGroupResponseView {
        SyncGroupResponseView {
            throttle_time_ms: self.throttle_time_ms,
            error_code: self.error_code,
            protocol_type: optional_text(self.protocol_type),
            protocol_name: optional_text(self.protocol_name),
            assignment: self.assignment@,
        }
    }
}

impl WireDecode for SyncGroupResponse {
    open spec fn read(f: Format, r: Reader) -> (SyncGroupResponseView, Reader) {
        let (throttle_time_ms, r) = if f.version >= 1 {
            r.i32()
        } else {
            (0, r)
        };
        let (error_code, r) = r.error_code();
        let (assignment, r) = r.bytes_or_empty(f.flexible);
        let value = SyncGroupResponseView {
            throttle_time_ms,
            error_code,
            protocol_type: None,
            protocol_name: None,
            assignment,
        };
        (value, r)
    }

    fn decode_wire(f: Format, buf: &mut Bytes) -> (res: Result<Self>) {
        let throttle_time_ms: i32 = if f.version >= 1 {
            read_i32(buf)?
        } else {
            0
        };
        let error_code = read_error_code(buf)?;
        let assignment = read_bytes_or_empty(f.flexible, buf)?;
        Ok(SyncGroupResponse {
            throttle_time_ms,
            error_code,
            protocol_type: None,
            protocol_name: None,
            assignment,
        })
    }

    proof fn law_consumes(f: Format, r: Reader) {
        broadcast use group_consumes;

    }

    proof fn law_ignores_what_follows(f: Format, r: Reader, more: Seq<u8>) {
        broadcast use group_consumes, group_followed;

    }

    proof fn law_needs_only_what_it_takes(f: Format, r: Reader, k: nat) {
        broadcast use group_consumes, group_cut;

    }
}

impl SyncGroupResponse {
    /// Decode from version 0.
    pub fn decode_v0(buf: &mut Bytes) -> (res: Result<Self>)
        ensures
            decoded(
                result_view(res),
                final(buf)@,
                Self::read(Format::plain(0), Reader::on(old(buf)@)),
            ),
    {
        Self::decode_wire(Format::plain(0), buf)
    }

    /// Decode from version 1+.
    pub fn decode_v1(buf: &mut Bytes) -> (res: Result<Self>)
        ensures
            decoded(
                result_view(res),
                final(buf)@,
                Self::read(Format::plain(1), Reader::on(old(buf)@)),
            ),
    {
        Self::decode_wire(Format::plain(1), buf)
    }
}

impl VersionedEncode for SyncGroupRequest {
    open spec fn request_key() -> ApiKey {
        ApiKey::SyncGroup
    }

    open spec fn encodes(version: i16) -> bool {
        0 <= version <= 3
    }

    open spec fn request_format(version: i16) -> Format {
        match version {
            0 | 1 | 2 => Format::plain(0),
            _ => Format::plain(3),
        }
    }

    open spec fn request_name() -> &'static str {
        "SyncGroupRequest"
    }

    fn encode_versioned(&self, version: i16, buf: &mut BytesMut) -> (res: Result<()>) {
        match version {
            0 | 1 | 2 => self.encode_v0(buf),
            3 => self.encode_v3(buf),
            _ => Err(
                KrafkaError::Protocol(
                    ProtocolErrorKind::Malformed,
                    Reason::UnsupportedEncode("SyncGroupRequest", version),
                ),
            ),
        }
    }

    proof fn law_request_format(&self, version: i16, w: Writer) {
    }

    proof fn law_unsupported_encode(&self, version: i16, w: Writer) {
    }
}

impl VersionedDecode for SyncGroupResponse {
    open spec fn response_key() -> ApiKey {
        ApiKey::SyncGroup
    }

    open spec fn decodes(version: i16) -> bool {
        0 <= version <= 3
    }

    open spec fn response_format(version: i16) -> Format {
        match version {
            0 => Format::plain(0),
            _ => Format::plain(1),
        }
    }

    open spec fn response_name() -> &'static str {
        "SyncGroupResponse"
    }

    fn decode_versioned(version: i16, buf: &mut Bytes) -> (res: Result<Self>) {
        match version {
            0 => Self::decode_v0(buf),
            1 | 2 | 3 => Self::decode_v1(buf),
            _ => Err(
                KrafkaError::Protocol(
                    ProtocolErrorKind::Malformed,
                    Reason::UnsupportedDecode("SyncGroupResponse", version),
                ),
            ),
        }
    }

    proof fn law_response_format(version: i16, r: Reader) {
    }

    proof fn law_unsupported_decode(version: i16, r: Reader) {
    }
}

/// Heartbeat request.
#[derive(Debug, Clone)]
pub struct HeartbeatRequest {
    /// Group ID.
    pub group_id: String,
    /// Generation ID.
    pub generation_id: i32,
    /// Member ID.
    pub member_id: String,
    /// Group instance ID (v3+).
    pub group_instance_id: Option<String>,
}

impl HeartbeatRequest {
    /// Get the API key.
    pub fn api_key() -> (r: ApiKey)
        ensures
            r == ApiKey::Heartbeat,
    {
        ApiKey::Heartbeat
    }
}

impl WireEncode for HeartbeatRequest {
    open spec fn written(&self, f: Format, w: Writer) -> Writer {
        let w = w.string(self.group_id@, f.flexible);
        let w = w.i32(self.generation_id);
        let w = w.string(self.member_id@, f.flexible);
        if f.version >= 3 {
            w.nullable_string(optional_text(self.group_instance_id), f.flexible)
        } else {
            w
        }
    }

    proof fn lemma_grows(&self, f: Format, w: Writer) {
        broadcast use group_grows;

    }

    proof fn law_appends(&self, f: Format, w: Writer) {
        broadcast use group_appends;

    }

    fn encode_wire(&self, f: Format, buf: &mut BytesMut) -> (res: Result<()>) {
        broadcast use group_grows;

        write_string(self.group_id.as_str(), f.flexible, buf)?;
        write_i32(self.generation_id, buf);
        write_string(self.member_id.as_str(), f.flexible, buf)?;
        if f.version >= 3 {
            write_nullable_string(&self.group_instance_id, f.flexible, buf)?;
        }
        Ok(())
    }
}

impl HeartbeatRequest {
    /// Encode for version 0.
    pub fn encode_v0(&self, buf: &mut BytesMut) -> (res: Result<()>)
        requires
            fits(self.written(Format::plain(0), Writer::at(old(buf)@))),
        ensures
            encoded(res, final(buf)@, self.written(Format::plain(0), Writer::at(old(buf)@))),
    {
        self.encode_wire(Format::plain(0), buf)
    }

    /// Encode for version 3+ (adds group_instance_id for KIP-345 static membership).
    pub fn encode_v3(&self, buf: &mut BytesMut) -> (res: Result<()>)
        requires
            fits(self.written(Format::plain(3), Writer::at(old(buf)@))),
        ensures
            encoded(res, final(buf)@, self.written(Format::plain(3), Writer::at(old(buf)@))),
    {
        self.encode_wire(Format::plain(3), buf)
    }
}

/// Heartbeat response.
#[derive(Debug, Clone)]
pub struct HeartbeatResponse {
    /// Throttle time.
    pub throttle_time_ms: i32,
    /// Error code.
    pub error_code: ErrorCode,
}

impl View for HeartbeatResponse {
    type V = HeartbeatResponse;

    open spec fn view(&self) -> HeartbeatResponse {
        *self
    }
}

impl WireDecode for HeartbeatResponse {
    open spec fn read(f: Format, r: Reader) -> (HeartbeatResponse, Reader) {
        let (throttle_time_ms, r) = if f.version >= 1 {
            r.i32()
        } else {
            (0, r)
        };
        let (error_code, r) = r.error_code();
        let value = HeartbeatResponse {
            throttle_time_ms,
            error_code,
        };
        (value, r)
    }

    fn decode_wire(f: Format, buf: &mut Bytes) -> (res: Result<Self>) {
        let throttle_time_ms: i32 = if f.version >= 1 {
            read_i32(buf)?
        } else {
            0
        };
        let error_code = read_error_code(buf)?;
        Ok(HeartbeatResponse {
            throttle_time_ms,
            error_code,
        })
    }

    proof fn law_consumes(f: Format, r: Reader) {
        broadcast use group_consumes;

    }

    proof fn law_ignores_what_follows(f: Format, r: Reader, more: Seq<u8>) {
        broadcast use group_consumes, group_followed;

    }

    proof fn law_needs_only_what_it_takes(f: Format, r: Reader, k: nat) {
        broadcast use group_consumes, group_cut;

    }
}

impl HeartbeatResponse {
    /// Decode from version 0.
    pub fn decode_v0(buf: &mut Bytes) -> (res: Result<Self>)
        ensures
            decoded(
                result_view(res),
                final(buf)@,
                Self::read(Format::plain(0), Reader::on(old(buf)@)),
            ),
    {
        Self::decode_wire(Format::plain(0), buf)
    }

    /// Decode from version 1+.
    pub fn decode_v1(buf: &mut Bytes) -> (res: Result<Self>)
        ensures
            decoded(
                result_view(res),
                final(buf)@,
                Self::read(Format::plain(1), Reader::on(old(buf)@)),
            ),
    {
        Self::decode_wire(Format::plain(1), buf)
    }
}

impl VersionedEncode for HeartbeatRequest {
    open spec fn request_key() -> ApiKey {
        ApiKey::Heartbeat
    }

    open spec fn encodes(version: i16) -> bool {
        0 <= version <= 3
    }

    open spec fn request_format(version: i16) -> Format {
        match version {
            0 | 1 | 2 => Format::plain(0),
            _ => Format::plain(3),
        }
    }

    open spec fn request_name() -> &'static str {
        "HeartbeatRequest"
    }

    fn encode_versioned(&self, version: i16, buf: &mut BytesMut) -> (res: Result<()>) {
        match version {
            0 | 1 | 2 => self.encode_v0(buf),
            3 => self.encode_v3(buf),
            _ => Err(
                KrafkaError::Protocol(
                    ProtocolErrorKind::Malformed,
                    Reason::UnsupportedEncode("HeartbeatRequest", version),
                ),
            ),
        }
    }

    proof fn law_request_format(&self, version: i16, w: Writer) {
    }

    proof fn law_unsupported_encode(&self, version: i16, w: Writer) {
    }
}

impl VersionedDecode for HeartbeatResponse {
    open spec fn response_key() -> ApiKey {
        ApiKey::Heartbeat
    }

    open spec fn decodes(version: i16) -> bool {
        0 <= version <= 3
    }

    open spec fn response_format(version: i16) -> Format {
        match version {
            0 => Format::plain(0),
            _ => Format::plain(1),
        }
    }

    open spec fn response_name() -> &'static str {
        "HeartbeatResponse"
    }

    fn decode_versioned(version: i16, buf: &mut Bytes) -> (res: Result<Self>) {
        match version {
            0 => Self::decode_v0(buf),
            1 | 2 | 3 => Self::decode_v1(buf),
            _ => Err(
                KrafkaError::Protocol(
                    ProtocolErrorKind::Malformed,
                    Reason::UnsupportedDecode("HeartbeatResponse", version),
                ),
            ),
        }
    }

    proof fn law_response_format(version: i16, r: Reader) {
    }

    proof fn law_unsupported_decode(version: i16, r: Reader) {
    }
}

/// Member leaving in LeaveGroup (v3+).
#[derive(Debug, Clone)]
pub struct LeaveGroupMember {
    /// Member ID.
    pub member_id: String,
    /// Group instance ID.
    pub group_instance_id: Option<String>,
}

impl WireEncode for LeaveGroupMember {
    open spec fn written(&self, f: Format, w: Writer) -> Writer {
        let w = w.string(self.member_id@, f.flexible);
        w.nullable_string(optional_text(self.group_instance_id), f.flexible)
    }

    proof fn lemma_grows(&self, f: Format, w: Writer) {
        broadcast use group_grows;

    }

    proof fn law_appends(&self, f: Format, w: Writer) {
        broadcast use group_appends;

    }

    fn encode_wire(&self, f: Format, buf: &mut BytesMut) -> (res: Result<()>) {
        broadcast use group_grows;

        write_string(self.member_id.as_str(), f.flexible, buf)?;
        write_nullable_string(&self.group_instance_id, f.flexible, buf)?;
        Ok(())
    }
}

/// LeaveGroup request.
#[derive(Debug, Clone)]
pub struct LeaveGroupRequest {
    /// Group ID.
    pub group_id: String,
    /// Member ID (v0-v2).
    pub member_id: String,
    /// Members (v3+).
    pub members: Vec<LeaveGroupMember>,
}

impl LeaveGroupRequest {
    /// Get the API key.
    pub fn api_key() -> (r: ApiKey)
        ensures
            r == ApiKey::LeaveGroup,
    {
        ApiKey::LeaveGroup
    }
}

impl WireEncode for LeaveGroupRequest {
    open spec fn written(&self, f: Format, w: Writer) -> Writer {
        let w = w.string(self.group_id@, f.flexible);
        if f.version >= 3 {
            w.array(self.members@, f)
        } else {
            w.string(self.member_id@, f.flexible)
        }
    }

    proof fn lemma_grows(&self, f: Format, w: Writer) {
        broadcast use group_grows;

    }

    proof fn law_appends(&self, f: Format, w: Writer) {
        broadcast use group_appends;

    }

    fn encode_wire(&self, f: Format, buf: &mut BytesMut) -> (res: Result<()>) {
        broadcast use group_grows;

        write_string(self.group_id.as_str(), f.flexible, buf)?;
        if f.version >= 3 {
            write_array(&self.members, f, buf)?;
        } else {
            write_string(self.member_id.as_str(), f.flexible, buf)?;
        }
        Ok(())
    }
}

impl LeaveGroupRequest {
    /// Encode for version 0.
    pub fn encode_v0(&self, buf: &mut BytesMut) -> (res: Result<()>)
        requires
            fits(self.written(Format::plain(0), Writer::at(old(buf)@))),
        ensures
            encoded(res, final(buf)@, self.written(Format::plain(0), Writer::at(old(buf)@))),
    {
        self.encode_wire(Format::plain(0), buf)
    }

    /// Encode for version 3+.
    pub fn encode_v3(&self, buf: &mut BytesMut) -> (res: Result<()>)
        requires
            fits(self.written(Format::plain(3), Writer::at(old(buf)@))),
        ensures
            encoded(res, final(buf)@, self.written(Format::plain(3), Writer::at(old(buf)@))),
    {
        self.encode_wire(Format::plain(3), buf)
    }
}

/// Member result in LeaveGroup response (v3+).
#[derive(Debug, Clone)]
pub struct LeaveGroupResponseMember {
    /// Member ID.
    pub member_id: String,
    /// Group instance ID.
    pub group_instance_id: Option<String>,
    /// Per-member error code.
    pub error_code: ErrorCode,
}

/// What a [`LeaveGroupResponseMember`] holds.
pub struct LeaveGroupResponseMemberView {
    /// Member ID.
    pub member_id: Seq<char>,
    /// Group instance ID.
    pub group_instance_id: Option<Seq<char>>,
    /// Per-member error code.
    pub error_code: ErrorCode,
}

impl View for LeaveGroupResponseMember {
    type V = LeaveGroupResponseMemberView;

    open spec fn view(&self) -> LeaveGroupResponseMemberView {
        LeaveGroupResponseMemberView {
            member_id: self.member_id@,
            group_instance_id: optional_text(self.group_instance_id),
            error_code: self.error_code,
        }
    }
}

impl WireDecode for LeaveGroupResponseMember {
    open spec fn read(f: Format, r: Reader) -> (LeaveGroupResponseMemberView, Reader) {
        let (member_id, r) = r.string_or_empty(f.flexible);
        let (group_instance_id, r) = r.nullable_string(f.flexible);
        let (error_code, r) = r.error_code();
        let value = LeaveGroupResponseMemberView {
            member_id,
            group_instance_id,
            error_code,
        };
        (value, r)
    }

    fn decode_wire(f: Format, buf: &mut Bytes) -> (res: Result<Self>) {
        let member_id = read_string_or_empty(f.flexible, buf)?;
        let group_instance_id = read_nullable_string(f.flexible, buf)?;
        let error_code = read_error_code(buf)?;
        Ok(LeaveGroupResponseMember {
            member_id,
            group_instance_id,
            error_code,
        })
    }

    proof fn law_consumes(f: Format, r: Reader) {
        broadcast use group_consumes;

    }

    proof fn law_ignores_what_follows(f: Format, r: Reader, more: Seq<u8>) {
        broadcast use group_consumes, group_followed;

    }

    proof fn law_needs_only_what_it_takes(f: Format, r: Reader, k: nat) {
        broadcast use group_consumes, group_cut;

    }
}

/// LeaveGroup response.
#[derive(Debug, Clone)]
pub struct LeaveGroupResponse {
    /// Throttle time.
    pub throttle_time_ms: i32,
    /// Error code.
    pub error_code: ErrorCode,
    /// Per-member results (v3+ only, empty for earlier versions).
    pub members: Vec<LeaveGroupResponseMember>,
}

/// What a [`LeaveGroupResponse`] holds.
pub struct LeaveGroupResponseView {
    /// Throttle time.
    pub throttle_time_ms: i32,
    /// Error code.
    pub error_code: ErrorCode,
    /// Per-member results (v3+ only, empty for earlier versions).
    pub members: Seq<LeaveGroupResponseMemberView>,
}

impl View for LeaveGroupResponse {
    type V = LeaveGroupResponseView;

    open spec fn view(&self) -> LeaveGroupResponseView {
        LeaveGroupResponseView {
            throttle_time_ms: self.throttle_time_ms,
            error_code: self.error_code,
            members: views(self.members@),
        }
    }
}

impl WireDecode for LeaveGroupResponse {
    open spec fn read(f: Format, r: Reader) -> (LeaveGroupResponseView, Reader) {
        let (throttle_time_ms, r) = if f.version >= 1 {
            r.i32()
        } else {
            (0, r)
        };
        let (error_code, r) = r.error_code();
        let (members, r) = if f.version >= 3 {
            r.array::<LeaveGroupResponseMember>(f)
        } else {
            (Seq::empty(), r)
        };
        let value = LeaveGroupResponseView {
            throttle_time_ms,
            error_code,
            members,
        };
        (value, r)
    }

    fn decode_wire(f: Format, buf: &mut Bytes) -> (res: Result<Self>) {
        let throttle_time_ms: i32 = if f.version >= 1 {
            read_i32(buf)?
        } else {
            0
        };
        let error_code = read_error_code(buf)?;
        let members: Vec<LeaveGroupResponseMember> = if f.version >= 3 {
            read_array::<LeaveGroupResponseMember>(f, buf)?
        } else {
            no_items()
        };
        Ok(LeaveGroupResponse {
            throttle_time_ms,
            error_code,
            members,
        })
    }

    proof fn law_consumes(f: Format, r: Reader) {
        broadcast use group_consumes;

    }

    proof fn law_ignores_what_follows(f: Format, r: Reader, more: Seq<u8>) {
        broadcast use group_consumes, group_followed;

    }

    proof fn law_needs_only_what_it_takes(f: Format, r: Reader, k: nat) {
        broadcast use group_consumes, group_cut;

    }
}

impl LeaveGroupResponse {
    /// Decode from version 0.
    pub fn decode_v0(buf: &mut Bytes) -> (res: Result<Self>)
        ensures
            decoded(
                result_view(res),
                final(buf)@,
                Self::read(Format::plain(0), Reader::on(old(buf)@)),
            ),
    {
        Self::decode_wire(Format::plain(0), buf)
    }

    /// Decode from version 1-2.
    pub fn decode_v1(buf: &mut Bytes) -> (res: Result<Self>)
        ensures
            decoded(
                result_view(res),
                final(buf)@,
                Self::read(Format::plain(1), Reader::on(old(buf)@)),
            ),
    {
        Self::decode_wire(Format::plain(1), buf)
    }

    /// Decode from version 3+ (KIP-345 batch leave with per-member results).
    pub fn decode_v3(buf: &mut Bytes) -> (res: Result<Self>)
        ensures
            decoded(
                result_view(res),
                final(buf)@,
                Self::read(Format::plain(3), Reader::on(old(buf)@)),
            ),
    {
        Self::decode_wire(Format::plain(3), buf)
    }
}

impl VersionedEncode for LeaveGroupRequest {
    open spec fn request_key() -> ApiKey {
        ApiKey::LeaveGroup
    }

    open spec fn encodes(version: i16) -> bool {
        0 <= version <= 3
    }

    open spec fn request_format(version: i16) -> Format {
        match version {
            0 | 1 | 2 => Format::plain(0),
            _ => Format::plain(3),
        }
    }

    open spec fn request_name() -> &'static str {
        "LeaveGroupRequest"
    }

    fn encode_versioned(&self, version: i16, buf: &mut BytesMut) -> (res: Result<()>) {
        match version {
            0 | 1 | 2 => self.encode_v0(buf),
            3 => self.encode_v3(buf),
            _ => Err(
                KrafkaError::Protocol(
                    ProtocolErrorKind::Malformed,
                    Reason::UnsupportedEncode("LeaveGroupRequest", version),
                ),
            ),
        }
    }

    proof fn law_request_format(&self, version: i16, w: Writer) {
    }

    proof fn law_unsupported_encode(&self, version: i16, w: Writer) {
    }
}

impl VersionedDecode for LeaveGroupResponse {
    open spec fn response_key() -> ApiKey {
        ApiKey::LeaveGroup
    }

    open spec fn decodes(version: i16) -> bool {
        0 <= version <= 3
    }

    open spec fn response_format(version: i16) -> Format {
        match version {
            0 => Format::plain(0),
            1 | 2 => Format::plain(1),
            _ => Format::plain(3),
        }
    }

    open spec fn response_name() -> &'static str {
        "LeaveGroupResponse"
    }

    fn decode_versioned(version: i16, buf: &mut Bytes) -> (res: Result<Self>) {
        match version {
            0 => Self::decode_v0(buf),
            1 | 2 => Self::decode_v1(buf),
            3 => Self::decode_v3(buf),
            _ => Err(
                KrafkaError::Protocol(
                    ProtocolErrorKind::Malformed,
                    Reason::UnsupportedDecode("LeaveGroupResponse", version),
                ),
            ),
        }
    }

    proof fn law_response_format(version: i16, r: Reader) {
    }

    proof fn law_unsupported_decode(version: i16, r: Reader) {
    }
}

/// DescribeGroups request.
#[derive(Debug, Clone)]
pub struct DescribeGroupsRequest {
    /// Group IDs to describe.
    pub groups: Vec<String>,
}

impl DescribeGroupsRequest {
    /// Get the API key.
    pub fn api_key() -> (r: ApiKey)
        ensures
            r == ApiKey::DescribeGroups,
    {
        ApiKey::DescribeGroups
    }
}

impl WireEncode for DescribeGroupsRequest {
    open spec fn written(&self, f: Format, w: Writer) -> Writer {
        w.array(self.groups@, f)
    }

    proof fn lemma_grows(&self, f: Format, w: Writer) {
        broadcast use group_grows;

    }

    proof fn law_appends(&self, f: Format, w: Writer) {
        broadcast use group_appends;

    }

    fn encode_wire(&self, f: Format, buf: &mut BytesMut) -> (res: Result<()>) {
        broadcast use group_grows;

        write_array(&self.groups, f, buf)?;
        Ok(())
    }
}

impl DescribeGroupsRequest {
    /// Encode for version 0+.
    pub fn encode_v0(&self, buf: &mut BytesMut) -> (res: Result<()>)
        requires
            fits(self.written(Format::plain(0), Writer::at(old(buf)@))),
        ensures
            encoded(res, final(buf)@, self.written(Format::plain(0), Writer::at(old(buf)@))),
    {
        self.encode_wire(Format::plain(0), buf)
    }
}

/// A member in a described group.
#[derive(Debug, Clone)]
pub struct DescribeGroupMember {
    /// Member ID.
    pub member_id: String,
    /// Group instance ID (static membership).
    pub group_instance_id: Option<String>,
    /// Client ID.
    pub client_id: String,
    /// Client host.
    pub client_host: String,
    /// Member metadata.
    pub member_metadata: Bytes,
    /// Member assignment.
    pub member_assignment: Bytes,
}

/// What a [`DescribeGroupMember`] holds.
pub struct DescribeGroupMemberView {
    /// Member ID.
    pub member_id: Seq<char>,
    /// Group instance ID (static membership).
    pub group_instance_id: Option<Seq<char>>,
    /// Client ID.
    pub client_id: Seq<char>,
    /// Client host.
    pub client_host: Seq<char>,
    /// Member metadata.
    pub member_metadata: Seq<u8>,
    /// Member assignment.
    pub member_assignment: Seq<u8>,
}

impl View for DescribeGroupMember {
    type V = DescribeGroupMemberView;

    open spec fn view(&self) -> DescribeGroupMemberView {
        DescribeGroupMemberView {
            member_id: self.member_id@,
            group_instance_id: optional_text(self.group_instance_id),
            client_id: self.client_id@,
            client_host: self.client_host@,
            member_metadata: self.member_metadata@,
            member_assignment: self.member_assignment@,
        }
    }
}

impl WireDecode for DescribeGroupMember {
    open spec fn read(f: Format, r: Reader) -> (DescribeGroupMemberView, Reader) {
        let (member_id, r) = r.string_or_empty(f.flexible);
        let (client_id, r) = r.string_or_empty(f.flexible);
        let (client_host, r) = r.string_or_empty(f.flexible);
        let (member_metadata, r) = r.bytes_or_empty(f.flexible);
        let (member_assignment, r) = r.bytes_or_empty(f.flexible);
        let value = DescribeGroupMemberView {
            member_id,
            group_instance_id: None,
            client_id,
            client_host,
            member_metadata,
            member_assignment,
        };
        (value, r)
    }

    fn decode_wire(f: Format, buf: &mut Bytes) -> (res: Result<Self>) {
        let member_id = read_string_or_empty(f.flexible, buf)?;
        let client_id = read_string_or_empty(f.flexible, buf)?;
        let client_host = read_string_or_empty(f.flexible, buf)?;
        let member_metadata = read_bytes_or_empty(f.flexible, buf)?;
        let member_assignment = read_bytes_or_empty(f.flexible, buf)?;
        Ok(DescribeGroupMember {
            member_id,
            group_instance_id: None,
            client_id,
            client_host,
            member_metadata,
            member_assignment,
        })
    }

    proof fn law_consumes(f: Format, r: Reader) {
        broadcast use group_consumes;

    }

    proof fn law_ignores_what_follows(f: Format, r: Reader, more: Seq<u8>) {
        broadcast use group_consumes, group_followed;

    }

    proof fn law_needs_only_what_it_takes(f: Format, r: Reader, k: nat) {
        broadcast use group_consumes, group_cut;

    }
}

/// A described group.
#[derive(Debug, Clone)]
pub struct DescribedGroup {
    /// Error code.
    pub error_code: ErrorCode,
    /// Group ID.
    pub group_id: String,
    /// Group state (e.g., "Stable", "Empty", "Dead").
    pub group_state: String,
    /// Protocol type (e.g., "consumer").
    pub protocol_type: String,
    /// Protocol data (assignor name).
    pub protocol_data: String,
    /// Group members.
    pub members: Vec<DescribeGroupMember>,
}

/// What a [`DescribedGroup`] holds.
pub struct DescribedGroupView {
    /// Error code.
    pub error_code: ErrorCode,
    /// Group ID.
    pub group_id: Seq<char>,
    /// Group state (e.g., "Stable", "Empty", "Dead").
    pub group_state: Seq<char>,
    /// Protocol type (e.g., "consumer").
    pub protocol_type: Seq<char>,
    /// Protocol data (assignor name).
    pub protocol_data: Seq<char>,
    /// Group members.
    pub members: Seq<DescribeGroupMemberView>,
}

impl View for DescribedGroup {
    type V = DescribedGroupView;

    open spec fn view(&self) -> DescribedGroupView {
        DescribedGroupView {
            error_code: self.error_code,
            group_id: self.group_id@,
            group_state: self.group_state@,
            protocol_type: self.protocol_type@,
            protocol_data: self.protocol_data@,
            members: views(self.members@),
        }
    }
}

impl WireDecode for DescribedGroup {
    open spec fn read(f: Format, r: Reader) -> (DescribedGroupView, Reader) {
        let (error_code, r) = r.error_code();
        let (group_id, r) = r.string_or_empty(f.flexible);
        let (group_state, r) = r.string_or_empty(f.flexible);
        let (protocol_type, r) = r.string_or_empty(f.flexible);
        let (protocol_data, r) = r.string_or_empty(f.flexible);
        let (members, r) = r.array::<DescribeGroupMember>(f);
        let value = DescribedGroupView {
            error_code,
            group_id,
            group_state,
            protocol_type,
            protocol_data,
            members,
        };
        (value, r)
    }

    fn decode_wire(f: Format, buf: &mut Bytes) -> (res: Result<Self>) {
        let error_code = read_error_code(buf)?;
        let group_id = read_string_or_empty(f.flexible, buf)?;
        let group_state = read_string_or_empty(f.flexible, buf)?;
        let protocol_type = read_string_or_empty(f.flexible, buf)?;
        let protocol_data = read_string_or_empty(f.flexible, buf)?;
        let members = read_array::<DescribeGroupMember>(f, buf)?;
        Ok(DescribedGroup {
            error_code,
            group_id,
            group_state,
            protocol_type,
            protocol_data,
            members,
        })
    }

    proof fn law_consumes(f: Format, r: Reader) {
        broadcast use group_consumes;

    }

    proof fn law_ignores_what_follows(f: Format, r: Reader, more: Seq<u8>) {
        broadcast use group_consumes, group_followed;

    }

    proof fn law_needs_only_what_it_takes(f: Format, r: Reader, k: nat) {
        broadcast use group_consumes, group_cut;

    }
}

/// DescribeGroups response.
#[derive(Debug, Clone)]
pub struct DescribeGroupsResponse {
    /// Throttle time (v1+).
    pub throttle_time_ms: i32,
    /// Described groups.
    pub groups: Vec<DescribedGroup>,
}

/// What a [`DescribeGroupsResponse`] holds.
pub struct DescribeGroupsResponseView {
    /// Throttle time (v1+).
    pub throttle_time_ms: i32,
    /// Described groups.
    pub groups: Seq<DescribedGroupView>,
}

impl View for DescribeGroupsResponse {
    type V = DescribeGroupsResponseView;

    open spec fn view(&self) -> DescribeGroupsResponseView {
        DescribeGroupsResponseView {
            throttle_time_ms: self.throttle_time_ms,
            groups: views(self.groups@),
        }
    }
}

impl WireDecode for DescribeGroupsResponse {
    open spec fn read(f: Format, r: Reader) -> (DescribeGroupsResponseView, Reader) {
        let (throttle_time_ms, r) = if f.version >= 1 {
            r.i32()
        } else {
            (0, r)
        };
        let (groups, r) = r.array::<DescribedGroup>(f);
        let value = DescribeGroupsResponseView {
            throttle_time_ms,
            groups,
        };
        (value, r)
    }

    fn decode_wire(f: Format, buf: &mut Bytes) -> (res: Result<Self>) {
        let throttle_time_ms: i32 = if f.version >= 1 {
            read_i32(buf)?
        } else {
            0
        };
        let groups = read_array::<DescribedGroup>(f, buf)?;
        Ok(DescribeGroupsResponse {
            throttle_time_ms,
            groups,
        })
    }

    proof fn law_consumes(f: Format, r: Reader) {
        broadcast use group_consumes;

    }

    proof fn law_ignores_what_follows(f: Format, r: Reader, more: Seq<u8>) {
        broadcast use group_consumes, group_followed;

    }

    proof fn law_needs_only_what_it_takes(f: Format, r: Reader, k: nat) {
        broadcast use group_consumes, group_cut;

    }
}

impl DescribeGroupsResponse {
    /// Decode from version 0.
    pub fn decode_v0(buf: &mut Bytes) -> (res: Result<Self>)
        ensures
            decoded(
                result_view(res),
                final(buf)@,
                Self::read(Format::plain(0), Reader::on(old(buf)@)),
            ),
    {
        Self::decode_wire(Format::plain(0), buf)
    }

    /// Decode from version 1+.
    pub fn decode_v1(buf: &mut Bytes) -> (res: Result<Self>)
        ensures
            decoded(
                result_view(res),
                final(buf)@,
                Self::read(Format::plain(1), Reader::on(old(buf)@)),
            ),
    {
        Self::decode_wire(Format::plain(1), buf)
    }
}

impl VersionedEncode for DescribeGroupsRequest {
    open spec fn request_key() -> ApiKey {
        ApiKey::DescribeGroups
    }

    open spec fn encodes(version: i16) -> bool {
        0 <= version <= 1
    }

    open spec fn request_format(version: i16) -> Format {
        Format::plain(0)
    }

    open spec fn request_name() -> &'static str {
        "DescribeGroupsRequest"
    }

    fn encode_versioned(&self, version: i16, buf: &mut BytesMut) -> (res: Result<()>) {
        match version {
            0 | 1 => self.encode_v0(buf),
            _ => Err(
                KrafkaError::Protocol(
                    ProtocolErrorKind::Malformed,
                    Reason::UnsupportedEncode("DescribeGroupsRequest", version),
                ),
            ),
        }
    }

    proof fn law_request_format(&self, version: i16, w: Writer) {
    }

    proof fn law_unsupported_encode(&self, version: i16, w: Writer) {
    }
}

impl VersionedDecode for DescribeGroupsResponse {
    open spec fn response_key() -> ApiKey {
        ApiKey::DescribeGroups
    }

    open spec fn decodes(version: i16) -> bool {
        0 <= version <= 1
    }

    open spec fn response_format(version: i16) -> Format {
        match version {
            0 => Format::plain(0),
            _ => Format::plain(1),
        }
    }

    open spec fn response_name() -> &'static str {
        "DescribeGroupsResponse"
    }

    fn decode_versioned(version: i16, buf: &mut Bytes) -> (res: Result<Self>) {
        match version {
            0 => Self::decode_v0(buf),
            1 => Self::decode_v1(buf),
            _ => Err(
                KrafkaError::Protocol(
                    ProtocolErrorKind::Malformed,
                    Reason::UnsupportedDecode("DescribeGroupsResponse", version),
                ),
            ),
        }
    }

    proof fn law_response_format(version: i16, r: Reader) {
    }

    proof fn law_unsupported_decode(version: i16, r: Reader) {
    }
}

/// ListGroups request.
#[derive(Debug, Clone)]
pub struct ListGroupsRequest;

impl ListGroupsRequest {
    /// Get the API key.
    pub fn api_key() -> (r: ApiKey)
        ensures
            r == ApiKey::ListGroups,
    {
        ApiKey::ListGroups
    }
}

impl WireEncode for ListGroupsRequest {
    open spec fn written(&self, f: Format, w: Writer) -> Writer {
        w
    }

    proof fn lemma_grows(&self, f: Format, w: Writer) {
        broadcast use group_grows;

    }

    proof fn law_appends(&self, f: Format, w: Writer) {
        broadcast use group_appends;

    }

    fn encode_wire(&self, f: Format, buf: &mut BytesMut) -> (res: Result<()>) {
        broadcast use group_grows;

        Ok(())
    }
}

impl ListGroupsRequest {
    /// Encode for version 0+.
    pub fn encode_v0(&self, buf: &mut BytesMut) -> (res: Result<()>)
        requires
            fits(self.written(Format::plain(0), Writer::at(old(buf)@))),
        ensures
            encoded(res, final(buf)@, self.written(Format::plain(0), Writer::at(old(buf)@))),
    {
        self.encode_wire(Format::plain(0), buf)
    }
}

/// A listed group.
#[derive(Debug, Clone)]
pub struct ListedGroup {
    /// Group ID.
    pub group_id: String,
    /// Protocol type.
    pub protocol_type: String,
}

/// What a [`ListedGroup`] holds.
pub struct ListedGroupView {
    /// Group ID.
    pub group_id: Seq<char>,
    /// Protocol type.
    pub protocol_type: Seq<char>,
}

impl View for ListedGroup {
    type V = ListedGroupView;

    open spec fn view(&self) -> ListedGroupView {
        ListedGroupView {
            group_id: self.group_id@,
            protocol_type: self.protocol_type@,
        }
    }
}

impl WireDecode for ListedGroup {
    open spec fn read(f: Format, r: Reader) -> (ListedGroupView, Reader) {
        let (group_id, r) = r.string_or_empty(f.flexible);
        let (protocol_type, r) = r.string_or_empty(f.flexible);
        let value = ListedGroupView {
            group_id,
            protocol_type,
        };
        (value, r)
    }

    fn decode_wire(f: Format, buf: &mut Bytes) -> (res: Result<Self>) {
        let group_id = read_string_or_empty(f.flexible, buf)?;
        let protocol_type = read_string_or_empty(f.flexible, buf)?;
        Ok(ListedGroup {
            group_id,
            protocol_type,
        })
    }

    proof fn law_consumes(f: Format, r: Reader) {
        broadcast use group_consumes;

    }

    proof fn law_ignores_what_follows(f: Format, r: Reader, more: Seq<u8>) {
        broadcast use group_consumes, group_followed;

    }

    proof fn law_needs_only_what_it_takes(f: Format, r: Reader, k: nat) {
        broadcast use group_consumes, group_cut;

    }
}

/// ListGroups response.
#[derive(Debug, Clone)]
pub struct ListGroupsResponse {
    /// Throttle time (v1+).
    pub throttle_time_ms: i32,
    /// Error code.
    pub error_code: ErrorCode,
    /// Listed groups.
    pub groups: Vec<ListedGroup>,
}

/// What a [`ListGroupsResponse`] holds.
pub struct ListGroupsResponseView {
    /// Throttle time (v1+).
    pub throttle_time_ms: i32,
    /// Error code.
    pub error_code: ErrorCode,
    /// Listed groups.
    pub groups: Seq<ListedGroupView>,
}

impl View for ListGroupsResponse {
    type V = ListGroupsResponseView;

    open spec fn view(&self) -> ListGroupsResponseView {
        ListGroupsResponseView {
            throttle_time_ms: self.throttle_time_ms,
            error_code: self.error_code,
            groups: views(self.groups@),
        }
    }
}

impl WireDecode for ListGroupsResponse {
    open spec fn read(f: Format, r: Reader) -> (ListGroupsResponseView, Reader) {
        let (throttle_time_ms, r) = if f.version >= 1 {
            r.i32()
        } else {
            (0, r)
        };
        let (error_code, r) = r.error_code();
        let (groups, r) = r.array::<ListedGroup>(f);
        let value = ListGroupsResponseView {
            throttle_time_ms,
            error_code,
            groups,
        };
        (value, r)
    }

    fn decode_wire(f: Format, buf: &mut Bytes) -> (res: Result<Self>) {
        let throttle_time_ms: i32 = if f.version >= 1 {
            read_i32(buf)?
        } else {
            0
        };
        let error_code = read_error_code(buf)?;
        let groups = read_array::<ListedGroup>(f, buf)?;
        Ok(ListGroupsResponse {
            throttle_time_ms,
            error_code,
            groups,
        })
    }

    proof fn law_consumes(f: Format, r: Reader) {
        broadcast use group_consumes;

    }

    proof fn law_ignores_what_follows(f: Format, r: Reader, more: Seq<u8>) {
        broadcast use group_consumes, group_followed;

    }

    proof fn law_needs_only_what_it_takes(f: Format, r: Reader, k: nat) {
        broadcast use group_consumes, group_cut;

    }
}

impl ListGroupsResponse {
    /// Decode from version 0.
    pub fn decode_v0(buf: &mut Bytes) -> (res: Result<Self>)
        ensures
            decoded(
                result_view(res),
                final(buf)@,
                Self::read(Format::plain(0), Reader::on(old(buf)@)),
            ),
    {
        Self::decode_wire(Format::plain(0), buf)
    }

    /// Decode from version 1+.
    pub fn decode_v1(buf: &mut Bytes) -> (res: Result<Self>)
        ensures
            decoded(
                result_view(res),
                final(buf)@,
                Self::read(Format::plain(1), Reader::on(old(buf)@)),
            ),
    {
        Self::decode_wire(Format::plain(1), buf)
    }
}

impl VersionedEncode for ListGroupsRequest {
    open spec fn request_key() -> ApiKey {
        ApiKey::ListGroups
    }

    open spec fn encodes(version: i16) -> bool {
        0 <= version <= 1
    }

    open spec fn request_format(version: i16) -> Format {
        Format::plain(0)
    }

    open spec fn request_name() -> &'static str {
        "ListGroupsRequest"
    }

    fn encode_versioned(&self, version: i16, buf: &mut BytesMut) -> (res: Result<()>) {
        match version {
            0 | 1 => self.encode_v0(buf),
            _ => Err(
                KrafkaError::Protocol(
                    ProtocolErrorKind::Malformed,
                    Reason::UnsupportedEncode("ListGroupsRequest", version),
                ),
            ),
        }
    }

    proof fn law_request_format(&self, version: i16, w: Writer) {
    }

    proof fn law_unsupported_encode(&self, version: i16, w: Writer) {
    }
}

impl VersionedDecode for ListGroupsResponse {
    open spec fn response_key() -> ApiKey {
        ApiKey::ListGroups
    }

    open spec fn decodes(version: i16) -> bool {
        0 <= version <= 1
    }

    open spec fn response_format(version: i16) -> Format {
        match version {
            0 => Format::plain(0),
            _ => Format::plain(1),
        }
    }

    open spec fn response_name() -> &'static str {
        "ListGroupsResponse"
    }

    fn decode_versioned(version: i16, buf: &mut Bytes) -> (res: Result<Self>) {
        match version {
            0 => Self::decode_v0(buf),
            1 => Self::decode_v1(buf),
            _ => Err(
                KrafkaError::Protocol(
                    ProtocolErrorKind::Malformed,
                    Reason::UnsupportedDecode("ListGroupsResponse", version),
                ),
            ),
        }
    }

    proof fn law_response_format(version: i16, r: Reader) {
    }

    proof fn law_unsupported_decode(version: i16, r: Reader) {
    }
}

} // verus!
