//! AlterClientQuotas (API key 49).

use crate::buffer::Octets;
use crate::error::{ErrorCode, KrafkaError, ProtocolErrorKind, Reason, Result};
use crate::protocol::api::ApiKey;
use crate::protocol::messages::{VersionedDecode, VersionedEncode};
use crate::protocol::wire::{
    decoded, encoded, fits, group_appends, group_consumes, group_cut, group_followed, group_grows,
    optional_text, read_array, read_error_code, read_i32, read_nullable_string, read_string,
    read_tags, result_view, views, write_array, write_bool, write_nullable_string, write_string,
    write_tags, write_u64, Format, Reader, WireDecode, WireEncode, Writer,
};
use bytes::{Bytes, BytesMut};
use vstd::prelude::*;

verus! {

/// An entity component for identifying a quota entry to alter.
#[derive(Debug, Clone)]
pub struct AlterQuotaEntity {
    /// Entity type (e.g., `"user"`, `"client-id"`, `"ip"`).
    pub entity_type: String,
    /// Entity name. `None` represents the default entity.
    pub entity_name: Option<String>,
}

impl WireEncode for AlterQuotaEntity {
    open spec fn written(&self, f: Format, w: Writer) -> Writer {
        let w = w.string(self.entity_type@, f.flexible);
        let w = w.nullable_string(optional_text(self.entity_name), f.flexible);
        w.tags(f.flexible)
    }

    proof fn lemma_grows(&self, f: Format, w: Writer) {
        broadcast use group_grows;

    }

    proof fn law_appends(&self, f: Format, w: Writer) {
        broadcast use group_appends;

    }

    fn encode_wire(&self, f: Format, buf: &mut BytesMut) -> (res: Result<()>) {
        broadcast use group_grows;

        write_string(self.entity_type.as_str(), f.flexible, buf)?;
        write_nullable_string(&self.entity_name, f.flexible, buf)?;
        write_tags(f.flexible, buf);
        Ok(())
    }
}

/// A quota value to set or remove.
#[derive(Debug, Clone)]
pub struct AlterQuotaOp {
    /// Quota key (e.g. `"consumer_byte_rate"`, `"producer_byte_rate"`).
    pub key: String,
    /// New quota value, as the bits of a double (ignored when `remove` is `true`).
    pub value: u64,
    /// Whether to remove this quota override.
    pub remove: bool,
}

impl WireEncode for AlterQuotaOp {
    open spec fn written(&self, f: Format, w: Writer) -> Writer {
        let w = w.string(self.key@, f.flexible);
        let w = w.u64(self.value);
        let w = w.bool(self.remove);
        w.tags(f.flexible)
    }

    proof fn lemma_grows(&self, f: Format, w: Writer) {
        broadcast use group_grows;

    }

    proof fn law_appends(&self, f: Format, w: Writer) {
        broadcast use group_appends;

    }

    fn encode_wire(&self, f: Format, buf: &mut BytesMut) -> (res: Result<()>) {
        broadcast use group_grows;

        write_string(self.key.as_str(), f.flexible, buf)?;
        write_u64(self.value, buf);
        write_bool(self.remove, buf);
        write_tags(f.flexible, buf);
        Ok(())
    }
}

/// A single quota entity alteration in the AlterClientQuotas request.
#[derive(Debug, Clone)]
pub struct AlterQuotaEntry {
    /// Quota entity to alter.
    pub entity: Vec<AlterQuotaEntity>,
    /// Operations to apply to the entity's quotas.
    pub ops: Vec<AlterQuotaOp>,
}

impl WireEncode for AlterQuotaEntry {
    open spec fn written(&self, f: Format, w: Writer) -> Writer {
        let w = w.array(self.entity@, f);
        let w = w.array(self.ops@, f);
        w.tags(f.flexible)
    }

    proof fn lemma_grows(&self, f: Format, w: Writer) {
        broadcast use group_grows;

    }

    proof fn law_appends(&self, f: Format, w: Writer) {
        broadcast use group_appends;

    }

    fn encode_wire(&self, f: Format, buf: &mut BytesMut) -> (res: Result<()>) {
        broadcast use group_grows;

        write_array(&self.entity, f, buf)?;
        write_array(&self.ops, f, buf)?;
        write_tags(f.flexible, buf);
        Ok(())
    }
}

/// AlterClientQuotas request.
#[derive(Debug, Clone)]
pub struct AlterClientQuotasRequest {
    /// Quota alterations to apply.
    pub entries: Vec<AlterQuotaEntry>,
    /// If `true`, validate only - do not apply changes.
    pub validate_only: bool,
}

impl AlterClientQuotasRequest {
    /// Get the API key.
    pub fn api_key() -> (r: ApiKey)
        ensures
            r == ApiKey::AlterClientQuotas,
    {
        ApiKey::AlterClientQuotas
    }
}

impl WireEncode for AlterClientQuotasRequest {
    open spec fn written(&self, f: Format, w: Writer) -> Writer {
        let w = w.array(self.entries@, f);
        let w = w.bool(self.validate_only);
        w.tags(f.flexible)
    }

    proof fn lemma_grows(&self, f: Format, w: Writer) {
        broadcast use group_grows;

    }

    proof fn law_appends(&self, f: Format, w: Writer) {
        broadcast use group_appends;

    }

    fn encode_wire(&self, f: Format, buf: &mut BytesMut) -> (res: Result<()>) {
        broadcast use group_grows;

        write_array(&self.entries, f, buf)?;
        write_bool(self.validate_only, buf);
        write_tags(f.flexible, buf);
        Ok(())
    }
}

impl AlterClientQuotasRequest {
    /// Encode for version 0.
    pub fn encode_v0(&self, buf: &mut BytesMut) -> (res: Result<()>)
        requires
            fits(self.written(Format::plain(0), Writer::at(old(buf)@))),
        ensures
            encoded(res, final(buf)@, self.written(Format::plain(0), Writer::at(old(buf)@))),
    {
        self.encode_wire(Format::plain(0), buf)
    }

    /// Encode for version 1 (flexible encoding).
    pub fn encode_v1(&self, buf: &mut BytesMut) -> (res: Result<()>)
        requires
            fits(self.written(Format::flexible(1), Writer::at(old(buf)@))),
        ensures
            encoded(res, final(buf)@, self.written(Format::flexible(1), Writer::at(old(buf)@))),
    {
        self.encode_wire(Format::flexible(1), buf)
    }
}

/// Per-entity result in AlterClientQuotas response.
#[derive(Debug, Clone)]
pub struct AlterQuotaEntityResult {
    /// Entity type.
    pub entity_type: String,
    /// Entity name.
    pub entity_name: Option<String>,
}

/// What a [`AlterQuotaEntityResult`] holds.
pub struct AlterQuotaEntityResultView {
    /// Entity type.
    pub entity_type: Seq<char>,
    /// Entity name.
    pub entity_name: Option<Seq<char>>,
}

impl View for AlterQuotaEntityResult {
    type V = AlterQuotaEntityResultView;

    open spec fn view(&self) -> AlterQuotaEntityResultView {
        AlterQuotaEntityResultView {
            entity_type: self.entity_type@,
            entity_name: optional_text(self.entity_name),
        }
    }
}

impl WireDecode for AlterQuotaEntityResult {
    open spec fn read(f: Format, r: Reader) -> (AlterQuotaEntityResultView, Reader) {
        let (entity_type, r) = r.string("entity_type", f.flexible);
        let (entity_name, r) = r.nullable_string(f.flexible);
        let r = r.tags(f.flexible);
        let value = AlterQuotaEntityResultView {
            entity_type,
            entity_name,
        };
        (value, r)
    }

    fn decode_wire(f: Format, buf: &mut Bytes) -> (res: Result<Self>) {
        let entity_type = read_string("entity_type", f.flexible, buf)?;
        let entity_name = read_nullable_string(f.flexible, buf)?;
        read_tags(f.flexible, buf)?;
        Ok(AlterQuotaEntityResult {
            entity_type,
            entity_name,
        })
    }

    proof fn law_consumes(f: Format, r: Reader) {
        broadcast use group_consumes;

    }

    proof fn law_ignores_what_follows(f: Format, r: Reader, more: Seq<u8>) {
        broadcast use group_consumes, group_followed;

    }

    proof fn law_needs_only_what_it_takes(f: Format, r: Reader, k: nat) {
        broadcast use group_consumes, group_cut;

    }
}

/// Per-entry result in AlterClientQuotas response.
#[derive(Debug, Clone)]
pub struct AlterQuotaEntryResult {
    /// Error code for this entity.
    pub error_code: ErrorCode,
    /// Error message.
    pub error_message: Option<String>,
    /// Entity that was altered.
    pub entity: Vec<AlterQuotaEntityResult>,
}

/// What a [`AlterQuotaEntryResult`] holds.
pub struct AlterQuotaEntryResultView {
    /// Error code for this entity.
    pub error_code: ErrorCode,
    /// Error message.
    pub error_message: Option<Seq<char>>,
    /// Entity that was altered.
    pub entity: Seq<AlterQuotaEntityResultView>,
}

impl View for AlterQuotaEntryResult {
    type V = AlterQuotaEntryResultView;

    open spec fn view(&self) -> AlterQuotaEntryResultView {
        AlterQuotaEntryResultView {
            error_code: self.error_code,
            error_message: optional_text(self.error_message),
            entity: views(self.entity@),
        }
    }
}

impl WireDecode for AlterQuotaEntryResult {
    open spec fn read(f: Format, r: Reader) -> (AlterQuotaEntryResultView, Reader) {
        let (error_code, r) = r.error_code();
        let (error_message, r) = r.nullable_string(f.flexible);
        let (entity, r) = r.array::<AlterQuotaEntityResult>(f);
        let r = r.tags(f.flexible);
        let value = AlterQuotaEntryResultView {
            error_code,
            error_message,
            entity,
        };
        (value, r)
    }

    fn decode_wire(f: Format, buf: &mut Bytes) -> (res: Result<Self>) {
        let error_code = read_error_code(buf)?;
        let error_message = read_nullable_string(f.flexible, buf)?;
        let entity = read_array::<AlterQuotaEntityResult>(f, buf)?;
        read_tags(f.flexible, buf)?;
        Ok(AlterQuotaEntryResult {
            error_code,
            error_message,
            entity,
        })
    }

    proof fn law_consumes(f: Format, r: Reader) {
        broadcast use group_consumes;

    }

    proof fn law_ignores_what_follows(f: Format, r: Reader, more: Seq<u8>) {
        broadcast use group_consumes, group_followed;

    }

    proof fn law_needs_only_what_it_takes(f: Format, r: Reader, k: nat) {
        broadcast use group_consumes, group_cut;

    }
}

/// AlterClientQuotas response.
#[derive(Debug, Clone)]
pub struct AlterClientQuotasResponse {
    /// Throttle time in milliseconds.
    pub throttle_time_ms: i32,
    /// Per-entry results.
    pub entries: Vec<AlterQuotaEntryResult>,
}

/// What a [`AlterClientQuotasResponse`] holds.
pub struct AlterClientQuotasResponseView {
    /// Throttle time in milliseconds.
    pub throttle_time_ms: i32,
    /// Per-entry results.
    pub entries: Seq<AlterQuotaEntryResultView>,
}

impl View for AlterClientQuotasResponse {
    type V = AlterClientQuotasResponseView;

    open spec fn view(&self) -> AlterClientQuotasResponseView {
        AlterClientQuotasResponseView {
            throttle_time_ms: self.throttle_time_ms,
            entries: views(self.entries@),
        }
    }
}

impl WireDecode for AlterClientQuotasResponse {
    open spec fn read(f: Format, r: Reader) -> (AlterClientQuotasResponseView, Reader) {
        let (throttle_time_ms, r) = r.i32();
        let (entries, r) = r.array::<AlterQuotaEntryResult>(f);
        let r = r.tags(f.flexible);
        let value = AlterClientQuotasResponseView {
            throttle_time_ms,
            entries,
        };
        (value, r)
    }

    fn decode_wire(f: Format, buf: &mut Bytes) -> (res: Result<Self>) {
        let throttle_time_ms = read_i32(buf)?;
        let entries = read_array::<AlterQuotaEntryResult>(f, buf)?;
        read_tags(f.flexible, buf)?;
        Ok(AlterClientQuotasResponse {
            throttle_time_ms,
            entries,
        })
    }

    proof fn law_consumes(f: Format, r: Reader) {
        broadcast use group_consumes;

    }

    proof fn law_ignores_what_follows(f: Format, r: Reader, more: Seq<u8>) {
        broadcast use group_consumes, group_followed;

    }

    proof fn law_needs_only_what_it_takes(f: Format, r: Reader, k: nat) {
        broadcast use group_consumes, group_cut;

    }
}

impl AlterClientQuotasResponse {
    /// Decode from version 0.
    pub fn decode_v0(buf: &mut Bytes) -> (res: Result<Self>)
        ensures
            decoded(
                result_view(res),
                final(buf)@,
                Self::read(Format::plain(0), Reader::on(old(buf)@)),
            ),
    {
        Self::decode_wire(Format::plain(0), buf)
    }

    /// Decode from version 1 (flexible encoding).
    pub fn decode_v1(buf: &mut Bytes) -> (res: Result<Self>)
        ensures
            decoded(
                result_view(res),
                final(buf)@,
                Self::read(Format::flexible(1), Reader::on(old(buf)@)),
            ),
    {
        Self::decode_wire(Format::flexible(1), buf)
    }
}

impl VersionedEncode for AlterClientQuotasRequest {
    open spec fn request_key() -> ApiKey {
        ApiKey::AlterClientQuotas
    }

    open spec fn encodes(version: i16) -> bool {
        0 <= version <= 1
    }

    open spec fn request_format(version: i16) -> Format {
        match version {
            0 => Format::plain(0),
            _ => Format::flexible(1),
        }
    }

    open spec fn request_name() -> &'static str {
        "AlterClientQuotasRequest"
    }

    fn encode_versioned(&self, version: i16, buf: &mut BytesMut) -> (res: Result<()>) {
        match version {
            0 => self.encode_v0(buf),
            1 => self.encode_v1(buf),
            _ => Err(
                KrafkaError::Protocol(
                    ProtocolErrorKind::Malformed,
                    Reason::UnsupportedEncode("AlterClientQuotasRequest", version),
                ),
            ),
        }
    }

    proof fn law_request_format(&self, version: i16, w: Writer) {
    }

    proof fn law_unsupported_encode(&self, version: i16, w: Writer) {
    }
}

impl VersionedDecode for AlterClientQuotasResponse {
    open spec fn response_key() -> ApiKey {
        ApiKey::AlterClientQuotas
    }

    open spec fn decodes(version: i16) -> bool {
        0 <= version <= 1
    }

    open spec fn response_format(version: i16) -> Format {
        match version {
            0 => Format::plain(0),
            _ => Format::flexible(1),
        }
    }

    open spec fn response_name() -> &'static str {
        "AlterClientQuotasResponse"
    }

    fn decode_versioned(version: i16, buf: &mut Bytes) -> (res: Result<Self>) {
        match version {
            0 => Self::decode_v0(buf),
            1 => Self::decode_v1(buf),
            _ => Err(
                KrafkaError::Protocol(
                    ProtocolErrorKind::Malformed,
                    Reason::UnsupportedDecode("AlterClientQuotasResponse", version),
                ),
            ),
        }
    }

    proof fn law_response_format(version: i16, r: Reader) {
    }

    proof fn law_unsupported_decode(version: i16, r: Reader) {
    }
}

} // verus!
