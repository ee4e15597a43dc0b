//! AddOffsetsToTxn (API key 25).

use crate::buffer::Octets;
use crate::error::{ErrorCode, KrafkaError, ProtocolErrorKind, Reason, Result};
use crate::protocol::api::ApiKey;
use crate::protocol::messages::{VersionedDecode, VersionedEncode};
use crate::protocol::wire::{
    decoded, encoded, fits, group_appends, group_consumes, group_cut, group_followed, group_grows,
    read_error_code, read_i32, read_tags, result_view, write_i16, write_i64, write_string,
    write_tags, Format, Reader, WireDecode, WireEncode, Writer,
};
use bytes::{Bytes, BytesMut};
use vstd::prelude::*;

verus! {

/// AddOffsetsToTxn request (API Key 25).
///
/// Adds consumer group offsets to a transaction.
#[derive(Debug, Clone)]
pub struct AddOffsetsToTxnRequest {
    /// Transactional ID.
    pub transactional_id: String,
    /// Producer ID.
    pub producer_id: i64,
    /// Producer epoch.
    pub producer_epoch: i16,
    /// Consumer group ID.
    pub group_id: String,
}

impl AddOffsetsToTxnRequest {
    /// Create a new request.
    pub fn new(
        transactional_id: &str,
        producer_id: i64,
        producer_epoch: i16,
        group_id: &str,
    ) -> (r: Self)
        ensures
            r.transactional_id@ == transactional_id@,
            r.producer_id == producer_id,
            r.producer_epoch == producer_epoch,
            r.group_id@ == group_id@,
    {
        AddOffsetsToTxnRequest {
            transactional_id: transactional_id.to_owned(),
            producer_id,
            producer_epoch,
            group_id: group_id.to_owned(),
        }
    }
}

impl WireEncode for AddOffsetsToTxnRequest {
    open spec fn written(&self, f: Format, w: Writer) -> Writer {
        let w = w.string(self.transactional_id@, f.flexible);
        let w = w.i64(self.producer_id);
        let w = w.i16(self.producer_epoch);
        let w = w.string(self.group_id@, f.flexible);
        w.tags(f.flexible)
    }

    proof fn lemma_grows(&self, f: Format, w: Writer) {
        broadcast use group_grows;

    }

    proof fn law_appends(&self, f: Format, w: Writer) {
        broadcast use group_appends;

    }

    fn encode_wire(&self, f: Format, buf: &mut BytesMut) -> (res: Result<()>) {
        broadcast use group_grows;

        write_string(self.transactional_id.as_str(), f.flexible, buf)?;
        write_i64(self.producer_id, buf);
        write_i16(self.producer_epoch, buf);
        write_string(self.group_id.as_str(), f.flexible, buf)?;
        write_tags(f.flexible, buf);
        Ok(())
    }
}

impl AddOffsetsToTxnRequest {
    /// Encode as version 0-2.
    pub fn encode_v0(&self, buf: &mut BytesMut) -> (res: Result<()>)
        requires
            fits(self.written(Format::plain(0), Writer::at(old(buf)@))),
        ensures
            encoded(res, final(buf)@, self.written(Format::plain(0), Writer::at(old(buf)@))),
    {
        self.encode_wire(Format::plain(0), buf)
    }

    /// Encode for version 3-4 (flexible: compact strings + tagged fields).
    pub fn encode_v3(&self, buf: &mut BytesMut) -> (res: Result<()>)
        requires
            fits(self.written(Format::flexible(3), Writer::at(old(buf)@))),
        ensures
            encoded(res, final(buf)@, self.written(Format::flexible(3), Writer::at(old(buf)@))),
    {
        self.encode_wire(Format::flexible(3), buf)
    }
}

/// AddOffsetsToTxn response.
#[derive(Debug, Clone)]
pub struct AddOffsetsToTxnResponse {
    /// Throttle time in milliseconds.
    pub throttle_time_ms: i32,
    /// Error code.
    pub error_code: ErrorCode,
}

impl View for AddOffsetsToTxnResponse {
    type V = AddOffsetsToTxnResponse;

    open spec fn view(&self) -> AddOffsetsToTxnResponse {
        *self
    }
}

impl WireDecode for AddOffsetsToTxnResponse {
    open spec fn read(f: Format, r: Reader) -> (AddOffsetsToTxnResponse, Reader) {
        let (throttle_time_ms, r) = r.i32();
        let (error_code, r) = r.error_code();
        let r = r.tags(f.flexible);
        let value = AddOffsetsToTxnResponse {
            throttle_time_ms,
            error_code,
        };
        (value, r)
    }

    fn decode_wire(f: Format, buf: &mut Bytes) -> (res: Result<Self>) {
        let throttle_time_ms = read_i32(buf)?;
        let error_code = read_error_code(buf)?;
        read_tags(f.flexible, buf)?;
        Ok(AddOffsetsToTxnResponse {
            throttle_time_ms,
            error_code,
        })
    }

    proof fn law_consumes(f: Format, r: Reader) {
        broadcast use group_consumes;

    }

    proof fn law_ignores_what_follows(f: Format, r: Reader, more: Seq<u8>) {
        broadcast use group_consumes, group_followed;

    }

    proof fn law_needs_only_what_it_takes(f: Format, r: Reader, k: nat) {
        broadcast use group_consumes, group_cut;

    }
}

impl AddOffsetsToTxnResponse {
    /// Decode from version 0-2.
    pub fn decode_v0(buf: &mut Bytes) -> (res: Result<Self>)
        ensures
            decoded(
                result_view(res),
                final(buf)@,
                Self::read(Format::plain(0), Reader::on(old(buf)@)),
            ),
    {
        Self::decode_wire(Format::plain(0), buf)
    }

    /// Decode from version 3-4 (flexible: tagged fields appended).
    pub fn decode_v3(buf: &mut Bytes) -> (res: Result<Self>)
        ensures
            decoded(
                result_view(res),
                final(buf)@,
                Self::read(Format::flexible(3), Reader::on(old(buf)@)),
            ),
    {
        Self::decode_wire(Format::flexible(3), buf)
    }
}

impl AddOffsetsToTxnResponse {
    /// Check if successful.
    pub fn is_ok(&self) -> (r: bool)
        ensures
            r == (self.error_code == ErrorCode::NoError),
    {
        self.error_code.is_ok()
    }
}

impl VersionedEncode for AddOffsetsToTxnRequest {
    open spec fn request_key() -> ApiKey {
        ApiKey::AddOffsetsToTxn
    }

    open spec fn encodes(version: i16) -> bool {
        0 <= version <= 4
    }

    open spec fn request_format(version: i16) -> Format {
        match version {
            0 | 1 | 2 => Format::plain(0),
            _ => Format::flexible(3),
        }
    }

    open spec fn request_name() -> &'static str {
        "AddOffsetsToTxnRequest"
    }

    fn encode_versioned(&self, version: i16, buf: &mut BytesMut) -> (res: Result<()>) {
        match version {
            0 | 1 | 2 => self.encode_v0(buf),
            3 | 4 => self.encode_v3(buf),
            _ => Err(
                KrafkaError::Protocol(
                    ProtocolErrorKind::Malformed,
                    Reason::UnsupportedEncode("AddOffsetsToTxnRequest", version),
                ),
            ),
        }
    }

    proof fn law_request_format(&self, version: i16, w: Writer) {
    }

    proof fn law_unsupported_encode(&self, version: i16, w: Writer) {
    }
}

impl VersionedDecode for AddOffsetsToTxnResponse {
    open spec fn response_key() -> ApiKey {
        ApiKey::AddOffsetsToTxn
    }

    open spec fn decodes(version: i16) -> bool {
        0 <= version <= 4
    }

    open spec fn response_format(version: i16) -> Format {
        match version {
            0 | 1 | 2 => Format::plain(0),
            _ => Format::flexible(3),
        }
    }

    open spec fn response_name() -> &'static str {
        "AddOffsetsToTxnResponse"
    }

    fn decode_versioned(version: i16, buf: &mut Bytes) -> (res: Result<Self>) {
        match version {
            0 | 1 | 2 => Self::decode_v0(buf),
            3 | 4 => Self::decode_v3(buf),
            _ => Err(
                KrafkaError::Protocol(
                    ProtocolErrorKind::Malformed,
                    Reason::UnsupportedDecode("AddOffsetsToTxnResponse", version),
                ),
            ),
        }
    }

    proof fn law_response_format(version: i16, r: Reader) {
    }

    proof fn law_unsupported_decode(version: i16, r: Reader) {
    }
}

/// Versions 3 and 4 of the request have one format, and so have 0 to 2.
pub proof fn law_add_offsets_requests_share_formats(request: AddOffsetsToTxnRequest, w: Writer)
    ensures
        request.written_versioned(1, w) == request.written_versioned(0, w),
        request.written_versioned(2, w) == request.written_versioned(0, w),
        request.written_versioned(4, w) == request.written_versioned(3, w),
{
}

/// Versions 3 and 4 of the response have one format, and so have 0 to 2.
pub proof fn law_add_offsets_responses_share_formats(r: Reader)
    ensures
        AddOffsetsToTxnResponse::read_versioned(1, r)
            == AddOffsetsToTxnResponse::read_versioned(0, r),
        AddOffsetsToTxnResponse::read_versioned(2, r)
            == AddOffsetsToTxnResponse::read_versioned(0, r),
        AddOffsetsToTxnResponse::read_versioned(4, r)
            == AddOffsetsToTxnResponse::read_versioned(3, r),
{
}

} // verus!
