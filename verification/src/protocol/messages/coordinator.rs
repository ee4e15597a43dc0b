//! FindCoordinator (API key 10).

use crate::buffer::Octets;
use crate::error::{ErrorCode, KrafkaError, ProtocolErrorKind, Reason, Result};
use crate::protocol::api::ApiKey;
use crate::protocol::messages::{VersionedDecode, VersionedEncode};
use crate::protocol::wire::{
    decoded, encode_unsigned_varint, encoded, fits, group_appends, group_consumes, group_cut,
    group_followed, group_grows, malformed, optional_text, read_array_len, read_error_code,
    read_i16, read_i32, read_items, read_nullable_string, read_present_string, read_tags,
    result_view, write_i8, write_string, write_tags, Format, Reader, WireDecode, WireEncode, Writer,
};
use bytes::{Bytes, BytesMut};
use vstd::prelude::*;

verus! {

/// Find coordinator request.
#[derive(Debug, Clone)]
pub struct FindCoordinatorRequest {
    /// Key (group ID or transactional ID).
    pub key: String,
    /// Key type (0 = group, 1 = txn).
    pub key_type: i8,
}

impl FindCoordinatorRequest {
    /// Create a request for a consumer group.
    pub fn for_group(group_id: &str) -> (r: Self)
        ensures
            r.key@ == group_id@,
            r.key_type == 0,
    {
        FindCoordinatorRequest {
            key: group_id.to_owned(),
            key_type: 0,
        }
    }
}

impl FindCoordinatorRequest {
    /// Create a request for a transaction.
    pub fn for_transaction(transactional_id: &str) -> (r: Self)
        ensures
            r.key@ == transactional_id@,
            r.key_type == 1,
    {
        FindCoordinatorRequest {
            key: transactional_id.to_owned(),
            key_type: 1,
        }
    }
}

impl FindCoordinatorRequest {
    /// Get the API key.
    pub fn api_key() -> (r: ApiKey)
        ensures
            r == ApiKey::FindCoordinator,
    {
        ApiKey::FindCoordinator
    }
}

impl WireEncode for FindCoordinatorRequest {
    /// From version 4 on the key stands behind its type, in an array of keys.
    open spec fn written(&self, f: Format, w: Writer) -> Writer {
        let w = if f.version >= 4 {
            w.i8(self.key_type).varint(2).string(self.key@, f.flexible)
        } else {
            w.string(self.key@, f.flexible).i8(self.key_type)
        };
        w.tags(f.flexible)
    }

    proof fn lemma_grows(&self, f: Format, w: Writer) {
        broadcast use group_grows;

    }

    proof fn law_appends(&self, f: Format, w: Writer) {
        broadcast use group_appends;

    }

    fn encode_wire(&self, f: Format, buf: &mut BytesMut) -> (res: Result<()>) {
        broadcast use group_grows;

        if f.version >= 4 {
            write_i8(self.key_type, buf);
            encode_unsigned_varint(2, buf);
            write_string(self.key.as_str(), f.flexible, buf)?;
        } else {
            write_string(self.key.as_str(), f.flexible, buf)?;
            write_i8(self.key_type, buf);
        }
        write_tags(f.flexible, buf);
        Ok(())
    }
}

impl FindCoordinatorRequest {
    /// Encode for version 1-2.
    pub fn encode_v1(&self, buf: &mut BytesMut) -> (res: Result<()>)
        requires
            fits(self.written(Format::plain(1), Writer::at(old(buf)@))),
        ensures
            encoded(res, final(buf)@, self.written(Format::plain(1), Writer::at(old(buf)@))),
    {
        self.encode_wire(Format::plain(1), buf)
    }

    /// Encode for version 3 (flexible: compact strings + tagged fields).
    pub fn encode_v3(&self, buf: &mut BytesMut) -> (res: Result<()>)
        requires
            fits(self.written(Format::flexible(3), Writer::at(old(buf)@))),
        ensures
            encoded(res, final(buf)@, self.written(Format::flexible(3), Writer::at(old(buf)@))),
    {
        self.encode_wire(Format::flexible(3), buf)
    }

    /// Encode for version 4-6 (batched coordinator lookup, KIP-699).
    ///
    /// v4 replaces the single `Key` field with `KeyType` + `CoordinatorKeys`
    /// compact array. We encode our single key as a one-element array.
    /// v5 (KIP-890) and v6 (KIP-932) share the same wire format.
    pub fn encode_v4(&self, buf: &mut BytesMut) -> (res: Result<()>)
        requires
            fits(self.written(Format::flexible(4), Writer::at(old(buf)@))),
        ensures
            encoded(res, final(buf)@, self.written(Format::flexible(4), Writer::at(old(buf)@))),
    {
        self.encode_wire(Format::flexible(4), buf)
    }
}

/// Find coordinator response.
#[derive(Debug, Clone)]
pub struct FindCoordinatorResponse {
    /// Throttle time.
    pub throttle_time_ms: i32,
    /// Error code.
    pub error_code: ErrorCode,
    /// Error message.
    pub error_message: Option<String>,
    /// Coordinator node ID.
    pub node_id: i32,
    /// Coordinator host.
    pub host: String,
    /// Coordinator port.
    pub port: i32,
}

/// What a [`FindCoordinatorResponse`] holds.
pub struct FindCoordinatorResponseView {
    /// Throttle time.
    pub throttle_time_ms: i32,
    /// Error code.
    pub error_code: ErrorCode,
    /// Error message.
    pub error_message: Option<Seq<char>>,
    /// Coordinator node ID.
    pub node_id: i32,
    /// Coordinator host.
    pub host: Seq<char>,
    /// Coordinator port.
    pub port: i32,
}

impl View for FindCoordinatorResponse {
    type V = FindCoordinatorResponseView;

    open spec fn view(&self) -> FindCoordinatorResponseView {
        FindCoordinatorResponseView {
            throttle_time_ms: self.throttle_time_ms,
            error_code: self.error_code,
            error_message: optional_text(self.error_message),
            node_id: self.node_id,
            host: self.host@,
            port: self.port,
        }
    }
}

/// A coordinator of a batch that is passed over.
pub struct OtherCoordinator;

impl View for OtherCoordinator {
    type V = ();

    open spec fn view(&self) -> () {
        ()
    }
}

impl WireDecode for OtherCoordinator {
    open spec fn read(f: Format, r: Reader) -> ((), Reader) {
        let r = r.nullable_string(f.flexible).1;
        let r = r.i32().1;
        let r = r.nullable_string(f.flexible).1;
        let r = r.i32().1;
        let r = r.i16().1;
        let r = r.nullable_string(f.flexible).1;
        let r = r.tags(f.flexible);
        ((), r)
    }

    fn decode_wire(f: Format, buf: &mut Bytes) -> (res: Result<Self>) {
        read_nullable_string(f.flexible, buf)?;
        read_i32(buf)?;
        read_nullable_string(f.flexible, buf)?;
        read_i32(buf)?;
        read_i16(buf)?;
        read_nullable_string(f.flexible, buf)?;
        read_tags(f.flexible, buf)?;
        Ok(OtherCoordinator)
    }

    proof fn law_consumes(f: Format, r: Reader) {
        broadcast use group_consumes;

    }

    proof fn law_ignores_what_follows(f: Format, r: Reader, more: Seq<u8>) {
        broadcast use group_consumes, group_followed;

    }

    proof fn law_needs_only_what_it_takes(f: Format, r: Reader, k: nat) {
        broadcast use group_consumes, group_cut;

    }
}

/// A response with a single coordinator.
pub open spec fn read_single(f: Format, r: Reader) -> (FindCoordinatorResponseView, Reader) {
    let (throttle_time_ms, r) = r.i32();
    let (error_code, r) = r.error_code();
    let (error_message, r) = r.nullable_string(f.flexible);
    let (node_id, r) = r.i32();
    let (host, r) = if f.flexible {
        r.present_string("FindCoordinator host must be a non-null compact string", true)
    } else {
        r.present_string("FindCoordinator host must be a non-null string", false)
    };
    let (port, r) = r.i32();
    let r = r.tags(f.flexible);
    let value = FindCoordinatorResponseView {
        throttle_time_ms,
        error_code,
        error_message,
        node_id,
        host,
        port,
    };
    (value, r)
}

/// A response with a batch of coordinators, of which the first one counts. A batch
/// without any is an error, met behind the tagged fields.
pub open spec fn read_batch(f: Format, r: Reader) -> (FindCoordinatorResponseView, Reader) {
    let (throttle_time_ms, r) = r.i32();
    let (n, r) = r.array_len(f.flexible);
    let r = if n == 0 {
        r.tags(f.flexible).raise(malformed("FindCoordinator v4: empty coordinators array"))
    } else {
        r
    };
    let r = r.nullable_string(f.flexible).1;
    let (node_id, r) = r.i32();
    let (host, r) = r.present_string(
        "FindCoordinator host must be a non-null compact string",
        f.flexible,
    );
    let (port, r) = r.i32();
    let (error_code, r) = r.error_code();
    let (error_message, r) = r.nullable_string(f.flexible);
    let r = r.tags(f.flexible);
    let r = r.items::<OtherCoordinator>(f, (n - 1) as nat).1;
    let r = r.tags(f.flexible);
    let value = FindCoordinatorResponseView {
        throttle_time_ms,
        error_code,
        error_message,
        node_id,
        host,
        port,
    };
    (value, r)
}

impl WireDecode for FindCoordinatorResponse {
    open spec fn read(f: Format, r: Reader) -> (FindCoordinatorResponseView, Reader) {
        if f.version >= 4 {
            read_batch(f, r)
        } else {
            read_single(f, r)
        }
    }

    fn decode_wire(f: Format, buf: &mut Bytes) -> (res: Result<Self>) {
        let throttle_time_ms = read_i32(buf)?;
        if f.version >= 4 {
            let n = read_array_len(f.flexible, buf)?;
            if n == 0 {
                read_tags(f.flexible, buf)?;
                return Err(KrafkaError::protocol("FindCoordinator v4: empty coordinators array"));
            }
            read_nullable_string(f.flexible, buf)?;
            let node_id = read_i32(buf)?;
            let host = read_present_string(
                "FindCoordinator host must be a non-null compact string",
                f.flexible,
                buf,
            )?;
            let port = read_i32(buf)?;
            let error_code = read_error_code(buf)?;
            let error_message = read_nullable_string(f.flexible, buf)?;
            read_tags(f.flexible, buf)?;
            read_items::<OtherCoordinator>(n - 1, f, buf)?;
            read_tags(f.flexible, buf)?;
            return Ok(
                FindCoordinatorResponse {
                    throttle_time_ms,
                    error_code,
                    error_message,
                    node_id,
                    host,
                    port,
                },
            );
        }
        let error_code = read_error_code(buf)?;
        let error_message = read_nullable_string(f.flexible, buf)?;
        let node_id = read_i32(buf)?;
        let host = if f.flexible {
            read_present_string("FindCoordinator host must be a non-null compact string", true, buf)?
        } else {
            read_present_string("FindCoordinator host must be a non-null string", false, buf)?
        };
        let port = read_i32(buf)?;
        read_tags(f.flexible, buf)?;
        Ok(
            FindCoordinatorResponse {
                throttle_time_ms,
                error_code,
                error_message,
                node_id,
                host,
                port,
            },
        )
    }

    proof fn law_consumes(f: Format, r: Reader) {
        broadcast use group_consumes;

    }

    proof fn law_ignores_what_follows(f: Format, r: Reader, more: Seq<u8>) {
        broadcast use group_consumes, group_followed;

    }

    proof fn law_needs_only_what_it_takes(f: Format, r: Reader, k: nat) {
        broadcast use group_consumes, group_cut;

    }
}

impl FindCoordinatorResponse {
    /// Decode from version 1-2.
    pub fn decode_v1(buf: &mut Bytes) -> (res: Result<Self>)
        ensures
            decoded(
                result_view(res),
                final(buf)@,
                Self::read(Format::plain(1), Reader::on(old(buf)@)),
            ),
    {
        Self::decode_wire(Format::plain(1), buf)
    }

    /// Decode from version 3 (flexible: compact strings + tagged fields).
    pub fn decode_v3(buf: &mut Bytes) -> (res: Result<Self>)
        ensures
            decoded(
                result_view(res),
                final(buf)@,
                Self::read(Format::flexible(3), Reader::on(old(buf)@)),
            ),
    {
        Self::decode_wire(Format::flexible(3), buf)
    }

    /// Decode from version 4-6 (batched coordinators array, KIP-699).
    ///
    /// v4 returns a compact `Coordinators` array. We extract the first entry.
    /// v5 (KIP-890) and v6 (KIP-932) share the same wire format.
    pub fn decode_v4(buf: &mut Bytes) -> (res: Result<Self>)
        ensures
            decoded(
                result_view(res),
                final(buf)@,
                Self::read(Format::flexible(4), Reader::on(old(buf)@)),
            ),
    {
        Self::decode_wire(Format::flexible(4), buf)
    }
}

impl VersionedEncode for FindCoordinatorRequest {
    open spec fn request_key() -> ApiKey {
        ApiKey::FindCoordinator
    }

    open spec fn encodes(version: i16) -> bool {
        1 <= version <= 6
    }

    open spec fn request_format(version: i16) -> Format {
        match version {
            1 | 2 => Format::plain(1),
            3 => Format::flexible(3),
            _ => Format::flexible(4),
        }
    }

    open spec fn request_name() -> &'static str {
        "FindCoordinatorRequest"
    }

    fn encode_versioned(&self, version: i16, buf: &mut BytesMut) -> (res: Result<()>) {
        match version {
            1 | 2 => self.encode_v1(buf),
            3 => self.encode_v3(buf),
            4 | 5 | 6 => self.encode_v4(buf),
            _ => Err(
                KrafkaError::Protocol(
                    ProtocolErrorKind::Malformed,
                    Reason::UnsupportedEncode("FindCoordinatorRequest", version),
                ),
            ),
        }
    }

    proof fn law_request_format(&self, version: i16, w: Writer) {
    }

    proof fn law_unsupported_encode(&self, version: i16, w: Writer) {
    }
}

impl VersionedDecode for FindCoordinatorResponse {
    open spec fn response_key() -> ApiKey {
        ApiKey::FindCoordinator
    }

    open spec fn decodes(version: i16) -> bool {
        1 <= version <= 6
    }

    open spec fn response_format(version: i16) -> Format {
        match version {
            1 | 2 => Format::plain(1),
            3 => Format::flexible(3),
            _ => Format::flexible(4),
        }
    }

    open spec fn response_name() -> &'static str {
        "FindCoordinatorResponse"
    }

    fn decode_versioned(version: i16, buf: &mut Bytes) -> (res: Result<Self>) {
        match version {
            1 | 2 => Self::decode_v1(buf),
            3 => Self::decode_v3(buf),
            4 | 5 | 6 => Self::decode_v4(buf),
            _ => Err(
                KrafkaError::Protocol(
                    ProtocolErrorKind::Malformed,
                    Reason::UnsupportedDecode("FindCoordinatorResponse", version),
                ),
            ),
        }
    }

    proof fn law_response_format(version: i16, r: Reader) {
    }

    proof fn law_unsupported_decode(version: i16, r: Reader) {
    }
}

/// Versions 4 to 6 of the request have one format, and so have 1 and 2.
pub proof fn law_coordinator_requests_share_formats(request: FindCoordinatorRequest, w: Writer)
    ensures
        request.written_versioned(2, w) == request.written_versioned(1, w),
        request.written_versioned(5, w) == request.written_versioned(4, w),
        request.written_versioned(6, w) == request.written_versioned(4, w),
{
}

/// Versions 4 to 6 of the response have one format, and so have 1 and 2.
pub proof fn law_coordinator_responses_share_formats(r: Reader)
    ensures
        FindCoordinatorResponse::read_versioned(2, r)
            == FindCoordinatorResponse::read_versioned(1, r),
        FindCoordinatorResponse::read_versioned(5, r)
            == FindCoordinatorResponse::read_versioned(4, r),
        FindCoordinatorResponse::read_versioned(6, r)
            == FindCoordinatorResponse::read_versioned(4, r),
{
}

} // verus!
