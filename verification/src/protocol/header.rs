//! Kafka protocol request and response headers.
//!
//! All Kafka requests and responses are framed with headers that contain
//! metadata like API key, version, correlation ID, etc.

use crate::buffer::Octets;
use crate::error::Result;
use crate::protocol::api::{text_or_null, ApiKey};
use crate::protocol::primitives::{KafkaString, TryEncode};
use crate::protocol::wire::{
    decoded, encoded, fits, group_appends, group_consumes, group_cut, group_followed, group_grows,
    read_i32, read_tags, result_view, write_i16, write_i32, write_tags, Format, Reader, WireDecode,
    WireEncode, Writer,
};
use bytes::{Bytes, BytesMut};
use vstd::prelude::*;

verus! {

/// Request header for Kafka protocol.
///
/// The header format varies based on the header version:
/// - v0: api_key, api_version, correlation_id
/// - v1: api_key, api_version, correlation_id, client_id
/// - v2: api_key, api_version, correlation_id, client_id, tagged_fields (flexible)
#[derive(Debug, Clone)]
pub struct RequestHeader {
    /// The API key for the request.
    pub api_key: ApiKey,
    /// The API version for the request.
    pub api_version: i16,
    /// The correlation ID for request/response matching.
    pub correlation_id: i32,
    /// The client ID.
    pub client_id: Option<KafkaString>,
}

/// The version of the request header of a version of an API.
pub open spec fn request_header_version(api_key: ApiKey, api_version: i16) -> i16 {
    if api_version >= api_key.flexible_from() {
        2
    } else {
        1
    }
}

/// The version of the response header of a version of an API.
pub open spec fn response_header_version(api_key: ApiKey, api_version: i16) -> i16 {
    if api_key != ApiKey::ApiVersions && api_version >= api_key.flexible_from() {
        1
    } else {
        0
    }
}

impl WireEncode for RequestHeader {
    /// The client ID has the two-byte length prefix in every format.
    open spec fn written(&self, f: Format, w: Writer) -> Writer {
        let w = w.i16(self.api_key.number());
        let w = w.i16(self.api_version);
        let w = w.i32(self.correlation_id);
        let w = w.nullable_string(text_or_null(self.client_id), false);
        w.tags(f.flexible)
    }

    proof fn lemma_grows(&self, f: Format, w: Writer) {
        broadcast use group_grows;

    }

    proof fn law_appends(&self, f: Format, w: Writer) {
        broadcast use group_appends;

    }

    fn encode_wire(&self, f: Format, buf: &mut BytesMut) -> (res: Result<()>) {
        broadcast use group_grows;

        write_i16(self.api_key.to_i16(), buf);
        write_i16(self.api_version, buf);
        write_i32(self.correlation_id, buf);
        match &self.client_id {
            Some(client_id) => client_id.try_encode(buf)?,
            None => KafkaString::null().try_encode(buf)?,
        }
        write_tags(f.flexible, buf);
        Ok(())
    }
}

impl RequestHeader {
    /// Create a new request header.
    pub fn new(api_key: ApiKey, api_version: i16, correlation_id: i32) -> (r: Self)
        ensures
            r == (RequestHeader { api_key, api_version, correlation_id, client_id: None }),
    {
        RequestHeader { api_key, api_version, correlation_id, client_id: None }
    }

    /// Set the client ID.
    pub fn with_client_id(self, client_id: &str) -> (r: Self)
        ensures
            r.api_key == self.api_key,
            r.api_version == self.api_version,
            r.correlation_id == self.correlation_id,
            text_or_null(r.client_id) == Some(client_id@),
    {
        RequestHeader {
            api_key: self.api_key,
            api_version: self.api_version,
            correlation_id: self.correlation_id,
            client_id: Some(KafkaString::new(client_id)),
        }
    }

    /// Encode the header for header version 1.
    pub fn encode_v1(&self, buf: &mut BytesMut) -> (res: Result<()>)
        requires
            fits(self.written(Format::plain(1), Writer::at(old(buf)@))),
        ensures
            encoded(res, final(buf)@, self.written(Format::plain(1), Writer::at(old(buf)@))),
    {
        self.encode_wire(Format::plain(1), buf)
    }

    /// Encode the header for header version 2 (flexible).
    ///
    /// The client ID is always serialized with the old-style two-byte length
    /// prefix, even in header v2, so that older brokers can still parse
    /// ApiVersionsRequest headers from newer clients.
    pub fn encode_v2(&self, buf: &mut BytesMut) -> (res: Result<()>)
        requires
            fits(self.written(Format::flexible(2), Writer::at(old(buf)@))),
        ensures
            encoded(res, final(buf)@, self.written(Format::flexible(2), Writer::at(old(buf)@))),
    {
        self.encode_wire(Format::flexible(2), buf)
    }

    /// Determine the request header version based on the API key and version.
    ///
    /// Each Kafka API transitions to flexible encoding (compact strings +
    /// tagged fields) at a version defined by `ApiKey::flexible_version()`.
    /// Below that threshold: header v1 (standard strings);
    /// at or above: header v2 (flexible).
    pub fn header_version(api_key: ApiKey, api_version: i16) -> (r: i16)
        ensures
            r == request_header_version(api_key, api_version),
    {
        if api_version >= api_key.flexible_version() {
            2
        } else {
            1
        }
    }

    /// The writer behind the header in the version that the request calls for.
    pub open spec fn written_header(&self, w: Writer) -> Writer {
        if request_header_version(self.api_key, self.api_version) == 1 {
            self.written(Format::plain(1), w)
        } else {
            self.written(Format::flexible(2), w)
        }
    }

    /// Encode the header using the appropriate version.
    ///
    /// `header_version()` returns 1 (non-flexible) or 2 (flexible);
    /// v0 is unused because all APIs use client_id in requests.
    pub fn encode(&self, buf: &mut BytesMut) -> (res: Result<()>)
        requires
            fits(self.written_header(Writer::at(old(buf)@))),
        ensures
            encoded(res, final(buf)@, self.written_header(Writer::at(old(buf)@))),
    {
        if Self::header_version(self.api_key, self.api_version) == 1 {
            self.encode_v1(buf)
        } else {
            self.encode_v2(buf)
        }
    }
}

/// Response header for Kafka protocol.
///
/// The header format varies based on the header version:
/// - v0: correlation_id
/// - v1: correlation_id, tagged_fields (flexible)
#[derive(Debug, Clone)]
pub struct ResponseHeader {
    /// The correlation ID matching the request.
    pub correlation_id: i32,
}

impl View for ResponseHeader {
    type V = ResponseHeader;

    open spec fn view(&self) -> ResponseHeader {
        *self
    }
}

impl WireDecode for ResponseHeader {
    open spec fn read(f: Format, r: Reader) -> (ResponseHeader, Reader) {
        let (correlation_id, r) = r.i32();
        let r = r.tags(f.flexible);
        (ResponseHeader { correlation_id }, r)
    }

    fn decode_wire(f: Format, buf: &mut Bytes) -> (res: Result<Self>) {
        let correlation_id = read_i32(buf)?;
        read_tags(f.flexible, buf)?;
        Ok(ResponseHeader { correlation_id })
    }

    proof fn law_consumes(f: Format, r: Reader) {
        broadcast use group_consumes;

    }

    proof fn law_ignores_what_follows(f: Format, r: Reader, more: Seq<u8>) {
        broadcast use group_consumes, group_followed;

    }

    proof fn law_needs_only_what_it_takes(f: Format, r: Reader, k: nat) {
        broadcast use group_consumes, group_cut;

    }
}

impl ResponseHeader {
    /// Create a new response header.
    pub fn new(correlation_id: i32) -> (r: Self)
        ensures
            r == (ResponseHeader { correlation_id }),
    {
        ResponseHeader { correlation_id }
    }

    /// Decode the header for header version 0.
    pub fn decode_v0(buf: &mut Bytes) -> (res: Result<Self>)
        ensures
            decoded(
                result_view(res),
                final(buf)@,
                Self::read(Format::plain(0), Reader::on(old(buf)@)),
            ),
    {
        Self::decode_wire(Format::plain(0), buf)
    }

    /// Decode the header for header version 1 (flexible).
    pub fn decode_v1(buf: &mut Bytes) -> (res: Result<Self>)
        ensures
            decoded(
                result_view(res),
                final(buf)@,
                Self::read(Format::flexible(1), Reader::on(old(buf)@)),
            ),
    {
        Self::decode_wire(Format::flexible(1), buf)
    }

    /// Determine the response header version based on the API key and version.
    ///
    /// Below `ApiKey::flexible_version()`: header v0 (correlation_id only);
    /// at or above: header v1 (correlation_id + tagged fields).
    ///
    /// **Exception:** ApiVersions always uses response header v0 regardless
    /// of the API version (needed for protocol bootstrapping).
    pub fn header_version(api_key: ApiKey, api_version: i16) -> (r: i16)
        ensures
            r == response_header_version(api_key, api_version),
    {
        if api_key == ApiKey::ApiVersions {
            return 0;
        }
        if api_version >= api_key.flexible_version() {
            1
        } else {
            0
        }
    }

    /// The header at the front of a reader in the version that the response has.
    pub open spec fn read_header(r: Reader, api_key: ApiKey, api_version: i16) -> (
        ResponseHeader,
        Reader,
    ) {
        if response_header_version(api_key, api_version) == 0 {
            Self::read(Format::plain(0), r)
        } else {
            Self::read(Format::flexible(1), r)
        }
    }

    /// Decode the header using the appropriate version.
    pub fn decode(buf: &mut Bytes, api_key: ApiKey, api_version: i16) -> (res: Result<Self>)
        ensures
            decoded(
                result_view(res),
                final(buf)@,
                Self::read_header(Reader::on(old(buf)@), api_key, api_version),
            ),
    {
        if Self::header_version(api_key, api_version) == 0 {
            Self::decode_v0(buf)
        } else {
            Self::decode_v1(buf)
        }
    }
}

/// Header version 2 is header version 1, with the client ID in the same form, and
/// an empty section of tagged fields behind it.
pub proof fn law_request_header_v2_appends_tags(header: RequestHeader, w: Writer)
    ensures
        header.written(Format::flexible(2), w) == header.written(Format::plain(1), w).varint(0),
{
}

/// The response to ApiVersions has the first header version whatever the version
/// of the API, so that it can be read before any version is agreed on.
pub proof fn law_api_versions_response_header(api_version: i16)
    ensures
        response_header_version(ApiKey::ApiVersions, api_version) == 0,
{
}

/// Request and response switch to the flexible headers at the same version, but
/// for the response to ApiVersions.
pub proof fn law_headers_switch_together(api_key: ApiKey, api_version: i16)
    requires
        api_key != ApiKey::ApiVersions,
    ensures
        request_header_version(api_key, api_version) == 2 <==> response_header_version(
            api_key,
            api_version,
        ) == 1,
{
}

} // verus!
