//! Authentication and access control.

use crate::buffer::{as_slice, Octets};
use crate::error::{ErrorCode, KrafkaError, ProtocolErrorKind, Reason, Result};
use crate::protocol::api::ApiKey;
use crate::protocol::messages::{VersionedDecode, VersionedEncode};
use crate::protocol::primitives::KafkaString;
use crate::protocol::wire::{
    decoded, encoded, fits, group_appends, group_consumes, group_cut, group_followed, group_grows,
    optional_text, read_array, read_bytes_or_empty, read_error_code, read_i32, read_i64, read_i8,
    read_nullable_string, read_string_or_empty, result_view, views, write_array, write_bytes,
    write_i8, write_nullable_string, write_string, Format, Reader, WireDecode, WireEncode, Writer,
};
use bytes::{Bytes, BytesMut};
use vstd::prelude::*;
use vstd::slice::slice_to_vec;

verus! {

/// Request to negotiate SASL mechanism.
#[derive(Debug, Clone)]
pub struct SaslHandshakeRequest {
    /// SASL mechanism name (e.g., "PLAIN", "SCRAM-SHA-256").
    pub mechanism: String,
}

impl SaslHandshakeRequest {
    /// Create a new SASL handshake request.
    pub fn new(mechanism: &str) -> (r: Self)
        ensures
            r.mechanism@ == mechanism@,
    {
        SaslHandshakeRequest {
            mechanism: mechanism.to_owned(),
        }
    }
}

impl WireEncode for SaslHandshakeRequest {
    open spec fn written(&self, f: Format, w: Writer) -> Writer {
        w.string(self.mechanism@, f.flexible)
    }

    proof fn lemma_grows(&self, f: Format, w: Writer) {
        broadcast use group_grows;

    }

    proof fn law_appends(&self, f: Format, w: Writer) {
        broadcast use group_appends;

    }

    fn encode_wire(&self, f: Format, buf: &mut BytesMut) -> (res: Result<()>) {
        broadcast use group_grows;

        write_string(self.mechanism.as_str(), f.flexible, buf)?;
        Ok(())
    }
}

impl SaslHandshakeRequest {
    /// Encode as version 0.
    pub fn encode_v0(&self, buf: &mut BytesMut) -> (res: Result<()>)
        requires
            fits(self.written(Format::plain(0), Writer::at(old(buf)@))),
        ensures
            encoded(res, final(buf)@, self.written(Format::plain(0), Writer::at(old(buf)@))),
    {
        self.encode_wire(Format::plain(0), buf)
    }

    /// Encode as version 1.
    pub fn encode_v1(&self, buf: &mut BytesMut) -> (res: Result<()>)
        requires
            fits(self.written(Format::plain(1), Writer::at(old(buf)@))),
        ensures
            encoded(res, final(buf)@, self.written(Format::plain(1), Writer::at(old(buf)@))),
    {
        self.encode_wire(Format::plain(1), buf)
    }
}

/// Response from SASL handshake.
#[derive(Debug, Clone)]
pub struct SaslHandshakeResponse {
    /// Error code.
    pub error_code: ErrorCode,
    /// List of mechanisms enabled on the broker.
    pub enabled_mechanisms: Vec<String>,
}

/// What a [`SaslHandshakeResponse`] holds.
pub struct SaslHandshakeResponseView {
    /// Error code.
    pub error_code: ErrorCode,
    /// List of mechanisms enabled on the broker.
    pub enabled_mechanisms: Seq<Seq<char>>,
}

impl View for SaslHandshakeResponse {
    type V = SaslHandshakeResponseView;

    open spec fn view(&self) -> SaslHandshakeResponseView {
        SaslHandshakeResponseView {
            error_code: self.error_code,
            enabled_mechanisms: views(self.enabled_mechanisms@),
        }
    }
}

/// The texts of a sequence that are not null.
pub open spec fn present(texts: Seq<Option<Seq<char>>>) -> Seq<Seq<char>>
    decreases texts.len(),
{
    if texts.len() == 0 {
        Seq::empty()
    } else {
        let front = present(texts.drop_last());
        match texts.last() {
            Some(text) => front.push(text),
            None => front,
        }
    }
}

/// The texts that are not null, in their order.
fn present_texts(texts: Vec<KafkaString>) -> (out: Vec<String>)
    ensures
        views(out@) == present(views(texts@)),
{
    let mut out: Vec<String> = Vec::new();
    let mut i: usize = 0;
    assert(views(texts@).take(0) =~= Seq::empty());
    assert(views(out@) =~= Seq::<Seq<char>>::empty());
    while i < texts.len()
        invariant
            i <= texts@.len(),
            views(out@) == present(views(texts@).take(i as int)),
        decreases texts@.len() - i,
    {
        assert(views(texts@).take(i + 1).drop_last() =~= views(texts@).take(i as int));
        assert(views(texts@).take(i + 1).last() == texts@[i as int]@);
        let ghost before = out@;
        if let Some(text) = &texts[i].0 {
            out.push(text.clone());
            assert(views(out@) =~= views(before).push(text@));
        }
        i = i + 1;
    }
    assert(views(texts@).take(i as int) =~= views(texts@));
    out
}

impl WireDecode for SaslHandshakeResponse {
    open spec fn read(f: Format, r: Reader) -> (SaslHandshakeResponseView, Reader) {
        let (error_code, r) = r.error_code();
        let (mechanisms, r) = r.array::<KafkaString>(f);
        let value = SaslHandshakeResponseView {
            error_code,
            enabled_mechanisms: present(mechanisms),
        };
        (value, r)
    }

    fn decode_wire(f: Format, buf: &mut Bytes) -> (res: Result<Self>) {
        let error_code = read_error_code(buf)?;
        let mechanisms = read_array::<KafkaString>(f, buf)?;
        Ok(SaslHandshakeResponse { error_code, enabled_mechanisms: present_texts(mechanisms) })
    }

    proof fn law_consumes(f: Format, r: Reader) {
        broadcast use group_consumes;

    }

    proof fn law_ignores_what_follows(f: Format, r: Reader, more: Seq<u8>) {
        broadcast use group_consumes, group_followed;

    }

    proof fn law_needs_only_what_it_takes(f: Format, r: Reader, k: nat) {
        broadcast use group_consumes, group_cut;

    }
}

impl SaslHandshakeResponse {
    /// Decode from version 0.
    pub fn decode_v0(buf: &mut Bytes) -> (res: Result<Self>)
        ensures
            decoded(
                result_view(res),
                final(buf)@,
                Self::read(Format::plain(0), Reader::on(old(buf)@)),
            ),
    {
        Self::decode_wire(Format::plain(0), buf)
    }
}

impl SaslHandshakeResponse {
    /// Check if the response indicates success.
    pub fn is_ok(&self) -> (r: bool)
        ensures
            r == (self.error_code == ErrorCode::NoError),
    {
        self.error_code.is_ok()
    }
}

impl VersionedEncode for SaslHandshakeRequest {
    open spec fn request_key() -> ApiKey {
        ApiKey::SaslHandshake
    }

    open spec fn encodes(version: i16) -> bool {
        0 <= version <= 1
    }

    open spec fn request_format(version: i16) -> Format {
        match version {
            0 => Format::plain(0),
            _ => Format::plain(1),
        }
    }

    open spec fn request_name() -> &'static str {
        "SaslHandshakeRequest"
    }

    fn encode_versioned(&self, version: i16, buf: &mut BytesMut) -> (res: Result<()>) {
        match version {
            0 => self.encode_v0(buf),
            1 => self.encode_v1(buf),
            _ => Err(
                KrafkaError::Protocol(
                    ProtocolErrorKind::Malformed,
                    Reason::UnsupportedEncode("SaslHandshakeRequest", version),
                ),
            ),
        }
    }

    proof fn law_request_format(&self, version: i16, w: Writer) {
    }

    proof fn law_unsupported_encode(&self, version: i16, w: Writer) {
    }
}

impl VersionedDecode for SaslHandshakeResponse {
    open spec fn response_key() -> ApiKey {
        ApiKey::SaslHandshake
    }

    open spec fn decodes(version: i16) -> bool {
        0 <= version <= 1
    }

    open spec fn response_format(version: i16) -> Format {
        Format::plain(0)
    }

    open spec fn response_name() -> &'static str {
        "SaslHandshakeResponse"
    }

    fn decode_versioned(version: i16, buf: &mut Bytes) -> (res: Result<Self>) {
        match version {
            0 | 1 => Self::decode_v0(buf),
            _ => Err(
                KrafkaError::Protocol(
                    ProtocolErrorKind::Malformed,
                    Reason::UnsupportedDecode("SaslHandshakeResponse", version),
                ),
            ),
        }
    }

    proof fn law_response_format(version: i16, r: Reader) {
    }

    proof fn law_unsupported_decode(version: i16, r: Reader) {
    }
}

/// Request to authenticate via SASL.
#[derive(Debug, Clone)]
pub struct SaslAuthenticateRequest {
    /// SASL authentication bytes.
    pub auth_bytes: Vec<u8>,
}

impl SaslAuthenticateRequest {
    /// Create a new SASL authenticate request.
    pub fn new(auth_bytes: Vec<u8>) -> (r: Self)
        ensures
            r.auth_bytes == auth_bytes,
    {
        SaslAuthenticateRequest {
            auth_bytes,
        }
    }
}

impl WireEncode for SaslAuthenticateRequest {
    open spec fn written(&self, f: Format, w: Writer) -> Writer {
        w.bytes(self.auth_bytes@, f.flexible)
    }

    proof fn lemma_grows(&self, f: Format, w: Writer) {
        broadcast use group_grows;

    }

    proof fn law_appends(&self, f: Format, w: Writer) {
        broadcast use group_appends;

    }

    fn encode_wire(&self, f: Format, buf: &mut BytesMut) -> (res: Result<()>) {
        broadcast use group_grows;

        write_bytes(self.auth_bytes.as_slice(), f.flexible, buf)?;
        Ok(())
    }
}

impl SaslAuthenticateRequest {
    /// Encode as version 0.
    pub fn encode_v0(&self, buf: &mut BytesMut) -> (res: Result<()>)
        requires
            fits(self.written(Format::plain(0), Writer::at(old(buf)@))),
        ensures
            encoded(res, final(buf)@, self.written(Format::plain(0), Writer::at(old(buf)@))),
    {
        self.encode_wire(Format::plain(0), buf)
    }

    /// Encode as version 1.
    pub fn encode_v1(&self, buf: &mut BytesMut) -> (res: Result<()>)
        requires
            fits(self.written(Format::plain(1), Writer::at(old(buf)@))),
        ensures
            encoded(res, final(buf)@, self.written(Format::plain(1), Writer::at(old(buf)@))),
    {
        self.encode_wire(Format::plain(1), buf)
    }
}

/// Response from SASL authentication.
#[derive(Debug, Clone)]
pub struct SaslAuthenticateResponse {
    /// Error code.
    pub error_code: ErrorCode,
    /// Error message (if any).
    pub error_message: Option<String>,
    /// Authentication response bytes.
    pub auth_bytes: Vec<u8>,
    /// Session lifetime in milliseconds (v1+).
    pub session_lifetime_ms: i64,
}

/// What a [`SaslAuthenticateResponse`] holds.
pub struct SaslAuthenticateResponseView {
    /// Error code.
    pub error_code: ErrorCode,
    /// Error message (if any).
    pub error_message: Option<Seq<char>>,
    /// Authentication response bytes.
    pub auth_bytes: Seq<u8>,
    /// Session lifetime in milliseconds (v1+).
    pub session_lifetime_ms: i64,
}

impl View for SaslAuthenticateResponse {
    type V = SaslAuthenticateResponseView;

    open spec fn view(&self) -> SaslAuthenticateResponseView {
        SaslAuthenticateResponseView {
            error_code: self.error_code,
            error_message: optional_text(self.error_message),
            auth_bytes: self.auth_bytes@,
            session_lifetime_ms: self.session_lifetime_ms,
        }
    }
}

impl WireDecode for SaslAuthenticateResponse {
    open spec fn read(f: Format, r: Reader) -> (SaslAuthenticateResponseView, Reader) {
        let (error_code, r) = r.error_code();
        let (error_message, r) = r.nullable_string(f.flexible);
        let (auth_bytes, r) = r.bytes_or_empty(f.flexible);
        let (session_lifetime_ms, r) = if f.version >= 1 {
            r.i64()
        } else {
            (0, r)
        };
        let value = SaslAuthenticateResponseView {
            error_code,
            error_message,
            auth_bytes,
            session_lifetime_ms,
        };
        (value, r)
    }

    fn decode_wire(f: Format, buf: &mut Bytes) -> (res: Result<Self>) {
        let error_code = read_error_code(buf)?;
        let error_message = read_nullable_string(f.flexible, buf)?;
        let auth_bytes = slice_to_vec(as_slice(&read_bytes_or_empty(f.flexible, buf)?));
        let session_lifetime_ms: i64 = if f.version >= 1 {
            read_i64(buf)?
        } else {
            0
        };
        Ok(SaslAuthenticateResponse {
            error_code,
            error_message,
            auth_bytes,
            session_lifetime_ms,
        })
    }

    proof fn law_consumes(f: Format, r: Reader) {
        broadcast use group_consumes;

    }

    proof fn law_ignores_what_follows(f: Format, r: Reader, more: Seq<u8>) {
        broadcast use group_consumes, group_followed;

    }

    proof fn law_needs_only_what_it_takes(f: Format, r: Reader, k: nat) {
        broadcast use group_consumes, group_cut;

    }
}

impl SaslAuthenticateResponse {
    /// Decode from version 0.
    pub fn decode_v0(buf: &mut Bytes) -> (res: Result<Self>)
        ensures
            decoded(
                result_view(res),
                final(buf)@,
                Self::read(Format::plain(0), Reader::on(old(buf)@)),
            ),
    {
        Self::decode_wire(Format::plain(0), buf)
    }

    /// Decode from version 1.
    pub fn decode_v1(buf: &mut Bytes) -> (res: Result<Self>)
        ensures
            decoded(
                result_view(res),
                final(buf)@,
                Self::read(Format::plain(1), Reader::on(old(buf)@)),
            ),
    {
        Self::decode_wire(Format::plain(1), buf)
    }
}

impl SaslAuthenticateResponse {
    /// Check if the response indicates success.
    pub fn is_ok(&self) -> (r: bool)
        ensures
            r == (self.error_code == ErrorCode::NoError),
    {
        self.error_code.is_ok()
    }
}

impl SaslAuthenticateResponse {
    /// Check if authentication is complete (no more challenges).
    pub fn is_complete(&self) -> (r: bool)
        ensures
            r == (self.error_code == ErrorCode::NoError && self.auth_bytes@.len() == 0),
    {
        self.error_code.is_ok() && self.auth_bytes.len() == 0
    }
}

impl VersionedEncode for SaslAuthenticateRequest {
    open spec fn request_key() -> ApiKey {
        ApiKey::SaslAuthenticate
    }

    open spec fn encodes(version: i16) -> bool {
        0 <= version <= 1
    }

    open spec fn request_format(version: i16) -> Format {
        match version {
            0 => Format::plain(0),
            _ => Format::plain(1),
        }
    }

    open spec fn request_name() -> &'static str {
        "SaslAuthenticateRequest"
    }

    fn encode_versioned(&self, version: i16, buf: &mut BytesMut) -> (res: Result<()>) {
        match version {
            0 => self.encode_v0(buf),
            1 => self.encode_v1(buf),
            _ => Err(
                KrafkaError::Protocol(
                    ProtocolErrorKind::Malformed,
                    Reason::UnsupportedEncode("SaslAuthenticateRequest", version),
                ),
            ),
        }
    }

    proof fn law_request_format(&self, version: i16, w: Writer) {
    }

    proof fn law_unsupported_encode(&self, version: i16, w: Writer) {
    }
}

impl VersionedDecode for SaslAuthenticateResponse {
    open spec fn response_key() -> ApiKey {
        ApiKey::SaslAuthenticate
    }

    open spec fn decodes(version: i16) -> bool {
        0 <= version <= 1
    }

    open spec fn response_format(version: i16) -> Format {
        match version {
            0 => Format::plain(0),
            _ => Format::plain(1),
        }
    }

    open spec fn response_name() -> &'static str {
        "SaslAuthenticateResponse"
    }

    fn decode_versioned(version: i16, buf: &mut Bytes) -> (res: Result<Self>) {
        match version {
            0 => Self::decode_v0(buf),
            1 => Self::decode_v1(buf),
            _ => Err(
                KrafkaError::Protocol(
                    ProtocolErrorKind::Malformed,
                    Reason::UnsupportedDecode("SaslAuthenticateResponse", version),
                ),
            ),
        }
    }

    proof fn law_response_format(version: i16, r: Reader) {
    }

    proof fn law_unsupported_decode(version: i16, r: Reader) {
    }
}

/// ACL resource type.
#[derive(Debug, Clone, Copy, PartialEq, Eq, Structural)]
pub enum AclResourceType {
    /// Unknown resource type.
    Unknown,
    /// Any resource type (for filtering).
    Any,
    /// Topic resource.
    Topic,
    /// Group resource (consumer groups).
    Group,
    /// Cluster resource.
    Cluster,
    /// Transactional ID resource.
    TransactionalId,
    /// Delegation token resource.
    DelegationToken,
}

impl Default for AclResourceType {
    fn default() -> (r: Self)
        ensures
            r == AclResourceType::Any,
    {
        AclResourceType::Any
    }
}

impl AclResourceType {
    /// What a number on the wire stands for.
    pub open spec fn of(value: i8) -> AclResourceType {
        match value {
            1 => Self::Any,
            2 => Self::Topic,
            3 => Self::Group,
            4 => Self::Cluster,
            5 => Self::TransactionalId,
            6 => Self::DelegationToken,
            _ => Self::Unknown,
        }
    }

    /// The number on the wire.
    pub open spec fn code(self) -> i8 {
        match self {
            Self::Unknown => 0,
            Self::Any => 1,
            Self::Topic => 2,
            Self::Group => 3,
            Self::Cluster => 4,
            Self::TransactionalId => 5,
            Self::DelegationToken => 6,
        }
    }

    /// Create from i8.
    pub fn from_i8(value: i8) -> (r: Self)
        ensures
            r == Self::of(value),
    {
        match value {
            1 => Self::Any,
            2 => Self::Topic,
            3 => Self::Group,
            4 => Self::Cluster,
            5 => Self::TransactionalId,
            6 => Self::DelegationToken,
            _ => Self::Unknown,
        }
    }

    /// Convert to i8.
    pub fn to_i8(self) -> (r: i8)
        ensures
            r == self.code(),
    {
        match self {
            Self::Unknown => 0,
            Self::Any => 1,
            Self::Topic => 2,
            Self::Group => 3,
            Self::Cluster => 4,
            Self::TransactionalId => 5,
            Self::DelegationToken => 6,
        }
    }
}

/// Every [`AclResourceType`] comes back from its number.
pub proof fn law_acl_resource_type_keeps_code(value: AclResourceType)
    ensures
        AclResourceType::of(value.code()) == value,
{
}

/// ACL pattern type.
#[derive(Debug, Clone, Copy, PartialEq, Eq, Structural)]
pub enum AclPatternType {
    /// Unknown pattern type.
    Unknown,
    /// Any pattern (for filtering).
    Any,
    /// Exact match pattern.
    Literal,
    /// Prefix match pattern.
    Prefixed,
}

impl Default for AclPatternType {
    fn default() -> (r: Self)
        ensures
            r == AclPatternType::Any,
    {
        AclPatternType::Any
    }
}

impl AclPatternType {
    /// What a number on the wire stands for.
    pub open spec fn of(value: i8) -> AclPatternType {
        match value {
            1 => Self::Any,
            2 => Self::Literal,
            3 => Self::Prefixed,
            _ => Self::Unknown,
        }
    }

    /// The number on the wire.
    pub open spec fn code(self) -> i8 {
        match self {
            Self::Unknown => 0,
            Self::Any => 1,
            Self::Literal => 2,
            Self::Prefixed => 3,
        }
    }

    /// Create from i8.
    pub fn from_i8(value: i8) -> (r: Self)
        ensures
            r == Self::of(value),
    {
        match value {
            1 => Self::Any,
            2 => Self::Literal,
            3 => Self::Prefixed,
            _ => Self::Unknown,
        }
    }

    /// Convert to i8.
    pub fn to_i8(self) -> (r: i8)
        ensures
            r == self.code(),
    {
        match self {
            Self::Unknown => 0,
            Self::Any => 1,
            Self::Literal => 2,
            Self::Prefixed => 3,
        }
    }
}

/// Every [`AclPatternType`] comes back from its number.
pub proof fn law_acl_pattern_type_keeps_code(value: AclPatternType)
    ensures
        AclPatternType::of(value.code()) == value,
{
}

/// ACL operation.
#[derive(Debug, Clone, Copy, PartialEq, Eq, Structural)]
pub enum AclOperation {
    /// Unknown operation.
    Unknown,
    /// Any operation (for filtering).
    Any,
    /// All operations.
    All,
    /// Read operation.
    Read,
    /// Write operation.
    Write,
    /// Create operation.
    Create,
    /// Delete operation.
    Delete,
    /// Alter operation.
    Alter,
    /// Describe operation.
    Describe,
    /// Cluster action.
    ClusterAction,
    /// Describe configs.
    DescribeConfigs,
    /// Alter configs.
    AlterConfigs,
    /// Idempotent write.
    IdempotentWrite,
}

impl Default for AclOperation {
    fn default() -> (r: Self)
        ensures
            r == AclOperation::Any,
    {
        AclOperation::Any
    }
}

impl AclOperation {
    /// What a number on the wire stands for.
    pub open spec fn of(value: i8) -> AclOperation {
        match value {
            1 => Self::Any,
            2 => Self::All,
            3 => Self::Read,
            4 => Self::Write,
            5 => Self::Create,
            6 => Self::Delete,
            7 => Self::Alter,
            8 => Self::Describe,
            9 => Self::ClusterAction,
            10 => Self::DescribeConfigs,
            11 => Self::AlterConfigs,
            12 => Self::IdempotentWrite,
            _ => Self::Unknown,
        }
    }

    /// The number on the wire.
    pub open spec fn code(self) -> i8 {
        match self {
            Self::Unknown => 0,
            Self::Any => 1,
            Self::All => 2,
            Self::Read => 3,
            Self::Write => 4,
            Self::Create => 5,
            Self::Delete => 6,
            Self::Alter => 7,
            Self::Describe => 8,
            Self::ClusterAction => 9,
            Self::DescribeConfigs => 10,
            Self::AlterConfigs => 11,
            Self::IdempotentWrite => 12,
        }
    }

    /// Create from i8.
    pub fn from_i8(value: i8) -> (r: Self)
        ensures
            r == Self::of(value),
    {
        match value {
            1 => Self::Any,
            2 => Self::All,
            3 => Self::Read,
            4 => Self::Write,
            5 => Self::Create,
            6 => Self::Delete,
            7 => Self::Alter,
            8 => Self::Describe,
            9 => Self::ClusterAction,
            10 => Self::DescribeConfigs,
            11 => Self::AlterConfigs,
            12 => Self::IdempotentWrite,
            _ => Self::Unknown,
        }
    }

    /// Convert to i8.
    pub fn to_i8(self) -> (r: i8)
        ensures
            r == self.code(),
    {
        match self {
            Self::Unknown => 0,
            Self::Any => 1,
            Self::All => 2,
            Self::Read => 3,
            Self::Write => 4,
            Self::Create => 5,
            Self::Delete => 6,
            Self::Alter => 7,
            Self::Describe => 8,
            Self::ClusterAction => 9,
            Self::DescribeConfigs => 10,
            Self::AlterConfigs => 11,
            Self::IdempotentWrite => 12,
        }
    }
}

/// Every [`AclOperation`] comes back from its number.
pub proof fn law_acl_operation_keeps_code(value: AclOperation)
    ensures
        AclOperation::of(value.code()) == value,
{
}

/// ACL permission type.
#[derive(Debug, Clone, Copy, PartialEq, Eq, Structural)]
pub enum AclPermissionType {
    /// Unknown permission.
    Unknown,
    /// Any permission (for filtering).
    Any,
    /// Deny permission.
    Deny,
    /// Allow permission.
    Allow,
}

impl Default for AclPermissionType {
    fn default() -> (r: Self)
        ensures
            r == AclPermissionType::Any,
    {
        AclPermissionType::Any
    }
}

impl AclPermissionType {
    /// What a number on the wire stands for.
    pub open spec fn of(value: i8) -> AclPermissionType {
        match value {
            1 => Self::Any,
            2 => Self::Deny,
            3 => Self::Allow,
            _ => Self::Unknown,
        }
    }

    /// The number on the wire.
    pub open spec fn code(self) -> i8 {
        match self {
            Self::Unknown => 0,
            Self::Any => 1,
            Self::Deny => 2,
            Self::Allow => 3,
        }
    }

    /// Create from i8.
    pub fn from_i8(value: i8) -> (r: Self)
        ensures
            r == Self::of(value),
    {
        match value {
            1 => Self::Any,
            2 => Self::Deny,
            3 => Self::Allow,
            _ => Self::Unknown,
        }
    }

    /// Convert to i8.
    pub fn to_i8(self) -> (r: i8)
        ensures
            r == self.code(),
    {
        match self {
            Self::Unknown => 0,
            Self::Any => 1,
            Self::Deny => 2,
            Self::Allow => 3,
        }
    }
}

/// Every [`AclPermissionType`] comes back from its number.
pub proof fn law_acl_permission_type_keeps_code(value: AclPermissionType)
    ensures
        AclPermissionType::of(value.code()) == value,
{
}

/// ACL binding for creation/description.
#[derive(Debug, Clone)]
pub struct AclBinding {
    /// Resource type.
    pub resource_type: AclResourceType,
    /// Resource name.
    pub resource_name: String,
    /// Resource pattern type.
    pub pattern_type: AclPatternType,
    /// Principal (e.g., "User:alice").
    pub principal: String,
    /// Host (e.g., "*" for any host).
    pub host: String,
    /// Operation.
    pub operation: AclOperation,
    /// Permission type.
    pub permission_type: AclPermissionType,
}

impl AclBinding {
    /// Create a new ACL binding.
    pub fn new(
        resource_type: AclResourceType,
        resource_name: &str,
        principal: &str,
        host: &str,
        operation: AclOperation,
        permission_type: AclPermissionType,
    ) -> (r: Self)
        ensures
            r.resource_type == resource_type,
            r.resource_name@ == resource_name@,
            r.pattern_type == AclPatternType::Literal,
            r.principal@ == principal@,
            r.host@ == host@,
            r.operation == operation,
            r.permission_type == permission_type,
    {
        AclBinding {
            resource_type,
            resource_name: resource_name.to_owned(),
            pattern_type: AclPatternType::Literal,
            principal: principal.to_owned(),
            host: host.to_owned(),
            operation,
            permission_type,
        }
    }
}

impl AclBinding {
    /// Set the pattern type.
    pub fn with_pattern_type(self, pattern_type: AclPatternType) -> (r: Self)
        ensures
            r == (AclBinding { pattern_type, ..self }),
    {
        AclBinding {
            resource_type: self.resource_type,
            resource_name: self.resource_name,
            pattern_type,
            principal: self.principal,
            host: self.host,
            operation: self.operation,
            permission_type: self.permission_type,
        }
    }

    /// Whether the binding allows an operation on a topic from every host.
    pub open spec fn allows_on_topic(
        self,
        operation: AclOperation,
        topic: Seq<char>,
        principal: Seq<char>,
    ) -> bool {
        &&& self.resource_type == AclResourceType::Topic
        &&& self.resource_name@ == topic
        &&& self.pattern_type == AclPatternType::Literal
        &&& self.principal@ == principal
        &&& self.host@ == "*"@
        &&& self.operation == operation
        &&& self.permission_type == AclPermissionType::Allow
    }

    /// Create an ACL to allow read access to a topic.
    pub fn allow_read_topic(topic: &str, principal: &str) -> (r: Self)
        ensures
            r.allows_on_topic(AclOperation::Read, topic@, principal@),
            r.resource_type == AclResourceType::Topic,
            r.resource_name@ == topic@,
            r.pattern_type == AclPatternType::Literal,
            r.principal@ == principal@,
            r.host@ == "*"@,
            r.operation == AclOperation::Read,
            r.permission_type == AclPermissionType::Allow,
    {
        Self::new(
            AclResourceType::Topic,
            topic,
            principal,
            "*",
            AclOperation::Read,
            AclPermissionType::Allow,
        )
    }

    /// Create an ACL to allow write access to a topic.
    pub fn allow_write_topic(topic: &str, principal: &str) -> (r: Self)
        ensures
            r.allows_on_topic(AclOperation::Write, topic@, principal@),
            r.resource_type == AclResourceType::Topic,
            r.resource_name@ == topic@,
            r.pattern_type == AclPatternType::Literal,
            r.principal@ == principal@,
            r.host@ == "*"@,
            r.operation == AclOperation::Write,
            r.permission_type == AclPermissionType::Allow,
    {
        Self::new(
            AclResourceType::Topic,
            topic,
            principal,
            "*",
            AclOperation::Write,
            AclPermissionType::Allow,
        )
    }

    /// Create an ACL to allow all operations on a topic.
    pub fn allow_all_topic(topic: &str, principal: &str) -> (r: Self)
        ensures
            r.allows_on_topic(AclOperation::All, topic@, principal@),
            r.resource_type == AclResourceType::Topic,
            r.resource_name@ == topic@,
            r.pattern_type == AclPatternType::Literal,
            r.principal@ == principal@,
            r.host@ == "*"@,
            r.operation == AclOperation::All,
            r.permission_type == AclPermissionType::Allow,
    {
        Self::new(
            AclResourceType::Topic,
            topic,
            principal,
            "*",
            AclOperation::All,
            AclPermissionType::Allow,
        )
    }
}

impl WireEncode for AclBinding {
    open spec fn written(&self, f: Format, w: Writer) -> Writer {
        let w = w.i8(self.resource_type.code());
        let w = w.string(self.resource_name@, f.flexible);
        let w = if f.version >= 1 {
            w.i8(self.pattern_type.code())
        } else {
            w
        };
        let w = w.string(self.principal@, f.flexible);
        let w = w.string(self.host@, f.flexible);
        let w = w.i8(self.operation.code());
        w.i8(self.permission_type.code())
    }

    proof fn lemma_grows(&self, f: Format, w: Writer) {
        broadcast use group_grows;

    }

    proof fn law_appends(&self, f: Format, w: Writer) {
        broadcast use group_appends;

    }

    fn encode_wire(&self, f: Format, buf: &mut BytesMut) -> (res: Result<()>) {
        broadcast use group_grows;

        write_i8(self.resource_type.to_i8(), buf);
        write_string(self.resource_name.as_str(), f.flexible, buf)?;
        if f.version >= 1 {
            write_i8(self.pattern_type.to_i8(), buf);
        }
        write_string(self.principal.as_str(), f.flexible, buf)?;
        write_string(self.host.as_str(), f.flexible, buf)?;
        write_i8(self.operation.to_i8(), buf);
        write_i8(self.permission_type.to_i8(), buf);
        Ok(())
    }
}

/// DescribeAcls request (API Key 29).
#[derive(Debug, Clone)]
pub struct DescribeAclsRequest {
    /// Resource type filter.
    pub resource_type: AclResourceType,
    /// Resource name filter (null for any).
    pub resource_name: Option<String>,
    /// Pattern type filter.
    pub pattern_type: AclPatternType,
    /// Principal filter (null for any).
    pub principal: Option<String>,
    /// Host filter (null for any).
    pub host: Option<String>,
    /// Operation filter.
    pub operation: AclOperation,
    /// Permission type filter.
    pub permission_type: AclPermissionType,
}

impl DescribeAclsRequest {
    /// Create a request to describe all ACLs.
    pub fn all() -> (r: Self)
        ensures
            r.resource_type == AclResourceType::Any,
            r.resource_name is None,
            r.pattern_type == AclPatternType::Any,
            r.principal is None,
            r.host is None,
            r.operation == AclOperation::Any,
            r.permission_type == AclPermissionType::Any,
    {
        DescribeAclsRequest {
            resource_type: AclResourceType::Any,
            resource_name: None,
            pattern_type: AclPatternType::Any,
            principal: None,
            host: None,
            operation: AclOperation::Any,
            permission_type: AclPermissionType::Any,
        }
    }
}

impl DescribeAclsRequest {
    /// Create a request to describe ACLs for a topic.
    pub fn for_topic(topic: &str) -> (r: Self)
        ensures
            r.resource_type == AclResourceType::Topic,
            optional_text(r.resource_name) == Some(topic@),
            r.pattern_type == AclPatternType::Any,
            r.principal is None,
            r.host is None,
            r.operation == AclOperation::Any,
            r.permission_type == AclPermissionType::Any,
    {
        DescribeAclsRequest {
            resource_type: AclResourceType::Topic,
            resource_name: Some(topic.to_owned()),
            pattern_type: AclPatternType::Any,
            principal: None,
            host: None,
            operation: AclOperation::Any,
            permission_type: AclPermissionType::Any,
        }
    }
}

impl WireEncode for DescribeAclsRequest {
    open spec fn written(&self, f: Format, w: Writer) -> Writer {
        let w = w.i8(self.resource_type.code());
        let w = w.nullable_string(optional_text(self.resource_name), f.flexible);
        let w = if f.version >= 1 {
            w.i8(self.pattern_type.code())
        } else {
            w
        };
        let w = w.nullable_string(optional_text(self.principal), f.flexible);
        let w = w.nullable_string(optional_text(self.host), f.flexible);
        let w = w.i8(self.operation.code());
        w.i8(self.permission_type.code())
    }

    proof fn lemma_grows(&self, f: Format, w: Writer) {
        broadcast use group_grows;

    }

    proof fn law_appends(&self, f: Format, w: Writer) {
        broadcast use group_appends;

    }

    fn encode_wire(&self, f: Format, buf: &mut BytesMut) -> (res: Result<()>) {
        broadcast use group_grows;

        write_i8(self.resource_type.to_i8(), buf);
        write_nullable_string(&self.resource_name, f.flexible, buf)?;
        if f.version >= 1 {
            write_i8(self.pattern_type.to_i8(), buf);
        }
        write_nullable_string(&self.principal, f.flexible, buf)?;
        write_nullable_string(&self.host, f.flexible, buf)?;
        write_i8(self.operation.to_i8(), buf);
        write_i8(self.permission_type.to_i8(), buf);
        Ok(())
    }
}

impl DescribeAclsRequest {
    /// Encode as version 0.
    pub fn encode_v0(&self, buf: &mut BytesMut) -> (res: Result<()>)
        requires
            fits(self.written(Format::plain(0), Writer::at(old(buf)@))),
        ensures
            encoded(res, final(buf)@, self.written(Format::plain(0), Writer::at(old(buf)@))),
    {
        self.encode_wire(Format::plain(0), buf)
    }

    /// Encode as version 1 (with pattern type).
    pub fn encode_v1(&self, buf: &mut BytesMut) -> (res: Result<()>)
        requires
            fits(self.written(Format::plain(1), Writer::at(old(buf)@))),
        ensures
            encoded(res, final(buf)@, self.written(Format::plain(1), Writer::at(old(buf)@))),
    {
        self.encode_wire(Format::plain(1), buf)
    }
}

/// Individual ACL description.
#[derive(Debug, Clone)]
pub struct AclDescription {
    /// Principal.
    pub principal: String,
    /// Host.
    pub host: String,
    /// Operation.
    pub operation: AclOperation,
    /// Permission type.
    pub permission_type: AclPermissionType,
}

/// What a [`AclDescription`] holds.
pub struct AclDescriptionView {
    /// Principal.
    pub principal: Seq<char>,
    /// Host.
    pub host: Seq<char>,
    /// Operation.
    pub operation: AclOperation,
    /// Permission type.
    pub permission_type: AclPermissionType,
}

impl View for AclDescription {
    type V = AclDescriptionView;

    open spec fn view(&self) -> AclDescriptionView {
        AclDescriptionView {
            principal: self.principal@,
            host: self.host@,
            operation: self.operation,
            permission_type: self.permission_type,
        }
    }
}

impl WireDecode for AclDescription {
    open spec fn read(f: Format, r: Reader) -> (AclDescriptionView, Reader) {
        let (principal, r) = r.string_or_empty(f.flexible);
        let (host, r) = r.string_or_empty(f.flexible);
        let (operation, r) = {
            let (n, r) = r.i8();
            (AclOperation::of(n), r)
        };
        let (permission_type, r) = {
            let (n, r) = r.i8();
            (AclPermissionType::of(n), r)
        };
        let value = AclDescriptionView {
            principal,
            host,
            operation,
            permission_type,
        };
        (value, r)
    }

    fn decode_wire(f: Format, buf: &mut Bytes) -> (res: Result<Self>) {
        let principal = read_string_or_empty(f.flexible, buf)?;
        let host = read_string_or_empty(f.flexible, buf)?;
        let operation = AclOperation::from_i8(read_i8(buf)?);
        let permission_type = AclPermissionType::from_i8(read_i8(buf)?);
        Ok(AclDescription {
            principal,
            host,
            operation,
            permission_type,
        })
    }

    proof fn law_consumes(f: Format, r: Reader) {
        broadcast use group_consumes;

    }

    proof fn law_ignores_what_follows(f: Format, r: Reader, more: Seq<u8>) {
        broadcast use group_consumes, group_followed;

    }

    proof fn law_needs_only_what_it_takes(f: Format, r: Reader, k: nat) {
        broadcast use group_consumes, group_cut;

    }
}

/// ACL resource in describe response.
#[derive(Debug, Clone)]
pub struct DescribeAclsResource {
    /// Resource type.
    pub resource_type: AclResourceType,
    /// Resource name.
    pub resource_name: String,
    /// Pattern type.
    pub pattern_type: AclPatternType,
    /// ACLs for this resource.
    pub acls: Vec<AclDescription>,
}

/// What a [`DescribeAclsResource`] holds.
pub struct DescribeAclsResourceView {
    /// Resource type.
    pub resource_type: AclResourceType,
    /// Resource name.
    pub resource_name: Seq<char>,
    /// Pattern type.
    pub pattern_type: AclPatternType,
    /// ACLs for this resource.
    pub acls: Seq<AclDescriptionView>,
}

impl View for DescribeAclsResource {
    type V = DescribeAclsResourceView;

    open spec fn view(&self) -> DescribeAclsResourceView {
        DescribeAclsResourceView {
            resource_type: self.resource_type,
            resource_name: self.resource_name@,
            pattern_type: self.pattern_type,
            acls: views(self.acls@),
        }
    }
}

impl WireDecode for DescribeAclsResource {
    open spec fn read(f: Format, r: Reader) -> (DescribeAclsResourceView, Reader) {
        let (resource_type, r) = {
            let (n, r) = r.i8();
            (AclResourceType::of(n), r)
        };
        let (resource_name, r) = r.string_or_empty(f.flexible);
        let (acls, r) = r.array::<AclDescription>(f);
        let value = DescribeAclsResourceView {
            resource_type,
            resource_name,
            pattern_type: AclPatternType::Literal,
            acls,
        };
        (value, r)
    }

    fn decode_wire(f: Format, buf: &mut Bytes) -> (res: Result<Self>) {
        let resource_type = AclResourceType::from_i8(read_i8(buf)?);
        let resource_name = read_string_or_empty(f.flexible, buf)?;
        let acls = read_array::<AclDescription>(f, buf)?;
        Ok(DescribeAclsResource {
            resource_type,
            resource_name,
            pattern_type: AclPatternType::Literal,
            acls,
        })
    }

    proof fn law_consumes(f: Format, r: Reader) {
        broadcast use group_consumes;

    }

    proof fn law_ignores_what_follows(f: Format, r: Reader, more: Seq<u8>) {
        broadcast use group_consumes, group_followed;

    }

    proof fn law_needs_only_what_it_takes(f: Format, r: Reader, k: nat) {
        broadcast use group_consumes, group_cut;

    }
}

/// DescribeAcls response.
#[derive(Debug, Clone)]
pub struct DescribeAclsResponse {
    /// Throttle time in milliseconds.
    pub throttle_time_ms: i32,
    /// Error code.
    pub error_code: ErrorCode,
    /// Error message.
    pub error_message: Option<String>,
    /// List of ACL resources.
    pub resources: Vec<DescribeAclsResource>,
}

/// What a [`DescribeAclsResponse`] holds.
pub struct DescribeAclsResponseView {
    /// Throttle time in milliseconds.
    pub throttle_time_ms: i32,
    /// Error code.
    pub error_code: ErrorCode,
    /// Error message.
    pub error_message: Option<Seq<char>>,
    /// List of ACL resources.
    pub resources: Seq<DescribeAclsResourceView>,
}

impl View for DescribeAclsResponse {
    type V = DescribeAclsResponseView;

    open spec fn view(&self) -> DescribeAclsResponseView {
        DescribeAclsResponseView {
            throttle_time_ms: self.throttle_time_ms,
            error_code: self.error_code,
            error_message: optional_text(self.error_message),
            resources: views(self.resources@),
        }
    }
}

impl WireDecode for DescribeAclsResponse {
    open spec fn read(f: Format, r: Reader) -> (DescribeAclsResponseView, Reader) {
        let (throttle_time_ms, r) = r.i32();
        let (error_code, r) = r.error_code();
        let (error_message, r) = r.nullable_string(f.flexible);
        let (resources, r) = r.array::<DescribeAclsResource>(f);
        let value = DescribeAclsResponseView {
            throttle_time_ms,
            error_code,
            error_message,
            resources,
        };
        (value, r)
    }

    fn decode_wire(f: Format, buf: &mut Bytes) -> (res: Result<Self>) {
        let throttle_time_ms = read_i32(buf)?;
        let error_code = read_error_code(buf)?;
        let error_message = read_nullable_string(f.flexible, buf)?;
        let resources = read_array::<DescribeAclsResource>(f, buf)?;
        Ok(DescribeAclsResponse {
            throttle_time_ms,
            error_code,
            error_message,
            resources,
        })
    }

    proof fn law_consumes(f: Format, r: Reader) {
        broadcast use group_consumes;

    }

    proof fn law_ignores_what_follows(f: Format, r: Reader, more: Seq<u8>) {
        broadcast use group_consumes, group_followed;

    }

    proof fn law_needs_only_what_it_takes(f: Format, r: Reader, k: nat) {
        broadcast use group_consumes, group_cut;

    }
}

impl DescribeAclsResponse {
    /// Decode from version 0.
    pub fn decode_v0(buf: &mut Bytes) -> (res: Result<Self>)
        ensures
            decoded(
                result_view(res),
                final(buf)@,
                Self::read(Format::plain(0), Reader::on(old(buf)@)),
            ),
    {
        Self::decode_wire(Format::plain(0), buf)
    }
}

impl VersionedEncode for DescribeAclsRequest {
    open spec fn request_key() -> ApiKey {
        ApiKey::DescribeAcls
    }

    open spec fn encodes(version: i16) -> bool {
        0 <= version <= 1
    }

    open spec fn request_format(version: i16) -> Format {
        match version {
            0 => Format::plain(0),
            _ => Format::plain(1),
        }
    }

    open spec fn request_name() -> &'static str {
        "DescribeAclsRequest"
    }

    fn encode_versioned(&self, version: i16, buf: &mut BytesMut) -> (res: Result<()>) {
        match version {
            0 => self.encode_v0(buf),
            1 => self.encode_v1(buf),
            _ => Err(
                KrafkaError::Protocol(
                    ProtocolErrorKind::Malformed,
                    Reason::UnsupportedEncode("DescribeAclsRequest", version),
                ),
            ),
        }
    }

    proof fn law_request_format(&self, version: i16, w: Writer) {
    }

    proof fn law_unsupported_encode(&self, version: i16, w: Writer) {
    }
}

impl VersionedDecode for DescribeAclsResponse {
    open spec fn response_key() -> ApiKey {
        ApiKey::DescribeAcls
    }

    open spec fn decodes(version: i16) -> bool {
        0 <= version <= 1
    }

    open spec fn response_format(version: i16) -> Format {
        Format::plain(0)
    }

    open spec fn response_name() -> &'static str {
        "DescribeAclsResponse"
    }

    fn decode_versioned(version: i16, buf: &mut Bytes) -> (res: Result<Self>) {
        match version {
            0 | 1 => Self::decode_v0(buf),
            _ => Err(
                KrafkaError::Protocol(
                    ProtocolErrorKind::Malformed,
                    Reason::UnsupportedDecode("DescribeAclsResponse", version),
                ),
            ),
        }
    }

    proof fn law_response_format(version: i16, r: Reader) {
    }

    proof fn law_unsupported_decode(version: i16, r: Reader) {
    }
}

/// CreateAcls request (API Key 30).
#[derive(Debug, Clone)]
pub struct CreateAclsRequest {
    /// ACL bindings to create.
    pub creations: Vec<AclBinding>,
}

impl CreateAclsRequest {
    /// Create a new request.
    pub fn new(creations: Vec<AclBinding>) -> (r: Self)
        ensures
            r.creations == creations,
    {
        CreateAclsRequest {
            creations,
        }
    }
}

impl WireEncode for CreateAclsRequest {
    open spec fn written(&self, f: Format, w: Writer) -> Writer {
        w.array(self.creations@, f)
    }

    proof fn lemma_grows(&self, f: Format, w: Writer) {
        broadcast use group_grows;

    }

    proof fn law_appends(&self, f: Format, w: Writer) {
        broadcast use group_appends;

    }

    fn encode_wire(&self, f: Format, buf: &mut BytesMut) -> (res: Result<()>) {
        broadcast use group_grows;

        write_array(&self.creations, f, buf)?;
        Ok(())
    }
}

impl CreateAclsRequest {
    /// Encode as version 0.
    pub fn encode_v0(&self, buf: &mut BytesMut) -> (res: Result<()>)
        requires
            fits(self.written(Format::plain(0), Writer::at(old(buf)@))),
        ensures
            encoded(res, final(buf)@, self.written(Format::plain(0), Writer::at(old(buf)@))),
    {
        self.encode_wire(Format::plain(0), buf)
    }

    /// Encode as version 1 (with pattern type).
    pub fn encode_v1(&self, buf: &mut BytesMut) -> (res: Result<()>)
        requires
            fits(self.written(Format::plain(1), Writer::at(old(buf)@))),
        ensures
            encoded(res, final(buf)@, self.written(Format::plain(1), Writer::at(old(buf)@))),
    {
        self.encode_wire(Format::plain(1), buf)
    }
}

/// Result of a single ACL creation.
#[derive(Debug, Clone)]
pub struct CreateAclsResult {
    /// Error code.
    pub error_code: ErrorCode,
    /// Error message.
    pub error_message: Option<String>,
}

/// What a [`CreateAclsResult`] holds.
pub struct CreateAclsResultView {
    /// Error code.
    pub error_code: ErrorCode,
    /// Error message.
    pub error_message: Option<Seq<char>>,
}

impl View for CreateAclsResult {
    type V = CreateAclsResultView;

    open spec fn view(&self) -> CreateAclsResultView {
        CreateAclsResultView {
            error_code: self.error_code,
            error_message: optional_text(self.error_message),
        }
    }
}

impl WireDecode for CreateAclsResult {
    open spec fn read(f: Format, r: Reader) -> (CreateAclsResultView, Reader) {
        let (error_code, r) = r.error_code();
        let (error_message, r) = r.nullable_string(f.flexible);
        let value = CreateAclsResultView {
            error_code,
            error_message,
        };
        (value, r)
    }

    fn decode_wire(f: Format, buf: &mut Bytes) -> (res: Result<Self>) {
        let error_code = read_error_code(buf)?;
        let error_message = read_nullable_string(f.flexible, buf)?;
        Ok(CreateAclsResult {
            error_code,
            error_message,
        })
    }

    proof fn law_consumes(f: Format, r: Reader) {
        broadcast use group_consumes;

    }

    proof fn law_ignores_what_follows(f: Format, r: Reader, more: Seq<u8>) {
        broadcast use group_consumes, group_followed;

    }

    proof fn law_needs_only_what_it_takes(f: Format, r: Reader, k: nat) {
        broadcast use group_consumes, group_cut;

    }
}

/// CreateAcls response.
#[derive(Debug, Clone)]
pub struct CreateAclsResponse {
    /// Throttle time in milliseconds.
    pub throttle_time_ms: i32,
    /// Results for each ACL creation.
    pub results: Vec<CreateAclsResult>,
}

/// What a [`CreateAclsResponse`] holds.
pub struct CreateAclsResponseView {
    /// Throttle time in milliseconds.
    pub throttle_time_ms: i32,
    /// Results for each ACL creation.
    pub results: Seq<CreateAclsResultView>,
}

impl View for CreateAclsResponse {
    type V = CreateAclsResponseView;

    open spec fn view(&self) -> CreateAclsResponseView {
        CreateAclsResponseView {
            throttle_time_ms: self.throttle_time_ms,
            results: views(self.results@),
        }
    }
}

impl WireDecode for CreateAclsResponse {
    open spec fn read(f: Format, r: Reader) -> (CreateAclsResponseView, Reader) {
        let (throttle_time_ms, r) = r.i32();
        let (results, r) = r.array::<CreateAclsResult>(f);
        let value = CreateAclsResponseView {
            throttle_time_ms,
            results,
        };
        (value, r)
    }

    fn decode_wire(f: Format, buf: &mut Bytes) -> (res: Result<Self>) {
        let throttle_time_ms = read_i32(buf)?;
        let results = read_array::<CreateAclsResult>(f, buf)?;
        Ok(CreateAclsResponse {
            throttle_time_ms,
            results,
        })
    }

    proof fn law_consumes(f: Format, r: Reader) {
        broadcast use group_consumes;

    }

    proof fn law_ignores_what_follows(f: Format, r: Reader, more: Seq<u8>) {
        broadcast use group_consumes, group_followed;

    }

    proof fn law_needs_only_what_it_takes(f: Format, r: Reader, k: nat) {
        broadcast use group_consumes, group_cut;

    }
}

impl CreateAclsResponse {
    /// Decode from version 0.
    pub fn decode_v0(buf: &mut Bytes) -> (res: Result<Self>)
        ensures
            decoded(
                result_view(res),
                final(buf)@,
                Self::read(Format::plain(0), Reader::on(old(buf)@)),
            ),
    {
        Self::decode_wire(Format::plain(0), buf)
    }
}

impl CreateAclsResponse {
    /// Check if all ACLs were created successfully.
    pub fn is_ok(&self) -> (r: bool)
        ensures
            r == (forall|i: int|
                0 <= i < self.results@.len() ==> (#[trigger] self.results@[i]).error_code
                    == ErrorCode::NoError),
    {
        let mut i: usize = 0;
        while i < self.results.len()
            invariant
                i <= self.results@.len(),
                forall|k: int|
                    0 <= k < i ==> (#[trigger] self.results@[k]).error_code == ErrorCode::NoError,
            decreases self.results@.len() - i,
        {
            if !self.results[i].error_code.is_ok() {
                assert(self.results@[i as int].error_code != ErrorCode::NoError);
                return false;
            }
            i = i + 1;
        }
        true
    }
}

impl VersionedEncode for CreateAclsRequest {
    open spec fn request_key() -> ApiKey {
        ApiKey::CreateAcls
    }

    open spec fn encodes(version: i16) -> bool {
        0 <= version <= 1
    }

    open spec fn request_format(version: i16) -> Format {
        match version {
            0 => Format::plain(0),
            _ => Format::plain(1),
        }
    }

    open spec fn request_name() -> &'static str {
        "CreateAclsRequest"
    }

    fn encode_versioned(&self, version: i16, buf: &mut BytesMut) -> (res: Result<()>) {
        match version {
            0 => self.encode_v0(buf),
            1 => self.encode_v1(buf),
            _ => Err(
                KrafkaError::Protocol(
                    ProtocolErrorKind::Malformed,
                    Reason::UnsupportedEncode("CreateAclsRequest", version),
                ),
            ),
        }
    }

    proof fn law_request_format(&self, version: i16, w: Writer) {
    }

    proof fn law_unsupported_encode(&self, version: i16, w: Writer) {
    }
}

impl VersionedDecode for CreateAclsResponse {
    open spec fn response_key() -> ApiKey {
        ApiKey::CreateAcls
    }

    open spec fn decodes(version: i16) -> bool {
        0 <= version <= 1
    }

    open spec fn response_format(version: i16) -> Format {
        Format::plain(0)
    }

    open spec fn response_name() -> &'static str {
        "CreateAclsResponse"
    }

    fn decode_versioned(version: i16, buf: &mut Bytes) -> (res: Result<Self>) {
        match version {
            0 | 1 => Self::decode_v0(buf),
            _ => Err(
                KrafkaError::Protocol(
                    ProtocolErrorKind::Malformed,
                    Reason::UnsupportedDecode("CreateAclsResponse", version),
                ),
            ),
        }
    }

    proof fn law_response_format(version: i16, r: Reader) {
    }

    proof fn law_unsupported_decode(version: i16, r: Reader) {
    }
}

/// Filter for deleting ACLs.
#[derive(Debug, Clone)]
pub struct AclBindingFilter {
    /// Resource type filter.
    pub resource_type: AclResourceType,
    /// Resource name filter (null for any).
    pub resource_name: Option<String>,
    /// Pattern type filter.
    pub pattern_type: AclPatternType,
    /// Principal filter (null for any).
    pub principal: Option<String>,
    /// Host filter (null for any).
    pub host: Option<String>,
    /// Operation filter.
    pub operation: AclOperation,
    /// Permission type filter.
    pub permission_type: AclPermissionType,
}

impl AclBindingFilter {
    /// Create a filter that matches a specific binding.
    pub fn matching(binding: &AclBinding) -> (r: Self)
        ensures
            r.resource_type == binding.resource_type,
            optional_text(r.resource_name) == Some(binding.resource_name@),
            r.pattern_type == binding.pattern_type,
            optional_text(r.principal) == Some(binding.principal@),
            optional_text(r.host) == Some(binding.host@),
            r.operation == binding.operation,
            r.permission_type == binding.permission_type,
    {
        AclBindingFilter {
            resource_type: binding.resource_type,
            resource_name: Some(binding.resource_name.clone()),
            pattern_type: binding.pattern_type,
            principal: Some(binding.principal.clone()),
            host: Some(binding.host.clone()),
            operation: binding.operation,
            permission_type: binding.permission_type,
        }
    }
}

impl AclBindingFilter {
    /// Create a filter for all ACLs on a topic.
    pub fn for_topic(topic: &str) -> (r: Self)
        ensures
            r.resource_type == AclResourceType::Topic,
            optional_text(r.resource_name) == Some(topic@),
            r.pattern_type == AclPatternType::Any,
            r.principal is None,
            r.host is None,
            r.operation == AclOperation::Any,
            r.permission_type == AclPermissionType::Any,
    {
        AclBindingFilter {
            resource_type: AclResourceType::Topic,
            resource_name: Some(topic.to_owned()),
            pattern_type: AclPatternType::Any,
            principal: None,
            host: None,
            operation: AclOperation::Any,
            permission_type: AclPermissionType::Any,
        }
    }
}

impl WireEncode for AclBindingFilter {
    open spec fn written(&self, f: Format, w: Writer) -> Writer {
        let w = w.i8(self.resource_type.code());
        let w = w.nullable_string(optional_text(self.resource_name), f.flexible);
        let w = if f.version >= 1 {
            w.i8(self.pattern_type.code())
        } else {
            w
        };
        let w = w.nullable_string(optional_text(self.principal), f.flexible);
        let w = w.nullable_string(optional_text(self.host), f.flexible);
        let w = w.i8(self.operation.code());
        w.i8(self.permission_type.code())
    }

    proof fn lemma_grows(&self, f: Format, w: Writer) {
        broadcast use group_grows;

    }

    proof fn law_appends(&self, f: Format, w: Writer) {
        broadcast use group_appends;

    }

    fn encode_wire(&self, f: Format, buf: &mut BytesMut) -> (res: Result<()>) {
        broadcast use group_grows;

        write_i8(self.resource_type.to_i8(), buf);
        write_nullable_string(&self.resource_name, f.flexible, buf)?;
        if f.version >= 1 {
            write_i8(self.pattern_type.to_i8(), buf);
        }
        write_nullable_string(&self.principal, f.flexible, buf)?;
        write_nullable_string(&self.host, f.flexible, buf)?;
        write_i8(self.operation.to_i8(), buf);
        write_i8(self.permission_type.to_i8(), buf);
        Ok(())
    }
}

/// DeleteAcls request (API Key 31).
#[derive(Debug, Clone)]
pub struct DeleteAclsRequest {
    /// ACL filters for deletion.
    pub filters: Vec<AclBindingFilter>,
}

impl DeleteAclsRequest {
    /// Create a new request.
    pub fn new(filters: Vec<AclBindingFilter>) -> (r: Self)
        ensures
            r.filters == filters,
    {
        DeleteAclsRequest {
            filters,
        }
    }
}

impl WireEncode for DeleteAclsRequest {
    open spec fn written(&self, f: Format, w: Writer) -> Writer {
        w.array(self.filters@, f)
    }

    proof fn lemma_grows(&self, f: Format, w: Writer) {
        broadcast use group_grows;

    }

    proof fn law_appends(&self, f: Format, w: Writer) {
        broadcast use group_appends;

    }

    fn encode_wire(&self, f: Format, buf: &mut BytesMut) -> (res: Result<()>) {
        broadcast use group_grows;

        write_array(&self.filters, f, buf)?;
        Ok(())
    }
}

impl DeleteAclsRequest {
    /// Encode as version 0.
    pub fn encode_v0(&self, buf: &mut BytesMut) -> (res: Result<()>)
        requires
            fits(self.written(Format::plain(0), Writer::at(old(buf)@))),
        ensures
            encoded(res, final(buf)@, self.written(Format::plain(0), Writer::at(old(buf)@))),
    {
        self.encode_wire(Format::plain(0), buf)
    }

    /// Encode as version 1 (with pattern type).
    pub fn encode_v1(&self, buf: &mut BytesMut) -> (res: Result<()>)
        requires
            fits(self.written(Format::plain(1), Writer::at(old(buf)@))),
        ensures
            encoded(res, final(buf)@, self.written(Format::plain(1), Writer::at(old(buf)@))),
    {
        self.encode_wire(Format::plain(1), buf)
    }
}

/// ACL that matched the deletion filter.
#[derive(Debug, Clone)]
pub struct DeleteAclsMatchingAcl {
    /// Error code for this specific ACL.
    pub error_code: ErrorCode,
    /// Error message.
    pub error_message: Option<String>,
    /// Resource type.
    pub resource_type: AclResourceType,
    /// Resource name.
    pub resource_name: String,
    /// Pattern type.
    pub pattern_type: AclPatternType,
    /// Principal.
    pub principal: String,
    /// Host.
    pub host: String,
    /// Operation.
    pub operation: AclOperation,
    /// Permission type.
    pub permission_type: AclPermissionType,
}

/// What a [`DeleteAclsMatchingAcl`] holds.
pub struct DeleteAclsMatchingAclView {
    /// Error code for this specific ACL.
    pub error_code: ErrorCode,
    /// Error message.
    pub error_message: Option<Seq<char>>,
    /// Resource type.
    pub resource_type: AclResourceType,
    /// Resource name.
    pub resource_name: Seq<char>,
    /// Pattern type.
    pub pattern_type: AclPatternType,
    /// Principal.
    pub principal: Seq<char>,
    /// Host.
    pub host: Seq<char>,
    /// Operation.
    pub operation: AclOperation,
    /// Permission type.
    pub permission_type: AclPermissionType,
}

impl View for DeleteAclsMatchingAcl {
    type V = DeleteAclsMatchingAclView;

    open spec fn view(&self) -> DeleteAclsMatchingAclView {
        DeleteAclsMatchingAclView {
            error_code: self.error_code,
            error_message: optional_text(self.error_message),
            resource_type: self.resource_type,
            resource_name: self.resource_name@,
            pattern_type: self.pattern_type,
            principal: self.principal@,
            host: self.host@,
            operation: self.operation,
            permission_type: self.permission_type,
        }
    }
}

impl WireDecode for DeleteAclsMatchingAcl {
    open spec fn read(f: Format, r: Reader) -> (DeleteAclsMatchingAclView, Reader) {
        let (error_code, r) = r.error_code();
        let (error_message, r) = r.nullable_string(f.flexible);
        let (resource_type, r) = {
            let (n, r) = r.i8();
            (AclResourceType::of(n), r)
        };
        let (resource_name, r) = r.string_or_empty(f.flexible);
        let (principal, r) = r.string_or_empty(f.flexible);
        let (host, r) = r.string_or_empty(f.flexible);
        let (operation, r) = {
            let (n, r) = r.i8();
            (AclOperation::of(n), r)
        };
        let (permission_type, r) = {
            let (n, r) = r.i8();
            (AclPermissionType::of(n), r)
        };
        let value = DeleteAclsMatchingAclView {
            error_code,
            error_message,
            resource_type,
            resource_name,
            pattern_type: AclPatternType::Literal,
            principal,
            host,
            operation,
            permission_type,
        };
        (value, r)
    }

    fn decode_wire(f: Format, buf: &mut Bytes) -> (res: Result<Self>) {
        let error_code = read_error_code(buf)?;
        let error_message = read_nullable_string(f.flexible, buf)?;
        let resource_type = AclResourceType::from_i8(read_i8(buf)?);
        let resource_name = read_string_or_empty(f.flexible, buf)?;
        let principal = read_string_or_empty(f.flexible, buf)?;
        let host = read_string_or_empty(f.flexible, buf)?;
        let operation = AclOperation::from_i8(read_i8(buf)?);
        let permission_type = AclPermissionType::from_i8(read_i8(buf)?);
        Ok(DeleteAclsMatchingAcl {
            error_code,
            error_message,
            resource_type,
            resource_name,
            pattern_type: AclPatternType::Literal,
            principal,
            host,
            operation,
            permission_type,
        })
    }

    proof fn law_consumes(f: Format, r: Reader) {
        broadcast use group_consumes;

    }

    proof fn law_ignores_what_follows(f: Format, r: Reader, more: Seq<u8>) {
        broadcast use group_consumes, group_followed;

    }

    proof fn law_needs_only_what_it_takes(f: Format, r: Reader, k: nat) {
        broadcast use group_consumes, group_cut;

    }
}

/// Result of a single filter.
#[derive(Debug, Clone)]
pub struct DeleteAclsFilterResult {
    /// Error code.
    pub error_code: ErrorCode,
    /// Error message.
    pub error_message: Option<String>,
    /// Matching ACLs that were deleted.
    pub matching_acls: Vec<DeleteAclsMatchingAcl>,
}

/// What a [`DeleteAclsFilterResult`] holds.
pub struct DeleteAclsFilterResultView {
    /// Error code.
    pub error_code: ErrorCode,
    /// Error message.
    pub error_message: Option<Seq<char>>,
    /// Matching ACLs that were deleted.
    pub matching_acls: Seq<DeleteAclsMatchingAclView>,
}

impl View for DeleteAclsFilterResult {
    type V = DeleteAclsFilterResultView;

    open spec fn view(&self) -> DeleteAclsFilterResultView {
        DeleteAclsFilterResultView {
            error_code: self.error_code,
            error_message: optional_text(self.error_message),
            matching_acls: views(self.matching_acls@),
        }
    }
}

impl WireDecode for DeleteAclsFilterResult {
    open spec fn read(f: Format, r: Reader) -> (DeleteAclsFilterResultView, Reader) {
        let (error_code, r) = r.error_code();
        let (error_message, r) = r.nullable_string(f.flexible);
        let (matching_acls, r) = r.array::<DeleteAclsMatchingAcl>(f);
        let value = DeleteAclsFilterResultView {
            error_code,
            error_message,
            matching_acls,
        };
        (value, r)
    }

    fn decode_wire(f: Format, buf: &mut Bytes) -> (res: Result<Self>) {
        let error_code = read_error_code(buf)?;
        let error_message = read_nullable_string(f.flexible, buf)?;
        let matching_acls = read_array::<DeleteAclsMatchingAcl>(f, buf)?;
        Ok(DeleteAclsFilterResult {
            error_code,
            error_message,
            matching_acls,
        })
    }

    proof fn law_consumes(f: Format, r: Reader) {
        broadcast use group_consumes;

    }

    proof fn law_ignores_what_follows(f: Format, r: Reader, more: Seq<u8>) {
        broadcast use group_consumes, group_followed;

    }

    proof fn law_needs_only_what_it_takes(f: Format, r: Reader, k: nat) {
        broadcast use group_consumes, group_cut;

    }
}

/// DeleteAcls response.
#[derive(Debug, Clone)]
pub struct DeleteAclsResponse {
    /// Throttle time in milliseconds.
    pub throttle_time_ms: i32,
    /// Results for each filter.
    pub filter_results: Vec<DeleteAclsFilterResult>,
}

/// What a [`DeleteAclsResponse`] holds.
pub struct DeleteAclsResponseView {
    /// Throttle time in milliseconds.
    pub throttle_time_ms: i32,
    /// Results for each filter.
    pub filter_results: Seq<DeleteAclsFilterResultView>,
}

impl View for DeleteAclsResponse {
    type V = DeleteAclsResponseView;

    open spec fn view(&self) -> DeleteAclsResponseView {
        DeleteAclsResponseView {
            throttle_time_ms: self.throttle_time_ms,
            filter_results: views(self.filter_results@),
        }
    }
}

impl WireDecode for DeleteAclsResponse {
    open spec fn read(f: Format, r: Reader) -> (DeleteAclsResponseView, Reader) {
        let (throttle_time_ms, r) = r.i32();
        let (filter_results, r) = r.array::<DeleteAclsFilterResult>(f);
        let value = DeleteAclsResponseView {
            throttle_time_ms,
            filter_results,
        };
        (value, r)
    }

    fn decode_wire(f: Format, buf: &mut Bytes) -> (res: Result<Self>) {
        let throttle_time_ms = read_i32(buf)?;
        let filter_results = read_array::<DeleteAclsFilterResult>(f, buf)?;
        Ok(DeleteAclsResponse {
            throttle_time_ms,
            filter_results,
        })
    }

    proof fn law_consumes(f: Format, r: Reader) {
        broadcast use group_consumes;

    }

    proof fn law_ignores_what_follows(f: Format, r: Reader, more: Seq<u8>) {
        broadcast use group_consumes, group_followed;

    }

    proof fn law_needs_only_what_it_takes(f: Format, r: Reader, k: nat) {
        broadcast use group_consumes, group_cut;

    }
}

impl DeleteAclsResponse {
    /// Decode from version 0.
    pub fn decode_v0(buf: &mut Bytes) -> (res: Result<Self>)
        ensures
            decoded(
                result_view(res),
                final(buf)@,
                Self::read(Format::plain(0), Reader::on(old(buf)@)),
            ),
    {
        Self::decode_wire(Format::plain(0), buf)
    }
}

impl VersionedEncode for DeleteAclsRequest {
    open spec fn request_key() -> ApiKey {
        ApiKey::DeleteAcls
    }

    open spec fn encodes(version: i16) -> bool {
        0 <= version <= 1
    }

    open spec fn request_format(version: i16) -> Format {
        match version {
            0 => Format::plain(0),
            _ => Format::plain(1),
        }
    }

    open spec fn request_name() -> &'static str {
        "DeleteAclsRequest"
    }

    fn encode_versioned(&self, version: i16, buf: &mut BytesMut) -> (res: Result<()>) {
        match version {
            0 => self.encode_v0(buf),
            1 => self.encode_v1(buf),
            _ => Err(
                KrafkaError::Protocol(
                    ProtocolErrorKind::Malformed,
                    Reason::UnsupportedEncode("DeleteAclsRequest", version),
                ),
            ),
        }
    }

    proof fn law_request_format(&self, version: i16, w: Writer) {
    }

    proof fn law_unsupported_encode(&self, version: i16, w: Writer) {
    }
}

impl VersionedDecode for DeleteAclsResponse {
    open spec fn response_key() -> ApiKey {
        ApiKey::DeleteAcls
    }

    open spec fn decodes(version: i16) -> bool {
        0 <= version <= 1
    }

    open spec fn response_format(version: i16) -> Format {
        Format::plain(0)
    }

    open spec fn response_name() -> &'static str {
        "DeleteAclsResponse"
    }

    fn decode_versioned(version: i16, buf: &mut Bytes) -> (res: Result<Self>) {
        match version {
            0 | 1 => Self::decode_v0(buf),
            _ => Err(
                KrafkaError::Protocol(
                    ProtocolErrorKind::Malformed,
                    Reason::UnsupportedDecode("DeleteAclsResponse", version),
                ),
            ),
        }
    }

    proof fn law_response_format(version: i16, r: Reader) {
    }

    proof fn law_unsupported_decode(version: i16, r: Reader) {
    }
}

} // verus!
