//! Configuration: DescribeConfigs and IncrementalAlterConfigs.

use crate::buffer::Octets;
use crate::error::{
    decimal, decimal_text, ErrorCode, KrafkaError, ProtocolErrorKind, Reason, Result,
};
use crate::protocol::api::ApiKey;
use crate::protocol::messages::{VersionedDecode, VersionedEncode};
use crate::protocol::wire::{
    decoded, encoded, fits, group_appends, group_consumes, group_cut, group_followed, group_grows,
    no_items, optional_text, read_array, read_bool, read_error_code, read_i32, read_i8,
    read_nullable_string, read_string, read_tags, result_view, views, write_array, write_bool,
    write_i8, write_nullable_string, write_optional_array, write_string, write_tags, Format, Reader,
    WireDecode, WireEncode, Writer,
};
use bytes::{Bytes, BytesMut};
use vstd::prelude::*;

verus! {

/// Resource type for config operations.
#[derive(Debug, Clone, Copy, PartialEq, Eq, Structural)]
pub enum ConfigResourceType {
    /// Unknown resource type.
    Unknown,
    /// Topic resource.
    Topic,
    /// Broker resource.
    Broker,
    /// Broker logger resource.
    BrokerLogger,
}

impl ConfigResourceType {
    /// What a number on the wire stands for.
    pub open spec fn of(value: i8) -> ConfigResourceType {
        match value {
            2 => Self::Topic,
            4 => Self::Broker,
            8 => Self::BrokerLogger,
            _ => Self::Unknown,
        }
    }

    /// The number on the wire.
    pub open spec fn code(self) -> i8 {
        match self {
            Self::Unknown => 0,
            Self::Topic => 2,
            Self::Broker => 4,
            Self::BrokerLogger => 8,
        }
    }

    /// Create from i8.
    pub fn from_i8(value: i8) -> (r: Self)
        ensures
            r == Self::of(value),
    {
        match value {
            2 => Self::Topic,
            4 => Self::Broker,
            8 => Self::BrokerLogger,
            _ => Self::Unknown,
        }
    }

    /// Convert to i8.
    pub fn to_i8(self) -> (r: i8)
        ensures
            r == self.code(),
    {
        match self {
            Self::Unknown => 0,
            Self::Topic => 2,
            Self::Broker => 4,
            Self::BrokerLogger => 8,
        }
    }
}

/// Every [`ConfigResourceType`] comes back from its number.
pub proof fn law_config_resource_type_keeps_code(value: ConfigResourceType)
    ensures
        ConfigResourceType::of(value.code()) == value,
{
}

/// DescribeConfigs request.
#[derive(Debug, Clone)]
pub struct DescribeConfigsRequest {
    /// Resources to describe.
    pub resources: Vec<DescribeConfigsResource>,
    /// Include synonyms in response.
    pub include_synonyms: bool,
    /// Include documentation in response.
    pub include_documentation: bool,
}

/// Resource in DescribeConfigs request.
#[derive(Debug, Clone)]
pub struct DescribeConfigsResource {
    /// Resource type.
    pub resource_type: ConfigResourceType,
    /// Resource name (topic name or broker ID as string).
    pub resource_name: String,
    /// Config names to describe (null for all).
    pub config_names: Option<Vec<String>>,
}

impl WireEncode for DescribeConfigsResource {
    open spec fn written(&self, f: Format, w: Writer) -> Writer {
        let w = w.i8(self.resource_type.code());
        let w = w.string(self.resource_name@, f.flexible);
        let w = w.optional_array(self.config_names, f);
        w.tags(f.flexible)
    }

    proof fn lemma_grows(&self, f: Format, w: Writer) {
        broadcast use group_grows;

    }

    proof fn law_appends(&self, f: Format, w: Writer) {
        broadcast use group_appends;

    }

    fn encode_wire(&self, f: Format, buf: &mut BytesMut) -> (res: Result<()>) {
        broadcast use group_grows;

        write_i8(self.resource_type.to_i8(), buf);
        write_string(self.resource_name.as_str(), f.flexible, buf)?;
        write_optional_array(&self.config_names, f, buf)?;
        write_tags(f.flexible, buf);
        Ok(())
    }
}

impl WireEncode for DescribeConfigsRequest {
    open spec fn written(&self, f: Format, w: Writer) -> Writer {
        let w = w.array(self.resources@, f);
        let w = if f.version >= 1 {
            w.bool(self.include_synonyms)
        } else {
            w
        };
        let w = if f.version >= 3 {
            w.bool(self.include_documentation)
        } else {
            w
        };
        w.tags(f.flexible)
    }

    proof fn lemma_grows(&self, f: Format, w: Writer) {
        broadcast use group_grows;

    }

    proof fn law_appends(&self, f: Format, w: Writer) {
        broadcast use group_appends;

    }

    fn encode_wire(&self, f: Format, buf: &mut BytesMut) -> (res: Result<()>) {
        broadcast use group_grows;

        write_array(&self.resources, f, buf)?;
        if f.version >= 1 {
            write_bool(self.include_synonyms, buf);
        }
        if f.version >= 3 {
            write_bool(self.include_documentation, buf);
        }
        write_tags(f.flexible, buf);
        Ok(())
    }
}

impl DescribeConfigsRequest {
    /// Create a request to describe a topic's configuration.
    pub fn for_topic(topic: &str) -> (r: Self)
        ensures
            r.resources@.len() == 1,
            r.resources@[0].resource_type == ConfigResourceType::Topic,
            r.resources@[0].resource_name@ == topic@,
            r.resources@[0].config_names is None,
            !r.include_synonyms,
            !r.include_documentation,
    {
        DescribeConfigsRequest {
            resources: vec![
                DescribeConfigsResource {
                    resource_type: ConfigResourceType::Topic,
                    resource_name: topic.to_owned(),
                    config_names: None,
                },
            ],
            include_synonyms: false,
            include_documentation: false,
        }
    }

    /// Create a request to describe a broker's configuration.
    pub fn for_broker(broker_id: i32) -> (r: Self)
        ensures
            r.resources@.len() == 1,
            r.resources@[0].resource_type == ConfigResourceType::Broker,
            r.resources@[0].resource_name@ == decimal(broker_id as int),
            r.resources@[0].config_names is None,
            !r.include_synonyms,
            !r.include_documentation,
    {
        DescribeConfigsRequest {
            resources: vec![
                DescribeConfigsResource {
                    resource_type: ConfigResourceType::Broker,
                    resource_name: decimal_text(broker_id as i128),
                    config_names: None,
                },
            ],
            include_synonyms: false,
            include_documentation: false,
        }
    }
}

impl DescribeConfigsRequest {
    /// Encode for version 0.
    pub fn encode_v0(&self, buf: &mut BytesMut) -> (res: Result<()>)
        requires
            fits(self.written(Format::plain(0), Writer::at(old(buf)@))),
        ensures
            encoded(res, final(buf)@, self.written(Format::plain(0), Writer::at(old(buf)@))),
    {
        self.encode_wire(Format::plain(0), buf)
    }

    /// Encode for versions 1-2 (non-flexible; v1 adds include_synonyms).
    pub fn encode_v1(&self, buf: &mut BytesMut) -> (res: Result<()>)
        requires
            fits(self.written(Format::plain(1), Writer::at(old(buf)@))),
        ensures
            encoded(res, final(buf)@, self.written(Format::plain(1), Writer::at(old(buf)@))),
    {
        self.encode_wire(Format::plain(1), buf)
    }

    /// Encode for version 3 (non-flexible; adds include_documentation).
    pub fn encode_v3(&self, buf: &mut BytesMut) -> (res: Result<()>)
        requires
            fits(self.written(Format::plain(3), Writer::at(old(buf)@))),
        ensures
            encoded(res, final(buf)@, self.written(Format::plain(3), Writer::at(old(buf)@))),
    {
        self.encode_wire(Format::plain(3), buf)
    }

    /// Encode for version 4 (flexible encoding).
    pub fn encode_v4(&self, buf: &mut BytesMut) -> (res: Result<()>)
        requires
            fits(self.written(Format::flexible(4), Writer::at(old(buf)@))),
        ensures
            encoded(res, final(buf)@, self.written(Format::flexible(4), Writer::at(old(buf)@))),
    {
        self.encode_wire(Format::flexible(4), buf)
    }
}

/// A synonym for a configuration key in DescribeConfigs response (v1+).
#[derive(Debug, Clone)]
pub struct ConfigSynonym {
    /// Synonym name.
    pub name: String,
    /// Synonym value.
    pub value: Option<String>,
    /// Synonym source.
    pub source: i8,
}

/// What a [`ConfigSynonym`] holds.
pub struct ConfigSynonymView {
    /// Synonym name.
    pub name: Seq<char>,
    /// Synonym value.
    pub value: Option<Seq<char>>,
    /// Synonym source.
    pub source: i8,
}

impl View for ConfigSynonym {
    type V = ConfigSynonymView;

    open spec fn view(&self) -> ConfigSynonymView {
        ConfigSynonymView {
            name: self.name@,
            value: optional_text(self.value),
            source: self.source,
        }
    }
}

impl WireDecode for ConfigSynonym {
    open spec fn read(f: Format, r: Reader) -> (ConfigSynonymView, Reader) {
        let (name, r) = r.string("synonym name", f.flexible);
        let (value, r) = r.nullable_string(f.flexible);
        let (source, r) = r.i8();
        let r = r.tags(f.flexible);
        let value = ConfigSynonymView {
            name,
            value,
            source,
        };
        (value, r)
    }

    fn decode_wire(f: Format, buf: &mut Bytes) -> (res: Result<Self>) {
        let name = read_string("synonym name", f.flexible, buf)?;
        let value = read_nullable_string(f.flexible, buf)?;
        let source = read_i8(buf)?;
        read_tags(f.flexible, buf)?;
        Ok(ConfigSynonym {
            name,
            value,
            source,
        })
    }

    proof fn law_consumes(f: Format, r: Reader) {
        broadcast use group_consumes;

    }

    proof fn law_ignores_what_follows(f: Format, r: Reader, more: Seq<u8>) {
        broadcast use group_consumes, group_followed;

    }

    proof fn law_needs_only_what_it_takes(f: Format, r: Reader, k: nat) {
        broadcast use group_consumes, group_cut;

    }
}

/// Configuration entry in DescribeConfigs response.
#[derive(Debug, Clone)]
pub struct DescribeConfigsEntry {
    /// Config name.
    pub name: String,
    /// Config value.
    pub value: Option<String>,
    /// Whether the config is read-only.
    pub read_only: bool,
    /// Whether the config is the default value (v0 only; v1+ uses config_source).
    pub is_default: bool,
    /// Whether the config is sensitive.
    pub is_sensitive: bool,
    /// Configuration source (v1+). -1 if not available.
    pub config_source: i8,
    /// Synonyms for this configuration key (v1+).
    pub synonyms: Vec<ConfigSynonym>,
    /// Configuration data type (v3+). 0 = UNKNOWN.
    pub config_type: i8,
    /// Configuration documentation (v3+).
    pub documentation: Option<String>,
}

/// What a [`DescribeConfigsEntry`] holds.
pub struct DescribeConfigsEntryView {
    /// Config name.
    pub name: Seq<char>,
    /// Config value.
    pub value: Option<Seq<char>>,
    /// Whether the config is read-only.
    pub read_only: bool,
    /// Whether the config is the default value (v0 only; v1+ uses config_source).
    pub is_default: bool,
    /// Whether the config is sensitive.
    pub is_sensitive: bool,
    /// Configuration source (v1+). -1 if not available.
    pub config_source: i8,
    /// Synonyms for this configuration key (v1+).
    pub synonyms: Seq<ConfigSynonymView>,
    /// Configuration data type (v3+). 0 = UNKNOWN.
    pub config_type: i8,
    /// Configuration documentation (v3+).
    pub documentation: Option<Seq<char>>,
}

impl View for DescribeConfigsEntry {
    type V = DescribeConfigsEntryView;

    open spec fn view(&self) -> DescribeConfigsEntryView {
        DescribeConfigsEntryView {
            name: self.name@,
            value: optional_text(self.value),
            read_only: self.read_only,
            is_default: self.is_default,
            is_sensitive: self.is_sensitive,
            config_source: self.config_source,
            synonyms: views(self.synonyms@),
            config_type: self.config_type,
            documentation: optional_text(self.documentation),
        }
    }
}

impl WireDecode for DescribeConfigsEntry {
    open spec fn read(f: Format, r: Reader) -> (DescribeConfigsEntryView, Reader) {
        let (name, r) = r.string("config entry name", f.flexible);
        let (value, r) = r.nullable_string(f.flexible);
        let (read_only, r) = r.bool();
        let (is_default, r) = if f.version < 1 {
            r.bool()
        } else {
            (false, r)
        };
        let (config_source, r) = if f.version >= 1 {
            r.i8()
        } else {
            ((-1) as i8, r)
        };
        let (is_sensitive, r) = r.bool();
        let (synonyms, r) = if f.version >= 1 {
            r.array::<ConfigSynonym>(f)
        } else {
            (Seq::empty(), r)
        };
        let (config_type, r) = if f.version >= 3 {
            r.i8()
        } else {
            (0, r)
        };
        let (documentation, r) = if f.version >= 3 {
            r.nullable_string(f.flexible)
        } else {
            (None, r)
        };
        let r = r.tags(f.flexible);
        let value = DescribeConfigsEntryView {
            name,
            value,
            read_only,
            is_default,
            is_sensitive,
            config_source,
            synonyms,
            config_type,
            documentation,
        };
        (value, r)
    }

    fn decode_wire(f: Format, buf: &mut Bytes) -> (res: Result<Self>) {
        let name = read_string("config entry name", f.flexible, buf)?;
        let value = read_nullable_string(f.flexible, buf)?;
        let read_only = read_bool(buf)?;
        let is_default: bool = if f.version < 1 {
            read_bool(buf)?
        } else {
            false
        };
        let config_source: i8 = if f.version >= 1 {
            read_i8(buf)?
        } else {
            -1
        };
        let is_sensitive = read_bool(buf)?;
        let synonyms: Vec<ConfigSynonym> = if f.version >= 1 {
            read_array::<ConfigSynonym>(f, buf)?
        } else {
            no_items()
        };
        let config_type: i8 = if f.version >= 3 {
            read_i8(buf)?
        } else {
            0
        };
        let documentation: Option<String> = if f.version >= 3 {
            read_nullable_string(f.flexible, buf)?
        } else {
            None
        };
        read_tags(f.flexible, buf)?;
        Ok(DescribeConfigsEntry {
            name,
            value,
            read_only,
            is_default,
            is_sensitive,
            config_source,
            synonyms,
            config_type,
            documentation,
        })
    }

    proof fn law_consumes(f: Format, r: Reader) {
        broadcast use group_consumes;

    }

    proof fn law_ignores_what_follows(f: Format, r: Reader, more: Seq<u8>) {
        broadcast use group_consumes, group_followed;

    }

    #[verifier::rlimit(60)]
    proof fn law_needs_only_what_it_takes(f: Format, r: Reader, k: nat) {
        broadcast use group_consumes, group_cut;

    }
}

/// Result for a resource in DescribeConfigs response.
#[derive(Debug, Clone)]
pub struct DescribeConfigsResult {
    /// Error code.
    pub error_code: ErrorCode,
    /// Error message.
    pub error_message: Option<String>,
    /// Resource type.
    pub resource_type: ConfigResourceType,
    /// Resource name.
    pub resource_name: String,
    /// Configuration entries.
    pub configs: Vec<DescribeConfigsEntry>,
}

/// What a [`DescribeConfigsResult`] holds.
pub struct DescribeConfigsResultView {
    /// Error code.
    pub error_code: ErrorCode,
    /// Error message.
    pub error_message: Option<Seq<char>>,
    /// Resource type.
    pub resource_type: ConfigResourceType,
    /// Resource name.
    pub resource_name: Seq<char>,
    /// Configuration entries.
    pub configs: Seq<DescribeConfigsEntryView>,
}

impl View for DescribeConfigsResult {
    type V = DescribeConfigsResultView;

    open spec fn view(&self) -> DescribeConfigsResultView {
        DescribeConfigsResultView {
            error_code: self.error_code,
            error_message: optional_text(self.error_message),
            resource_type: self.resource_type,
            resource_name: self.resource_name@,
            configs: views(self.configs@),
        }
    }
}

impl WireDecode for DescribeConfigsResult {
    open spec fn read(f: Format, r: Reader) -> (DescribeConfigsResultView, Reader) {
        let (error_code, r) = r.error_code();
        let (error_message, r) = r.nullable_string(f.flexible);
        let (resource_type, r) = {
            let (n, r) = r.i8();
            (ConfigResourceType::of(n), r)
        };
        let (resource_name, r) = r.string("resource name", f.flexible);
        let (configs, r) = r.array::<DescribeConfigsEntry>(f);
        let r = r.tags(f.flexible);
        let value = DescribeConfigsResultView {
            error_code,
            error_message,
            resource_type,
            resource_name,
            configs,
        };
        (value, r)
    }

    fn decode_wire(f: Format, buf: &mut Bytes) -> (res: Result<Self>) {
        let error_code = read_error_code(buf)?;
        let error_message = read_nullable_string(f.flexible, buf)?;
        let resource_type = ConfigResourceType::from_i8(read_i8(buf)?);
        let resource_name = read_string("resource name", f.flexible, buf)?;
        let configs = read_array::<DescribeConfigsEntry>(f, buf)?;
        read_tags(f.flexible, buf)?;
        Ok(DescribeConfigsResult {
            error_code,
            error_message,
            resource_type,
            resource_name,
            configs,
        })
    }

    proof fn law_consumes(f: Format, r: Reader) {
        broadcast use group_consumes;

    }

    proof fn law_ignores_what_follows(f: Format, r: Reader, more: Seq<u8>) {
        broadcast use group_consumes, group_followed;

    }

    proof fn law_needs_only_what_it_takes(f: Format, r: Reader, k: nat) {
        broadcast use group_consumes, group_cut;

    }
}

/// DescribeConfigs response.
#[derive(Debug, Clone)]
pub struct DescribeConfigsResponse {
    /// Throttle time in milliseconds.
    pub throttle_time_ms: i32,
    /// Results per resource.
    pub results: Vec<DescribeConfigsResult>,
}

/// What a [`DescribeConfigsResponse`] holds.
pub struct DescribeConfigsResponseView {
    /// Throttle time in milliseconds.
    pub throttle_time_ms: i32,
    /// Results per resource.
    pub results: Seq<DescribeConfigsResultView>,
}

impl View for DescribeConfigsResponse {
    type V = DescribeConfigsResponseView;

    open spec fn view(&self) -> DescribeConfigsResponseView {
        DescribeConfigsResponseView {
            throttle_time_ms: self.throttle_time_ms,
            results: views(self.results@),
        }
    }
}

impl WireDecode for DescribeConfigsResponse {
    open spec fn read(f: Format, r: Reader) -> (DescribeConfigsResponseView, Reader) {
        let (throttle_time_ms, r) = r.i32();
        let (results, r) = r.array::<DescribeConfigsResult>(f);
        let r = r.tags(f.flexible);
        let value = DescribeConfigsResponseView {
            throttle_time_ms,
            results,
        };
        (value, r)
    }

    fn decode_wire(f: Format, buf: &mut Bytes) -> (res: Result<Self>) {
        let throttle_time_ms = read_i32(buf)?;
        let results = read_array::<DescribeConfigsResult>(f, buf)?;
        read_tags(f.flexible, buf)?;
        Ok(DescribeConfigsResponse {
            throttle_time_ms,
            results,
        })
    }

    proof fn law_consumes(f: Format, r: Reader) {
        broadcast use group_consumes;

    }

    proof fn law_ignores_what_follows(f: Format, r: Reader, more: Seq<u8>) {
        broadcast use group_consumes, group_followed;

    }

    proof fn law_needs_only_what_it_takes(f: Format, r: Reader, k: nat) {
        broadcast use group_consumes, group_cut;

    }
}

impl DescribeConfigsResponse {
    /// Decode from version 0.
    pub fn decode_v0(buf: &mut Bytes) -> (res: Result<Self>)
        ensures
            decoded(
                result_view(res),
                final(buf)@,
                Self::read(Format::plain(0), Reader::on(old(buf)@)),
            ),
    {
        Self::decode_wire(Format::plain(0), buf)
    }

    /// Decode from version 1-2 (non-flexible; adds config_source, synonyms).
    pub fn decode_v1(buf: &mut Bytes) -> (res: Result<Self>)
        ensures
            decoded(
                result_view(res),
                final(buf)@,
                Self::read(Format::plain(1), Reader::on(old(buf)@)),
            ),
    {
        Self::decode_wire(Format::plain(1), buf)
    }

    /// Decode from version 3 (non-flexible; adds config_type, documentation).
    pub fn decode_v3(buf: &mut Bytes) -> (res: Result<Self>)
        ensures
            decoded(
                result_view(res),
                final(buf)@,
                Self::read(Format::plain(3), Reader::on(old(buf)@)),
            ),
    {
        Self::decode_wire(Format::plain(3), buf)
    }

    /// Decode from version 4 (flexible encoding).
    pub fn decode_v4(buf: &mut Bytes) -> (res: Result<Self>)
        ensures
            decoded(
                result_view(res),
                final(buf)@,
                Self::read(Format::flexible(4), Reader::on(old(buf)@)),
            ),
    {
        Self::decode_wire(Format::flexible(4), buf)
    }
}

impl VersionedEncode for DescribeConfigsRequest {
    open spec fn request_key() -> ApiKey {
        ApiKey::DescribeConfigs
    }

    open spec fn encodes(version: i16) -> bool {
        0 <= version <= 4
    }

    open spec fn request_format(version: i16) -> Format {
        match version {
            0 => Format::plain(0),
            1 | 2 => Format::plain(1),
            3 => Format::plain(3),
            _ => Format::flexible(4),
        }
    }

    open spec fn request_name() -> &'static str {
        "DescribeConfigsRequest"
    }

    fn encode_versioned(&self, version: i16, buf: &mut BytesMut) -> (res: Result<()>) {
        match version {
            0 => self.encode_v0(buf),
            1 | 2 => self.encode_v1(buf),
            3 => self.encode_v3(buf),
            4 => self.encode_v4(buf),
            _ => Err(
                KrafkaError::Protocol(
                    ProtocolErrorKind::Malformed,
                    Reason::UnsupportedEncode("DescribeConfigsRequest", version),
                ),
            ),
        }
    }

    proof fn law_request_format(&self, version: i16, w: Writer) {
    }

    proof fn law_unsupported_encode(&self, version: i16, w: Writer) {
    }
}

impl VersionedDecode for DescribeConfigsResponse {
    open spec fn response_key() -> ApiKey {
        ApiKey::DescribeConfigs
    }

    open spec fn decodes(version: i16) -> bool {
        0 <= version <= 4
    }

    open spec fn response_format(version: i16) -> Format {
        match version {
            0 => Format::plain(0),
            1 | 2 => Format::plain(1),
            3 => Format::plain(3),
            _ => Format::flexible(4),
        }
    }

    open spec fn response_name() -> &'static str {
        "DescribeConfigsResponse"
    }

    fn decode_versioned(version: i16, buf: &mut Bytes) -> (res: Result<Self>) {
        match version {
            0 => Self::decode_v0(buf),
            1 | 2 => Self::decode_v1(buf),
            3 => Self::decode_v3(buf),
            4 => Self::decode_v4(buf),
            _ => Err(
                KrafkaError::Protocol(
                    ProtocolErrorKind::Malformed,
                    Reason::UnsupportedDecode("DescribeConfigsResponse", version),
                ),
            ),
        }
    }

    proof fn law_response_format(version: i16, r: Reader) {
    }

    proof fn law_unsupported_decode(version: i16, r: Reader) {
    }
}

/// Operation type for incremental config alteration.
#[derive(Debug, Clone, Copy, PartialEq, Eq, Structural)]
pub enum AlterConfigOp {
    /// Set the config value.
    SetValue,
    /// Delete the config (revert to default).
    Delete,
    /// Append to a list config.
    Append,
    /// Subtract from a list config.
    Subtract,
}

impl AlterConfigOp {
    /// What a number on the wire stands for, if anything.
    pub open spec fn of(value: i8) -> Option<AlterConfigOp> {
        match value {
            0 => Some(Self::SetValue),
            1 => Some(Self::Delete),
            2 => Some(Self::Append),
            3 => Some(Self::Subtract),
            _ => None,
        }
    }

    /// The number on the wire.
    pub open spec fn code(self) -> i8 {
        match self {
            Self::SetValue => 0,
            Self::Delete => 1,
            Self::Append => 2,
            Self::Subtract => 3,
        }
    }

    /// Create from i8.
    pub fn from_i8(value: i8) -> (r: Option<Self>)
        ensures
            r == Self::of(value),
    {
        match value {
            0 => Some(Self::SetValue),
            1 => Some(Self::Delete),
            2 => Some(Self::Append),
            3 => Some(Self::Subtract),
            _ => None,
        }
    }

    /// Convert to i8.
    pub fn to_i8(self) -> (r: i8)
        ensures
            r == self.code(),
    {
        match self {
            Self::SetValue => 0,
            Self::Delete => 1,
            Self::Append => 2,
            Self::Subtract => 3,
        }
    }
}

/// An operation and its number stand for each other.
pub proof fn law_alter_config_op_keeps_code(op: AlterConfigOp, value: i8)
    ensures
        AlterConfigOp::of(op.code()) == Some(op),
        AlterConfigOp::of(value) matches Some(found) ==> found.code() == value,
{
}

/// IncrementalAlterConfigs request (API Key 44).
#[derive(Debug, Clone)]
pub struct IncrementalAlterConfigsRequest {
    /// Resources to alter incrementally.
    pub resources: Vec<IncrementalAlterConfigsResource>,
    /// If true, validate without actually changing configs.
    pub validate_only: bool,
}

/// Resource in IncrementalAlterConfigs request.
#[derive(Debug, Clone)]
pub struct IncrementalAlterConfigsResource {
    /// Resource type.
    pub resource_type: ConfigResourceType,
    /// Resource name (topic name or broker ID as string).
    pub resource_name: String,
    /// Configuration alterations.
    pub configs: Vec<AlterableConfig>,
}

/// A single config alteration in IncrementalAlterConfigs request.
#[derive(Debug, Clone)]
pub struct AlterableConfig {
    /// Config key name.
    pub name: String,
    /// Operation type (SET, DELETE, APPEND, SUBTRACT).
    pub config_operation: AlterConfigOp,
    /// Config value (null for DELETE).
    pub value: Option<String>,
}

impl WireEncode for AlterableConfig {
    open spec fn written(&self, f: Format, w: Writer) -> Writer {
        let w = w.string(self.name@, f.flexible);
        let w = w.i8(self.config_operation.code());
        let w = w.nullable_string(optional_text(self.value), f.flexible);
        w.tags(f.flexible)
    }

    proof fn lemma_grows(&self, f: Format, w: Writer) {
        broadcast use group_grows;

    }

    proof fn law_appends(&self, f: Format, w: Writer) {
        broadcast use group_appends;

    }

    fn encode_wire(&self, f: Format, buf: &mut BytesMut) -> (res: Result<()>) {
        broadcast use group_grows;

        write_string(self.name.as_str(), f.flexible, buf)?;
        write_i8(self.config_operation.to_i8(), buf);
        write_nullable_string(&self.value, f.flexible, buf)?;
        write_tags(f.flexible, buf);
        Ok(())
    }
}

impl WireEncode for IncrementalAlterConfigsResource {
    open spec fn written(&self, f: Format, w: Writer) -> Writer {
        let w = w.i8(self.resource_type.code());
        let w = w.string(self.resource_name@, f.flexible);
        let w = w.array(self.configs@, f);
        w.tags(f.flexible)
    }

    proof fn lemma_grows(&self, f: Format, w: Writer) {
        broadcast use group_grows;

    }

    proof fn law_appends(&self, f: Format, w: Writer) {
        broadcast use group_appends;

    }

    fn encode_wire(&self, f: Format, buf: &mut BytesMut) -> (res: Result<()>) {
        broadcast use group_grows;

        write_i8(self.resource_type.to_i8(), buf);
        write_string(self.resource_name.as_str(), f.flexible, buf)?;
        write_array(&self.configs, f, buf)?;
        write_tags(f.flexible, buf);
        Ok(())
    }
}

impl WireEncode for IncrementalAlterConfigsRequest {
    open spec fn written(&self, f: Format, w: Writer) -> Writer {
        let w = w.array(self.resources@, f);
        let w = w.bool(self.validate_only);
        w.tags(f.flexible)
    }

    proof fn lemma_grows(&self, f: Format, w: Writer) {
        broadcast use group_grows;

    }

    proof fn law_appends(&self, f: Format, w: Writer) {
        broadcast use group_appends;

    }

    fn encode_wire(&self, f: Format, buf: &mut BytesMut) -> (res: Result<()>) {
        broadcast use group_grows;

        write_array(&self.resources, f, buf)?;
        write_bool(self.validate_only, buf);
        write_tags(f.flexible, buf);
        Ok(())
    }
}

impl IncrementalAlterConfigsRequest {
    /// Create a request to incrementally alter a topic's configuration.
    pub fn for_topic(topic: &str, configs: Vec<AlterableConfig>) -> (r: Self)
        ensures
            r.resources@.len() == 1,
            r.resources@[0].resource_type == ConfigResourceType::Topic,
            r.resources@[0].resource_name@ == topic@,
            r.resources@[0].configs == configs,
            !r.validate_only,
    {
        IncrementalAlterConfigsRequest {
            resources: vec![
                IncrementalAlterConfigsResource {
                    resource_type: ConfigResourceType::Topic,
                    resource_name: topic.to_owned(),
                    configs,
                },
            ],
            validate_only: false,
        }
    }
}

impl IncrementalAlterConfigsRequest {
    /// Encode for version 0 (non-flexible).
    pub fn encode_v0(&self, buf: &mut BytesMut) -> (res: Result<()>)
        requires
            fits(self.written(Format::plain(0), Writer::at(old(buf)@))),
        ensures
            encoded(res, final(buf)@, self.written(Format::plain(0), Writer::at(old(buf)@))),
    {
        self.encode_wire(Format::plain(0), buf)
    }

    /// Encode for version 1 (flexible encoding).
    pub fn encode_v1(&self, buf: &mut BytesMut) -> (res: Result<()>)
        requires
            fits(self.written(Format::flexible(1), Writer::at(old(buf)@))),
        ensures
            encoded(res, final(buf)@, self.written(Format::flexible(1), Writer::at(old(buf)@))),
    {
        self.encode_wire(Format::flexible(1), buf)
    }
}

/// Result for a resource in IncrementalAlterConfigs response.
#[derive(Debug, Clone)]
pub struct IncrementalAlterConfigsResult {
    /// Error code.
    pub error_code: ErrorCode,
    /// Error message.
    pub error_message: Option<String>,
    /// Resource type.
    pub resource_type: ConfigResourceType,
    /// Resource name.
    pub resource_name: String,
}

/// What a [`IncrementalAlterConfigsResult`] holds.
pub struct IncrementalAlterConfigsResultView {
    /// Error code.
    pub error_code: ErrorCode,
    /// Error message.
    pub error_message: Option<Seq<char>>,
    /// Resource type.
    pub resource_type: ConfigResourceType,
    /// Resource name.
    pub resource_name: Seq<char>,
}

impl View for IncrementalAlterConfigsResult {
    type V = IncrementalAlterConfigsResultView;

    open spec fn view(&self) -> IncrementalAlterConfigsResultView {
        IncrementalAlterConfigsResultView {
            error_code: self.error_code,
            error_message: optional_text(self.error_message),
            resource_type: self.resource_type,
            resource_name: self.resource_name@,
        }
    }
}

impl WireDecode for IncrementalAlterConfigsResult {
    open spec fn read(f: Format, r: Reader) -> (IncrementalAlterConfigsResultView, Reader) {
        let (error_code, r) = r.error_code();
        let (error_message, r) = r.nullable_string(f.flexible);
        let (resource_type, r) = {
            let (n, r) = r.i8();
            (ConfigResourceType::of(n), r)
        };
        let (resource_name, r) = r.string("resource name", f.flexible);
        let r = r.tags(f.flexible);
        let value = IncrementalAlterConfigsResultView {
            error_code,
            error_message,
            resource_type,
            resource_name,
        };
        (value, r)
    }

    fn decode_wire(f: Format, buf: &mut Bytes) -> (res: Result<Self>) {
        let error_code = read_error_code(buf)?;
        let error_message = read_nullable_string(f.flexible, buf)?;
        let resource_type = ConfigResourceType::from_i8(read_i8(buf)?);
        let resource_name = read_string("resource name", f.flexible, buf)?;
        read_tags(f.flexible, buf)?;
        Ok(IncrementalAlterConfigsResult {
            error_code,
            error_message,
            resource_type,
            resource_name,
        })
    }

    proof fn law_consumes(f: Format, r: Reader) {
        broadcast use group_consumes;

    }

    proof fn law_ignores_what_follows(f: Format, r: Reader, more: Seq<u8>) {
        broadcast use group_consumes, group_followed;

    }

    proof fn law_needs_only_what_it_takes(f: Format, r: Reader, k: nat) {
        broadcast use group_consumes, group_cut;

    }
}

/// IncrementalAlterConfigs response (API Key 44).
#[derive(Debug, Clone)]
pub struct IncrementalAlterConfigsResponse {
    /// Throttle time in milliseconds.
    pub throttle_time_ms: i32,
    /// Results per resource.
    pub results: Vec<IncrementalAlterConfigsResult>,
}

/// What a [`IncrementalAlterConfigsResponse`] holds.
pub struct IncrementalAlterConfigsResponseView {
    /// Throttle time in milliseconds.
    pub throttle_time_ms: i32,
    /// Results per resource.
    pub results: Seq<IncrementalAlterConfigsResultView>,
}

impl View for IncrementalAlterConfigsResponse {
    type V = IncrementalAlterConfigsResponseView;

    open spec fn view(&self) -> IncrementalAlterConfigsResponseView {
        IncrementalAlterConfigsResponseView {
            throttle_time_ms: self.throttle_time_ms,
            results: views(self.results@),
        }
    }
}

impl WireDecode for IncrementalAlterConfigsResponse {
    open spec fn read(f: Format, r: Reader) -> (IncrementalAlterConfigsResponseView, Reader) {
        let (throttle_time_ms, r) = r.i32();
        let (results, r) = r.array::<IncrementalAlterConfigsResult>(f);
        let r = r.tags(f.flexible);
        let value = IncrementalAlterConfigsResponseView {
            throttle_time_ms,
            results,
        };
        (value, r)
    }

    fn decode_wire(f: Format, buf: &mut Bytes) -> (res: Result<Self>) {
        let throttle_time_ms = read_i32(buf)?;
        let results = read_array::<IncrementalAlterConfigsResult>(f, buf)?;
        read_tags(f.flexible, buf)?;
        Ok(IncrementalAlterConfigsResponse {
            throttle_time_ms,
            results,
        })
    }

    proof fn law_consumes(f: Format, r: Reader) {
        broadcast use group_consumes;

    }

    proof fn law_ignores_what_follows(f: Format, r: Reader, more: Seq<u8>) {
        broadcast use group_consumes, group_followed;

    }

    proof fn law_needs_only_what_it_takes(f: Format, r: Reader, k: nat) {
        broadcast use group_consumes, group_cut;

    }
}

impl IncrementalAlterConfigsResponse {
    /// Decode from version 0 (non-flexible).
    pub fn decode_v0(buf: &mut Bytes) -> (res: Result<Self>)
        ensures
            decoded(
                result_view(res),
                final(buf)@,
                Self::read(Format::plain(0), Reader::on(old(buf)@)),
            ),
    {
        Self::decode_wire(Format::plain(0), buf)
    }

    /// Decode from version 1 (flexible encoding).
    pub fn decode_v1(buf: &mut Bytes) -> (res: Result<Self>)
        ensures
            decoded(
                result_view(res),
                final(buf)@,
                Self::read(Format::flexible(1), Reader::on(old(buf)@)),
            ),
    {
        Self::decode_wire(Format::flexible(1), buf)
    }
}

impl VersionedEncode for IncrementalAlterConfigsRequest {
    open spec fn request_key() -> ApiKey {
        ApiKey::IncrementalAlterConfigs
    }

    open spec fn encodes(version: i16) -> bool {
        0 <= version <= 1
    }

    open spec fn request_format(version: i16) -> Format {
        match version {
            0 => Format::plain(0),
            _ => Format::flexible(1),
        }
    }

    open spec fn request_name() -> &'static str {
        "IncrementalAlterConfigsRequest"
    }

    fn encode_versioned(&self, version: i16, buf: &mut BytesMut) -> (res: Result<()>) {
        match version {
            0 => self.encode_v0(buf),
            1 => self.encode_v1(buf),
            _ => Err(
                KrafkaError::Protocol(
                    ProtocolErrorKind::Malformed,
                    Reason::UnsupportedEncode("IncrementalAlterConfigsRequest", version),
                ),
            ),
        }
    }

    proof fn law_request_format(&self, version: i16, w: Writer) {
    }

    proof fn law_unsupported_encode(&self, version: i16, w: Writer) {
    }
}

impl VersionedDecode for IncrementalAlterConfigsResponse {
    open spec fn response_key() -> ApiKey {
        ApiKey::IncrementalAlterConfigs
    }

    open spec fn decodes(version: i16) -> bool {
        0 <= version <= 1
    }

    open spec fn response_format(version: i16) -> Format {
        match version {
            0 => Format::plain(0),
            _ => Format::flexible(1),
        }
    }

    open spec fn response_name() -> &'static str {
        "IncrementalAlterConfigsResponse"
    }

    fn decode_versioned(version: i16, buf: &mut Bytes) -> (res: Result<Self>) {
        match version {
            0 => Self::decode_v0(buf),
            1 => Self::decode_v1(buf),
            _ => Err(
                KrafkaError::Protocol(
                    ProtocolErrorKind::Malformed,
                    Reason::UnsupportedDecode("IncrementalAlterConfigsResponse", version),
                ),
            ),
        }
    }

    proof fn law_response_format(version: i16, r: Reader) {
    }

    proof fn law_unsupported_decode(version: i16, r: Reader) {
    }
}

} // verus!
