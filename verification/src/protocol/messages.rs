//! Requests and responses.

use crate::buffer::Octets;
use crate::error::{KrafkaError, ProtocolErrorKind, Reason, Result};
use crate::protocol::api::ApiKey;
use crate::protocol::wire::{
    decoded, encoded, fits, result_view, Format, Reader, WireDecode, WireEncode, Writer,
};
use bytes::{Bytes, BytesMut};
use vstd::prelude::*;

pub mod acl;
pub mod add_offsets_to_txn;
pub mod add_partitions_to_txn;
pub mod admin;
pub mod alter_client_quotas;
pub mod alter_partition_reassignments;
pub mod alter_replica_log_dirs;
pub mod config;
pub mod consumer_group_describe;
pub mod consumer_protocol;
pub mod coordinator;
pub mod group;
pub mod metadata;
pub mod offsets;
pub mod produce_fetch;
pub mod security;
pub mod topics;
pub mod transactions;

pub use self::group::{
    DescribeGroupMember, DescribeGroupsRequest, DescribeGroupsResponse, DescribedGroup,
    FindCoordinatorRequest, FindCoordinatorResponse, HeartbeatRequest, HeartbeatResponse,
    JoinGroupRequest, JoinGroupRequestProtocol, JoinGroupResponse, JoinGroupResponseMember,
    LeaveGroupMember, LeaveGroupRequest, LeaveGroupResponse, LeaveGroupResponseMember,
    ListGroupsRequest, ListGroupsResponse, ListedGroup, SyncGroupRequest,
    SyncGroupRequestAssignment, SyncGroupResponse,
};
pub use self::metadata::{
    MetadataBroker, MetadataPartitionResponse, MetadataRequest, MetadataRequestTopic,
    MetadataResponse, MetadataTopicResponse,
};
pub use self::offsets::{
    ListOffsetsRequest, ListOffsetsRequestPartition, ListOffsetsRequestTopic, ListOffsetsResponse,
    ListOffsetsResponsePartition, ListOffsetsResponseTopic, OffsetCommitRequest,
    OffsetCommitRequestPartition, OffsetCommitRequestTopic, OffsetCommitResponse,
    OffsetCommitResponsePartition, OffsetCommitResponseTopic, OffsetFetchRequest,
    OffsetFetchRequestTopic, OffsetFetchResponse, OffsetFetchResponsePartition,
    OffsetFetchResponseTopic, OffsetForLeaderEpochPartition, OffsetForLeaderEpochPartitionResult,
    OffsetForLeaderEpochRequest, OffsetForLeaderEpochResponse, OffsetForLeaderEpochTopic,
    OffsetForLeaderEpochTopicResult,
};
pub use self::produce_fetch::{
    AbortedTransaction, FetchForgottenTopic, FetchPartitionRequest, FetchPartitionResponse,
    FetchRequest, FetchResponse, FetchTopicRequest, FetchTopicResponse, ProducePartitionData,
    ProducePartitionResponse, ProduceRequest, ProduceResponse, ProduceTopicData,
    ProduceTopicResponse,
};
pub use self::security::{
    AclBinding, AclBindingFilter, AclDescription, AclOperation, AclPatternType, AclPermissionType,
    AclResourceType, CreateAclsRequest, CreateAclsResponse, CreateAclsResult,
    DeleteAclsFilterResult, DeleteAclsMatchingAcl, DeleteAclsRequest, DeleteAclsResponse,
    DescribeAclsRequest, DescribeAclsResource, DescribeAclsResponse, SaslAuthenticateRequest,
    SaslAuthenticateResponse, SaslHandshakeRequest, SaslHandshakeResponse,
};
pub use self::topics::{
    AlterConfigsEntry, AlterConfigsRequest, AlterConfigsResource, AlterConfigsResponse,
    AlterConfigsResult, ConfigResourceType, CreatableReplicaAssignment, CreatableTopic,
    CreatableTopicConfig, CreatableTopicResult, CreatePartitionsAssignment, CreatePartitionsRequest,
    CreatePartitionsResponse, CreatePartitionsTopic, CreatePartitionsTopicResult,
    CreateTopicsRequest, CreateTopicsResponse, DeletableTopicResult, DeleteRecordsPartition,
    DeleteRecordsPartitionResult, DeleteRecordsRequest, DeleteRecordsResponse, DeleteRecordsTopic,
    DeleteRecordsTopicResult, DeleteTopicsRequest, DeleteTopicsResponse, DescribeConfigsEntry,
    DescribeConfigsRequest, DescribeConfigsResource, DescribeConfigsResponse, DescribeConfigsResult,
};
pub use self::transactions::{
    AddOffsetsToTxnRequest, AddOffsetsToTxnResponse, AddPartitionsToTxnPartitionResult,
    AddPartitionsToTxnRequest, AddPartitionsToTxnResponse, AddPartitionsToTxnTopic,
    AddPartitionsToTxnTopicResult, EndTxnRequest, EndTxnResponse, InitProducerIdRequest,
    InitProducerIdResponse, TransactionResult, TxnOffsetCommitPartition,
    TxnOffsetCommitPartitionResult, TxnOffsetCommitRequest, TxnOffsetCommitResponse,
    TxnOffsetCommitTopic, TxnOffsetCommitTopicResult,
};

verus! {

/// The error of a message that has no encoding in a version.
pub open spec fn unsupported_encode(message: &'static str, version: i16) -> KrafkaError {
    KrafkaError::Protocol(
        ProtocolErrorKind::Malformed,
        Reason::UnsupportedEncode(message, version),
    )
}

/// The error of a message that has no decoding in a version.
pub open spec fn unsupported_decode(message: &'static str, version: i16) -> KrafkaError {
    KrafkaError::Protocol(
        ProtocolErrorKind::Malformed,
        Reason::UnsupportedDecode(message, version),
    )
}

/// Encode a request body for a specific protocol version.
pub trait VersionedEncode: WireEncode {
    /// The API of the request.
    spec fn request_key() -> ApiKey;

    /// Whether the request has an encoding in a version.
    spec fn encodes(version: i16) -> bool;

    /// The form of the request in a version that has an encoding.
    spec fn request_format(version: i16) -> Format;

    /// The name of the request in errors.
    spec fn request_name() -> &'static str;

    /// The writer behind the request in a version.
    open spec fn written_versioned(&self, version: i16, w: Writer) -> Writer {
        if Self::encodes(version) {
            self.written(Self::request_format(version), w)
        } else {
            w.raise(unsupported_encode(Self::request_name(), version))
        }
    }

    /// Encode into the buffer using the given protocol version.
    fn encode_versioned(&self, version: i16, buf: &mut BytesMut) -> (res: Result<()>)
        requires
            fits(self.written_versioned(version, Writer::at(old(buf)@))),
        ensures
            encoded(res, final(buf)@, self.written_versioned(version, Writer::at(old(buf)@))),
    ;

    /// A request is flexible from the version on from which its API is, so that its
    /// body and its header switch together.
    proof fn law_request_format(&self, version: i16, w: Writer)
        requires
            Self::encodes(version),
        ensures
            self.written_versioned(version, w) == self.written(Self::request_format(version), w),
            Self::request_format(version).flexible <==> version
                >= Self::request_key().flexible_from(),
    ;

    /// In a version without an encoding nothing is written, and the error names the
    /// request and the version.
    proof fn law_unsupported_encode(&self, version: i16, w: Writer)
        requires
            !Self::encodes(version),
        ensures
            self.written_versioned(version, w) == w.raise(
                unsupported_encode(Self::request_name(), version),
            ),
    ;
}

/// Decode a response body from a specific protocol version.
pub trait VersionedDecode: WireDecode {
    /// The API of the response.
    spec fn response_key() -> ApiKey;

    /// Whether the response has a decoding in a version.
    spec fn decodes(version: i16) -> bool;

    /// The form of the response in a version that has a decoding.
    spec fn response_format(version: i16) -> Format;

    /// The name of the response in errors.
    spec fn response_name() -> &'static str;

    /// The response at the front of a reader in a version.
    open spec fn read_versioned(version: i16, r: Reader) -> (Self::V, Reader) {
        if Self::decodes(version) {
            Self::read(Self::response_format(version), r)
        } else {
            (arbitrary(), r.raise(unsupported_decode(Self::response_name(), version)))
        }
    }

    /// Decode from the buffer using the given protocol version.
    fn decode_versioned(version: i16, buf: &mut Bytes) -> (res: Result<Self>)
        ensures
            decoded(
                result_view(res),
                final(buf)@,
                Self::read_versioned(version, Reader::on(old(buf)@)),
            ),
    ;

    /// A response is flexible from the version on from which its API is.
    proof fn law_response_format(version: i16, r: Reader)
        requires
            Self::decodes(version),
        ensures
            Self::read_versioned(version, r) == Self::read(Self::response_format(version), r),
            Self::response_format(version).flexible <==> version
                >= Self::response_key().flexible_from(),
    ;

    /// In a version without a decoding nothing is read, and the error names the
    /// response and the version.
    proof fn law_unsupported_decode(version: i16, r: Reader)
        requires
            !Self::decodes(version),
        ensures
            Self::read_versioned(version, r).1 == r.raise(
                unsupported_decode(Self::response_name(), version),
            ),
    ;
}

} // verus!
