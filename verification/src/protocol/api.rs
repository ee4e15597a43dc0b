//! Kafka API keys and version negotiation.
//!
//! This module defines all Kafka API keys and provides version negotiation support.

use crate::buffer::Octets;
use crate::error::{decimal, decimal_text, KrafkaError, ProtocolErrorKind, Reason, Result};
use crate::protocol::primitives::{Decode, Encode, KafkaString, TryEncode};
use crate::protocol::wire::{
    decode_unsigned_varint, decoded, encoded, fits, group_appends, group_consumes, group_cut,
    group_followed, group_grows, malformed, optional_text, read_array_or_empty, read_i16, read_i32,
    read_items, read_string, read_tagged_fields, read_tags, result_view, views, write_i16,
    write_i32, write_nullable_string, write_tags, Format, Reader, TaggedField, WireDecode,
    WireEncode, Writer,
};
use bytes::{Bytes, BytesMut};
use vstd::prelude::*;
use vstd::string::StringExecFns;

verus! {

/// Maximum number of supported features we'll accept from a broker.
pub const MAX_SUPPORTED_FEATURES: usize = 256;

/// Kafka API keys.
///
/// Each API key corresponds to a specific request/response pair in the Kafka protocol.
/// Forward compatibility is provided by the `Unknown(i16)` variant.
#[derive(Debug, Clone, Copy, PartialEq, Eq, Hash, Structural)]
pub enum ApiKey {
    /// Produce messages to topics.
    Produce,
    /// Fetch messages from topics.
    Fetch,
    /// List offsets for partitions.
    ListOffsets,
    /// Get cluster metadata.
    Metadata,
    /// Leader and ISR updates (internal).
    LeaderAndIsr,
    /// Stop replica (internal).
    StopReplica,
    /// Update metadata (internal).
    UpdateMetadata,
    /// Controlled shutdown (internal).
    ControlledShutdown,
    /// Commit offsets.
    OffsetCommit,
    /// Fetch committed offsets.
    OffsetFetch,
    /// Find group coordinator.
    FindCoordinator,
    /// Join consumer group.
    JoinGroup,
    /// Send heartbeat.
    Heartbeat,
    /// Leave consumer group.
    LeaveGroup,
    /// Sync consumer group.
    SyncGroup,
    /// Describe groups.
    DescribeGroups,
    /// List groups.
    ListGroups,
    /// SASL handshake.
    SaslHandshake,
    /// Get API versions.
    ApiVersions,
    /// Create topics.
    CreateTopics,
    /// Delete topics.
    DeleteTopics,
    /// Delete records.
    DeleteRecords,
    /// Init producer ID.
    InitProducerId,
    /// Offset for leader epoch.
    OffsetForLeaderEpoch,
    /// Add partitions to txn.
    AddPartitionsToTxn,
    /// Add offsets to txn.
    AddOffsetsToTxn,
    /// End txn.
    EndTxn,
    /// Write txn markers.
    WriteTxnMarkers,
    /// Describe txn coordinator.
    TxnOffsetCommit,
    /// Describe ACLs.
    DescribeAcls,
    /// Create ACLs.
    CreateAcls,
    /// Delete ACLs.
    DeleteAcls,
    /// Describe configs.
    DescribeConfigs,
    /// Alter configs.
    AlterConfigs,
    /// Alter replica log dirs.
    AlterReplicaLogDirs,
    /// Describe log dirs.
    DescribeLogDirs,
    /// SASL authenticate.
    SaslAuthenticate,
    /// Create partitions.
    CreatePartitions,
    /// Create delegation token.
    CreateDelegationToken,
    /// Renew delegation token.
    RenewDelegationToken,
    /// Expire delegation token.
    ExpireDelegationToken,
    /// Describe delegation token.
    DescribeDelegationToken,
    /// Delete groups.
    DeleteGroups,
    /// Elect leaders.
    ElectLeaders,
    /// Incremental alter configs.
    IncrementalAlterConfigs,
    /// Alter partition reassignments.
    AlterPartitionReassignments,
    /// List partition reassignments.
    ListPartitionReassignments,
    /// Offset delete.
    OffsetDelete,
    /// Describe client quotas.
    DescribeClientQuotas,
    /// Alter client quotas.
    AlterClientQuotas,
    /// Describe user SCRAM credentials.
    DescribeUserScramCredentials,
    /// Alter user SCRAM credentials.
    AlterUserScramCredentials,
    /// Vote (KRaft).
    Vote,
    /// Begin quorum epoch (KRaft).
    BeginQuorumEpoch,
    /// End quorum epoch (KRaft).
    EndQuorumEpoch,
    /// Describe quorum (KRaft).
    DescribeQuorum,
    /// Alter partition.
    AlterPartition,
    /// Update features.
    UpdateFeatures,
    /// Envelope (internal).
    Envelope,
    /// Fetch snapshot (KRaft).
    FetchSnapshot,
    /// Describe cluster.
    DescribeCluster,
    /// Describe producers.
    DescribeProducers,
    /// Broker registration (KRaft).
    BrokerRegistration,
    /// Broker heartbeat (KRaft).
    BrokerHeartbeat,
    /// Unregister broker (KRaft).
    UnregisterBroker,
    /// Describe transactions.
    DescribeTransactions,
    /// List transactions.
    ListTransactions,
    /// Allocate producer IDs.
    AllocateProducerIds,
    /// Consumer group heartbeat.
    ConsumerGroupHeartbeat,
    /// Consumer group describe (KIP-848).
    ConsumerGroupDescribe,
    /// Get telemetry subscriptions (KIP-714).
    GetTelemetrySubscriptions,
    /// Push telemetry (KIP-714).
    PushTelemetry,
    /// List client metrics resources (KIP-714).
    ListClientMetricsResources,
    /// Describe topic partitions (KIP-966).
    DescribeTopicPartitions,
    /// Share group heartbeat (KIP-932).
    ShareGroupHeartbeat,
    /// Share group describe (KIP-932).
    ShareGroupDescribe,
    /// Share fetch (KIP-932).
    ShareFetch,
    /// Share acknowledge (KIP-932).
    ShareAcknowledge,
    /// Unknown API key.
    Unknown(i16),
}

impl ApiKey {
    /// The key that a number stands for.
    pub open spec fn of(key: i16) -> ApiKey {
        match key {
            0 => Self::Produce,
            1 => Self::Fetch,
            2 => Self::ListOffsets,
            3 => Self::Metadata,
            4 => Self::LeaderAndIsr,
            5 => Self::StopReplica,
            6 => Self::UpdateMetadata,
            7 => Self::ControlledShutdown,
            8 => Self::OffsetCommit,
            9 => Self::OffsetFetch,
            10 => Self::FindCoordinator,
            11 => Self::JoinGroup,
            12 => Self::Heartbeat,
            13 => Self::LeaveGroup,
            14 => Self::SyncGroup,
            15 => Self::DescribeGroups,
            16 => Self::ListGroups,
            17 => Self::SaslHandshake,
            18 => Self::ApiVersions,
            19 => Self::CreateTopics,
            20 => Self::DeleteTopics,
            21 => Self::DeleteRecords,
            22 => Self::InitProducerId,
            23 => Self::OffsetForLeaderEpoch,
            24 => Self::AddPartitionsToTxn,
            25 => Self::AddOffsetsToTxn,
            26 => Self::EndTxn,
            27 => Self::WriteTxnMarkers,
            28 => Self::TxnOffsetCommit,
            29 => Self::DescribeAcls,
            30 => Self::CreateAcls,
            31 => Self::DeleteAcls,
            32 => Self::DescribeConfigs,
            33 => Self::AlterConfigs,
            34 => Self::AlterReplicaLogDirs,
            35 => Self::DescribeLogDirs,
            36 => Self::SaslAuthenticate,
            37 => Self::CreatePartitions,
            38 => Self::CreateDelegationToken,
            39 => Self::RenewDelegationToken,
            40 => Self::ExpireDelegationToken,
            41 => Self::DescribeDelegationToken,
            42 => Self::DeleteGroups,
            43 => Self::ElectLeaders,
            44 => Self::IncrementalAlterConfigs,
            45 => Self::AlterPartitionReassignments,
            46 => Self::ListPartitionReassignments,
            47 => Self::OffsetDelete,
            48 => Self::DescribeClientQuotas,
            49 => Self::AlterClientQuotas,
            50 => Self::DescribeUserScramCredentials,
            51 => Self::AlterUserScramCredentials,
            52 => Self::Vote,
            53 => Self::BeginQuorumEpoch,
            54 => Self::EndQuorumEpoch,
            55 => Self::DescribeQuorum,
            56 => Self::AlterPartition,
            57 => Self::UpdateFeatures,
            58 => Self::Envelope,
            59 => Self::FetchSnapshot,
            60 => Self::DescribeCluster,
            61 => Self::DescribeProducers,
            62 => Self::BrokerRegistration,
            63 => Self::BrokerHeartbeat,
            64 => Self::UnregisterBroker,
            65 => Self::DescribeTransactions,
            66 => Self::ListTransactions,
            67 => Self::AllocateProducerIds,
            68 => Self::ConsumerGroupHeartbeat,
            69 => Self::ConsumerGroupDescribe,
            71 => Self::GetTelemetrySubscriptions,
            72 => Self::PushTelemetry,
            74 => Self::ListClientMetricsResources,
            75 => Self::DescribeTopicPartitions,
            76 => Self::ShareGroupHeartbeat,
            77 => Self::ShareGroupDescribe,
            78 => Self::ShareFetch,
            79 => Self::ShareAcknowledge,
            other => Self::Unknown(other),
        }
    }

    /// The number that stands for a key.
    pub open spec fn number(self) -> i16 {
        match self {
            Self::Produce => 0,
            Self::Fetch => 1,
            Self::ListOffsets => 2,
            Self::Metadata => 3,
            Self::LeaderAndIsr => 4,
            Self::StopReplica => 5,
            Self::UpdateMetadata => 6,
            Self::ControlledShutdown => 7,
            Self::OffsetCommit => 8,
            Self::OffsetFetch => 9,
            Self::FindCoordinator => 10,
            Self::JoinGroup => 11,
            Self::Heartbeat => 12,
            Self::LeaveGroup => 13,
            Self::SyncGroup => 14,
            Self::DescribeGroups => 15,
            Self::ListGroups => 16,
            Self::SaslHandshake => 17,
            Self::ApiVersions => 18,
            Self::CreateTopics => 19,
            Self::DeleteTopics => 20,
            Self::DeleteRecords => 21,
            Self::InitProducerId => 22,
            Self::OffsetForLeaderEpoch => 23,
            Self::AddPartitionsToTxn => 24,
            Self::AddOffsetsToTxn => 25,
            Self::EndTxn => 26,
            Self::WriteTxnMarkers => 27,
            Self::TxnOffsetCommit => 28,
            Self::DescribeAcls => 29,
            Self::CreateAcls => 30,
            Self::DeleteAcls => 31,
            Self::DescribeConfigs => 32,
            Self::AlterConfigs => 33,
            Self::AlterReplicaLogDirs => 34,
            Self::DescribeLogDirs => 35,
            Self::SaslAuthenticate => 36,
            Self::CreatePartitions => 37,
            Self::CreateDelegationToken => 38,
            Self::RenewDelegationToken => 39,
            Self::ExpireDelegationToken => 40,
            Self::DescribeDelegationToken => 41,
            Self::DeleteGroups => 42,
            Self::ElectLeaders => 43,
            Self::IncrementalAlterConfigs => 44,
            Self::AlterPartitionReassignments => 45,
            Self::ListPartitionReassignments => 46,
            Self::OffsetDelete => 47,
            Self::DescribeClientQuotas => 48,
            Self::AlterClientQuotas => 49,
            Self::DescribeUserScramCredentials => 50,
            Self::AlterUserScramCredentials => 51,
            Self::Vote => 52,
            Self::BeginQuorumEpoch => 53,
            Self::EndQuorumEpoch => 54,
            Self::DescribeQuorum => 55,
            Self::AlterPartition => 56,
            Self::UpdateFeatures => 57,
            Self::Envelope => 58,
            Self::FetchSnapshot => 59,
            Self::DescribeCluster => 60,
            Self::DescribeProducers => 61,
            Self::BrokerRegistration => 62,
            Self::BrokerHeartbeat => 63,
            Self::UnregisterBroker => 64,
            Self::DescribeTransactions => 65,
            Self::ListTransactions => 66,
            Self::AllocateProducerIds => 67,
            Self::ConsumerGroupHeartbeat => 68,
            Self::ConsumerGroupDescribe => 69,
            Self::GetTelemetrySubscriptions => 71,
            Self::PushTelemetry => 72,
            Self::ListClientMetricsResources => 74,
            Self::DescribeTopicPartitions => 75,
            Self::ShareGroupHeartbeat => 76,
            Self::ShareGroupDescribe => 77,
            Self::ShareFetch => 78,
            Self::ShareAcknowledge => 79,
            Self::Unknown(key) => key,
        }
    }

    /// The first version with flexible encoding, or `i16::MAX` where there is none.
    pub open spec fn flexible_from(self) -> i16 {
        match self {
            Self::Produce => 9,
            Self::Fetch => 12,
            Self::ListOffsets => 6,
            Self::Metadata => 9,
            Self::LeaderAndIsr => 4,
            Self::StopReplica => 2,
            Self::UpdateMetadata => 6,
            Self::ControlledShutdown => 3,
            Self::OffsetCommit => 8,
            Self::OffsetFetch => 6,
            Self::FindCoordinator => 3,
            Self::JoinGroup => 6,
            Self::Heartbeat => 4,
            Self::LeaveGroup => 4,
            Self::SyncGroup => 4,
            Self::DescribeGroups => 5,
            Self::ListGroups => 3,
            Self::SaslHandshake => i16::MAX,
            Self::ApiVersions => 3,
            Self::CreateTopics => 5,
            Self::DeleteTopics => 4,
            Self::DeleteRecords => 2,
            Self::InitProducerId => 2,
            Self::OffsetForLeaderEpoch => 4,
            Self::AddPartitionsToTxn => 3,
            Self::AddOffsetsToTxn => 3,
            Self::EndTxn => 3,
            Self::WriteTxnMarkers => 1,
            Self::TxnOffsetCommit => 3,
            Self::DescribeAcls => 2,
            Self::CreateAcls => 2,
            Self::DeleteAcls => 2,
            Self::DescribeConfigs => 4,
            Self::AlterConfigs => 2,
            Self::AlterReplicaLogDirs => 2,
            Self::DescribeLogDirs => 2,
            Self::SaslAuthenticate => 2,
            Self::CreatePartitions => 2,
            Self::CreateDelegationToken => 2,
            Self::RenewDelegationToken => 2,
            Self::ExpireDelegationToken => 2,
            Self::DescribeDelegationToken => 2,
            Self::DeleteGroups => 2,
            Self::ElectLeaders => 2,
            Self::IncrementalAlterConfigs => 1,
            Self::AlterPartitionReassignments => 0,
            Self::ListPartitionReassignments => 0,
            Self::OffsetDelete => i16::MAX,
            Self::DescribeClientQuotas => 1,
            Self::AlterClientQuotas => 1,
            Self::DescribeUserScramCredentials => 0,
            Self::AlterUserScramCredentials => 0,
            Self::Vote => 0,
            Self::BeginQuorumEpoch => 0,
            Self::EndQuorumEpoch => 0,
            Self::DescribeQuorum => 0,
            Self::AlterPartition => 0,
            Self::UpdateFeatures => 0,
            Self::Envelope => 0,
            Self::FetchSnapshot => 0,
            Self::DescribeCluster => 0,
            Self::DescribeProducers => 0,
            Self::BrokerRegistration => 0,
            Self::BrokerHeartbeat => 0,
            Self::UnregisterBroker => 0,
            Self::DescribeTransactions => 0,
            Self::ListTransactions => 0,
            Self::AllocateProducerIds => 0,
            Self::ConsumerGroupHeartbeat => 0,
            Self::ConsumerGroupDescribe => 0,
            Self::GetTelemetrySubscriptions => 0,
            Self::PushTelemetry => 0,
            Self::ListClientMetricsResources => 0,
            Self::DescribeTopicPartitions => 0,
            Self::ShareGroupHeartbeat => 0,
            Self::ShareGroupDescribe => 0,
            Self::ShareFetch => 0,
            Self::ShareAcknowledge => 0,
            Self::Unknown(_) => i16::MAX,
        }
    }

    /// The name of a key that is known.
    pub open spec fn known_name(self) -> Seq<char> {
        match self {
            Self::Produce => "Produce"@,
            Self::Fetch => "Fetch"@,
            Self::ListOffsets => "ListOffsets"@,
            Self::Metadata => "Metadata"@,
            Self::LeaderAndIsr => "LeaderAndIsr"@,
            Self::StopReplica => "StopReplica"@,
            Self::UpdateMetadata => "UpdateMetadata"@,
            Self::ControlledShutdown => "ControlledShutdown"@,
            Self::OffsetCommit => "OffsetCommit"@,
            Self::OffsetFetch => "OffsetFetch"@,
            Self::FindCoordinator => "FindCoordinator"@,
            Self::JoinGroup => "JoinGroup"@,
            Self::Heartbeat => "Heartbeat"@,
            Self::LeaveGroup => "LeaveGroup"@,
            Self::SyncGroup => "SyncGroup"@,
            Self::DescribeGroups => "DescribeGroups"@,
            Self::ListGroups => "ListGroups"@,
            Self::SaslHandshake => "SaslHandshake"@,
            Self::ApiVersions => "ApiVersions"@,
            Self::CreateTopics => "CreateTopics"@,
            Self::DeleteTopics => "DeleteTopics"@,
            Self::DeleteRecords => "DeleteRecords"@,
            Self::InitProducerId => "InitProducerId"@,
            Self::OffsetForLeaderEpoch => "OffsetForLeaderEpoch"@,
            Self::AddPartitionsToTxn => "AddPartitionsToTxn"@,
            Self::AddOffsetsToTxn => "AddOffsetsToTxn"@,
            Self::EndTxn => "EndTxn"@,
            Self::WriteTxnMarkers => "WriteTxnMarkers"@,
            Self::TxnOffsetCommit => "TxnOffsetCommit"@,
            Self::DescribeAcls => "DescribeAcls"@,
            Self::CreateAcls => "CreateAcls"@,
            Self::DeleteAcls => "DeleteAcls"@,
            Self::DescribeConfigs => "DescribeConfigs"@,
            Self::AlterConfigs => "AlterConfigs"@,
            Self::AlterReplicaLogDirs => "AlterReplicaLogDirs"@,
            Self::DescribeLogDirs => "DescribeLogDirs"@,
            Self::SaslAuthenticate => "SaslAuthenticate"@,
            Self::CreatePartitions => "CreatePartitions"@,
            Self::CreateDelegationToken => "CreateDelegationToken"@,
            Self::RenewDelegationToken => "RenewDelegationToken"@,
            Self::ExpireDelegationToken => "ExpireDelegationToken"@,
            Self::DescribeDelegationToken => "DescribeDelegationToken"@,
            Self::DeleteGroups => "DeleteGroups"@,
            Self::ElectLeaders => "ElectLeaders"@,
            Self::IncrementalAlterConfigs => "IncrementalAlterConfigs"@,
            Self::AlterPartitionReassignments => "AlterPartitionReassignments"@,
            Self::ListPartitionReassignments => "ListPartitionReassignments"@,
            Self::OffsetDelete => "OffsetDelete"@,
            Self::DescribeClientQuotas => "DescribeClientQuotas"@,
            Self::AlterClientQuotas => "AlterClientQuotas"@,
            Self::DescribeUserScramCredentials => "DescribeUserScramCredentials"@,
            Self::AlterUserScramCredentials => "AlterUserScramCredentials"@,
            Self::Vote => "Vote"@,
            Self::BeginQuorumEpoch => "BeginQuorumEpoch"@,
            Self::EndQuorumEpoch => "EndQuorumEpoch"@,
            Self::DescribeQuorum => "DescribeQuorum"@,
            Self::AlterPartition => "AlterPartition"@,
            Self::UpdateFeatures => "UpdateFeatures"@,
            Self::Envelope => "Envelope"@,
            Self::FetchSnapshot => "FetchSnapshot"@,
            Self::DescribeCluster => "DescribeCluster"@,
            Self::DescribeProducers => "DescribeProducers"@,
            Self::BrokerRegistration => "BrokerRegistration"@,
            Self::BrokerHeartbeat => "BrokerHeartbeat"@,
            Self::UnregisterBroker => "UnregisterBroker"@,
            Self::DescribeTransactions => "DescribeTransactions"@,
            Self::ListTransactions => "ListTransactions"@,
            Self::AllocateProducerIds => "AllocateProducerIds"@,
            Self::ConsumerGroupHeartbeat => "ConsumerGroupHeartbeat"@,
            Self::ConsumerGroupDescribe => "ConsumerGroupDescribe"@,
            Self::GetTelemetrySubscriptions => "GetTelemetrySubscriptions"@,
            Self::PushTelemetry => "PushTelemetry"@,
            Self::ListClientMetricsResources => "ListClientMetricsResources"@,
            Self::DescribeTopicPartitions => "DescribeTopicPartitions"@,
            Self::ShareGroupHeartbeat => "ShareGroupHeartbeat"@,
            Self::ShareGroupDescribe => "ShareGroupDescribe"@,
            Self::ShareFetch => "ShareFetch"@,
            Self::ShareAcknowledge => "ShareAcknowledge"@,
            Self::Unknown(_) => Seq::empty(),
        }
    }

    /// How a key is shown.
    pub open spec fn text(self) -> Seq<char> {
        match self {
            Self::Unknown(key) => "Unknown("@ + decimal(key as int) + ")"@,
            _ => self.known_name(),
        }
    }

    /// Create an ApiKey from a raw i16 value.
    pub fn from_i16(key: i16) -> (r: Self)
        ensures
            r == Self::of(key),
    {
        match key {
            0 => Self::Produce,
            1 => Self::Fetch,
            2 => Self::ListOffsets,
            3 => Self::Metadata,
            4 => Self::LeaderAndIsr,
            5 => Self::StopReplica,
            6 => Self::UpdateMetadata,
            7 => Self::ControlledShutdown,
            8 => Self::OffsetCommit,
            9 => Self::OffsetFetch,
            10 => Self::FindCoordinator,
            11 => Self::JoinGroup,
            12 => Self::Heartbeat,
            13 => Self::LeaveGroup,
            14 => Self::SyncGroup,
            15 => Self::DescribeGroups,
            16 => Self::ListGroups,
            17 => Self::SaslHandshake,
            18 => Self::ApiVersions,
            19 => Self::CreateTopics,
            20 => Self::DeleteTopics,
            21 => Self::DeleteRecords,
            22 => Self::InitProducerId,
            23 => Self::OffsetForLeaderEpoch,
            24 => Self::AddPartitionsToTxn,
            25 => Self::AddOffsetsToTxn,
            26 => Self::EndTxn,
            27 => Self::WriteTxnMarkers,
            28 => Self::TxnOffsetCommit,
            29 => Self::DescribeAcls,
            30 => Self::CreateAcls,
            31 => Self::DeleteAcls,
            32 => Self::DescribeConfigs,
            33 => Self::AlterConfigs,
            34 => Self::AlterReplicaLogDirs,
            35 => Self::DescribeLogDirs,
            36 => Self::SaslAuthenticate,
            37 => Self::CreatePartitions,
            38 => Self::CreateDelegationToken,
            39 => Self::RenewDelegationToken,
            40 => Self::ExpireDelegationToken,
            41 => Self::DescribeDelegationToken,
            42 => Self::DeleteGroups,
            43 => Self::ElectLeaders,
            44 => Self::IncrementalAlterConfigs,
            45 => Self::AlterPartitionReassignments,
            46 => Self::ListPartitionReassignments,
            47 => Self::OffsetDelete,
            48 => Self::DescribeClientQuotas,
            49 => Self::AlterClientQuotas,
            50 => Self::DescribeUserScramCredentials,
            51 => Self::AlterUserScramCredentials,
            52 => Self::Vote,
            53 => Self::BeginQuorumEpoch,
            54 => Self::EndQuorumEpoch,
            55 => Self::DescribeQuorum,
            56 => Self::AlterPartition,
            57 => Self::UpdateFeatures,
            58 => Self::Envelope,
            59 => Self::FetchSnapshot,
            60 => Self::DescribeCluster,
            61 => Self::DescribeProducers,
            62 => Self::BrokerRegistration,
            63 => Self::BrokerHeartbeat,
            64 => Self::UnregisterBroker,
            65 => Self::DescribeTransactions,
            66 => Self::ListTransactions,
            67 => Self::AllocateProducerIds,
            68 => Self::ConsumerGroupHeartbeat,
            69 => Self::ConsumerGroupDescribe,
            71 => Self::GetTelemetrySubscriptions,
            72 => Self::PushTelemetry,
            74 => Self::ListClientMetricsResources,
            75 => Self::DescribeTopicPartitions,
            76 => Self::ShareGroupHeartbeat,
            77 => Self::ShareGroupDescribe,
            78 => Self::ShareFetch,
            79 => Self::ShareAcknowledge,
            other => Self::Unknown(other),
        }
    }

    /// Convert the ApiKey to its raw i16 value.
    pub fn to_i16(self) -> (r: i16)
        ensures
            r == self.number(),
    {
        match self {
            Self::Produce => 0,
            Self::Fetch => 1,
            Self::ListOffsets => 2,
            Self::Metadata => 3,
            Self::LeaderAndIsr => 4,
            Self::StopReplica => 5,
            Self::UpdateMetadata => 6,
            Self::ControlledShutdown => 7,
            Self::OffsetCommit => 8,
            Self::OffsetFetch => 9,
            Self::FindCoordinator => 10,
            Self::JoinGroup => 11,
            Self::Heartbeat => 12,
            Self::LeaveGroup => 13,
            Self::SyncGroup => 14,
            Self::DescribeGroups => 15,
            Self::ListGroups => 16,
            Self::SaslHandshake => 17,
            Self::ApiVersions => 18,
            Self::CreateTopics => 19,
            Self::DeleteTopics => 20,
            Self::DeleteRecords => 21,
            Self::InitProducerId => 22,
            Self::OffsetForLeaderEpoch => 23,
            Self::AddPartitionsToTxn => 24,
            Self::AddOffsetsToTxn => 25,
            Self::EndTxn => 26,
            Self::WriteTxnMarkers => 27,
            Self::TxnOffsetCommit => 28,
            Self::DescribeAcls => 29,
            Self::CreateAcls => 30,
            Self::DeleteAcls => 31,
            Self::DescribeConfigs => 32,
            Self::AlterConfigs => 33,
            Self::AlterReplicaLogDirs => 34,
            Self::DescribeLogDirs => 35,
            Self::SaslAuthenticate => 36,
            Self::CreatePartitions => 37,
            Self::CreateDelegationToken => 38,
            Self::RenewDelegationToken => 39,
            Self::ExpireDelegationToken => 40,
            Self::DescribeDelegationToken => 41,
            Self::DeleteGroups => 42,
            Self::ElectLeaders => 43,
            Self::IncrementalAlterConfigs => 44,
            Self::AlterPartitionReassignments => 45,
            Self::ListPartitionReassignments => 46,
            Self::OffsetDelete => 47,
            Self::DescribeClientQuotas => 48,
            Self::AlterClientQuotas => 49,
            Self::DescribeUserScramCredentials => 50,
            Self::AlterUserScramCredentials => 51,
            Self::Vote => 52,
            Self::BeginQuorumEpoch => 53,
            Self::EndQuorumEpoch => 54,
            Self::DescribeQuorum => 55,
            Self::AlterPartition => 56,
            Self::UpdateFeatures => 57,
            Self::Envelope => 58,
            Self::FetchSnapshot => 59,
            Self::DescribeCluster => 60,
            Self::DescribeProducers => 61,
            Self::BrokerRegistration => 62,
            Self::BrokerHeartbeat => 63,
            Self::UnregisterBroker => 64,
            Self::DescribeTransactions => 65,
            Self::ListTransactions => 66,
            Self::AllocateProducerIds => 67,
            Self::ConsumerGroupHeartbeat => 68,
            Self::ConsumerGroupDescribe => 69,
            Self::GetTelemetrySubscriptions => 71,
            Self::PushTelemetry => 72,
            Self::ListClientMetricsResources => 74,
            Self::DescribeTopicPartitions => 75,
            Self::ShareGroupHeartbeat => 76,
            Self::ShareGroupDescribe => 77,
            Self::ShareFetch => 78,
            Self::ShareAcknowledge => 79,
            Self::Unknown(key) => key,
        }
    }

    /// Return the minimum API version at which this API key uses flexible
    /// encoding (compact strings + tagged fields in headers and payloads).
    ///
    /// Returns `i16::MAX` when the API never uses flexible encoding.
    pub fn flexible_version(self) -> (r: i16)
        ensures
            r == self.flexible_from(),
    {
        match self {
            Self::Produce => 9,
            Self::Fetch => 12,
            Self::ListOffsets => 6,
            Self::Metadata => 9,
            Self::LeaderAndIsr => 4,
            Self::StopReplica => 2,
            Self::UpdateMetadata => 6,
            Self::ControlledShutdown => 3,
            Self::OffsetCommit => 8,
            Self::OffsetFetch => 6,
            Self::FindCoordinator => 3,
            Self::JoinGroup => 6,
            Self::Heartbeat => 4,
            Self::LeaveGroup => 4,
            Self::SyncGroup => 4,
            Self::DescribeGroups => 5,
            Self::ListGroups => 3,
            Self::SaslHandshake => i16::MAX,
            Self::ApiVersions => 3,
            Self::CreateTopics => 5,
            Self::DeleteTopics => 4,
            Self::DeleteRecords => 2,
            Self::InitProducerId => 2,
            Self::OffsetForLeaderEpoch => 4,
            Self::AddPartitionsToTxn => 3,
            Self::AddOffsetsToTxn => 3,
            Self::EndTxn => 3,
            Self::WriteTxnMarkers => 1,
            Self::TxnOffsetCommit => 3,
            Self::DescribeAcls => 2,
            Self::CreateAcls => 2,
            Self::DeleteAcls => 2,
            Self::DescribeConfigs => 4,
            Self::AlterConfigs => 2,
            Self::AlterReplicaLogDirs => 2,
            Self::DescribeLogDirs => 2,
            Self::SaslAuthenticate => 2,
            Self::CreatePartitions => 2,
            Self::CreateDelegationToken => 2,
            Self::RenewDelegationToken => 2,
            Self::ExpireDelegationToken => 2,
            Self::DescribeDelegationToken => 2,
            Self::DeleteGroups => 2,
            Self::ElectLeaders => 2,
            Self::IncrementalAlterConfigs => 1,
            Self::AlterPartitionReassignments => 0,
            Self::ListPartitionReassignments => 0,
            Self::OffsetDelete => i16::MAX,
            Self::DescribeClientQuotas => 1,
            Self::AlterClientQuotas => 1,
            Self::DescribeUserScramCredentials => 0,
            Self::AlterUserScramCredentials => 0,
            Self::Vote => 0,
            Self::BeginQuorumEpoch => 0,
            Self::EndQuorumEpoch => 0,
            Self::DescribeQuorum => 0,
            Self::AlterPartition => 0,
            Self::UpdateFeatures => 0,
            Self::Envelope => 0,
            Self::FetchSnapshot => 0,
            Self::DescribeCluster => 0,
            Self::DescribeProducers => 0,
            Self::BrokerRegistration => 0,
            Self::BrokerHeartbeat => 0,
            Self::UnregisterBroker => 0,
            Self::DescribeTransactions => 0,
            Self::ListTransactions => 0,
            Self::AllocateProducerIds => 0,
            Self::ConsumerGroupHeartbeat => 0,
            Self::ConsumerGroupDescribe => 0,
            Self::GetTelemetrySubscriptions => 0,
            Self::PushTelemetry => 0,
            Self::ListClientMetricsResources => 0,
            Self::DescribeTopicPartitions => 0,
            Self::ShareGroupHeartbeat => 0,
            Self::ShareGroupDescribe => 0,
            Self::ShareFetch => 0,
            Self::ShareAcknowledge => 0,
            // Unknown APIs: assume never flexible (safest default).
            Self::Unknown(_) => i16::MAX,
        }
    }

    /// The name of the key, or none where it is unknown.
    fn name(self) -> (r: &'static str)
        ensures
            !(self is Unknown) ==> r@ == self.known_name(),
    {
        match self {
            Self::Produce => "Produce",
            Self::Fetch => "Fetch",
            Self::ListOffsets => "ListOffsets",
            Self::Metadata => "Metadata",
            Self::LeaderAndIsr => "LeaderAndIsr",
            Self::StopReplica => "StopReplica",
            Self::UpdateMetadata => "UpdateMetadata",
            Self::ControlledShutdown => "ControlledShutdown",
            Self::OffsetCommit => "OffsetCommit",
            Self::OffsetFetch => "OffsetFetch",
            Self::FindCoordinator => "FindCoordinator",
            Self::JoinGroup => "JoinGroup",
            Self::Heartbeat => "Heartbeat",
            Self::LeaveGroup => "LeaveGroup",
            Self::SyncGroup => "SyncGroup",
            Self::DescribeGroups => "DescribeGroups",
            Self::ListGroups => "ListGroups",
            Self::SaslHandshake => "SaslHandshake",
            Self::ApiVersions => "ApiVersions",
            Self::CreateTopics => "CreateTopics",
            Self::DeleteTopics => "DeleteTopics",
            Self::DeleteRecords => "DeleteRecords",
            Self::InitProducerId => "InitProducerId",
            Self::OffsetForLeaderEpoch => "OffsetForLeaderEpoch",
            Self::AddPartitionsToTxn => "AddPartitionsToTxn",
            Self::AddOffsetsToTxn => "AddOffsetsToTxn",
            Self::EndTxn => "EndTxn",
            Self::WriteTxnMarkers => "WriteTxnMarkers",
            Self::TxnOffsetCommit => "TxnOffsetCommit",
            Self::DescribeAcls => "DescribeAcls",
            Self::CreateAcls => "CreateAcls",
            Self::DeleteAcls => "DeleteAcls",
            Self::DescribeConfigs => "DescribeConfigs",
            Self::AlterConfigs => "AlterConfigs",
            Self::AlterReplicaLogDirs => "AlterReplicaLogDirs",
            Self::DescribeLogDirs => "DescribeLogDirs",
            Self::SaslAuthenticate => "SaslAuthenticate",
            Self::CreatePartitions => "CreatePartitions",
            Self::CreateDelegationToken => "CreateDelegationToken",
            Self::RenewDelegationToken => "RenewDelegationToken",
            Self::ExpireDelegationToken => "ExpireDelegationToken",
            Self::DescribeDelegationToken => "DescribeDelegationToken",
            Self::DeleteGroups => "DeleteGroups",
            Self::ElectLeaders => "ElectLeaders",
            Self::IncrementalAlterConfigs => "IncrementalAlterConfigs",
            Self::AlterPartitionReassignments => "AlterPartitionReassignments",
            Self::ListPartitionReassignments => "ListPartitionReassignments",
            Self::OffsetDelete => "OffsetDelete",
            Self::DescribeClientQuotas => "DescribeClientQuotas",
            Self::AlterClientQuotas => "AlterClientQuotas",
            Self::DescribeUserScramCredentials => "DescribeUserScramCredentials",
            Self::AlterUserScramCredentials => "AlterUserScramCredentials",
            Self::Vote => "Vote",
            Self::BeginQuorumEpoch => "BeginQuorumEpoch",
            Self::EndQuorumEpoch => "EndQuorumEpoch",
            Self::DescribeQuorum => "DescribeQuorum",
            Self::AlterPartition => "AlterPartition",
            Self::UpdateFeatures => "UpdateFeatures",
            Self::Envelope => "Envelope",
            Self::FetchSnapshot => "FetchSnapshot",
            Self::DescribeCluster => "DescribeCluster",
            Self::DescribeProducers => "DescribeProducers",
            Self::BrokerRegistration => "BrokerRegistration",
            Self::BrokerHeartbeat => "BrokerHeartbeat",
            Self::UnregisterBroker => "UnregisterBroker",
            Self::DescribeTransactions => "DescribeTransactions",
            Self::ListTransactions => "ListTransactions",
            Self::AllocateProducerIds => "AllocateProducerIds",
            Self::ConsumerGroupHeartbeat => "ConsumerGroupHeartbeat",
            Self::ConsumerGroupDescribe => "ConsumerGroupDescribe",
            Self::GetTelemetrySubscriptions => "GetTelemetrySubscriptions",
            Self::PushTelemetry => "PushTelemetry",
            Self::ListClientMetricsResources => "ListClientMetricsResources",
            Self::DescribeTopicPartitions => "DescribeTopicPartitions",
            Self::ShareGroupHeartbeat => "ShareGroupHeartbeat",
            Self::ShareGroupDescribe => "ShareGroupDescribe",
            Self::ShareFetch => "ShareFetch",
            Self::ShareAcknowledge => "ShareAcknowledge",
            Self::Unknown(_) => "",
        }
    }

    /// The name of the key, or `Unknown` with its number.
    pub fn to_string(&self) -> (r: String)
        ensures
            r@ == self.text(),
    {
        match self {
            Self::Unknown(key) => {
                let mut out = String::new();
                out.append("Unknown(");
                out.append(decimal_text(*key as i128).as_str());
                out.append(")");
                assert(out@ =~= self.text());
                out
            },
            other => other.name().to_owned(),
        }
    }
}

/// A number that stands for a key comes back from the key.
pub proof fn law_api_key_keeps_number(key: i16)
    ensures
        ApiKey::of(key).number() == key,
{
}

/// A key comes back from its number, unless it is an unknown key with the number
/// of a known one.
pub proof fn law_number_keeps_api_key(key: ApiKey)
    requires
        key matches ApiKey::Unknown(n) ==> ApiKey::of(n) is Unknown,
    ensures
        ApiKey::of(key.number()) == key,
{
}

impl From<i16> for ApiKey {
    fn from(key: i16) -> (r: Self) {
        Self::from_i16(key)
    }
}

impl vstd::std_specs::convert::FromSpecImpl<i16> for ApiKey {
    open spec fn obeys_from_spec() -> bool {
        true
    }

    open spec fn from_spec(key: i16) -> Self {
        Self::of(key)
    }
}

impl From<ApiKey> for i16 {
    fn from(key: ApiKey) -> (r: i16) {
        key.to_i16()
    }
}

impl vstd::std_specs::convert::FromSpecImpl<ApiKey> for i16 {
    open spec fn obeys_from_spec() -> bool {
        true
    }

    open spec fn from_spec(key: ApiKey) -> i16 {
        key.number()
    }
}

impl View for ApiKey {
    type V = ApiKey;

    open spec fn view(&self) -> ApiKey {
        *self
    }
}

impl WireEncode for ApiKey {
    open spec fn written(&self, f: Format, w: Writer) -> Writer {
        w.i16(self.number())
    }

    proof fn lemma_grows(&self, f: Format, w: Writer) {
    }

    proof fn law_appends(&self, f: Format, w: Writer) {
        broadcast use group_appends;

    }

    fn encode_wire(&self, f: Format, buf: &mut BytesMut) -> (res: Result<()>) {
        write_i16(self.to_i16(), buf);
        Ok(())
    }
}

impl WireDecode for ApiKey {
    open spec fn read(f: Format, r: Reader) -> (ApiKey, Reader) {
        let (n, r) = r.i16();
        (ApiKey::of(n), r)
    }

    fn decode_wire(f: Format, buf: &mut Bytes) -> (res: Result<Self>) {
        let key = read_i16(buf)?;
        Ok(ApiKey::from_i16(key))
    }

    proof fn law_consumes(f: Format, r: Reader) {
        broadcast use group_consumes;

    }

    proof fn law_ignores_what_follows(f: Format, r: Reader, more: Seq<u8>) {
        broadcast use group_consumes, group_followed;

    }

    proof fn law_needs_only_what_it_takes(f: Format, r: Reader, k: nat) {
        broadcast use group_consumes, group_cut;

    }
}

impl Encode for ApiKey {
    proof fn lemma_total(&self, f: Format, w: Writer) {
    }
}

impl TryEncode for ApiKey {

}

impl Decode for ApiKey {

}

/// API version range for a specific API key.
#[derive(Debug, Clone, Copy, PartialEq, Eq, Structural)]
pub struct ApiVersionRange {
    /// The API key.
    pub api_key: ApiKey,
    /// Minimum supported version.
    pub min_version: i16,
    /// Maximum supported version.
    pub max_version: i16,
}

impl ApiVersionRange {
    /// Whether a version lies in the range.
    pub open spec fn covers(self, version: i16) -> bool {
        self.min_version <= version <= self.max_version
    }

    /// Create a new API version range.
    pub fn new(api_key: ApiKey, min_version: i16, max_version: i16) -> (r: Self)
        ensures
            r == (ApiVersionRange { api_key, min_version, max_version }),
    {
        ApiVersionRange { api_key, min_version, max_version }
    }

    /// Check if a specific version is supported.
    pub fn supports(&self, version: i16) -> (r: bool)
        ensures
            r == self.covers(version),
    {
        version >= self.min_version && version <= self.max_version
    }

    /// Negotiate the best version between client and broker.
    ///
    /// Returns the highest mutually supported version, or None if no overlap.
    ///
    /// # Arguments
    ///
    /// * `client_max` - The maximum version the client supports
    /// * `client_min` - The minimum version the client supports (default 0)
    pub fn negotiate(&self, client_max: i16, client_min: i16) -> (r: Option<i16>)
        ensures
            match r {
                Some(best) => {
                    &&& self.covers(best)
                    &&& client_min <= best <= client_max
                    &&& forall|v: i16|
                        #[trigger] self.covers(v) && client_min <= v <= client_max ==> v <= best
                },
                None => forall|v: i16|
                    !(#[trigger] self.covers(v) && client_min <= v <= client_max),
            },
    {
        let max_supported: i16 = if self.max_version < client_max {
            self.max_version
        } else {
            client_max
        };
        let min_supported: i16 = if self.min_version > client_min {
            self.min_version
        } else {
            client_min
        };
        if max_supported >= min_supported {
            assert(self.covers(max_supported));
            Some(max_supported)
        } else {
            None
        }
    }

    /// Negotiate with default client minimum of 0.
    pub fn negotiate_max(&self, client_max: i16) -> (r: Option<i16>)
        ensures
            match r {
                Some(best) => {
                    &&& self.covers(best)
                    &&& 0 <= best <= client_max
                    &&& forall|v: i16|
                        #[trigger] self.covers(v) && 0 <= v <= client_max ==> v <= best
                },
                None => forall|v: i16| !(#[trigger] self.covers(v) && 0 <= v <= client_max),
            },
    {
        self.negotiate(client_max, 0)
    }
}

impl View for ApiVersionRange {
    type V = ApiVersionRange;

    open spec fn view(&self) -> ApiVersionRange {
        *self
    }
}

impl WireEncode for ApiVersionRange {
    open spec fn written(&self, f: Format, w: Writer) -> Writer {
        w.i16(self.api_key.number()).i16(self.min_version).i16(self.max_version).tags(f.flexible)
    }

    proof fn lemma_grows(&self, f: Format, w: Writer) {
    }

    proof fn law_appends(&self, f: Format, w: Writer) {
        broadcast use group_appends;

    }

    fn encode_wire(&self, f: Format, buf: &mut BytesMut) -> (res: Result<()>) {
        write_i16(self.api_key.to_i16(), buf);
        write_i16(self.min_version, buf);
        write_i16(self.max_version, buf);
        write_tags(f.flexible, buf);
        Ok(())
    }
}

impl WireDecode for ApiVersionRange {
    open spec fn read(f: Format, r: Reader) -> (ApiVersionRange, Reader) {
        let (api_key, r) = r.i16();
        let (min_version, r) = r.i16();
        let (max_version, r) = r.i16();
        let r = r.tags(f.flexible);
        (ApiVersionRange { api_key: ApiKey::of(api_key), min_version, max_version }, r)
    }

    fn decode_wire(f: Format, buf: &mut Bytes) -> (res: Result<Self>) {
        let api_key = read_i16(buf)?;
        let min_version = read_i16(buf)?;
        let max_version = read_i16(buf)?;
        read_tags(f.flexible, buf)?;
        Ok(ApiVersionRange { api_key: ApiKey::from_i16(api_key), min_version, max_version })
    }

    proof fn law_consumes(f: Format, r: Reader) {
        broadcast use group_consumes;

    }

    proof fn law_ignores_what_follows(f: Format, r: Reader, more: Seq<u8>) {
        broadcast use group_consumes, group_followed;

    }

    proof fn law_needs_only_what_it_takes(f: Format, r: Reader, k: nat) {
        broadcast use group_consumes, group_cut;

    }
}

impl Encode for ApiVersionRange {
    proof fn lemma_total(&self, f: Format, w: Writer) {
    }
}

impl TryEncode for ApiVersionRange {

}

impl Decode for ApiVersionRange {

}

/// A feature supported by the broker, returned in ApiVersions v3+ tagged fields.
#[derive(Debug, Clone, PartialEq, Eq)]
pub struct SupportedFeature {
    /// Feature name.
    pub name: String,
    /// Minimum supported version for the feature.
    pub min_version: i16,
    /// Maximum supported version for the feature.
    pub max_version: i16,
}

/// What a [`SupportedFeature`] holds.
pub struct SupportedFeatureView {
    /// Feature name.
    pub name: Seq<char>,
    /// Minimum supported version for the feature.
    pub min_version: i16,
    /// Maximum supported version for the feature.
    pub max_version: i16,
}

impl View for SupportedFeature {
    type V = SupportedFeatureView;

    open spec fn view(&self) -> SupportedFeatureView {
        SupportedFeatureView {
            name: self.name@,
            min_version: self.min_version,
            max_version: self.max_version,
        }
    }
}

impl WireDecode for SupportedFeature {
    open spec fn read(f: Format, r: Reader) -> (SupportedFeatureView, Reader) {
        let (name, r) = r.string("feature name", f.flexible);
        let (min_version, r) = r.i16();
        let (max_version, r) = r.i16();
        let r = r.tags(f.flexible);
        (SupportedFeatureView { name, min_version, max_version }, r)
    }

    fn decode_wire(f: Format, buf: &mut Bytes) -> (res: Result<Self>) {
        let name = read_string("feature name", f.flexible, buf)?;
        let min_version = read_i16(buf)?;
        let max_version = read_i16(buf)?;
        read_tags(f.flexible, buf)?;
        Ok(SupportedFeature { name, min_version, max_version })
    }

    proof fn law_consumes(f: Format, r: Reader) {
        broadcast use group_consumes;

    }

    proof fn law_ignores_what_follows(f: Format, r: Reader, more: Seq<u8>) {
        broadcast use group_consumes, group_followed;

    }

    proof fn law_needs_only_what_it_takes(f: Format, r: Reader, k: nat) {
        broadcast use group_consumes, group_cut;

    }
}

/// The text of an optional string, where one that is missing is null.
pub open spec fn text_or_null(s: Option<KafkaString>) -> Option<Seq<char>> {
    match s {
        Some(s) => s@,
        None => None,
    }
}

/// Writes an optional string with a compact length, null where it is missing.
fn write_text_or_null(text: &Option<KafkaString>, buf: &mut BytesMut) -> (res: Result<()>)
    requires
        fits(Writer::at(old(buf)@).nullable_string(text_or_null(*text), true)),
    ensures
        encoded(
            res,
            final(buf)@,
            Writer::at(old(buf)@).nullable_string(text_or_null(*text), true),
        ),
{
    match text {
        Some(text) => text.try_encode_compact(buf),
        None => KafkaString::null().try_encode_compact(buf),
    }
}

/// Request for API versions (ApiVersions API key = 18).
#[derive(Debug, Clone)]
pub struct ApiVersionsRequest {
    /// Client software name (v3+).
    pub client_software_name: Option<KafkaString>,
    /// Client software version (v3+).
    pub client_software_version: Option<KafkaString>,
    /// Cluster ID the client intends to connect to (v5+, KIP-1242).
    pub cluster_id: Option<String>,
    /// Node ID the client intends to connect to (v5+, KIP-1242). -1 if unknown.
    pub node_id: i32,
}

impl Default for ApiVersionsRequest {
    fn default() -> (r: Self)
        ensures
            r.client_software_name is None,
            r.client_software_version is None,
            r.cluster_id is None,
            r.node_id == -1,
    {
        ApiVersionsRequest {
            client_software_name: None,
            client_software_version: None,
            cluster_id: None,
            node_id: -1,
        }
    }
}

impl ApiVersionsRequest {
    /// Create a new ApiVersionsRequest.
    pub fn new() -> (r: Self)
        ensures
            r.client_software_name is None,
            r.client_software_version is None,
            r.cluster_id is None,
            r.node_id == -1,
    {
        Self::default()
    }

    /// Set client software name.
    pub fn with_client_software(self, name: &str, version: &str) -> (r: Self)
        ensures
            text_or_null(r.client_software_name) == Some(name@),
            text_or_null(r.client_software_version) == Some(version@),
            r.cluster_id == self.cluster_id,
            r.node_id == self.node_id,
    {
        ApiVersionsRequest {
            client_software_name: Some(KafkaString::new(name)),
            client_software_version: Some(KafkaString::new(version)),
            cluster_id: self.cluster_id,
            node_id: self.node_id,
        }
    }

    /// Get the API key for this request.
    pub fn api_key() -> (r: ApiKey)
        ensures
            r == ApiKey::ApiVersions,
    {
        ApiKey::ApiVersions
    }

    /// Encode for version 0-2.
    pub fn encode_v0(&self, buf: &mut BytesMut) -> (res: Result<()>)
        ensures
            res is Ok,
            final(buf)@ == old(buf)@,
    {
        Ok(())
    }

    /// Encode for version 3+ (flexible).
    pub fn encode_v3(&self, buf: &mut BytesMut) -> (res: Result<()>)
        requires
            fits(self.written(Format::flexible(3), Writer::at(old(buf)@))),
        ensures
            encoded(res, final(buf)@, self.written(Format::flexible(3), Writer::at(old(buf)@))),
    {
        self.encode_wire(Format::flexible(3), buf)
    }

    /// Encode for version 5 (KIP-1242: ClusterId + NodeId).
    pub fn encode_v5(&self, buf: &mut BytesMut) -> (res: Result<()>)
        requires
            fits(self.written(Format::flexible(5), Writer::at(old(buf)@))),
        ensures
            encoded(res, final(buf)@, self.written(Format::flexible(5), Writer::at(old(buf)@))),
    {
        self.encode_wire(Format::flexible(5), buf)
    }
}

impl WireEncode for ApiVersionsRequest {
    open spec fn written(&self, f: Format, w: Writer) -> Writer {
        let w = w.nullable_string(text_or_null(self.client_software_name), true);
        let w = w.nullable_string(text_or_null(self.client_software_version), true);
        let w = if f.version >= 5 {
            w.nullable_string(optional_text(self.cluster_id), true).i32(self.node_id)
        } else {
            w
        };
        w.tags(true)
    }

    proof fn lemma_grows(&self, f: Format, w: Writer) {
        broadcast use group_grows;

    }

    proof fn law_appends(&self, f: Format, w: Writer) {
        broadcast use group_appends;

    }

    fn encode_wire(&self, f: Format, buf: &mut BytesMut) -> (res: Result<()>) {
        broadcast use group_grows;

        write_text_or_null(&self.client_software_name, buf)?;
        write_text_or_null(&self.client_software_version, buf)?;
        if f.version >= 5 {
            write_nullable_string(&self.cluster_id, true, buf)?;
            write_i32(self.node_id, buf);
        }
        write_tags(true, buf);
        Ok(())
    }
}

/// Response for API versions.
#[derive(Debug, Clone)]
pub struct ApiVersionsResponse {
    /// Error code.
    pub error_code: i16,
    /// Supported API versions.
    pub api_keys: Vec<ApiVersionRange>,
    /// Throttle time in milliseconds.
    pub throttle_time_ms: i32,
    /// Features supported by the broker (v3+ tagged field, tag 0).
    pub supported_features: Vec<SupportedFeature>,
}

/// What an [`ApiVersionsResponse`] holds.
pub struct ApiVersionsResponseView {
    /// Error code.
    pub error_code: i16,
    /// Supported API versions.
    pub api_keys: Seq<ApiVersionRange>,
    /// Throttle time in milliseconds.
    pub throttle_time_ms: i32,
    /// Features supported by the broker (v3+ tagged field, tag 0).
    pub supported_features: Seq<SupportedFeatureView>,
}

impl View for ApiVersionsResponse {
    type V = ApiVersionsResponseView;

    open spec fn view(&self) -> ApiVersionsResponseView {
        ApiVersionsResponseView {
            error_code: self.error_code,
            api_keys: views(self.api_keys@),
            throttle_time_ms: self.throttle_time_ms,
            supported_features: views(self.supported_features@),
        }
    }
}

impl Default for ApiVersionsResponse {
    fn default() -> (r: Self)
        ensures
            r.error_code == 0,
            r.api_keys@.len() == 0,
            r.throttle_time_ms == 0,
            r.supported_features@.len() == 0,
    {
        ApiVersionsResponse {
            error_code: 0,
            api_keys: Vec::new(),
            throttle_time_ms: 0,
            supported_features: Vec::new(),
        }
    }
}

/// The content of the first field with tag 0, from the field at `from` on.
pub open spec fn first_field_zero(fields: Seq<(u32, Seq<u8>)>, from: nat) -> Option<Seq<u8>>
    decreases fields.len() - from,
{
    if from >= fields.len() {
        None
    } else if fields[from as int].0 == 0 {
        Some(fields[from as int].1)
    } else {
        first_field_zero(fields, from + 1)
    }
}

/// The features that the bytes of the field with tag 0 hold: a compact array of at
/// most 256 features and nothing behind it.
pub open spec fn features_in(data: Seq<u8>) -> Result<Seq<SupportedFeatureView>> {
    let (n, r) = Reader::on(data).varint();
    if r.failed() {
        Err(r.failure->0)
    } else if n == 0 {
        Ok(Seq::empty())
    } else if n - 1 > MAX_SUPPORTED_FEATURES {
        Err(
            KrafkaError::Protocol(
                ProtocolErrorKind::Malformed,
                Reason::Number("SupportedFeatures array too large: ", (n - 1) as i64),
            ),
        )
    } else {
        let (features, r) = r.items::<SupportedFeature>(Format::flexible(3), (n - 1) as nat);
        if r.failed() {
            Err(r.failure->0)
        } else if r.rest.len() > 0 {
            Err(
                KrafkaError::Protocol(
                    ProtocolErrorKind::Malformed,
                    Reason::Trailing(r.rest.len() as usize, (n - 1) as usize),
                ),
            )
        } else {
            Ok(features)
        }
    }
}

/// The features that tagged fields hold: none without a field with tag 0.
pub open spec fn supported_features_in(fields: Seq<(u32, Seq<u8>)>) -> Result<
    Seq<SupportedFeatureView>,
> {
    match first_field_zero(fields, 0) {
        None => Ok(Seq::empty()),
        Some(data) => features_in(data),
    }
}

/// A section of tagged fields and the features in it.
pub open spec fn read_supported_features(r: Reader) -> (Seq<SupportedFeatureView>, Reader) {
    let (fields, r) = r.tagged_fields();
    if r.failed() {
        (Seq::empty(), r)
    } else {
        match supported_features_in(fields) {
            Ok(features) => (features, r),
            Err(e) => (Seq::empty(), r.raise(e)),
        }
    }
}

impl WireDecode for ApiVersionsResponse {
    open spec fn read(f: Format, r: Reader) -> (ApiVersionsResponseView, Reader) {
        let (error_code, r) = r.i16();
        let (api_keys, r) = r.array_or_empty::<ApiVersionRange>(f);
        let (throttle_time_ms, r) = if f.version >= 1 {
            r.i32()
        } else {
            (0, r)
        };
        let (supported_features, r) = if f.version >= 3 {
            read_supported_features(r)
        } else {
            (Seq::empty(), r)
        };
        let value = ApiVersionsResponseView {
            error_code,
            api_keys,
            throttle_time_ms,
            supported_features,
        };
        (value, r)
    }

    fn decode_wire(f: Format, buf: &mut Bytes) -> (res: Result<Self>) {
        let error_code = read_i16(buf)?;
        let api_keys = read_array_or_empty::<ApiVersionRange>(f, buf)?;
        let throttle_time_ms: i32 = if f.version >= 1 {
            read_i32(buf)?
        } else {
            0
        };
        let supported_features: Vec<SupportedFeature> = if f.version >= 3 {
            let tagged = read_tagged_fields(buf)?;
            Self::parse_supported_features(&tagged)?
        } else {
            Vec::new()
        };
        assert(f.version < 3 ==> views(supported_features@) =~= Seq::<SupportedFeatureView>::empty());
        Ok(ApiVersionsResponse { error_code, api_keys, throttle_time_ms, supported_features })
    }

    proof fn law_consumes(f: Format, r: Reader) {
        broadcast use group_consumes;

    }

    proof fn law_ignores_what_follows(f: Format, r: Reader, more: Seq<u8>) {
        broadcast use group_consumes, group_followed;

    }

    proof fn law_needs_only_what_it_takes(f: Format, r: Reader, k: nat) {
        broadcast use group_consumes, group_cut;

    }
}

impl ApiVersionsResponse {
    /// Decode from version 0.
    pub fn decode_v0(buf: &mut Bytes) -> (res: Result<Self>)
        ensures
            decoded(
                result_view(res),
                final(buf)@,
                Self::read(Format::plain(0), Reader::on(old(buf)@)),
            ),
    {
        Self::decode_wire(Format::plain(0), buf)
    }

    /// Decode from version 1-2.
    pub fn decode_v1(buf: &mut Bytes) -> (res: Result<Self>)
        ensures
            decoded(
                result_view(res),
                final(buf)@,
                Self::read(Format::plain(1), Reader::on(old(buf)@)),
            ),
    {
        Self::decode_wire(Format::plain(1), buf)
    }

    /// Decode from version 3-5 (flexible).
    ///
    /// v4 (KAFKA-17011) fixes SupportedFeatures.MinVersion so it can be 0;
    /// v5 (KIP-1242) adds ClusterId/NodeId to the *request* and
    /// REBOOTSTRAP_REQUIRED to the error codes; the response wire format is
    /// identical to v3.
    pub fn decode_v3(buf: &mut Bytes) -> (res: Result<Self>)
        ensures
            decoded(
                result_view(res),
                final(buf)@,
                Self::read(Format::flexible(3), Reader::on(old(buf)@)),
            ),
    {
        Self::decode_wire(Format::flexible(3), buf)
    }

    /// Parse SupportedFeatures from tagged field tag 0.
    ///
    /// Wire format: compact-array of \[compact-string Name, i16 MinVersion, i16 MaxVersion\],
    /// each entry followed by its own empty tagged fields.
    fn parse_supported_features(tagged: &Vec<TaggedField>) -> (res: Result<Vec<SupportedFeature>>)
        ensures
            match res {
                Ok(features) => supported_features_in(views(tagged@)) == Ok::<
                    Seq<SupportedFeatureView>,
                    KrafkaError,
                >(views(features@)),
                Err(e) => supported_features_in(views(tagged@)) == Err::<
                    Seq<SupportedFeatureView>,
                    KrafkaError,
                >(e),
            },
    {
        let none: Vec<SupportedFeature> = Vec::new();
        assert(views(none@) =~= Seq::<SupportedFeatureView>::empty());
        let mut i: usize = 0;
        while i < tagged.len()
            invariant
                i <= tagged@.len(),
                views(none@) == Seq::<SupportedFeatureView>::empty(),
                first_field_zero(views(tagged@), 0) == first_field_zero(views(tagged@), i as nat),
            decreases tagged@.len() - i,
        {
            if tagged[i].tag == 0 {
                let mut buf = tagged[i].data.clone();
                let n = decode_unsigned_varint(&mut buf)?;
                if n == 0 {
                    return Ok(none);
                }
                let items = (n - 1) as usize;
                if items > MAX_SUPPORTED_FEATURES {
                    return Err(
                        KrafkaError::Protocol(
                            ProtocolErrorKind::Malformed,
                            Reason::Number("SupportedFeatures array too large: ", items as i64),
                        ),
                    );
                }
                let features = read_items::<SupportedFeature>(
                    items,
                    Format::flexible(3),
                    &mut buf,
                )?;
                let left = crate::buffer::remaining(&buf);
                if left > 0 {
                    return Err(
                        KrafkaError::Protocol(
                            ProtocolErrorKind::Malformed,
                            Reason::Trailing(left, items),
                        ),
                    );
                }
                return Ok(features);
            }
            i = i + 1;
        }
        Ok(none)
    }

    /// Get the version range for a specific API key.
    pub fn get_api_version(&self, api_key: ApiKey) -> (r: Option<&ApiVersionRange>)
        ensures
            match r {
                Some(range) => exists|i: int|
                    {
                        &&& 0 <= i < self.api_keys@.len()
                        &&& *range == #[trigger] self.api_keys@[i]
                        &&& range.api_key == api_key
                        &&& forall|j: int| 0 <= j < i ==> self.api_keys@[j].api_key != api_key
                    },
                None => forall|j: int|
                    0 <= j < self.api_keys@.len() ==> self.api_keys@[j].api_key != api_key,
            },
    {
        let mut i: usize = 0;
        while i < self.api_keys.len()
            invariant
                i <= self.api_keys@.len(),
                forall|j: int| 0 <= j < i ==> self.api_keys@[j].api_key != api_key,
            decreases self.api_keys@.len() - i,
        {
            if self.api_keys[i].api_key == api_key {
                return Some(&self.api_keys[i]);
            }
            i = i + 1;
        }
        None
    }

    /// Get a supported feature by name.
    pub fn get_supported_feature(&self, name: &str) -> (r: Option<&SupportedFeature>)
        ensures
            match r {
                Some(feature) => exists|i: int|
                    {
                        &&& 0 <= i < self.supported_features@.len()
                        &&& *feature == #[trigger] self.supported_features@[i]
                        &&& feature.name@ == name@
                        &&& forall|j: int|
                            0 <= j < i ==> self.supported_features@[j].name@ != name@
                    },
                None => forall|j: int|
                    0 <= j < self.supported_features@.len() ==> self.supported_features@[j].name@
                        != name@,
            },
    {
        let wanted = name.to_owned();
        let mut i: usize = 0;
        while i < self.supported_features.len()
            invariant
                i <= self.supported_features@.len(),
                wanted@ == name@,
                forall|j: int| 0 <= j < i ==> self.supported_features@[j].name@ != name@,
            decreases self.supported_features@.len() - i,
        {
            if self.supported_features[i].name == wanted {
                return Some(&self.supported_features[i]);
            }
            i = i + 1;
        }
        None
    }

    /// Check if an API is supported.
    pub fn supports(&self, api_key: ApiKey, version: i16) -> (r: bool)
        ensures
            r == exists|i: int|
                {
                    &&& 0 <= i < self.api_keys@.len()
                    &&& #[trigger] self.api_keys@[i].api_key == api_key
                    &&& self.api_keys@[i].covers(version)
                    &&& forall|j: int| 0 <= j < i ==> self.api_keys@[j].api_key != api_key
                },
    {
        match self.get_api_version(api_key) {
            Some(range) => range.supports(version),
            None => false,
        }
    }
}

} // verus!
