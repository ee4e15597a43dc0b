//! The numbers that stand for keys, codes and kinds.

use crate::error::{decimal, ErrorCode};
use crate::protocol::api::ApiKey;
use crate::protocol::messages::{acl, config, security, topics};
use vstd::prelude::*;

verus! {

/// The number of each API. Any other number is kept as it is.
pub proof fn law_api_key_numbers(key: i16)
    ensures
        ApiKey::of(key) == ApiKey::Produce <==> key == 0,
        ApiKey::of(key) == ApiKey::Fetch <==> key == 1,
        ApiKey::of(key) == ApiKey::ListOffsets <==> key == 2,
        ApiKey::of(key) == ApiKey::Metadata <==> key == 3,
        ApiKey::of(key) == ApiKey::LeaderAndIsr <==> key == 4,
        ApiKey::of(key) == ApiKey::StopReplica <==> key == 5,
        ApiKey::of(key) == ApiKey::UpdateMetadata <==> key == 6,
        ApiKey::of(key) == ApiKey::ControlledShutdown <==> key == 7,
        ApiKey::of(key) == ApiKey::OffsetCommit <==> key == 8,
        ApiKey::of(key) == ApiKey::OffsetFetch <==> key == 9,
        ApiKey::of(key) == ApiKey::FindCoordinator <==> key == 10,
        ApiKey::of(key) == ApiKey::JoinGroup <==> key == 11,
        ApiKey::of(key) == ApiKey::Heartbeat <==> key == 12,
        ApiKey::of(key) == ApiKey::LeaveGroup <==> key == 13,
        ApiKey::of(key) == ApiKey::SyncGroup <==> key == 14,
        ApiKey::of(key) == ApiKey::DescribeGroups <==> key == 15,
        ApiKey::of(key) == ApiKey::ListGroups <==> key == 16,
        ApiKey::of(key) == ApiKey::SaslHandshake <==> key == 17,
        ApiKey::of(key) == ApiKey::ApiVersions <==> key == 18,
        ApiKey::of(key) == ApiKey::CreateTopics <==> key == 19,
        ApiKey::of(key) == ApiKey::DeleteTopics <==> key == 20,
        ApiKey::of(key) == ApiKey::DeleteRecords <==> key == 21,
        ApiKey::of(key) == ApiKey::InitProducerId <==> key == 22,
        ApiKey::of(key) == ApiKey::OffsetForLeaderEpoch <==> key == 23,
        ApiKey::of(key) == ApiKey::AddPartitionsToTxn <==> key == 24,
        ApiKey::of(key) == ApiKey::AddOffsetsToTxn <==> key == 25,
        ApiKey::of(key) == ApiKey::EndTxn <==> key == 26,
        ApiKey::of(key) == ApiKey::WriteTxnMarkers <==> key == 27,
        ApiKey::of(key) == ApiKey::TxnOffsetCommit <==> key == 28,
        ApiKey::of(key) == ApiKey::DescribeAcls <==> key == 29,
        ApiKey::of(key) == ApiKey::CreateAcls <==> key == 30,
        ApiKey::of(key) == ApiKey::DeleteAcls <==> key == 31,
        ApiKey::of(key) == ApiKey::DescribeConfigs <==> key == 32,
        ApiKey::of(key) == ApiKey::AlterConfigs <==> key == 33,
        ApiKey::of(key) == ApiKey::AlterReplicaLogDirs <==> key == 34,
        ApiKey::of(key) == ApiKey::DescribeLogDirs <==> key == 35,
        ApiKey::of(key) == ApiKey::SaslAuthenticate <==> key == 36,
        ApiKey::of(key) == ApiKey::CreatePartitions <==> key == 37,
        ApiKey::of(key) == ApiKey::CreateDelegationToken <==> key == 38,
        ApiKey::of(key) == ApiKey::RenewDelegationToken <==> key == 39,
        ApiKey::of(key) == ApiKey::ExpireDelegationToken <==> key == 40,
        ApiKey::of(key) == ApiKey::DescribeDelegationToken <==> key == 41,
        ApiKey::of(key) == ApiKey::DeleteGroups <==> key == 42,
        ApiKey::of(key) == ApiKey::ElectLeaders <==> key == 43,
        ApiKey::of(key) == ApiKey::IncrementalAlterConfigs <==> key == 44,
        ApiKey::of(key) == ApiKey::AlterPartitionReassignments <==> key == 45,
        ApiKey::of(key) == ApiKey::ListPartitionReassignments <==> key == 46,
        ApiKey::of(key) == ApiKey::OffsetDelete <==> key == 47,
        ApiKey::of(key) == ApiKey::DescribeClientQuotas <==> key == 48,
        ApiKey::of(key) == ApiKey::AlterClientQuotas <==> key == 49,
        ApiKey::of(key) == ApiKey::DescribeUserScramCredentials <==> key == 50,
        ApiKey::of(key) == ApiKey::AlterUserScramCredentials <==> key == 51,
        ApiKey::of(key) == ApiKey::Vote <==> key == 52,
        ApiKey::of(key) == ApiKey::BeginQuorumEpoch <==> key == 53,
        ApiKey::of(key) == ApiKey::EndQuorumEpoch <==> key == 54,
        ApiKey::of(key) == ApiKey::DescribeQuorum <==> key == 55,
        ApiKey::of(key) == ApiKey::AlterPartition <==> key == 56,
        ApiKey::of(key) == ApiKey::UpdateFeatures <==> key == 57,
        ApiKey::of(key) == ApiKey::Envelope <==> key == 58,
        ApiKey::of(key) == ApiKey::FetchSnapshot <==> key == 59,
        ApiKey::of(key) == ApiKey::DescribeCluster <==> key == 60,
        ApiKey::of(key) == ApiKey::DescribeProducers <==> key == 61,
        ApiKey::of(key) == ApiKey::BrokerRegistration <==> key == 62,
        ApiKey::of(key) == ApiKey::BrokerHeartbeat <==> key == 63,
        ApiKey::of(key) == ApiKey::UnregisterBroker <==> key == 64,
        ApiKey::of(key) == ApiKey::DescribeTransactions <==> key == 65,
        ApiKey::of(key) == ApiKey::ListTransactions <==> key == 66,
        ApiKey::of(key) == ApiKey::AllocateProducerIds <==> key == 67,
        ApiKey::of(key) == ApiKey::ConsumerGroupHeartbeat <==> key == 68,
        ApiKey::of(key) == ApiKey::ConsumerGroupDescribe <==> key == 69,
        ApiKey::of(key) == ApiKey::GetTelemetrySubscriptions <==> key == 71,
        ApiKey::of(key) == ApiKey::PushTelemetry <==> key == 72,
        ApiKey::of(key) == ApiKey::ListClientMetricsResources <==> key == 74,
        ApiKey::of(key) == ApiKey::DescribeTopicPartitions <==> key == 75,
        ApiKey::of(key) == ApiKey::ShareGroupHeartbeat <==> key == 76,
        ApiKey::of(key) == ApiKey::ShareGroupDescribe <==> key == 77,
        ApiKey::of(key) == ApiKey::ShareFetch <==> key == 78,
        ApiKey::of(key) == ApiKey::ShareAcknowledge <==> key == 79,
        ApiKey::of(key) matches ApiKey::Unknown(n) ==> n == key,
{
}

/// The version from which on each API is flexible; an API without one never is.
pub proof fn law_flexible_versions(key: ApiKey)
    ensures
        key == ApiKey::Produce ==> key.flexible_from() == 9,
        key == ApiKey::Fetch ==> key.flexible_from() == 12,
        key == ApiKey::ListOffsets ==> key.flexible_from() == 6,
        key == ApiKey::Metadata ==> key.flexible_from() == 9,
        key == ApiKey::LeaderAndIsr ==> key.flexible_from() == 4,
        key == ApiKey::StopReplica ==> key.flexible_from() == 2,
        key == ApiKey::UpdateMetadata ==> key.flexible_from() == 6,
        key == ApiKey::ControlledShutdown ==> key.flexible_from() == 3,
        key == ApiKey::OffsetCommit ==> key.flexible_from() == 8,
        key == ApiKey::OffsetFetch ==> key.flexible_from() == 6,
        key == ApiKey::FindCoordinator ==> key.flexible_from() == 3,
        key == ApiKey::JoinGroup ==> key.flexible_from() == 6,
        key == ApiKey::Heartbeat ==> key.flexible_from() == 4,
        key == ApiKey::LeaveGroup ==> key.flexible_from() == 4,
        key == ApiKey::SyncGroup ==> key.flexible_from() == 4,
        key == ApiKey::DescribeGroups ==> key.flexible_from() == 5,
        key == ApiKey::ListGroups ==> key.flexible_from() == 3,
        key == ApiKey::SaslHandshake ==> key.flexible_from() == i16::MAX,
        key == ApiKey::ApiVersions ==> key.flexible_from() == 3,
        key == ApiKey::CreateTopics ==> key.flexible_from() == 5,
        key == ApiKey::DeleteTopics ==> key.flexible_from() == 4,
        key == ApiKey::DeleteRecords ==> key.flexible_from() == 2,
        key == ApiKey::InitProducerId ==> key.flexible_from() == 2,
        key == ApiKey::OffsetForLeaderEpoch ==> key.flexible_from() == 4,
        key == ApiKey::AddPartitionsToTxn ==> key.flexible_from() == 3,
        key == ApiKey::AddOffsetsToTxn ==> key.flexible_from() == 3,
        key == ApiKey::EndTxn ==> key.flexible_from() == 3,
        key == ApiKey::WriteTxnMarkers ==> key.flexible_from() == 1,
        key == ApiKey::TxnOffsetCommit ==> key.flexible_from() == 3,
        key == ApiKey::DescribeAcls ==> key.flexible_from() == 2,
        key == ApiKey::CreateAcls ==> key.flexible_from() == 2,
        key == ApiKey::DeleteAcls ==> key.flexible_from() == 2,
        key == ApiKey::DescribeConfigs ==> key.flexible_from() == 4,
        key == ApiKey::AlterConfigs ==> key.flexible_from() == 2,
        key == ApiKey::AlterReplicaLogDirs ==> key.flexible_from() == 2,
        key == ApiKey::DescribeLogDirs ==> key.flexible_from() == 2,
        key == ApiKey::SaslAuthenticate ==> key.flexible_from() == 2,
        key == ApiKey::CreatePartitions ==> key.flexible_from() == 2,
        key == ApiKey::CreateDelegationToken ==> key.flexible_from() == 2,
        key == ApiKey::RenewDelegationToken ==> key.flexible_from() == 2,
        key == ApiKey::ExpireDelegationToken ==> key.flexible_from() == 2,
        key == ApiKey::DescribeDelegationToken ==> key.flexible_from() == 2,
        key == ApiKey::DeleteGroups ==> key.flexible_from() == 2,
        key == ApiKey::ElectLeaders ==> key.flexible_from() == 2,
        key == ApiKey::IncrementalAlterConfigs ==> key.flexible_from() == 1,
        key == ApiKey::AlterPartitionReassignments ==> key.flexible_from() == 0,
        key == ApiKey::ListPartitionReassignments ==> key.flexible_from() == 0,
        key == ApiKey::OffsetDelete ==> key.flexible_from() == i16::MAX,
        key == ApiKey::DescribeClientQuotas ==> key.flexible_from() == 1,
        key == ApiKey::AlterClientQuotas ==> key.flexible_from() == 1,
        key == ApiKey::DescribeUserScramCredentials ==> key.flexible_from() == 0,
        key == ApiKey::AlterUserScramCredentials ==> key.flexible_from() == 0,
        key == ApiKey::Vote ==> key.flexible_from() == 0,
        key == ApiKey::BeginQuorumEpoch ==> key.flexible_from() == 0,
        key == ApiKey::EndQuorumEpoch ==> key.flexible_from() == 0,
        key == ApiKey::DescribeQuorum ==> key.flexible_from() == 0,
        key == ApiKey::AlterPartition ==> key.flexible_from() == 0,
        key == ApiKey::UpdateFeatures ==> key.flexible_from() == 0,
        key == ApiKey::Envelope ==> key.flexible_from() == 0,
        key == ApiKey::FetchSnapshot ==> key.flexible_from() == 0,
        key == ApiKey::DescribeCluster ==> key.flexible_from() == 0,
        key == ApiKey::DescribeProducers ==> key.flexible_from() == 0,
        key == ApiKey::BrokerRegistration ==> key.flexible_from() == 0,
        key == ApiKey::BrokerHeartbeat ==> key.flexible_from() == 0,
        key == ApiKey::UnregisterBroker ==> key.flexible_from() == 0,
        key == ApiKey::DescribeTransactions ==> key.flexible_from() == 0,
        key == ApiKey::ListTransactions ==> key.flexible_from() == 0,
        key == ApiKey::AllocateProducerIds ==> key.flexible_from() == 0,
        key == ApiKey::ConsumerGroupHeartbeat ==> key.flexible_from() == 0,
        key == ApiKey::ConsumerGroupDescribe ==> key.flexible_from() == 0,
        key == ApiKey::GetTelemetrySubscriptions ==> key.flexible_from() == 0,
        key == ApiKey::PushTelemetry ==> key.flexible_from() == 0,
        key == ApiKey::ListClientMetricsResources ==> key.flexible_from() == 0,
        key == ApiKey::DescribeTopicPartitions ==> key.flexible_from() == 0,
        key == ApiKey::ShareGroupHeartbeat ==> key.flexible_from() == 0,
        key == ApiKey::ShareGroupDescribe ==> key.flexible_from() == 0,
        key == ApiKey::ShareFetch ==> key.flexible_from() == 0,
        key == ApiKey::ShareAcknowledge ==> key.flexible_from() == 0,
        key is Unknown ==> key.flexible_from() == i16::MAX,
{
}

/// The name under which each API is shown.
pub proof fn law_api_names(key: ApiKey)
    ensures
        key == ApiKey::Produce ==> key.text() == "Produce"@,
        key == ApiKey::Fetch ==> key.text() == "Fetch"@,
        key == ApiKey::ListOffsets ==> key.text() == "ListOffsets"@,
        key == ApiKey::Metadata ==> key.text() == "Metadata"@,
        key == ApiKey::LeaderAndIsr ==> key.text() == "LeaderAndIsr"@,
        key == ApiKey::StopReplica ==> key.text() == "StopReplica"@,
        key == ApiKey::UpdateMetadata ==> key.text() == "UpdateMetadata"@,
        key == ApiKey::ControlledShutdown ==> key.text() == "ControlledShutdown"@,
        key == ApiKey::OffsetCommit ==> key.text() == "OffsetCommit"@,
        key == ApiKey::OffsetFetch ==> key.text() == "OffsetFetch"@,
        key == ApiKey::FindCoordinator ==> key.text() == "FindCoordinator"@,
        key == ApiKey::JoinGroup ==> key.text() == "JoinGroup"@,
        key == ApiKey::Heartbeat ==> key.text() == "Heartbeat"@,
        key == ApiKey::LeaveGroup ==> key.text() == "LeaveGroup"@,
        key == ApiKey::SyncGroup ==> key.text() == "SyncGroup"@,
        key == ApiKey::DescribeGroups ==> key.text() == "DescribeGroups"@,
        key == ApiKey::ListGroups ==> key.text() == "ListGroups"@,
        key == ApiKey::SaslHandshake ==> key.text() == "SaslHandshake"@,
        key == ApiKey::ApiVersions ==> key.text() == "ApiVersions"@,
        key == ApiKey::CreateTopics ==> key.text() == "CreateTopics"@,
        key == ApiKey::DeleteTopics ==> key.text() == "DeleteTopics"@,
        key == ApiKey::DeleteRecords ==> key.text() == "DeleteRecords"@,
        key == ApiKey::InitProducerId ==> key.text() == "InitProducerId"@,
        key == ApiKey::OffsetForLeaderEpoch ==> key.text() == "OffsetForLeaderEpoch"@,
        key == ApiKey::AddPartitionsToTxn ==> key.text() == "AddPartitionsToTxn"@,
        key == ApiKey::AddOffsetsToTxn ==> key.text() == "AddOffsetsToTxn"@,
        key == ApiKey::EndTxn ==> key.text() == "EndTxn"@,
        key == ApiKey::WriteTxnMarkers ==> key.text() == "WriteTxnMarkers"@,
        key == ApiKey::TxnOffsetCommit ==> key.text() == "TxnOffsetCommit"@,
        key == ApiKey::DescribeAcls ==> key.text() == "DescribeAcls"@,
        key == ApiKey::CreateAcls ==> key.text() == "CreateAcls"@,
        key == ApiKey::DeleteAcls ==> key.text() == "DeleteAcls"@,
        key == ApiKey::DescribeConfigs ==> key.text() == "DescribeConfigs"@,
        key == ApiKey::AlterConfigs ==> key.text() == "AlterConfigs"@,
        key == ApiKey::AlterReplicaLogDirs ==> key.text() == "AlterReplicaLogDirs"@,
        key == ApiKey::DescribeLogDirs ==> key.text() == "DescribeLogDirs"@,
        key == ApiKey::SaslAuthenticate ==> key.text() == "SaslAuthenticate"@,
        key == ApiKey::CreatePartitions ==> key.text() == "CreatePartitions"@,
        key == ApiKey::CreateDelegationToken ==> key.text() == "CreateDelegationToken"@,
        key == ApiKey::RenewDelegationToken ==> key.text() == "RenewDelegationToken"@,
        key == ApiKey::ExpireDelegationToken ==> key.text() == "ExpireDelegationToken"@,
        key == ApiKey::DescribeDelegationToken ==> key.text() == "DescribeDelegationToken"@,
        key == ApiKey::DeleteGroups ==> key.text() == "DeleteGroups"@,
        key == ApiKey::ElectLeaders ==> key.text() == "ElectLeaders"@,
        key == ApiKey::IncrementalAlterConfigs ==> key.text() == "IncrementalAlterConfigs"@,
        key == ApiKey::AlterPartitionReassignments ==> key.text() == "AlterPartitionReassignments"@,
        key == ApiKey::ListPartitionReassignments ==> key.text() == "ListPartitionReassignments"@,
        key == ApiKey::OffsetDelete ==> key.text() == "OffsetDelete"@,
        key == ApiKey::DescribeClientQuotas ==> key.text() == "DescribeClientQuotas"@,
        key == ApiKey::AlterClientQuotas ==> key.text() == "AlterClientQuotas"@,
        key == ApiKey::DescribeUserScramCredentials ==> key.text()
            == "DescribeUserScramCredentials"@,
        key == ApiKey::AlterUserScramCredentials ==> key.text() == "AlterUserScramCredentials"@,
        key == ApiKey::Vote ==> key.text() == "Vote"@,
        key == ApiKey::BeginQuorumEpoch ==> key.text() == "BeginQuorumEpoch"@,
        key == ApiKey::EndQuorumEpoch ==> key.text() == "EndQuorumEpoch"@,
        key == ApiKey::DescribeQuorum ==> key.text() == "DescribeQuorum"@,
        key == ApiKey::AlterPartition ==> key.text() == "AlterPartition"@,
        key == ApiKey::UpdateFeatures ==> key.text() == "UpdateFeatures"@,
        key == ApiKey::Envelope ==> key.text() == "Envelope"@,
        key == ApiKey::FetchSnapshot ==> key.text() == "FetchSnapshot"@,
        key == ApiKey::DescribeCluster ==> key.text() == "DescribeCluster"@,
        key == ApiKey::DescribeProducers ==> key.text() == "DescribeProducers"@,
        key == ApiKey::BrokerRegistration ==> key.text() == "BrokerRegistration"@,
        key == ApiKey::BrokerHeartbeat ==> key.text() == "BrokerHeartbeat"@,
        key == ApiKey::UnregisterBroker ==> key.text() == "UnregisterBroker"@,
        key == ApiKey::DescribeTransactions ==> key.text() == "DescribeTransactions"@,
        key == ApiKey::ListTransactions ==> key.text() == "ListTransactions"@,
        key == ApiKey::AllocateProducerIds ==> key.text() == "AllocateProducerIds"@,
        key == ApiKey::ConsumerGroupHeartbeat ==> key.text() == "ConsumerGroupHeartbeat"@,
        key == ApiKey::ConsumerGroupDescribe ==> key.text() == "ConsumerGroupDescribe"@,
        key == ApiKey::GetTelemetrySubscriptions ==> key.text() == "GetTelemetrySubscriptions"@,
        key == ApiKey::PushTelemetry ==> key.text() == "PushTelemetry"@,
        key == ApiKey::ListClientMetricsResources ==> key.text() == "ListClientMetricsResources"@,
        key == ApiKey::DescribeTopicPartitions ==> key.text() == "DescribeTopicPartitions"@,
        key == ApiKey::ShareGroupHeartbeat ==> key.text() == "ShareGroupHeartbeat"@,
        key == ApiKey::ShareGroupDescribe ==> key.text() == "ShareGroupDescribe"@,
        key == ApiKey::ShareFetch ==> key.text() == "ShareFetch"@,
        key == ApiKey::ShareAcknowledge ==> key.text() == "ShareAcknowledge"@,
        key matches ApiKey::Unknown(n) ==> key.text() == "Unknown("@ + decimal(n as int) + ")"@,
{
}

/// The number of each error code. Any other number is kept as it is.
pub proof fn law_error_code_numbers(code: i16)
    ensures
        ErrorCode::of(code) == ErrorCode::UnknownServerError <==> code == -1,
        ErrorCode::of(code) == ErrorCode::NoError <==> code == 0,
        ErrorCode::of(code) == ErrorCode::OffsetOutOfRange <==> code == 1,
        ErrorCode::of(code) == ErrorCode::CorruptMessage <==> code == 2,
        ErrorCode::of(code) == ErrorCode::UnknownTopicOrPartition <==> code == 3,
        ErrorCode::of(code) == ErrorCode::InvalidFetchSize <==> code == 4,
        ErrorCode::of(code) == ErrorCode::LeaderNotAvailable <==> code == 5,
        ErrorCode::of(code) == ErrorCode::NotLeaderOrFollower <==> code == 6,
        ErrorCode::of(code) == ErrorCode::RequestTimedOut <==> code == 7,
        ErrorCode::of(code) == ErrorCode::BrokerNotAvailable <==> code == 8,
        ErrorCode::of(code) == ErrorCode::ReplicaNotAvailable <==> code == 9,
        ErrorCode::of(code) == ErrorCode::MessageTooLarge <==> code == 10,
        ErrorCode::of(code) == ErrorCode::StaleControllerEpoch <==> code == 11,
        ErrorCode::of(code) == ErrorCode::OffsetMetadataTooLarge <==> code == 12,
        ErrorCode::of(code) == ErrorCode::NetworkException <==> code == 13,
        ErrorCode::of(code) == ErrorCode::CoordinatorLoadInProgress <==> code == 14,
        ErrorCode::of(code) == ErrorCode::CoordinatorNotAvailable <==> code == 15,
        ErrorCode::of(code) == ErrorCode::NotCoordinator <==> code == 16,
        ErrorCode::of(code) == ErrorCode::InvalidTopic <==> code == 17,
        ErrorCode::of(code) == ErrorCode::RecordListTooLarge <==> code == 18,
        ErrorCode::of(code) == ErrorCode::NotEnoughReplicas <==> code == 19,
        ErrorCode::of(code) == ErrorCode::NotEnoughReplicasAfterAppend <==> code == 20,
        ErrorCode::of(code) == ErrorCode::InvalidRequiredAcks <==> code == 21,
        ErrorCode::of(code) == ErrorCode::IllegalGeneration <==> code == 22,
        ErrorCode::of(code) == ErrorCode::InconsistentGroupProtocol <==> code == 23,
        ErrorCode::of(code) == ErrorCode::InvalidGroupId <==> code == 24,
        ErrorCode::of(code) == ErrorCode::UnknownMemberId <==> code == 25,
        ErrorCode::of(code) == ErrorCode::InvalidSessionTimeout <==> code == 26,
        ErrorCode::of(code) == ErrorCode::RebalanceInProgress <==> code == 27,
        ErrorCode::of(code) == ErrorCode::InvalidCommitOffsetSize <==> code == 28,
        ErrorCode::of(code) == ErrorCode::TopicAuthorizationFailed <==> code == 29,
        ErrorCode::of(code) == ErrorCode::GroupAuthorizationFailed <==> code == 30,
        ErrorCode::of(code) == ErrorCode::ClusterAuthorizationFailed <==> code == 31,
        ErrorCode::of(code) == ErrorCode::InvalidTimestamp <==> code == 32,
        ErrorCode::of(code) == ErrorCode::UnsupportedSaslMechanism <==> code == 33,
        ErrorCode::of(code) == ErrorCode::IllegalSaslState <==> code == 34,
        ErrorCode::of(code) == ErrorCode::UnsupportedVersion <==> code == 35,
        ErrorCode::of(code) == ErrorCode::TopicAlreadyExists <==> code == 36,
        ErrorCode::of(code) == ErrorCode::InvalidPartitions <==> code == 37,
        ErrorCode::of(code) == ErrorCode::InvalidReplicationFactor <==> code == 38,
        ErrorCode::of(code) == ErrorCode::InvalidReplicaAssignment <==> code == 39,
        ErrorCode::of(code) == ErrorCode::InvalidConfig <==> code == 40,
        ErrorCode::of(code) == ErrorCode::NotController <==> code == 41,
        ErrorCode::of(code) == ErrorCode::InvalidRequest <==> code == 42,
        ErrorCode::of(code) == ErrorCode::UnsupportedForMessageFormat <==> code == 43,
        ErrorCode::of(code) == ErrorCode::PolicyViolation <==> code == 44,
        ErrorCode::of(code) == ErrorCode::OutOfOrderSequenceNumber <==> code == 45,
        ErrorCode::of(code) == ErrorCode::DuplicateSequenceNumber <==> code == 46,
        ErrorCode::of(code) == ErrorCode::InvalidProducerEpoch <==> code == 47,
        ErrorCode::of(code) == ErrorCode::InvalidTxnState <==> code == 48,
        ErrorCode::of(code) == ErrorCode::InvalidProducerIdMapping <==> code == 49,
        ErrorCode::of(code) == ErrorCode::InvalidTransactionTimeout <==> code == 50,
        ErrorCode::of(code) == ErrorCode::ConcurrentTransactions <==> code == 51,
        ErrorCode::of(code) == ErrorCode::TransactionCoordinatorFenced <==> code == 52,
        ErrorCode::of(code) == ErrorCode::TransactionalIdAuthorizationFailed <==> code == 53,
        ErrorCode::of(code) == ErrorCode::SecurityDisabled <==> code == 54,
        ErrorCode::of(code) == ErrorCode::OperationNotAttempted <==> code == 55,
        ErrorCode::of(code) == ErrorCode::KafkaStorageError <==> code == 56,
        ErrorCode::of(code) == ErrorCode::LogDirNotFound <==> code == 57,
        ErrorCode::of(code) == ErrorCode::SaslAuthenticationFailed <==> code == 58,
        ErrorCode::of(code) == ErrorCode::UnknownProducerId <==> code == 59,
        ErrorCode::of(code) == ErrorCode::ReassignmentInProgress <==> code == 60,
        ErrorCode::of(code) == ErrorCode::DelegationTokenAuthDisabled <==> code == 61,
        ErrorCode::of(code) == ErrorCode::DelegationTokenNotFound <==> code == 62,
        ErrorCode::of(code) == ErrorCode::DelegationTokenOwnerMismatch <==> code == 63,
        ErrorCode::of(code) == ErrorCode::DelegationTokenRequestNotAllowed <==> code == 64,
        ErrorCode::of(code) == ErrorCode::DelegationTokenAuthorizationFailed <==> code == 65,
        ErrorCode::of(code) == ErrorCode::DelegationTokenExpired <==> code == 66,
        ErrorCode::of(code) == ErrorCode::InvalidPrincipalType <==> code == 67,
        ErrorCode::of(code) == ErrorCode::NonEmptyGroup <==> code == 68,
        ErrorCode::of(code) == ErrorCode::GroupIdNotFound <==> code == 69,
        ErrorCode::of(code) == ErrorCode::FetchSessionIdNotFound <==> code == 70,
        ErrorCode::of(code) == ErrorCode::InvalidFetchSessionEpoch <==> code == 71,
        ErrorCode::of(code) == ErrorCode::ListenerNotFound <==> code == 72,
        ErrorCode::of(code) == ErrorCode::TopicDeletionDisabled <==> code == 73,
        ErrorCode::of(code) == ErrorCode::FencedLeaderEpoch <==> code == 74,
        ErrorCode::of(code) == ErrorCode::UnknownLeaderEpoch <==> code == 75,
        ErrorCode::of(code) == ErrorCode::UnsupportedCompressionType <==> code == 76,
        ErrorCode::of(code) == ErrorCode::StaleBrokerEpoch <==> code == 77,
        ErrorCode::of(code) == ErrorCode::OffsetNotAvailable <==> code == 78,
        ErrorCode::of(code) == ErrorCode::MemberIdRequired <==> code == 79,
        ErrorCode::of(code) == ErrorCode::PreferredLeaderNotAvailable <==> code == 80,
        ErrorCode::of(code) == ErrorCode::GroupMaxSizeReached <==> code == 81,
        ErrorCode::of(code) == ErrorCode::FencedInstanceId <==> code == 82,
        ErrorCode::of(code) == ErrorCode::EligibleLeadersNotAvailable <==> code == 83,
        ErrorCode::of(code) == ErrorCode::ElectionNotNeeded <==> code == 84,
        ErrorCode::of(code) == ErrorCode::NoReassignmentInProgress <==> code == 85,
        ErrorCode::of(code) == ErrorCode::GroupSubscribedToTopic <==> code == 86,
        ErrorCode::of(code) == ErrorCode::InvalidRecord <==> code == 87,
        ErrorCode::of(code) == ErrorCode::UnstableOffsetCommit <==> code == 88,
        ErrorCode::of(code) == ErrorCode::ThrottlingQuotaExceeded <==> code == 89,
        ErrorCode::of(code) == ErrorCode::ProducerFenced <==> code == 90,
        ErrorCode::of(code) matches ErrorCode::Unknown(n) ==> n == code,
{
}

/// The number of each [`acl::AclResourceType`].
pub proof fn law_acl_acl_resource_type_codes(value: i8, x: acl::AclResourceType)
    ensures
        acl::AclResourceType::of(value) == acl::AclResourceType::Any <==> value == 1,
        acl::AclResourceType::of(value) == acl::AclResourceType::Topic <==> value == 2,
        acl::AclResourceType::of(value) == acl::AclResourceType::Group <==> value == 3,
        acl::AclResourceType::of(value) == acl::AclResourceType::Cluster <==> value == 4,
        acl::AclResourceType::of(value) == acl::AclResourceType::TransactionalId <==> value == 5,
        acl::AclResourceType::of(value) == acl::AclResourceType::DelegationToken <==> value == 6,
        x == acl::AclResourceType::Unknown ==> x.code() == 0,
        x == acl::AclResourceType::Any ==> x.code() == 1,
        x == acl::AclResourceType::Topic ==> x.code() == 2,
        x == acl::AclResourceType::Group ==> x.code() == 3,
        x == acl::AclResourceType::Cluster ==> x.code() == 4,
        x == acl::AclResourceType::TransactionalId ==> x.code() == 5,
        x == acl::AclResourceType::DelegationToken ==> x.code() == 6,
{
}

/// The number of each [`acl::AclPatternType`].
pub proof fn law_acl_acl_pattern_type_codes(value: i8, x: acl::AclPatternType)
    ensures
        acl::AclPatternType::of(value) == acl::AclPatternType::Any <==> value == 1,
        acl::AclPatternType::of(value) == acl::AclPatternType::Literal <==> value == 2,
        acl::AclPatternType::of(value) == acl::AclPatternType::Prefixed <==> value == 3,
        x == acl::AclPatternType::Unknown ==> x.code() == 0,
        x == acl::AclPatternType::Any ==> x.code() == 1,
        x == acl::AclPatternType::Literal ==> x.code() == 2,
        x == acl::AclPatternType::Prefixed ==> x.code() == 3,
{
}

/// The number of each [`acl::AclOperation`].
pub proof fn law_acl_acl_operation_codes(value: i8, x: acl::AclOperation)
    ensures
        acl::AclOperation::of(value) == acl::AclOperation::Any <==> value == 1,
        acl::AclOperation::of(value) == acl::AclOperation::All <==> value == 2,
        acl::AclOperation::of(value) == acl::AclOperation::Read <==> value == 3,
        acl::AclOperation::of(value) == acl::AclOperation::Write <==> value == 4,
        acl::AclOperation::of(value) == acl::AclOperation::Create <==> value == 5,
        acl::AclOperation::of(value) == acl::AclOperation::Delete <==> value == 6,
        acl::AclOperation::of(value) == acl::AclOperation::Alter <==> value == 7,
        acl::AclOperation::of(value) == acl::AclOperation::Describe <==> value == 8,
        acl::AclOperation::of(value) == acl::AclOperation::ClusterAction <==> value == 9,
        acl::AclOperation::of(value) == acl::AclOperation::DescribeConfigs <==> value == 10,
        acl::AclOperation::of(value) == acl::AclOperation::AlterConfigs <==> value == 11,
        acl::AclOperation::of(value) == acl::AclOperation::IdempotentWrite <==> value == 12,
        x == acl::AclOperation::Unknown ==> x.code() == 0,
        x == acl::AclOperation::Any ==> x.code() == 1,
        x == acl::AclOperation::All ==> x.code() == 2,
        x == acl::AclOperation::Read ==> x.code() == 3,
        x == acl::AclOperation::Write ==> x.code() == 4,
        x == acl::AclOperation::Create ==> x.code() == 5,
        x == acl::AclOperation::Delete ==> x.code() == 6,
        x == acl::AclOperation::Alter ==> x.code() == 7,
        x == acl::AclOperation::Describe ==> x.code() == 8,
        x == acl::AclOperation::ClusterAction ==> x.code() == 9,
        x == acl::AclOperation::DescribeConfigs ==> x.code() == 10,
        x == acl::AclOperation::AlterConfigs ==> x.code() == 11,
        x == acl::AclOperation::IdempotentWrite ==> x.code() == 12,
{
}

/// The number of each [`acl::AclPermissionType`].
pub proof fn law_acl_acl_permission_type_codes(value: i8, x: acl::AclPermissionType)
    ensures
        acl::AclPermissionType::of(value) == acl::AclPermissionType::Any <==> value == 1,
        acl::AclPermissionType::of(value) == acl::AclPermissionType::Deny <==> value == 2,
        acl::AclPermissionType::of(value) == acl::AclPermissionType::Allow <==> value == 3,
        x == acl::AclPermissionType::Unknown ==> x.code() == 0,
        x == acl::AclPermissionType::Any ==> x.code() == 1,
        x == acl::AclPermissionType::Deny ==> x.code() == 2,
        x == acl::AclPermissionType::Allow ==> x.code() == 3,
{
}

/// The number of each [`security::AclResourceType`].
pub proof fn law_security_acl_resource_type_codes(value: i8, x: security::AclResourceType)
    ensures
        security::AclResourceType::of(value) == security::AclResourceType::Any <==> value == 1,
        security::AclResourceType::of(value) == security::AclResourceType::Topic <==> value == 2,
        security::AclResourceType::of(value) == security::AclResourceType::Group <==> value == 3,
        security::AclResourceType::of(value) == security::AclResourceType::Cluster <==> value == 4,
        security::AclResourceType::of(value)
            == security::AclResourceType::TransactionalId <==> value
            == 5,
        security::AclResourceType::of(value)
            == security::AclResourceType::DelegationToken <==> value
            == 6,
        x == security::AclResourceType::Unknown ==> x.code() == 0,
        x == security::AclResourceType::Any ==> x.code() == 1,
        x == security::AclResourceType::Topic ==> x.code() == 2,
        x == security::AclResourceType::Group ==> x.code() == 3,
        x == security::AclResourceType::Cluster ==> x.code() == 4,
        x == security::AclResourceType::TransactionalId ==> x.code() == 5,
        x == security::AclResourceType::DelegationToken ==> x.code() == 6,
{
}

/// The number of each [`security::AclPatternType`].
pub proof fn law_security_acl_pattern_type_codes(value: i8, x: security::AclPatternType)
    ensures
        security::AclPatternType::of(value) == security::AclPatternType::Any <==> value == 1,
        security::AclPatternType::of(value) == security::AclPatternType::Literal <==> value == 2,
        security::AclPatternType::of(value) == security::AclPatternType::Prefixed <==> value == 3,
        x == security::AclPatternType::Unknown ==> x.code() == 0,
        x == security::AclPatternType::Any ==> x.code() == 1,
        x == security::AclPatternType::Literal ==> x.code() == 2,
        x == security::AclPatternType::Prefixed ==> x.code() == 3,
{
}

/// The number of each [`security::AclOperation`].
pub proof fn law_security_acl_operation_codes(value: i8, x: security::AclOperation)
    ensures
        security::AclOperation::of(value) == security::AclOperation::Any <==> value == 1,
        security::AclOperation::of(value) == security::AclOperation::All <==> value == 2,
        security::AclOperation::of(value) == security::AclOperation::Read <==> value == 3,
        security::AclOperation::of(value) == security::AclOperation::Write <==> value == 4,
        security::AclOperation::of(value) == security::AclOperation::Create <==> value == 5,
        security::AclOperation::of(value) == security::AclOperation::Delete <==> value == 6,
        security::AclOperation::of(value) == security::AclOperation::Alter <==> value == 7,
        security::AclOperation::of(value) == security::AclOperation::Describe <==> value == 8,
        security::AclOperation::of(value) == security::AclOperation::ClusterAction <==> value == 9,
        security::AclOperation::of(value) == security::AclOperation::DescribeConfigs <==> value
            == 10,
        security::AclOperation::of(value) == security::AclOperation::AlterConfigs <==> value == 11,
        security::AclOperation::of(value) == security::AclOperation::IdempotentWrite <==> value
            == 12,
        x == security::AclOperation::Unknown ==> x.code() == 0,
        x == security::AclOperation::Any ==> x.code() == 1,
        x == security::AclOperation::All ==> x.code() == 2,
        x == security::AclOperation::Read ==> x.code() == 3,
        x == security::AclOperation::Write ==> x.code() == 4,
        x == security::AclOperation::Create ==> x.code() == 5,
        x == security::AclOperation::Delete ==> x.code() == 6,
        x == security::AclOperation::Alter ==> x.code() == 7,
        x == security::AclOperation::Describe ==> x.code() == 8,
        x == security::AclOperation::ClusterAction ==> x.code() == 9,
        x == security::AclOperation::DescribeConfigs ==> x.code() == 10,
        x == security::AclOperation::AlterConfigs ==> x.code() == 11,
        x == security::AclOperation::IdempotentWrite ==> x.code() == 12,
{
}

/// The number of each [`security::AclPermissionType`].
pub proof fn law_security_acl_permission_type_codes(value: i8, x: security::AclPermissionType)
    ensures
        security::AclPermissionType::of(value) == security::AclPermissionType::Any <==> value == 1,
        security::AclPermissionType::of(value) == security::AclPermissionType::Deny <==> value == 2,
        security::AclPermissionType::of(value) == security::AclPermissionType::Allow <==> value
            == 3,
        x == security::AclPermissionType::Unknown ==> x.code() == 0,
        x == security::AclPermissionType::Any ==> x.code() == 1,
        x == security::AclPermissionType::Deny ==> x.code() == 2,
        x == security::AclPermissionType::Allow ==> x.code() == 3,
{
}

/// The number of each [`config::ConfigResourceType`].
pub proof fn law_config_config_resource_type_codes(value: i8, x: config::ConfigResourceType)
    ensures
        config::ConfigResourceType::of(value) == config::ConfigResourceType::Topic <==> value == 2,
        config::ConfigResourceType::of(value) == config::ConfigResourceType::Broker <==> value == 4,
        config::ConfigResourceType::of(value) == config::ConfigResourceType::BrokerLogger <==> value
            == 8,
        x == config::ConfigResourceType::Unknown ==> x.code() == 0,
        x == config::ConfigResourceType::Topic ==> x.code() == 2,
        x == config::ConfigResourceType::Broker ==> x.code() == 4,
        x == config::ConfigResourceType::BrokerLogger ==> x.code() == 8,
{
}

/// The number of each [`config::AlterConfigOp`].
pub proof fn law_config_alter_config_op_codes(value: i8, x: config::AlterConfigOp)
    ensures
        config::AlterConfigOp::of(value) == Some(config::AlterConfigOp::SetValue) <==> value == 0,
        config::AlterConfigOp::of(value) == Some(config::AlterConfigOp::Delete) <==> value == 1,
        config::AlterConfigOp::of(value) == Some(config::AlterConfigOp::Append) <==> value == 2,
        config::AlterConfigOp::of(value) == Some(config::AlterConfigOp::Subtract) <==> value == 3,
        x == config::AlterConfigOp::SetValue ==> x.code() == 0,
        x == config::AlterConfigOp::Delete ==> x.code() == 1,
        x == config::AlterConfigOp::Append ==> x.code() == 2,
        x == config::AlterConfigOp::Subtract ==> x.code() == 3,
{
}

/// The number of each [`topics::ConfigResourceType`].
pub proof fn law_topics_config_resource_type_codes(value: i8, x: topics::ConfigResourceType)
    ensures
        topics::ConfigResourceType::of(value) == topics::ConfigResourceType::Topic <==> value == 2,
        topics::ConfigResourceType::of(value) == topics::ConfigResourceType::Broker <==> value == 4,
        topics::ConfigResourceType::of(value) == topics::ConfigResourceType::BrokerLogger <==> value
            == 8,
        x == topics::ConfigResourceType::Unknown ==> x.code() == 0,
        x == topics::ConfigResourceType::Topic ==> x.code() == 2,
        x == topics::ConfigResourceType::Broker ==> x.code() == 4,
        x == topics::ConfigResourceType::BrokerLogger ==> x.code() == 8,
{
}

} // verus!
