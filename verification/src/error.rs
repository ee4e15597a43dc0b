//! Errors of the library and error codes of the brokers.

use vstd::prelude::*;
use vstd::string::StringExecFns;

verus! {

/// Result of the library's operations.
pub type Result<T> = core::result::Result<T, KrafkaError>;

/// What went wrong with a message.
#[derive(Debug, Clone, Copy, PartialEq, Eq, Structural)]
pub enum ProtocolErrorKind {
    /// The bytes are there but do not form a valid value.
    Malformed,
    /// The buffer ends in the middle of a field.
    TruncatedFrame,
    /// A length is negative, too large, or has no place in the wire format.
    InvalidLength,
}

/// The particulars of a protocol error.
#[derive(Debug, Clone, Copy)]
pub enum Reason {
    /// A fixed sentence.
    Text(&'static str),
    /// A sentence that ends in a number.
    Number(&'static str, i64),
    /// A sentence with a number in the middle.
    NumberThen(&'static str, i64, &'static str),
    /// A sentence about something named, with the name in front.
    Named(&'static str, &'static str),
    /// A sentence about something named that ends in a number.
    NamedNumber(&'static str, &'static str, i64),
    /// A quantity that exceeds a limit.
    Exceeds(&'static str, usize, usize),
    /// A field that needs more bytes than are left.
    Truncated(usize, usize),
    /// Bytes that are left over behind a number of entries.
    Trailing(usize, usize),
    /// A message has no encoding in this version.
    UnsupportedEncode(&'static str, i16),
    /// A message has no decoding in this version.
    UnsupportedDecode(&'static str, i16),
}

impl Reason {
    /// The sentence that tells of the error.
    pub open spec fn text(self) -> Seq<char> {
        match self {
            Reason::Text(text) => text@,
            Reason::Number(text, n) => text@ + decimal(n as int),
            Reason::NumberThen(before, n, after) => before@ + decimal(n as int) + after@,
            Reason::Named(name, text) => name@ + text@,
            Reason::NamedNumber(name, text, n) => name@ + text@ + decimal(n as int),
            Reason::Exceeds(what, n, max) => what@ + " "@ + decimal(n as int)
                + " exceeds maximum "@ + decimal(max as int),
            Reason::Truncated(needed, available) => "need "@ + decimal(needed as int) + " bytes, "@
                + decimal(available as int) + " left"@,
            Reason::Trailing(bytes, entries) => "SupportedFeatures: "@ + decimal(bytes as int)
                + " trailing bytes after parsing "@ + decimal(entries as int) + " entries"@,
            Reason::UnsupportedEncode(message, version) => "unsupported "@ + message@
                + " encode version "@ + decimal(version as int),
            Reason::UnsupportedDecode(message, version) => "unsupported "@ + message@
                + " decode version "@ + decimal(version as int),
        }
    }

    /// The sentence that tells of the error.
    pub fn to_string(&self) -> (r: String)
        ensures
            r@ == self.text(),
    {
        let mut out = String::new();
        match self {
            Reason::Text(text) => {
                out.append(text);
            },
            Reason::Number(text, n) => {
                out.append(text);
                out.append(decimal_text(*n as i128).as_str());
            },
            Reason::NumberThen(before, n, after) => {
                out.append(before);
                out.append(decimal_text(*n as i128).as_str());
                out.append(after);
            },
            Reason::Named(name, text) => {
                out.append(name);
                out.append(text);
            },
            Reason::NamedNumber(name, text, n) => {
                out.append(name);
                out.append(text);
                out.append(decimal_text(*n as i128).as_str());
            },
            Reason::Exceeds(what, n, max) => {
                out.append(what);
                out.append(" ");
                out.append(decimal_text(*n as i128).as_str());
                out.append(" exceeds maximum ");
                out.append(decimal_text(*max as i128).as_str());
            },
            Reason::Truncated(needed, available) => {
                out.append("need ");
                out.append(decimal_text(*needed as i128).as_str());
                out.append(" bytes, ");
                out.append(decimal_text(*available as i128).as_str());
                out.append(" left");
            },
            Reason::Trailing(bytes, entries) => {
                out.append("SupportedFeatures: ");
                out.append(decimal_text(*bytes as i128).as_str());
                out.append(" trailing bytes after parsing ");
                out.append(decimal_text(*entries as i128).as_str());
                out.append(" entries");
            },
            Reason::UnsupportedEncode(message, version) => {
                out.append("unsupported ");
                out.append(message);
                out.append(" encode version ");
                out.append(decimal_text(*version as i128).as_str());
            },
            Reason::UnsupportedDecode(message, version) => {
                out.append("unsupported ");
                out.append(message);
                out.append(" decode version ");
                out.append(decimal_text(*version as i128).as_str());
            },
        }
        assert(out@ =~= self.text());
        out
    }
}

/// The digits of a number, most significant first.
pub open spec fn digits(n: nat) -> Seq<char>
    decreases n,
{
    let last = ('0' as u32 + n % 10) as char;
    if n < 10 {
        seq![last]
    } else {
        digits(n / 10).push(last)
    }
}

/// A number as it is written in base ten.
pub open spec fn decimal(n: int) -> Seq<char> {
    if n < 0 {
        seq!['-'] + digits((-n) as nat)
    } else {
        digits(n as nat)
    }
}

/// A digit as text.
fn digit_text(digit: u8) -> (text: &'static str)
    requires
        digit < 10,
    ensures
        text@ == seq![('0' as u32 + digit) as char],
{
    proof {
        reveal_strlit("0");
        reveal_strlit("1");
        reveal_strlit("2");
        reveal_strlit("3");
        reveal_strlit("4");
        reveal_strlit("5");
        reveal_strlit("6");
        reveal_strlit("7");
        reveal_strlit("8");
        reveal_strlit("9");
    }
    let text = match digit {
        0 => "0",
        1 => "1",
        2 => "2",
        3 => "3",
        4 => "4",
        5 => "5",
        6 => "6",
        7 => "7",
        8 => "8",
        _ => "9",
    };
    assert(text@ =~= seq![('0' as u32 + digit) as char]);
    text
}

/// The digits of a number as text.
fn digits_text(n: u128) -> (text: String)
    ensures
        text@ == digits(n as nat),
    decreases n,
{
    let last = digit_text((n % 10) as u8);
    if n < 10 {
        String::from_str(last)
    } else {
        let mut text = digits_text(n / 10);
        text.append(last);
        assert(text@ =~= digits(n as nat));
        text
    }
}

/// A number in base ten, with no leading zeros, and with a minus sign in front where
/// it is negative.
pub(crate) fn decimal_text(n: i128) -> (text: String)
    ensures
        text@ == decimal(n as int),
{
    if n < 0 {
        proof {
            reveal_strlit("-");
        }
        let mut text = String::from_str("-");
        let magnitude: u128 = (-(n + 1)) as u128 + 1;
        text.append(digits_text(magnitude).as_str());
        assert(text@ =~= decimal(n as int));
        text
    } else {
        digits_text(n as u128)
    }
}

/// Error of the library.
#[derive(Debug, Clone, Copy)]
pub enum KrafkaError {
    /// A message could not be encoded or decoded.
    Protocol(ProtocolErrorKind, Reason),
    /// The broker reported an error for the whole response.
    Broker(ErrorCode, &'static str),
}

impl KrafkaError {
    /// A protocol error of no particular kind.
    pub fn protocol(text: &'static str) -> (r: Self)
        ensures
            r == Self::Protocol(ProtocolErrorKind::Malformed, Reason::Text(text)),
    {
        Self::Protocol(ProtocolErrorKind::Malformed, Reason::Text(text))
    }

    /// The sentence that tells of the error.
    pub open spec fn text(self) -> Seq<char> {
        match self {
            Self::Protocol(_, reason) => reason.text(),
            Self::Broker(code, text) => text@ + " (code "@ + decimal(code.number() as int) + ")"@,
        }
    }

    /// The sentence that tells of the error.
    pub fn to_string(&self) -> (r: String)
        ensures
            r@ == self.text(),
    {
        match self {
            Self::Protocol(_, reason) => reason.to_string(),
            Self::Broker(code, text) => {
                let mut out = String::new();
                out.append(text);
                out.append(" (code ");
                out.append(decimal_text(code.to_i16() as i128).as_str());
                out.append(")");
                assert(out@ =~= self.text());
                out
            },
        }
    }
}

/// Error codes that a broker puts in its responses.
#[derive(Debug, Clone, Copy, PartialEq, Eq, Structural)]
pub enum ErrorCode {
    /// Code -1.
    UnknownServerError,
    /// Code 0.
    NoError,
    /// Code 1.
    OffsetOutOfRange,
    /// Code 2.
    CorruptMessage,
    /// Code 3.
    UnknownTopicOrPartition,
    /// Code 4.
    InvalidFetchSize,
    /// Code 5.
    LeaderNotAvailable,
    /// Code 6.
    NotLeaderOrFollower,
    /// Code 7.
    RequestTimedOut,
    /// Code 8.
    BrokerNotAvailable,
    /// Code 9.
    ReplicaNotAvailable,
    /// Code 10.
    MessageTooLarge,
    /// Code 11.
    StaleControllerEpoch,
    /// Code 12.
    OffsetMetadataTooLarge,
    /// Code 13.
    NetworkException,
    /// Code 14.
    CoordinatorLoadInProgress,
    /// Code 15.
    CoordinatorNotAvailable,
    /// Code 16.
    NotCoordinator,
    /// Code 17.
    InvalidTopic,
    /// Code 18.
    RecordListTooLarge,
    /// Code 19.
    NotEnoughReplicas,
    /// Code 20.
    NotEnoughReplicasAfterAppend,
    /// Code 21.
    InvalidRequiredAcks,
    /// Code 22.
    IllegalGeneration,
    /// Code 23.
    InconsistentGroupProtocol,
    /// Code 24.
    InvalidGroupId,
    /// Code 25.
    UnknownMemberId,
    /// Code 26.
    InvalidSessionTimeout,
    /// Code 27.
    RebalanceInProgress,
    /// Code 28.
    InvalidCommitOffsetSize,
    /// Code 29.
    TopicAuthorizationFailed,
    /// Code 30.
    GroupAuthorizationFailed,
    /// Code 31.
    ClusterAuthorizationFailed,
    /// Code 32.
    InvalidTimestamp,
    /// Code 33.
    UnsupportedSaslMechanism,
    /// Code 34.
    IllegalSaslState,
    /// Code 35.
    UnsupportedVersion,
    /// Code 36.
    TopicAlreadyExists,
    /// Code 37.
    InvalidPartitions,
    /// Code 38.
    InvalidReplicationFactor,
    /// Code 39.
    InvalidReplicaAssignment,
    /// Code 40.
    InvalidConfig,
    /// Code 41.
    NotController,
    /// Code 42.
    InvalidRequest,
    /// Code 43.
    UnsupportedForMessageFormat,
    /// Code 44.
    PolicyViolation,
    /// Code 45.
    OutOfOrderSequenceNumber,
    /// Code 46.
    DuplicateSequenceNumber,
    /// Code 47.
    InvalidProducerEpoch,
    /// Code 48.
    InvalidTxnState,
    /// Code 49.
    InvalidProducerIdMapping,
    /// Code 50.
    InvalidTransactionTimeout,
    /// Code 51.
    ConcurrentTransactions,
    /// Code 52.
    TransactionCoordinatorFenced,
    /// Code 53.
    TransactionalIdAuthorizationFailed,
    /// Code 54.
    SecurityDisabled,
    /// Code 55.
    OperationNotAttempted,
    /// Code 56.
    KafkaStorageError,
    /// Code 57.
    LogDirNotFound,
    /// Code 58.
    SaslAuthenticationFailed,
    /// Code 59.
    UnknownProducerId,
    /// Code 60.
    ReassignmentInProgress,
    /// Code 61.
    DelegationTokenAuthDisabled,
    /// Code 62.
    DelegationTokenNotFound,
    /// Code 63.
    DelegationTokenOwnerMismatch,
    /// Code 64.
    DelegationTokenRequestNotAllowed,
    /// Code 65.
    DelegationTokenAuthorizationFailed,
    /// Code 66.
    DelegationTokenExpired,
    /// Code 67.
    InvalidPrincipalType,
    /// Code 68.
    NonEmptyGroup,
    /// Code 69.
    GroupIdNotFound,
    /// Code 70.
    FetchSessionIdNotFound,
    /// Code 71.
    InvalidFetchSessionEpoch,
    /// Code 72.
    ListenerNotFound,
    /// Code 73.
    TopicDeletionDisabled,
    /// Code 74.
    FencedLeaderEpoch,
    /// Code 75.
    UnknownLeaderEpoch,
    /// Code 76.
    UnsupportedCompressionType,
    /// Code 77.
    StaleBrokerEpoch,
    /// Code 78.
    OffsetNotAvailable,
    /// Code 79.
    MemberIdRequired,
    /// Code 80.
    PreferredLeaderNotAvailable,
    /// Code 81.
    GroupMaxSizeReached,
    /// Code 82.
    FencedInstanceId,
    /// Code 83.
    EligibleLeadersNotAvailable,
    /// Code 84.
    ElectionNotNeeded,
    /// Code 85.
    NoReassignmentInProgress,
    /// Code 86.
    GroupSubscribedToTopic,
    /// Code 87.
    InvalidRecord,
    /// Code 88.
    UnstableOffsetCommit,
    /// Code 89.
    ThrottlingQuotaExceeded,
    /// Code 90.
    ProducerFenced,
    /// A code with no name here.
    Unknown(i16),
}

impl ErrorCode {
    /// The code that a number on the wire stands for.
    pub open spec fn of(code: i16) -> ErrorCode {
        match code {
            -1 => Self::UnknownServerError,
            0 => Self::NoError,
            1 => Self::OffsetOutOfRange,
            2 => Self::CorruptMessage,
            3 => Self::UnknownTopicOrPartition,
            4 => Self::InvalidFetchSize,
            5 => Self::LeaderNotAvailable,
            6 => Self::NotLeaderOrFollower,
            7 => Self::RequestTimedOut,
            8 => Self::BrokerNotAvailable,
            9 => Self::ReplicaNotAvailable,
            10 => Self::MessageTooLarge,
            11 => Self::StaleControllerEpoch,
            12 => Self::OffsetMetadataTooLarge,
            13 => Self::NetworkException,
            14 => Self::CoordinatorLoadInProgress,
            15 => Self::CoordinatorNotAvailable,
            16 => Self::NotCoordinator,
            17 => Self::InvalidTopic,
            18 => Self::RecordListTooLarge,
            19 => Self::NotEnoughReplicas,
            20 => Self::NotEnoughReplicasAfterAppend,
            21 => Self::InvalidRequiredAcks,
            22 => Self::IllegalGeneration,
            23 => Self::InconsistentGroupProtocol,
            24 => Self::InvalidGroupId,
            25 => Self::UnknownMemberId,
            26 => Self::InvalidSessionTimeout,
            27 => Self::RebalanceInProgress,
            28 => Self::InvalidCommitOffsetSize,
            29 => Self::TopicAuthorizationFailed,
            30 => Self::GroupAuthorizationFailed,
            31 => Self::ClusterAuthorizationFailed,
            32 => Self::InvalidTimestamp,
            33 => Self::UnsupportedSaslMechanism,
            34 => Self::IllegalSaslState,
            35 => Self::UnsupportedVersion,
            36 => Self::TopicAlreadyExists,
            37 => Self::InvalidPartitions,
            38 => Self::InvalidReplicationFactor,
            39 => Self::InvalidReplicaAssignment,
            40 => Self::InvalidConfig,
            41 => Self::NotController,
            42 => Self::InvalidRequest,
            43 => Self::UnsupportedForMessageFormat,
            44 => Self::PolicyViolation,
            45 => Self::OutOfOrderSequenceNumber,
            46 => Self::DuplicateSequenceNumber,
            47 => Self::InvalidProducerEpoch,
            48 => Self::InvalidTxnState,
            49 => Self::InvalidProducerIdMapping,
            50 => Self::InvalidTransactionTimeout,
            51 => Self::ConcurrentTransactions,
            52 => Self::TransactionCoordinatorFenced,
            53 => Self::TransactionalIdAuthorizationFailed,
            54 => Self::SecurityDisabled,
            55 => Self::OperationNotAttempted,
            56 => Self::KafkaStorageError,
            57 => Self::LogDirNotFound,
            58 => Self::SaslAuthenticationFailed,
            59 => Self::UnknownProducerId,
            60 => Self::ReassignmentInProgress,
            61 => Self::DelegationTokenAuthDisabled,
            62 => Self::DelegationTokenNotFound,
            63 => Self::DelegationTokenOwnerMismatch,
            64 => Self::DelegationTokenRequestNotAllowed,
            65 => Self::DelegationTokenAuthorizationFailed,
            66 => Self::DelegationTokenExpired,
            67 => Self::InvalidPrincipalType,
            68 => Self::NonEmptyGroup,
            69 => Self::GroupIdNotFound,
            70 => Self::FetchSessionIdNotFound,
            71 => Self::InvalidFetchSessionEpoch,
            72 => Self::ListenerNotFound,
            73 => Self::TopicDeletionDisabled,
            74 => Self::FencedLeaderEpoch,
            75 => Self::UnknownLeaderEpoch,
            76 => Self::UnsupportedCompressionType,
            77 => Self::StaleBrokerEpoch,
            78 => Self::OffsetNotAvailable,
            79 => Self::MemberIdRequired,
            80 => Self::PreferredLeaderNotAvailable,
            81 => Self::GroupMaxSizeReached,
            82 => Self::FencedInstanceId,
            83 => Self::EligibleLeadersNotAvailable,
            84 => Self::ElectionNotNeeded,
            85 => Self::NoReassignmentInProgress,
            86 => Self::GroupSubscribedToTopic,
            87 => Self::InvalidRecord,
            88 => Self::UnstableOffsetCommit,
            89 => Self::ThrottlingQuotaExceeded,
            90 => Self::ProducerFenced,
            other => Self::Unknown(other),
        }
    }

    /// The number that stands for the code on the wire.
    pub open spec fn number(self) -> i16 {
        match self {
            Self::UnknownServerError => (-1) as i16,
            Self::NoError => 0,
            Self::OffsetOutOfRange => 1,
            Self::CorruptMessage => 2,
            Self::UnknownTopicOrPartition => 3,
            Self::InvalidFetchSize => 4,
            Self::LeaderNotAvailable => 5,
            Self::NotLeaderOrFollower => 6,
            Self::RequestTimedOut => 7,
            Self::BrokerNotAvailable => 8,
            Self::ReplicaNotAvailable => 9,
            Self::MessageTooLarge => 10,
            Self::StaleControllerEpoch => 11,
            Self::OffsetMetadataTooLarge => 12,
            Self::NetworkException => 13,
            Self::CoordinatorLoadInProgress => 14,
            Self::CoordinatorNotAvailable => 15,
            Self::NotCoordinator => 16,
            Self::InvalidTopic => 17,
            Self::RecordListTooLarge => 18,
            Self::NotEnoughReplicas => 19,
            Self::NotEnoughReplicasAfterAppend => 20,
            Self::InvalidRequiredAcks => 21,
            Self::IllegalGeneration => 22,
            Self::InconsistentGroupProtocol => 23,
            Self::InvalidGroupId => 24,
            Self::UnknownMemberId => 25,
            Self::InvalidSessionTimeout => 26,
            Self::RebalanceInProgress => 27,
            Self::InvalidCommitOffsetSize => 28,
            Self::TopicAuthorizationFailed => 29,
            Self::GroupAuthorizationFailed => 30,
            Self::ClusterAuthorizationFailed => 31,
            Self::InvalidTimestamp => 32,
            Self::UnsupportedSaslMechanism => 33,
            Self::IllegalSaslState => 34,
            Self::UnsupportedVersion => 35,
            Self::TopicAlreadyExists => 36,
            Self::InvalidPartitions => 37,
            Self::InvalidReplicationFactor => 38,
            Self::InvalidReplicaAssignment => 39,
            Self::InvalidConfig => 40,
            Self::NotController => 41,
            Self::InvalidRequest => 42,
            Self::UnsupportedForMessageFormat => 43,
            Self::PolicyViolation => 44,
            Self::OutOfOrderSequenceNumber => 45,
            Self::DuplicateSequenceNumber => 46,
            Self::InvalidProducerEpoch => 47,
            Self::InvalidTxnState => 48,
            Self::InvalidProducerIdMapping => 49,
            Self::InvalidTransactionTimeout => 50,
            Self::ConcurrentTransactions => 51,
            Self::TransactionCoordinatorFenced => 52,
            Self::TransactionalIdAuthorizationFailed => 53,
            Self::SecurityDisabled => 54,
            Self::OperationNotAttempted => 55,
            Self::KafkaStorageError => 56,
            Self::LogDirNotFound => 57,
            Self::SaslAuthenticationFailed => 58,
            Self::UnknownProducerId => 59,
            Self::ReassignmentInProgress => 60,
            Self::DelegationTokenAuthDisabled => 61,
            Self::DelegationTokenNotFound => 62,
            Self::DelegationTokenOwnerMismatch => 63,
            Self::DelegationTokenRequestNotAllowed => 64,
            Self::DelegationTokenAuthorizationFailed => 65,
            Self::DelegationTokenExpired => 66,
            Self::InvalidPrincipalType => 67,
            Self::NonEmptyGroup => 68,
            Self::GroupIdNotFound => 69,
            Self::FetchSessionIdNotFound => 70,
            Self::InvalidFetchSessionEpoch => 71,
            Self::ListenerNotFound => 72,
            Self::TopicDeletionDisabled => 73,
            Self::FencedLeaderEpoch => 74,
            Self::UnknownLeaderEpoch => 75,
            Self::UnsupportedCompressionType => 76,
            Self::StaleBrokerEpoch => 77,
            Self::OffsetNotAvailable => 78,
            Self::MemberIdRequired => 79,
            Self::PreferredLeaderNotAvailable => 80,
            Self::GroupMaxSizeReached => 81,
            Self::FencedInstanceId => 82,
            Self::EligibleLeadersNotAvailable => 83,
            Self::ElectionNotNeeded => 84,
            Self::NoReassignmentInProgress => 85,
            Self::GroupSubscribedToTopic => 86,
            Self::InvalidRecord => 87,
            Self::UnstableOffsetCommit => 88,
            Self::ThrottlingQuotaExceeded => 89,
            Self::ProducerFenced => 90,
            Self::Unknown(code) => code,
        }
    }

    /// Convert from the number on the wire.
    pub fn from_i16(code: i16) -> (r: Self)
        ensures
            r == Self::of(code),
            r.number() == code,
    {
        match code {
            -1 => Self::UnknownServerError,
            0 => Self::NoError,
            1 => Self::OffsetOutOfRange,
            2 => Self::CorruptMessage,
            3 => Self::UnknownTopicOrPartition,
            4 => Self::InvalidFetchSize,
            5 => Self::LeaderNotAvailable,
            6 => Self::NotLeaderOrFollower,
            7 => Self::RequestTimedOut,
            8 => Self::BrokerNotAvailable,
            9 => Self::ReplicaNotAvailable,
            10 => Self::MessageTooLarge,
            11 => Self::StaleControllerEpoch,
            12 => Self::OffsetMetadataTooLarge,
            13 => Self::NetworkException,
            14 => Self::CoordinatorLoadInProgress,
            15 => Self::CoordinatorNotAvailable,
            16 => Self::NotCoordinator,
            17 => Self::InvalidTopic,
            18 => Self::RecordListTooLarge,
            19 => Self::NotEnoughReplicas,
            20 => Self::NotEnoughReplicasAfterAppend,
            21 => Self::InvalidRequiredAcks,
            22 => Self::IllegalGeneration,
            23 => Self::InconsistentGroupProtocol,
            24 => Self::InvalidGroupId,
            25 => Self::UnknownMemberId,
            26 => Self::InvalidSessionTimeout,
            27 => Self::RebalanceInProgress,
            28 => Self::InvalidCommitOffsetSize,
            29 => Self::TopicAuthorizationFailed,
            30 => Self::GroupAuthorizationFailed,
            31 => Self::ClusterAuthorizationFailed,
            32 => Self::InvalidTimestamp,
            33 => Self::UnsupportedSaslMechanism,
            34 => Self::IllegalSaslState,
            35 => Self::UnsupportedVersion,
            36 => Self::TopicAlreadyExists,
            37 => Self::InvalidPartitions,
            38 => Self::InvalidReplicationFactor,
            39 => Self::InvalidReplicaAssignment,
            40 => Self::InvalidConfig,
            41 => Self::NotController,
            42 => Self::InvalidRequest,
            43 => Self::UnsupportedForMessageFormat,
            44 => Self::PolicyViolation,
            45 => Self::OutOfOrderSequenceNumber,
            46 => Self::DuplicateSequenceNumber,
            47 => Self::InvalidProducerEpoch,
            48 => Self::InvalidTxnState,
            49 => Self::InvalidProducerIdMapping,
            50 => Self::InvalidTransactionTimeout,
            51 => Self::ConcurrentTransactions,
            52 => Self::TransactionCoordinatorFenced,
            53 => Self::TransactionalIdAuthorizationFailed,
            54 => Self::SecurityDisabled,
            55 => Self::OperationNotAttempted,
            56 => Self::KafkaStorageError,
            57 => Self::LogDirNotFound,
            58 => Self::SaslAuthenticationFailed,
            59 => Self::UnknownProducerId,
            60 => Self::ReassignmentInProgress,
            61 => Self::DelegationTokenAuthDisabled,
            62 => Self::DelegationTokenNotFound,
            63 => Self::DelegationTokenOwnerMismatch,
            64 => Self::DelegationTokenRequestNotAllowed,
            65 => Self::DelegationTokenAuthorizationFailed,
            66 => Self::DelegationTokenExpired,
            67 => Self::InvalidPrincipalType,
            68 => Self::NonEmptyGroup,
            69 => Self::GroupIdNotFound,
            70 => Self::FetchSessionIdNotFound,
            71 => Self::InvalidFetchSessionEpoch,
            72 => Self::ListenerNotFound,
            73 => Self::TopicDeletionDisabled,
            74 => Self::FencedLeaderEpoch,
            75 => Self::UnknownLeaderEpoch,
            76 => Self::UnsupportedCompressionType,
            77 => Self::StaleBrokerEpoch,
            78 => Self::OffsetNotAvailable,
            79 => Self::MemberIdRequired,
            80 => Self::PreferredLeaderNotAvailable,
            81 => Self::GroupMaxSizeReached,
            82 => Self::FencedInstanceId,
            83 => Self::EligibleLeadersNotAvailable,
            84 => Self::ElectionNotNeeded,
            85 => Self::NoReassignmentInProgress,
            86 => Self::GroupSubscribedToTopic,
            87 => Self::InvalidRecord,
            88 => Self::UnstableOffsetCommit,
            89 => Self::ThrottlingQuotaExceeded,
            90 => Self::ProducerFenced,
            other => Self::Unknown(other),
        }
    }

    /// Convert to the number on the wire.
    pub fn to_i16(self) -> (r: i16)
        ensures
            r == self.number(),
    {
        match self {
            Self::UnknownServerError => -1,
            Self::NoError => 0,
            Self::OffsetOutOfRange => 1,
            Self::CorruptMessage => 2,
            Self::UnknownTopicOrPartition => 3,
            Self::InvalidFetchSize => 4,
            Self::LeaderNotAvailable => 5,
            Self::NotLeaderOrFollower => 6,
            Self::RequestTimedOut => 7,
            Self::BrokerNotAvailable => 8,
            Self::ReplicaNotAvailable => 9,
            Self::MessageTooLarge => 10,
            Self::StaleControllerEpoch => 11,
            Self::OffsetMetadataTooLarge => 12,
            Self::NetworkException => 13,
            Self::CoordinatorLoadInProgress => 14,
            Self::CoordinatorNotAvailable => 15,
            Self::NotCoordinator => 16,
            Self::InvalidTopic => 17,
            Self::RecordListTooLarge => 18,
            Self::NotEnoughReplicas => 19,
            Self::NotEnoughReplicasAfterAppend => 20,
            Self::InvalidRequiredAcks => 21,
            Self::IllegalGeneration => 22,
            Self::InconsistentGroupProtocol => 23,
            Self::InvalidGroupId => 24,
            Self::UnknownMemberId => 25,
            Self::InvalidSessionTimeout => 26,
            Self::RebalanceInProgress => 27,
            Self::InvalidCommitOffsetSize => 28,
            Self::TopicAuthorizationFailed => 29,
            Self::GroupAuthorizationFailed => 30,
            Self::ClusterAuthorizationFailed => 31,
            Self::InvalidTimestamp => 32,
            Self::UnsupportedSaslMechanism => 33,
            Self::IllegalSaslState => 34,
            Self::UnsupportedVersion => 35,
            Self::TopicAlreadyExists => 36,
            Self::InvalidPartitions => 37,
            Self::InvalidReplicationFactor => 38,
            Self::InvalidReplicaAssignment => 39,
            Self::InvalidConfig => 40,
            Self::NotController => 41,
            Self::InvalidRequest => 42,
            Self::UnsupportedForMessageFormat => 43,
            Self::PolicyViolation => 44,
            Self::OutOfOrderSequenceNumber => 45,
            Self::DuplicateSequenceNumber => 46,
            Self::InvalidProducerEpoch => 47,
            Self::InvalidTxnState => 48,
            Self::InvalidProducerIdMapping => 49,
            Self::InvalidTransactionTimeout => 50,
            Self::ConcurrentTransactions => 51,
            Self::TransactionCoordinatorFenced => 52,
            Self::TransactionalIdAuthorizationFailed => 53,
            Self::SecurityDisabled => 54,
            Self::OperationNotAttempted => 55,
            Self::KafkaStorageError => 56,
            Self::LogDirNotFound => 57,
            Self::SaslAuthenticationFailed => 58,
            Self::UnknownProducerId => 59,
            Self::ReassignmentInProgress => 60,
            Self::DelegationTokenAuthDisabled => 61,
            Self::DelegationTokenNotFound => 62,
            Self::DelegationTokenOwnerMismatch => 63,
            Self::DelegationTokenRequestNotAllowed => 64,
            Self::DelegationTokenAuthorizationFailed => 65,
            Self::DelegationTokenExpired => 66,
            Self::InvalidPrincipalType => 67,
            Self::NonEmptyGroup => 68,
            Self::GroupIdNotFound => 69,
            Self::FetchSessionIdNotFound => 70,
            Self::InvalidFetchSessionEpoch => 71,
            Self::ListenerNotFound => 72,
            Self::TopicDeletionDisabled => 73,
            Self::FencedLeaderEpoch => 74,
            Self::UnknownLeaderEpoch => 75,
            Self::UnsupportedCompressionType => 76,
            Self::StaleBrokerEpoch => 77,
            Self::OffsetNotAvailable => 78,
            Self::MemberIdRequired => 79,
            Self::PreferredLeaderNotAvailable => 80,
            Self::GroupMaxSizeReached => 81,
            Self::FencedInstanceId => 82,
            Self::EligibleLeadersNotAvailable => 83,
            Self::ElectionNotNeeded => 84,
            Self::NoReassignmentInProgress => 85,
            Self::GroupSubscribedToTopic => 86,
            Self::InvalidRecord => 87,
            Self::UnstableOffsetCommit => 88,
            Self::ThrottlingQuotaExceeded => 89,
            Self::ProducerFenced => 90,
            Self::Unknown(code) => code,
        }
    }

    /// Whether the code reports success.
    pub fn is_ok(&self) -> (r: bool)
        ensures
            r == (*self == Self::NoError),
    {
        matches!(self, Self::NoError)
    }
}

impl Default for ErrorCode {
    fn default() -> (r: Self)
        ensures
            r == Self::NoError,
    {
        Self::NoError
    }
}

impl From<i16> for ErrorCode {
    fn from(code: i16) -> (r: Self) {
        Self::from_i16(code)
    }
}

impl vstd::std_specs::convert::FromSpecImpl<i16> for ErrorCode {
    open spec fn obeys_from_spec() -> bool {
        true
    }

    open spec fn from_spec(code: i16) -> Self {
        Self::of(code)
    }
}

/// Every number on the wire has a code that stands for it and for no other.
pub proof fn law_error_code_keeps_number(code: i16)
    ensures
        ErrorCode::of(code).number() == code,
{
}

/// A digit put behind a number stands behind its digits, and a number below ten is its
/// only digit.
pub proof fn law_digits(n: nat, digit: nat)
    requires
        digit < 10,
    ensures
        digits(digit) == seq![('0' as u32 + digit) as char],
        n > 0 ==> digits(10 * n + digit) == digits(n).push(('0' as u32 + digit) as char),
        decimal(n as int) == digits(n),
        n > 0 ==> decimal(-n) == seq!['-'] + digits(n),
{
}

} // verus!
