//! The embedded consumer protocol carried by classic groups.
//!
//! Classic (pre-KIP-848) groups negotiate assignments on the client side. Two
//! structures travel as opaque `bytes` inside the group APIs; the coordinator
//! stores them and never parses either one:
//!
//! * `ConsumerProtocolSubscription`: what a member subscribes to. Written into
//!   `JoinGroup`'s protocol metadata, handed to the group leader in the
//!   `JoinGroup` response, and returned by `DescribeGroups` as `member_metadata`.
//! * `ConsumerProtocolAssignment`: what the leader decided. Written into
//!   `SyncGroup`, handed back to each member in the `SyncGroup` response, and
//!   returned by `DescribeGroups` as `member_assignment`.
//!
//! # Wire format
//!
//! Both structures are non-flexible at every version and versioned independently
//! of the API that carries them:
//!
//! ```text
//! ConsumerProtocolSubscription (v0-v3)
//!     version:           int16
//!     topics:            [string]
//!     user_data:         nullable bytes
//!     owned_partitions:  [ topic: string, partitions: [int32] ]   (v1+)
//!     generation_id:     int32                                    (v2+)
//!     rack_id:           nullable string                          (v3+)
//!
//! ConsumerProtocolAssignment (v0-v3)
//!     version:              int16
//!     assigned_partitions:  [ topic: string, partitions: [int32] ]
//!     user_data:            nullable bytes
//! ```
//!
//! # Compatibility
//!
//! A version above [`CONSUMER_PROTOCOL_MAX_VERSION`] is parsed with the newest
//! known schema and any trailing bytes are ignored, so a newer peer's subscription
//! still yields its topics. A negative version is malformed and rejected. An empty
//! blob decodes to an empty value, because `DescribeGroups` returns empty bytes
//! for a member that has no assignment yet.

use crate::buffer::{be_bytes_i16, law_be_i16, optional_bytes, remaining, Octets};
use crate::error::{KrafkaError, ProtocolErrorKind, Reason, Result};
use crate::protocol::round_trip::{
    begins, behind, law_array_len_round_trip, law_array_round_trip, law_i16_round_trip,
    law_i32_round_trip, law_nullable_bytes_round_trip, law_nullable_string_round_trip,
};
use crate::protocol::wire::{
    consumes, decoded, encoded, fits, group_appends, group_consumes, group_followed, group_grows,
    no_items, optional_text, read_array, read_array_len, read_i16, read_i32, read_nullable_bytes,
    read_nullable_string, result_view, views, write_array, write_i16, write_i32,
    write_nullable_bytes, write_nullable_string, write_string, Format, Reader, WireEncode, Writer,
};
use bytes::{Bytes, BytesMut};
use vstd::prelude::*;

verus! {

/// The `protocol_type` a classic consumer group registers with the
/// coordinator.
///
/// It is the discriminator that says the opaque member blobs are the structures
/// in this module. Kafka Connect (`connect`) and Kafka Streams (`streams`) put
/// entirely different formats in the same fields.
pub const CONSUMER_PROTOCOL_TYPE: &'static str = "consumer";

/// Highest `ConsumerProtocolSubscription` / `ConsumerProtocolAssignment`
/// version these codecs implement.
///
/// Both structures share a version space: the assignor bumps them together,
/// even though the assignment's field set has not changed since v0.
pub const CONSUMER_PROTOCOL_MAX_VERSION: i16 = 3;

/// Version that adds `owned_partitions` to a subscription (KIP-429,
/// cooperative rebalancing).
pub const CONSUMER_PROTOCOL_V1: i16 = 1;

/// Version that adds `generation_id` to a subscription (KIP-429).
pub const CONSUMER_PROTOCOL_V2: i16 = 2;

/// Version that adds `rack_id` to a subscription (KIP-881, rack-aware
/// assignment).
pub const CONSUMER_PROTOCOL_V3: i16 = 3;

/// One topic's partitions inside a subscription or an assignment.
#[derive(Debug, Clone, PartialEq, Eq)]
pub struct ConsumerProtocolTopicPartitions {
    /// Topic name. The classic protocol carries names only, never topic IDs.
    pub topic: String,
    /// Partition indices, in the order the peer wrote them.
    pub partitions: Vec<i32>,
}

impl Default for ConsumerProtocolTopicPartitions {
    fn default() -> (r: Self)
        ensures
            r.topic@.len() == 0,
            r.partitions@.len() == 0,
    {
        ConsumerProtocolTopicPartitions {
            topic: String::new(),
            partitions: Vec::new(),
        }
    }
}

/// What a [`ConsumerProtocolTopicPartitions`] holds.
pub struct ConsumerProtocolTopicPartitionsView {
    /// Topic name. The classic protocol carries names only, never topic IDs.
    pub topic: Seq<char>,
    /// Partition indices, in the order the peer wrote them.
    pub partitions: Seq<i32>,
}

impl View for ConsumerProtocolTopicPartitions {
    type V = ConsumerProtocolTopicPartitionsView;

    open spec fn view(&self) -> ConsumerProtocolTopicPartitionsView {
        ConsumerProtocolTopicPartitionsView {
            topic: self.topic@,
            partitions: views(self.partitions@),
        }
    }
}

/// A decoded `ConsumerProtocolSubscription` - what a member asked for.
#[derive(Debug, Clone, PartialEq, Eq)]
pub struct ConsumerProtocolSubscription {
    /// Version the peer wrote, verbatim. May exceed
    /// [`CONSUMER_PROTOCOL_MAX_VERSION`], in which case the fields below were
    /// parsed with the newest known schema.
    pub version: i16,
    /// Topics the member subscribes to.
    pub topics: Vec<String>,
    /// Assignor-private state. Opaque to everyone but the assignor that wrote
    /// it - the sticky assignors keep their previous assignment here.
    pub user_data: Option<Bytes>,
    /// Partitions the member reports still owning (v1+).
    ///
    /// This is the member's *claim*, which is what cooperative rebalancing
    /// needs in order to revoke before reassigning. It is not necessarily what
    /// the last assignment granted.
    pub owned_partitions: Vec<ConsumerProtocolTopicPartitions>,
    /// Generation the member believes it is in (v2+), or `-1` when absent.
    pub generation_id: i32,
    /// Rack the member runs in (v3+), for rack-aware assignment.
    pub rack_id: Option<String>,
}

impl Default for ConsumerProtocolSubscription {
    fn default() -> (r: Self)
        ensures
            r.version == 0,
            r.topics@.len() == 0,
            r.user_data is None,
            r.owned_partitions@.len() == 0,
            r.generation_id == -1,
            r.rack_id is None,
    {
        ConsumerProtocolSubscription {
            version: 0,
            topics: Vec::new(),
            user_data: None,
            owned_partitions: Vec::new(),
            generation_id: -1,
            rack_id: None,
        }
    }
}

/// What a [`ConsumerProtocolSubscription`] holds.
pub struct ConsumerProtocolSubscriptionView {
    /// Version the peer wrote, verbatim.
    pub version: i16,
    /// Topics the member subscribes to.
    pub topics: Seq<Seq<char>>,
    /// Assignor-private state, opaque to everyone but the assignor that wrote it.
    pub user_data: Option<Seq<u8>>,
    /// Partitions the member reports still owning (v1+).
    pub owned_partitions: Seq<ConsumerProtocolTopicPartitionsView>,
    /// Generation the member believes it is in (v2+), or `-1` when absent.
    pub generation_id: i32,
    /// Rack the member runs in (v3+), for rack-aware assignment.
    pub rack_id: Option<Seq<char>>,
}

impl View for ConsumerProtocolSubscription {
    type V = ConsumerProtocolSubscriptionView;

    open spec fn view(&self) -> ConsumerProtocolSubscriptionView {
        ConsumerProtocolSubscriptionView {
            version: self.version,
            topics: views(self.topics@),
            user_data: optional_bytes(self.user_data),
            owned_partitions: views(self.owned_partitions@),
            generation_id: self.generation_id,
            rack_id: optional_text(self.rack_id),
        }
    }
}

/// A decoded `ConsumerProtocolAssignment` - what the leader decided.
#[derive(Debug, Clone, PartialEq, Eq)]
pub struct ConsumerProtocolAssignment {
    /// Version the leader wrote, verbatim.
    pub version: i16,
    /// Partitions assigned to the member.
    pub assigned_partitions: Vec<ConsumerProtocolTopicPartitions>,
    /// Assignor-private state, opaque to the member.
    pub user_data: Option<Bytes>,
}

impl Default for ConsumerProtocolAssignment {
    fn default() -> (r: Self)
        ensures
            r.version == 0,
            r.assigned_partitions@.len() == 0,
            r.user_data is None,
    {
        ConsumerProtocolAssignment {
            version: 0,
            assigned_partitions: Vec::new(),
            user_data: None,
        }
    }
}

/// What a [`ConsumerProtocolAssignment`] holds.
pub struct ConsumerProtocolAssignmentView {
    /// Version the leader wrote, verbatim.
    pub version: i16,
    /// Partitions assigned to the member.
    pub assigned_partitions: Seq<ConsumerProtocolTopicPartitionsView>,
    /// Assignor-private state, opaque to the member.
    pub user_data: Option<Seq<u8>>,
}

impl View for ConsumerProtocolAssignment {
    type V = ConsumerProtocolAssignmentView;

    open spec fn view(&self) -> ConsumerProtocolAssignmentView {
        ConsumerProtocolAssignmentView {
            version: self.version,
            assigned_partitions: views(self.assigned_partitions@),
            user_data: optional_bytes(self.user_data),
        }
    }
}

impl ConsumerProtocolSubscription {
    /// A v0 subscription: topics only.
    pub fn new(topics: Vec<String>) -> (r: Self)
        ensures
            r.version == 0,
            r.topics == topics,
            r.user_data is None,
            r.owned_partitions@.len() == 0,
            r.generation_id == -1,
            r.rack_id is None,
    {
        ConsumerProtocolSubscription {
            version: 0,
            topics,
            user_data: None,
            owned_partitions: Vec::new(),
            generation_id: -1,
            rack_id: None,
        }
    }
}

impl ConsumerProtocolSubscription {
    /// Report owned partitions, raising the version to v1 if needed.
    ///
    /// Cooperative assignors need this: without it the leader cannot tell what
    /// to revoke and must fall back to revoking everything.
    #[must_use]
    pub fn with_owned_partitions(
        self,
        owned_partitions: Vec<ConsumerProtocolTopicPartitions>,
    ) -> (r: Self)
        ensures
            r == (ConsumerProtocolSubscription {
                version: if self.version < 1 {
                    1
                } else {
                    self.version
                },
                owned_partitions,
                ..self
            }),
    {
        let mut raised = self;
        raised.owned_partitions = owned_partitions;
        if raised.version < CONSUMER_PROTOCOL_V1 {
            raised.version = CONSUMER_PROTOCOL_V1;
        }
        raised
    }

    /// Report the member's generation, raising the version to v2 if needed.
    #[must_use]
    pub fn with_generation_id(self, generation_id: i32) -> (r: Self)
        ensures
            r == (ConsumerProtocolSubscription {
                version: if self.version < 2 {
                    2
                } else {
                    self.version
                },
                generation_id,
                ..self
            }),
    {
        let mut raised = self;
        raised.generation_id = generation_id;
        if raised.version < CONSUMER_PROTOCOL_V2 {
            raised.version = CONSUMER_PROTOCOL_V2;
        }
        raised
    }

    /// Report the member's rack, raising the version to v3 if needed.
    #[must_use]
    pub fn with_rack_id(self, rack_id: &str) -> (r: Self)
        ensures
            r == (ConsumerProtocolSubscription {
                version: if self.version < 3 {
                    3
                } else {
                    self.version
                },
                rack_id: r.rack_id,
                ..self
            }),
            optional_text(r.rack_id) == Some(rack_id@),
    {
        let mut raised = self;
        raised.rack_id = Some(rack_id.to_owned());
        if raised.version < CONSUMER_PROTOCOL_V3 {
            raised.version = CONSUMER_PROTOCOL_V3;
        }
        raised
    }
}

impl ConsumerProtocolAssignment {
    /// An assignment at the given version.
    pub fn new(version: i16, assigned_partitions: Vec<ConsumerProtocolTopicPartitions>) -> (r: Self)
        ensures
            r.version == version,
            r.assigned_partitions == assigned_partitions,
            r.user_data is None,
    {
        ConsumerProtocolAssignment {
            version,
            assigned_partitions,
            user_data: None,
        }
    }
}

/// The format of both structures.
pub open spec fn blob_format() -> Format {
    Format { version: 0, flexible: false }
}

/// The version at the front of a blob, which must not be negative.
pub open spec fn read_version(r: Reader, what: &'static str) -> (i16, Reader) {
    let (version, r) = r.i16();
    if version < 0 {
        (
            version,
            r.raise(
                KrafkaError::Protocol(
                    ProtocolErrorKind::Malformed,
                    Reason::NamedNumber(what, " has negative version ", version as i64),
                ),
            ),
        )
    } else {
        (version, r)
    }
}

/// A topic name, which must not be null.
pub open spec fn read_topic_name(r: Reader, what: &'static str) -> (Seq<char>, Reader) {
    let (name, r) = r.nullable_string(false);
    match name {
        Some(name) => (name, r),
        None => (
            Seq::empty(),
            r.raise(
                KrafkaError::Protocol(
                    ProtocolErrorKind::Malformed,
                    Reason::Named("null topic name in ", what),
                ),
            ),
        ),
    }
}

/// The first `n` topic names of an array.
pub open spec fn read_topic_names(r: Reader, what: &'static str, n: nat) -> (
    Seq<Seq<char>>,
    Reader,
)
    decreases n,
{
    if n == 0 || r.failed() {
        (Seq::empty(), r)
    } else {
        let (names, r) = read_topic_names(r, what, (n - 1) as nat);
        if r.failed() {
            (names, r)
        } else {
            let (name, r) = read_topic_name(r, what);
            (names.push(name), r)
        }
    }
}

/// One topic and its partitions.
pub open spec fn read_entry(r: Reader, what: &'static str) -> (
    ConsumerProtocolTopicPartitionsView,
    Reader,
) {
    let (topic, r) = read_topic_name(r, what);
    let (partitions, r) = r.array::<i32>(blob_format());
    (ConsumerProtocolTopicPartitionsView { topic, partitions }, r)
}

/// The first `n` topics and their partitions of an array.
pub open spec fn read_entries(r: Reader, what: &'static str, n: nat) -> (
    Seq<ConsumerProtocolTopicPartitionsView>,
    Reader,
)
    decreases n,
{
    if n == 0 || r.failed() {
        (Seq::empty(), r)
    } else {
        let (entries, r) = read_entries(r, what, (n - 1) as nat);
        if r.failed() {
            (entries, r)
        } else {
            let (entry, r) = read_entry(r, what);
            (entries.push(entry), r)
        }
    }
}

/// An array of topics and their partitions.
pub open spec fn read_topic_partitions(r: Reader, what: &'static str) -> (
    Seq<ConsumerProtocolTopicPartitionsView>,
    Reader,
) {
    let (n, r) = r.array_len(false);
    read_entries(r, what, n)
}

/// The subscription at the front of a reader. The fields that the version does not
/// have are empty, and the generation is `-1`.
pub open spec fn read_subscription(r: Reader) -> (ConsumerProtocolSubscriptionView, Reader) {
    let (version, r) = read_version(r, "ConsumerProtocolSubscription");
    let (n, r) = r.array_len(false);
    let (topics, r) = read_topic_names(r, "subscription topic", n);
    let (user_data, r) = r.nullable_bytes(false);
    let (owned_partitions, r) = if version >= 1 {
        read_topic_partitions(r, "owned partitions")
    } else {
        (Seq::empty(), r)
    };
    let (generation_id, r) = if version >= 2 {
        r.i32()
    } else {
        ((-1) as i32, r)
    };
    let (rack_id, r) = if version >= 3 {
        r.nullable_string(false)
    } else {
        (None, r)
    };
    let value = ConsumerProtocolSubscriptionView {
        version,
        topics,
        user_data,
        owned_partitions,
        generation_id,
        rack_id,
    };
    (value, r)
}

/// The assignment at the front of a reader.
pub open spec fn read_assignment(r: Reader) -> (ConsumerProtocolAssignmentView, Reader) {
    let (version, r) = read_version(r, "ConsumerProtocolAssignment");
    let (assigned_partitions, r) = read_topic_partitions(r, "assigned partitions");
    let (user_data, r) = r.nullable_bytes(false);
    (ConsumerProtocolAssignmentView { version, assigned_partitions, user_data }, r)
}

/// The subscription that an empty blob stands for.
pub open spec fn empty_subscription() -> ConsumerProtocolSubscriptionView {
    ConsumerProtocolSubscriptionView {
        version: 0,
        topics: Seq::empty(),
        user_data: None,
        owned_partitions: Seq::empty(),
        generation_id: (-1) as i32,
        rack_id: None,
    }
}

/// The assignment that an empty blob stands for.
pub open spec fn empty_assignment() -> ConsumerProtocolAssignmentView {
    ConsumerProtocolAssignmentView {
        version: 0,
        assigned_partitions: Seq::empty(),
        user_data: None,
    }
}

/// What decoding a subscription gives: the value, or the first error.
pub open spec fn subscription_in(blob: Seq<u8>) -> Result<ConsumerProtocolSubscriptionView> {
    if blob.len() == 0 {
        Ok(empty_subscription())
    } else {
        let (value, r) = read_subscription(Reader::on(blob));
        match r.failure {
            None => Ok(value),
            Some(e) => Err(e),
        }
    }
}

/// What decoding an assignment gives: the value, or the first error.
pub open spec fn assignment_in(blob: Seq<u8>) -> Result<ConsumerProtocolAssignmentView> {
    if blob.len() == 0 {
        Ok(empty_assignment())
    } else {
        let (value, r) = read_assignment(Reader::on(blob));
        match r.failure {
            None => Ok(value),
            Some(e) => Err(e),
        }
    }
}

/// Decode a `ConsumerProtocolSubscription` blob.
///
/// The source is `JoinGroup` protocol metadata or `DescribeGroups`
/// `member_metadata`. An empty blob decodes to an empty subscription; see the
/// module docs for why that is not an error.
///
/// # Errors
///
/// Returns [`ProtocolErrorKind::Malformed`] for a negative version and
/// [`ProtocolErrorKind::TruncatedFrame`] for a blob that ends mid-field. The
/// blob is written by another client, so callers that describe a whole group
/// should degrade one bad member rather than failing the call.
pub fn decode_consumer_protocol_subscription(data: &Bytes) -> (res: Result<
    ConsumerProtocolSubscription,
>)
    ensures
        result_view(res) == subscription_in(data@),
{
    if remaining(data) == 0 {
        let empty = ConsumerProtocolSubscription::default();
        assert(views(empty.topics@) =~= Seq::<Seq<char>>::empty());
        assert(views(empty.owned_partitions@) =~= Seq::<
            ConsumerProtocolTopicPartitionsView,
        >::empty());
        return Ok(empty);
    }
    let mut buf = data.clone();
    let version = decode_version("ConsumerProtocolSubscription", &mut buf)?;
    let n = read_array_len(false, &mut buf)?;
    let topics = decode_topic_names("subscription topic", n, &mut buf)?;
    let user_data = read_nullable_bytes(false, &mut buf)?;
    let owned_partitions: Vec<ConsumerProtocolTopicPartitions> = if version
        >= CONSUMER_PROTOCOL_V1 {
        decode_topic_partitions("owned partitions", &mut buf)?
    } else {
        no_items()
    };
    let generation_id: i32 = if version >= CONSUMER_PROTOCOL_V2 {
        read_i32(&mut buf)?
    } else {
        -1
    };
    let rack_id: Option<String> = if version >= CONSUMER_PROTOCOL_V3 {
        read_nullable_string(false, &mut buf)?
    } else {
        None
    };
    Ok(
        ConsumerProtocolSubscription {
            version,
            topics,
            user_data,
            owned_partitions,
            generation_id,
            rack_id,
        },
    )
}

/// Decode a `ConsumerProtocolAssignment` blob.
///
/// The source is a `SyncGroup` response or `DescribeGroups`
/// `member_assignment`. An empty blob decodes to an empty assignment: that is
/// what the coordinator stores for a member that has joined but not yet
/// completed a rebalance.
///
/// # Errors
///
/// As [`decode_consumer_protocol_subscription`].
pub fn decode_consumer_protocol_assignment(data: &Bytes) -> (res: Result<
    ConsumerProtocolAssignment,
>)
    ensures
        result_view(res) == assignment_in(data@),
{
    if remaining(data) == 0 {
        let empty = ConsumerProtocolAssignment::default();
        assert(views(empty.assigned_partitions@) =~= Seq::<
            ConsumerProtocolTopicPartitionsView,
        >::empty());
        return Ok(empty);
    }
    let mut buf = data.clone();
    let version = decode_version("ConsumerProtocolAssignment", &mut buf)?;
    // Every assignment version carries the same two fields, so there is no
    // version-gated field to skip here.
    let assigned_partitions = decode_topic_partitions("assigned partitions", &mut buf)?;
    let user_data = read_nullable_bytes(false, &mut buf)?;
    Ok(ConsumerProtocolAssignment { version, assigned_partitions, user_data })
}

/// Read and validate the leading version header.
fn decode_version(what: &'static str, buf: &mut Bytes) -> (res: Result<i16>)
    ensures
        decoded(res, final(buf)@, read_version(Reader::on(old(buf)@), what)),
{
    let version = read_i16(buf)?;
    if version < 0 {
        return Err(
            KrafkaError::Protocol(
                ProtocolErrorKind::Malformed,
                Reason::NamedNumber(what, " has negative version ", version as i64),
            ),
        );
    }
    Ok(version)
}

/// A topic name inside either structure is non-nullable.
fn decode_topic_name(what: &'static str, buf: &mut Bytes) -> (res: Result<String>)
    ensures
        decoded(result_view(res), final(buf)@, read_topic_name(Reader::on(old(buf)@), what)),
{
    match read_nullable_string(false, buf)? {
        Some(name) => Ok(name),
        None => Err(
            KrafkaError::Protocol(
                ProtocolErrorKind::Malformed,
                Reason::Named("null topic name in ", what),
            ),
        ),
    }
}

/// An error among the first names is the error of the whole array.
proof fn lemma_names_failed(r: Reader, what: &'static str, k: nat, n: nat)
    requires
        k <= n,
        read_topic_names(r, what, k).1.failed(),
    ensures
        read_topic_names(r, what, n).1 == read_topic_names(r, what, k).1,
    decreases n,
{
    if k < n {
        lemma_names_failed(r, what, k, (n - 1) as nat);
    }
}

/// Decode the first `n` topic names of an array.
fn decode_topic_names(what: &'static str, n: usize, buf: &mut Bytes) -> (res: Result<Vec<String>>)
    ensures
        ({
            let (names, r) = read_topic_names(Reader::on(old(buf)@), what, n as nat);
            &&& final(buf)@ == r.rest
            &&& match res {
                Ok(x) => r.failure is None && views(x@) == names,
                Err(e) => r.failure == Some(e),
            }
        }),
{
    let mut out: Vec<String> = Vec::new();
    let mut i: usize = 0;
    assert(views(out@) =~= Seq::<Seq<char>>::empty());
    while i < n
        invariant
            i <= n,
            read_topic_names(Reader::on(old(buf)@), what, i as nat) == (
                views(out@),
                Reader::on(buf@),
            ),
        decreases n - i,
    {
        let ghost before = out@;
        match decode_topic_name(what, buf) {
            Err(e) => {
                proof {
                    lemma_names_failed(Reader::on(old(buf)@), what, (i + 1) as nat, n as nat);
                }
                return Err(e);
            },
            Ok(name) => {
                out.push(name);
                assert(views(out@) =~= views(before).push(name@));
            },
        }
        i = i + 1;
    }
    Ok(out)
}

/// An error among the first entries is the error of the whole array.
proof fn lemma_entries_failed(r: Reader, what: &'static str, k: nat, n: nat)
    requires
        k <= n,
        read_entries(r, what, k).1.failed(),
    ensures
        read_entries(r, what, n).1 == read_entries(r, what, k).1,
    decreases n,
{
    if k < n {
        lemma_entries_failed(r, what, k, (n - 1) as nat);
    }
}

/// Decode one topic and its partitions.
fn decode_entry(what: &'static str, buf: &mut Bytes) -> (res: Result<
    ConsumerProtocolTopicPartitions,
>)
    ensures
        decoded(result_view(res), final(buf)@, read_entry(Reader::on(old(buf)@), what)),
{
    let topic = decode_topic_name(what, buf)?;
    let partitions = read_array::<i32>(Format::plain(0), buf)?;
    Ok(ConsumerProtocolTopicPartitions { topic, partitions })
}

/// Decode the `[ topic: string, partitions: [int32] ]` array both structures
/// use.
fn decode_topic_partitions(what: &'static str, buf: &mut Bytes) -> (res: Result<
    Vec<ConsumerProtocolTopicPartitions>,
>)
    ensures
        ({
            let (entries, r) = read_topic_partitions(Reader::on(old(buf)@), what);
            &&& final(buf)@ == r.rest
            &&& match res {
                Ok(x) => r.failure is None && views(x@) == entries,
                Err(e) => r.failure == Some(e),
            }
        }),
{
    let n = read_array_len(false, buf)?;
    let ghost start = Reader::on(buf@);
    let mut out: Vec<ConsumerProtocolTopicPartitions> = Vec::new();
    let mut i: usize = 0;
    assert(views(out@) =~= Seq::<ConsumerProtocolTopicPartitionsView>::empty());
    while i < n
        invariant
            i <= n,
            read_topic_partitions(Reader::on(old(buf)@), what) == read_entries(
                start,
                what,
                n as nat,
            ),
            read_entries(start, what, i as nat) == (views(out@), Reader::on(buf@)),
        decreases n - i,
    {
        let ghost before = out@;
        match decode_entry(what, buf) {
            Err(e) => {
                proof {
                    lemma_entries_failed(start, what, (i + 1) as nat, n as nat);
                }
                return Err(e);
            },
            Ok(entry) => {
                out.push(entry);
                assert(views(out@) =~= views(before).push(entry@));
            },
        }
        i = i + 1;
    }
    Ok(out)
}

impl WireEncode for ConsumerProtocolTopicPartitions {
    open spec fn written(&self, f: Format, w: Writer) -> Writer {
        w.string(self.topic@, f.flexible).array(self.partitions@, f)
    }

    proof fn lemma_grows(&self, f: Format, w: Writer) {
        broadcast use group_grows;

    }

    proof fn law_appends(&self, f: Format, w: Writer) {
        broadcast use group_appends;

    }

    fn encode_wire(&self, f: Format, buf: &mut BytesMut) -> (res: Result<()>) {
        broadcast use group_grows;

        write_string(self.topic.as_str(), f.flexible, buf)?;
        write_array(&self.partitions, f, buf)
    }
}

/// The error of a value that its version cannot carry.
pub open spec fn invalid_length(text: &'static str) -> KrafkaError {
    KrafkaError::Protocol(ProtocolErrorKind::InvalidLength, Reason::Text(text))
}

/// The error of a version that is negative.
pub open spec fn negative_version(text: &'static str, version: i16) -> KrafkaError {
    KrafkaError::Protocol(
        ProtocolErrorKind::InvalidLength,
        Reason::NumberThen(text, version as i64, " is negative"),
    )
}

impl ConsumerProtocolSubscription {
    /// Why the subscription cannot be encoded at its own version, if so.
    pub open spec fn refused(self) -> Option<KrafkaError> {
        if self.version < 0 {
            Some(negative_version("ConsumerProtocolSubscription version ", self.version))
        } else if self.version < 1 && self.owned_partitions@.len() > 0 {
            Some(invalid_length("owned partitions need ConsumerProtocolSubscription v1 or newer"))
        } else if self.version < 2 && self.generation_id != -1 {
            Some(invalid_length("generation_id needs ConsumerProtocolSubscription v2 or newer"))
        } else if self.version < 3 && self.rack_id is Some {
            Some(invalid_length("rack_id needs ConsumerProtocolSubscription v3 or newer"))
        } else {
            None
        }
    }

    /// The writer behind the subscription.
    pub open spec fn written_blob(self, w: Writer) -> Writer {
        let w = match self.refused() {
            Some(e) => w.raise(e),
            None => w,
        };
        let w = w.i16(self.version);
        let w = w.array(self.topics@, blob_format());
        let w = w.nullable_bytes(optional_bytes(self.user_data), false);
        let w = if self.version >= 1 {
            w.array(self.owned_partitions@, blob_format())
        } else {
            w
        };
        let w = if self.version >= 2 {
            w.i32(self.generation_id)
        } else {
            w
        };
        if self.version >= 3 {
            w.nullable_string(optional_text(self.rack_id), false)
        } else {
            w
        }
    }
}

impl ConsumerProtocolAssignment {
    /// The writer behind the assignment.
    pub open spec fn written_blob(self, w: Writer) -> Writer {
        let w = if self.version < 0 {
            w.raise(negative_version("ConsumerProtocolAssignment version ", self.version))
        } else {
            w
        };
        let w = w.i16(self.version);
        let w = w.array(self.assigned_partitions@, blob_format());
        w.nullable_bytes(optional_bytes(self.user_data), false)
    }
}

/// Encode a `ConsumerProtocolSubscription` at its own [`version`].
///
/// Topics and owned partitions are written in the order given; the consumer
/// sorts them so the broker does not see a spurious metadata change between
/// generations.
///
/// # Errors
///
/// Returns [`ProtocolErrorKind::InvalidLength`] if a field cannot be
/// represented (an array longer than `i32::MAX`, a topic name longer than
/// `i16::MAX`) or if the subscription carries a field its own version cannot
/// encode. The latter would otherwise drop data silently: a v0 subscription has
/// nowhere to put owned partitions.
///
/// [`version`]: ConsumerProtocolSubscription::version
pub fn encode_consumer_protocol_subscription(
    subscription: &ConsumerProtocolSubscription,
    buf: &mut BytesMut,
) -> (res: Result<()>)
    requires
        fits(subscription.written_blob(Writer::at(old(buf)@))),
    ensures
        encoded(res, final(buf)@, subscription.written_blob(Writer::at(old(buf)@))),
{
    broadcast use group_grows;

    let version = subscription.version;
    if version < 0 {
        return Err(
            KrafkaError::Protocol(
                ProtocolErrorKind::InvalidLength,
                Reason::NumberThen(
                    "ConsumerProtocolSubscription version ",
                    version as i64,
                    " is negative",
                ),
            ),
        );
    }
    if version < CONSUMER_PROTOCOL_V1 && subscription.owned_partitions.len() > 0 {
        return Err(
            KrafkaError::Protocol(
                ProtocolErrorKind::InvalidLength,
                Reason::Text("owned partitions need ConsumerProtocolSubscription v1 or newer"),
            ),
        );
    }
    if version < CONSUMER_PROTOCOL_V2 && subscription.generation_id != -1 {
        return Err(
            KrafkaError::Protocol(
                ProtocolErrorKind::InvalidLength,
                Reason::Text("generation_id needs ConsumerProtocolSubscription v2 or newer"),
            ),
        );
    }
    if version < CONSUMER_PROTOCOL_V3 && subscription.rack_id.is_some() {
        return Err(
            KrafkaError::Protocol(
                ProtocolErrorKind::InvalidLength,
                Reason::Text("rack_id needs ConsumerProtocolSubscription v3 or newer"),
            ),
        );
    }
    write_i16(version, buf);
    write_array(&subscription.topics, Format::plain(0), buf)?;
    write_nullable_bytes(&subscription.user_data, false, buf)?;
    if version >= CONSUMER_PROTOCOL_V1 {
        write_array(&subscription.owned_partitions, Format::plain(0), buf)?;
    }
    if version >= CONSUMER_PROTOCOL_V2 {
        write_i32(subscription.generation_id, buf);
    }
    if version >= CONSUMER_PROTOCOL_V3 {
        write_nullable_string(&subscription.rack_id, false, buf)?;
    }
    Ok(())
}

/// Encode a `ConsumerProtocolAssignment` at its own version.
///
/// # Errors
///
/// Returns [`ProtocolErrorKind::InvalidLength`] for a negative version or a
/// field too large for the wire format.
pub fn encode_consumer_protocol_assignment(
    assignment: &ConsumerProtocolAssignment,
    buf: &mut BytesMut,
) -> (res: Result<()>)
    requires
        fits(assignment.written_blob(Writer::at(old(buf)@))),
    ensures
        encoded(res, final(buf)@, assignment.written_blob(Writer::at(old(buf)@))),
{
    broadcast use group_grows;

    if assignment.version < 0 {
        return Err(
            KrafkaError::Protocol(
                ProtocolErrorKind::InvalidLength,
                Reason::NumberThen(
                    "ConsumerProtocolAssignment version ",
                    assignment.version as i64,
                    " is negative",
                ),
            ),
        );
    }
    write_i16(assignment.version, buf);
    write_array(&assignment.assigned_partitions, Format::plain(0), buf)?;
    write_nullable_bytes(&assignment.user_data, false, buf)
}

/// Whether no error was met but that a field has no place on the wire.
pub open spec fn only_lengths(w: Writer) -> bool {
    w.failure matches Some(e) ==> e matches KrafkaError::Protocol(
        ProtocolErrorKind::InvalidLength,
        _,
    )
}

/// The only error of a text is its length.
proof fn lemma_string_length(w: Writer, s: Option<Seq<char>>)
    requires
        only_lengths(w),
    ensures
        only_lengths(w.nullable_string(s, false)),
{
    reveal(Writer::nullable_string);
}

/// The only error of a count is its size.
proof fn lemma_array_length(w: Writer, n: nat)
    requires
        only_lengths(w),
    ensures
        only_lengths(w.array_len(n, false)),
{
    reveal(Writer::array_len);
}

/// The only error of topic names is a length.
proof fn lemma_names_length(w: Writer, names: Seq<String>, n: nat)
    requires
        only_lengths(w),
    ensures
        only_lengths(w.items(names, blob_format(), n)),
    decreases n,
{
    if n > 0 {
        lemma_names_length(w, names, (n - 1) as nat);
        lemma_string_length(w.items(names, blob_format(), (n - 1) as nat), Some(names[n - 1]@));
    }
}

/// Partition numbers meet no error.
proof fn lemma_numbers_length(w: Writer, numbers: Seq<i32>, n: nat)
    requires
        only_lengths(w),
    ensures
        only_lengths(w.items(numbers, blob_format(), n)),
    decreases n,
{
    if n > 0 {
        lemma_numbers_length(w, numbers, (n - 1) as nat);
    }
}

/// The only error of topics and their partitions is a length.
proof fn lemma_entries_length(
    w: Writer,
    entries: Seq<ConsumerProtocolTopicPartitions>,
    n: nat,
)
    requires
        only_lengths(w),
    ensures
        only_lengths(w.items(entries, blob_format(), n)),
    decreases n,
{
    if n > 0 {
        lemma_entries_length(w, entries, (n - 1) as nat);
        let before = w.items(entries, blob_format(), (n - 1) as nat);
        let entry = entries[n - 1];
        let named = before.string(entry.topic@, false);
        let len = entry.partitions@.len();
        lemma_string_length(before, Some(entry.topic@));
        lemma_array_length(named, len);
        lemma_numbers_length(named.array_len(len, false), entry.partitions@, len);
    }
}

/// The only error of user data is its length, and data that is too long for its
/// length prefix meets one.
proof fn lemma_user_data_length(w: Writer, user_data: Option<Seq<u8>>)
    requires
        only_lengths(w),
    ensures
        only_lengths(w.nullable_bytes(user_data, false)),
        user_data matches Some(data) ==> data.len() > i32::MAX ==> w.nullable_bytes(
            user_data,
            false,
        ).failed(),
{
    reveal(Writer::nullable_bytes);
}

/// A subscription is refused only for a field that cannot be represented, and user
/// data that is too long for its length prefix is refused, never dropped.
pub proof fn law_subscription_refusals(subscription: ConsumerProtocolSubscription, w: Writer)
    requires
        !w.failed(),
    ensures
        only_lengths(subscription.written_blob(w)),
        optional_bytes(subscription.user_data) matches Some(data) ==> data.len() > i32::MAX
            ==> subscription.written_blob(w).failed(),
{
    broadcast use group_grows;

    let w1 = match subscription.refused() {
        Some(e) => w.raise(e),
        None => w,
    };
    let w2 = w1.i16(subscription.version);
    let n = subscription.topics@.len();
    lemma_array_length(w2, n);
    lemma_names_length(w2.array_len(n, false), subscription.topics@, n);
    let w3 = w2.array(subscription.topics@, blob_format());
    lemma_user_data_length(w3, optional_bytes(subscription.user_data));
    let w4 = w3.nullable_bytes(optional_bytes(subscription.user_data), false);
    let len = subscription.owned_partitions@.len();
    lemma_array_length(w4, len);
    lemma_entries_length(w4.array_len(len, false), subscription.owned_partitions@, len);
    let w5 = if subscription.version >= 1 {
        w4.array(subscription.owned_partitions@, blob_format())
    } else {
        w4
    };
    let w6 = if subscription.version >= 2 {
        w5.i32(subscription.generation_id)
    } else {
        w5
    };
    lemma_string_length(w6, optional_text(subscription.rack_id));
}

/// An assignment is refused only for a field that cannot be represented, and user
/// data that is too long for its length prefix is refused, never dropped.
pub proof fn law_assignment_refusals(assignment: ConsumerProtocolAssignment, w: Writer)
    requires
        !w.failed(),
    ensures
        only_lengths(assignment.written_blob(w)),
        optional_bytes(assignment.user_data) matches Some(data) ==> data.len() > i32::MAX
            ==> assignment.written_blob(w).failed(),
{
    let w1 = if assignment.version < 0 {
        w.raise(negative_version("ConsumerProtocolAssignment version ", assignment.version))
    } else {
        w
    };
    let w2 = w1.i16(assignment.version);
    let len = assignment.assigned_partitions@.len();
    lemma_array_length(w2, len);
    lemma_entries_length(w2.array_len(len, false), assignment.assigned_partitions@, len);
    let w3 = w2.array(assignment.assigned_partitions@, blob_format());
    lemma_user_data_length(w3, optional_bytes(assignment.user_data));
}

/// The first topic names are read back.
proof fn lemma_names_round_trip(
    w: Writer,
    names: Seq<String>,
    what: &'static str,
    n: nat,
    total: Seq<u8>,
)
    requires
        !w.failed(),
        n <= names.len(),
        begins(total, w.items(names, blob_format(), n)),
    ensures
        begins(total, w),
        read_topic_names(behind(total, w), what, n) == (
            views(names).take(n as int),
            behind(total, w.items(names, blob_format(), n)),
        ),
    decreases n,
{
    if n == 0 {
        assert(views(names).take(0) =~= Seq::empty());
    } else {
        let before = w.items(names, blob_format(), (n - 1) as nat);
        law_nullable_string_round_trip(before, Some(names[n - 1]@), false, total);
        lemma_names_round_trip(w, names, what, (n - 1) as nat, total);
        assert(views(names).take(n as int) =~= views(names).take(n - 1).push(names[n - 1]@));
    }
}

/// The first topics and their partitions are read back.
proof fn lemma_entries_round_trip(
    w: Writer,
    entries: Seq<ConsumerProtocolTopicPartitions>,
    what: &'static str,
    n: nat,
    total: Seq<u8>,
)
    requires
        !w.failed(),
        n <= entries.len(),
        begins(total, w.items(entries, blob_format(), n)),
    ensures
        begins(total, w),
        read_entries(behind(total, w), what, n) == (
            views(entries).take(n as int),
            behind(total, w.items(entries, blob_format(), n)),
        ),
    decreases n,
{
    if n == 0 {
        assert(views(entries).take(0) =~= Seq::empty());
    } else {
        broadcast use group_grows;

        let f = blob_format();
        let before = w.items(entries, f, (n - 1) as nat);
        let entry = entries[n - 1];
        let named = before.string(entry.topic@, false);
        assert(!named.failed());
        law_array_round_trip(named, entry.partitions@, f, total);
        law_nullable_string_round_trip(before, Some(entry.topic@), false, total);
        lemma_entries_round_trip(w, entries, what, (n - 1) as nat, total);
        assert(views(entries).take(n as int) =~= views(entries).take(n - 1).push(entry@));
    }
}

/// An array of topics and their partitions is read back.
proof fn lemma_topic_partitions_round_trip(
    w: Writer,
    entries: Seq<ConsumerProtocolTopicPartitions>,
    what: &'static str,
    total: Seq<u8>,
)
    requires
        !w.failed(),
        begins(total, w.array(entries, blob_format())),
    ensures
        begins(total, w),
        read_topic_partitions(behind(total, w), what) == (
            views(entries),
            behind(total, w.array(entries, blob_format())),
        ),
{
    let counted = w.array_len(entries.len(), false);
    assert(!counted.failed());
    lemma_entries_round_trip(counted, entries, what, entries.len(), total);
    law_array_len_round_trip(w, entries.len(), false, total);
    assert(views(entries).take(entries.len() as int) =~= views(entries));
}

/// Decoding what encoding a subscription wrote gives the subscription back, at
/// every version, whatever bytes follow.
pub proof fn law_subscription_round_trip(
    subscription: ConsumerProtocolSubscription,
    trailing: Seq<u8>,
)
    requires
        !subscription.written_blob(Writer::at(Seq::empty())).failed(),
    ensures
        subscription_in(
            subscription.written_blob(Writer::at(Seq::empty())).bytes + trailing,
        ) == Ok::<ConsumerProtocolSubscriptionView, KrafkaError>(subscription@),
{
    broadcast use group_grows;

    let f = blob_format();
    let w0 = Writer::at(Seq::empty());
    let w1 = w0.i16(subscription.version);
    let w2 = w1.array(subscription.topics@, f);
    let w3 = w2.nullable_bytes(optional_bytes(subscription.user_data), false);
    let w4 = if subscription.version >= 1 {
        w3.array(subscription.owned_partitions@, f)
    } else {
        w3
    };
    let w5 = if subscription.version >= 2 {
        w4.i32(subscription.generation_id)
    } else {
        w4
    };
    let w6 = if subscription.version >= 3 {
        w5.nullable_string(optional_text(subscription.rack_id), false)
    } else {
        w5
    };
    assert(subscription.refused() is None);
    assert(w6 == subscription.written_blob(w0));
    let total = w6.bytes + trailing;
    assert(total.take(w6.bytes.len() as int) =~= w6.bytes);
    if subscription.version >= 3 {
        law_nullable_string_round_trip(w5, optional_text(subscription.rack_id), false, total);
    }
    if subscription.version >= 2 {
        law_i32_round_trip(w4, subscription.generation_id, total);
    }
    assert(!w3.failed());
    if subscription.version >= 1 {
        lemma_topic_partitions_round_trip(
            w3,
            subscription.owned_partitions@,
            "owned partitions",
            total,
        );
    }
    law_nullable_bytes_round_trip(w2, optional_bytes(subscription.user_data), false, total);
    let counted = w1.array_len(subscription.topics@.len(), false);
    assert(!counted.failed());
    lemma_names_round_trip(
        counted,
        subscription.topics@,
        "subscription topic",
        subscription.topics@.len(),
        total,
    );
    law_array_len_round_trip(w1, subscription.topics@.len(), false, total);
    law_i16_round_trip(w0, subscription.version, total);
    assert(views(subscription.topics@).take(subscription.topics@.len() as int) =~= views(
        subscription.topics@,
    ));
    assert(total.skip(0) =~= total);
    assert(w1.bytes.len() <= w6.bytes.len());
    assert(subscription.version < 1 ==> views(subscription.owned_partitions@) =~= Seq::<
        ConsumerProtocolTopicPartitionsView,
    >::empty());
}

/// Decoding what encoding an assignment wrote gives the assignment back, at every
/// version, whatever bytes follow.
pub proof fn law_assignment_round_trip(assignment: ConsumerProtocolAssignment, trailing: Seq<u8>)
    requires
        !assignment.written_blob(Writer::at(Seq::empty())).failed(),
    ensures
        assignment_in(assignment.written_blob(Writer::at(Seq::empty())).bytes + trailing) == Ok::<
            ConsumerProtocolAssignmentView,
            KrafkaError,
        >(assignment@),
{
    broadcast use group_grows;

    let f = blob_format();
    let w0 = Writer::at(Seq::empty());
    let w1 = w0.i16(assignment.version);
    let w2 = w1.array(assignment.assigned_partitions@, f);
    let w3 = w2.nullable_bytes(optional_bytes(assignment.user_data), false);
    assert(w3 == assignment.written_blob(w0));
    let total = w3.bytes + trailing;
    assert(total.take(w3.bytes.len() as int) =~= w3.bytes);
    law_nullable_bytes_round_trip(w2, optional_bytes(assignment.user_data), false, total);
    lemma_topic_partitions_round_trip(
        w1,
        assignment.assigned_partitions@,
        "assigned partitions",
        total,
    );
    law_i16_round_trip(w0, assignment.version, total);
    assert(total.skip(0) =~= total);
}

/// Topic names are taken off the front.
proof fn lemma_names_consume(r: Reader, what: &'static str, n: nat)
    ensures
        consumes(r, read_topic_names(r, what, n).1),
    decreases n,
{
    broadcast use group_consumes;

    if n > 0 && !r.failed() {
        lemma_names_consume(r, what, (n - 1) as nat);
    }
}

/// Topics and their partitions are taken off the front.
proof fn lemma_entries_consume(r: Reader, what: &'static str, n: nat)
    ensures
        consumes(r, read_entries(r, what, n).1),
    decreases n,
{
    broadcast use group_consumes;

    if n > 0 && !r.failed() {
        lemma_entries_consume(r, what, (n - 1) as nat);
    }
}

/// What follows topic names changes nothing of them.
proof fn lemma_names_followed(r: Reader, what: &'static str, n: nat, more: Seq<u8>)
    requires
        !read_topic_names(r, what, n).1.failed(),
    ensures
        read_topic_names(r.followed_by(more), what, n) == (
            read_topic_names(r, what, n).0,
            read_topic_names(r, what, n).1.followed_by(more),
        ),
    decreases n,
{
    broadcast use group_consumes, group_followed;

    if n > 0 && !r.failed() {
        lemma_names_followed(r, what, (n - 1) as nat, more);
    }
}

/// What follows topics and their partitions changes nothing of them.
proof fn lemma_entries_followed(r: Reader, what: &'static str, n: nat, more: Seq<u8>)
    requires
        !read_entries(r, what, n).1.failed(),
    ensures
        read_entries(r.followed_by(more), what, n) == (
            read_entries(r, what, n).0,
            read_entries(r, what, n).1.followed_by(more),
        ),
    decreases n,
{
    broadcast use group_consumes, group_followed;

    if n > 0 && !r.failed() {
        lemma_entries_followed(r, what, (n - 1) as nat, more);
    }
}

/// What follows an array of topics and their partitions changes nothing of it.
proof fn lemma_topic_partitions_followed(r: Reader, what: &'static str, more: Seq<u8>)
    ensures
        consumes(r, read_topic_partitions(r, what).1),
        !read_topic_partitions(r, what).1.failed() ==> read_topic_partitions(
            r.followed_by(more),
            what,
        ) == (
            read_topic_partitions(r, what).0,
            read_topic_partitions(r, what).1.followed_by(more),
        ),
{
    broadcast use group_consumes, group_followed;

    let (n, after) = r.array_len(false);
    lemma_entries_consume(after, what, n);
    if !read_topic_partitions(r, what).1.failed() {
        lemma_entries_followed(after, what, n, more);
    }
}

/// Bytes behind a subscription are ignored.
pub proof fn law_subscription_ignores_trailing_bytes(blob: Seq<u8>, trailing: Seq<u8>)
    requires
        blob.len() > 0,
        subscription_in(blob) is Ok,
    ensures
        subscription_in(blob + trailing) == subscription_in(blob),
{
    broadcast use group_consumes, group_followed;

    let r0 = Reader::on(blob);
    let (version, r1) = read_version(r0, "ConsumerProtocolSubscription");
    let (n, r2) = r1.array_len(false);
    let (topics, r3) = read_topic_names(r2, "subscription topic", n);
    let (user_data, r4) = r3.nullable_bytes(false);
    lemma_names_consume(r2, "subscription topic", n);
    lemma_topic_partitions_followed(r4, "owned partitions", trailing);
    assert(!r3.failed());
    lemma_names_followed(r2, "subscription topic", n, trailing);
    assert(Reader::on(blob + trailing) == r0.followed_by(trailing));
}

/// Bytes behind an assignment are ignored.
pub proof fn law_assignment_ignores_trailing_bytes(blob: Seq<u8>, trailing: Seq<u8>)
    requires
        blob.len() > 0,
        assignment_in(blob) is Ok,
    ensures
        assignment_in(blob + trailing) == assignment_in(blob),
{
    broadcast use group_consumes, group_followed;

    let r0 = Reader::on(blob);
    let (version, r1) = read_version(r0, "ConsumerProtocolAssignment");
    lemma_topic_partitions_followed(r1, "assigned partitions", trailing);
    assert(Reader::on(blob + trailing) == r0.followed_by(trailing));
}

/// A version above the newest known one is read like the newest known one.
pub proof fn law_newer_versions_are_read_as_the_newest(version: i16, body: Seq<u8>)
    requires
        version >= CONSUMER_PROTOCOL_MAX_VERSION,
    ensures
        ({
            let newest = subscription_in(be_bytes_i16(CONSUMER_PROTOCOL_MAX_VERSION) + body);
            let newer = subscription_in(be_bytes_i16(version) + body);
            match newest {
                Ok(value) => newer == Ok::<ConsumerProtocolSubscriptionView, KrafkaError>(
                    ConsumerProtocolSubscriptionView { version, ..value },
                ),
                Err(e) => newer == Err::<ConsumerProtocolSubscriptionView, KrafkaError>(e),
            }
        }),
{
    law_be_i16(version, body);
    law_be_i16(CONSUMER_PROTOCOL_MAX_VERSION, body);
}

} // verus!
