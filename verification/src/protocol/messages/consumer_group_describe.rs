//! ConsumerGroupDescribe (API key 69).

use crate::buffer::{to_unsigned, Octets};
use crate::error::{ErrorCode, KrafkaError, ProtocolErrorKind, Reason, Result};
use crate::protocol::api::ApiKey;
use crate::protocol::messages::{VersionedDecode, VersionedEncode};
use crate::protocol::wire::{
    consumes, decoded, encoded, fits, group_appends, group_consumes, group_cut, group_followed,
    group_grows, lemma_moved, optional_text, read_array, read_error_code, read_i32, read_i8,
    read_nullable_string, read_string, read_string_array, read_tags, read_uuid, result_view, taken,
    views, write_array, write_bool, write_tags, Format, Reader, WireDecode, WireEncode, Writer,
};
use bytes::{Bytes, BytesMut};
use vstd::prelude::*;

verus! {

/// ConsumerGroupDescribe request (API Key 69). Flexible from v0.
#[derive(Debug, Clone)]
pub struct ConsumerGroupDescribeRequest {
    /// Group IDs to describe.
    pub group_ids: Vec<String>,
    /// Whether to include authorized operations.
    pub include_authorized_operations: bool,
}

impl ConsumerGroupDescribeRequest {
    /// Create a new request.
    pub fn new(group_ids: Vec<String>) -> (r: Self)
        ensures
            r.group_ids == group_ids,
            !r.include_authorized_operations,
    {
        Self { group_ids, include_authorized_operations: false }
    }
}

impl WireEncode for ConsumerGroupDescribeRequest {
    open spec fn written(&self, f: Format, w: Writer) -> Writer {
        let w = w.array(self.group_ids@, f);
        let w = w.bool(self.include_authorized_operations);
        w.tags(f.flexible)
    }

    proof fn lemma_grows(&self, f: Format, w: Writer) {
        broadcast use group_grows;

    }

    proof fn law_appends(&self, f: Format, w: Writer) {
        broadcast use group_appends;

    }

    fn encode_wire(&self, f: Format, buf: &mut BytesMut) -> (res: Result<()>) {
        broadcast use group_grows;

        write_array(&self.group_ids, f, buf)?;
        write_bool(self.include_authorized_operations, buf);
        write_tags(f.flexible, buf);
        Ok(())
    }
}

impl ConsumerGroupDescribeRequest {
    /// Encode for version 0-1 (flexible from v0; v1 request is same wire format as v0).
    pub fn encode_v0(&self, buf: &mut BytesMut) -> (res: Result<()>)
        requires
            fits(self.written(Format::flexible(0), Writer::at(old(buf)@))),
        ensures
            encoded(res, final(buf)@, self.written(Format::flexible(0), Writer::at(old(buf)@))),
    {
        self.encode_wire(Format::flexible(0), buf)
    }
}

/// Topic-partition assignment used in ConsumerGroupDescribe response.
#[derive(Debug, Clone)]
pub struct DescribeGroupTopicPartition {
    /// Topic ID.
    pub topic_id: [u8; 16],
    /// Topic name.
    pub topic_name: String,
    /// Partition indices.
    pub partitions: Vec<i32>,
}

/// What a [`DescribeGroupTopicPartition`] holds.
pub struct DescribeGroupTopicPartitionView {
    /// Topic ID.
    pub topic_id: Seq<u8>,
    /// Topic name.
    pub topic_name: Seq<char>,
    /// Partition indices.
    pub partitions: Seq<i32>,
}

impl View for DescribeGroupTopicPartition {
    type V = DescribeGroupTopicPartitionView;

    open spec fn view(&self) -> DescribeGroupTopicPartitionView {
        DescribeGroupTopicPartitionView {
            topic_id: self.topic_id@,
            topic_name: self.topic_name@,
            partitions: views(self.partitions@),
        }
    }
}

impl WireDecode for DescribeGroupTopicPartition {
    open spec fn read(f: Format, r: Reader) -> (DescribeGroupTopicPartitionView, Reader) {
        let (topic_id, r) = r.uuid();
        let (topic_name, r) = r.string("topic_name", f.flexible);
        let (partitions, r) = r.array::<i32>(f);
        let r = r.tags(f.flexible);
        let value = DescribeGroupTopicPartitionView {
            topic_id,
            topic_name,
            partitions,
        };
        (value, r)
    }

    fn decode_wire(f: Format, buf: &mut Bytes) -> (res: Result<Self>) {
        let topic_id = read_uuid(buf)?;
        let topic_name = read_string("topic_name", f.flexible, buf)?;
        let partitions = read_array::<i32>(f, buf)?;
        read_tags(f.flexible, buf)?;
        Ok(DescribeGroupTopicPartition {
            topic_id,
            topic_name,
            partitions,
        })
    }

    proof fn law_consumes(f: Format, r: Reader) {
        broadcast use group_consumes;

    }

    proof fn law_ignores_what_follows(f: Format, r: Reader, more: Seq<u8>) {
        broadcast use group_consumes, group_followed;

    }

    proof fn law_needs_only_what_it_takes(f: Format, r: Reader, k: nat) {
        broadcast use group_consumes, group_cut;

    }
}

/// Assignment (target or current) for a consumer group member.
#[derive(Debug, Clone)]
pub struct DescribeGroupAssignment {
    /// Topic-partition assignments.
    pub topic_partitions: Vec<DescribeGroupTopicPartition>,
}

/// What a [`DescribeGroupAssignment`] holds.
pub struct DescribeGroupAssignmentView {
    /// Topic-partition assignments.
    pub topic_partitions: Seq<DescribeGroupTopicPartitionView>,
}

impl View for DescribeGroupAssignment {
    type V = DescribeGroupAssignmentView;

    open spec fn view(&self) -> DescribeGroupAssignmentView {
        DescribeGroupAssignmentView {
            topic_partitions: views(self.topic_partitions@),
        }
    }
}

impl WireDecode for DescribeGroupAssignment {
    open spec fn read(f: Format, r: Reader) -> (DescribeGroupAssignmentView, Reader) {
        let (topic_partitions, r) = r.array::<DescribeGroupTopicPartition>(f);
        let r = r.tags(f.flexible);
        let value = DescribeGroupAssignmentView {
            topic_partitions,
        };
        (value, r)
    }

    fn decode_wire(f: Format, buf: &mut Bytes) -> (res: Result<Self>) {
        let topic_partitions = read_array::<DescribeGroupTopicPartition>(f, buf)?;
        read_tags(f.flexible, buf)?;
        Ok(DescribeGroupAssignment {
            topic_partitions,
        })
    }

    proof fn law_consumes(f: Format, r: Reader) {
        broadcast use group_consumes;

    }

    proof fn law_ignores_what_follows(f: Format, r: Reader, more: Seq<u8>) {
        broadcast use group_consumes, group_followed;

    }

    proof fn law_needs_only_what_it_takes(f: Format, r: Reader, k: nat) {
        broadcast use group_consumes, group_cut;

    }
}

/// A member in ConsumerGroupDescribe response.
#[derive(Debug, Clone)]
pub struct ConsumerGroupDescribeMember {
    /// Member ID.
    pub member_id: String,
    /// Instance ID (static membership).
    pub instance_id: Option<String>,
    /// Rack ID.
    pub rack_id: Option<String>,
    /// Current member epoch.
    pub member_epoch: i32,
    /// Client ID.
    pub client_id: String,
    /// Client host.
    pub client_host: String,
    /// Subscribed topic names.
    pub subscribed_topic_names: Vec<String>,
    /// Subscribed topic regex.
    pub subscribed_topic_regex: Option<String>,
    /// Current assignment.
    pub assignment: DescribeGroupAssignment,
    /// Target assignment.
    pub target_assignment: DescribeGroupAssignment,
    /// Member type (v1+). -1=unknown, 0=classic, 1=consumer.
    pub member_type: i8,
}

/// What a [`ConsumerGroupDescribeMember`] holds.
pub struct ConsumerGroupDescribeMemberView {
    /// Member ID.
    pub member_id: Seq<char>,
    /// Instance ID (static membership).
    pub instance_id: Option<Seq<char>>,
    /// Rack ID.
    pub rack_id: Option<Seq<char>>,
    /// Current member epoch.
    pub member_epoch: i32,
    /// Client ID.
    pub client_id: Seq<char>,
    /// Client host.
    pub client_host: Seq<char>,
    /// Subscribed topic names.
    pub subscribed_topic_names: Seq<Seq<char>>,
    /// Subscribed topic regex.
    pub subscribed_topic_regex: Option<Seq<char>>,
    /// Current assignment.
    pub assignment: DescribeGroupAssignmentView,
    /// Target assignment.
    pub target_assignment: DescribeGroupAssignmentView,
    /// Member type (v1+). -1=unknown, 0=classic, 1=consumer.
    pub member_type: i8,
}

impl View for ConsumerGroupDescribeMember {
    type V = ConsumerGroupDescribeMemberView;

    open spec fn view(&self) -> ConsumerGroupDescribeMemberView {
        ConsumerGroupDescribeMemberView {
            member_id: self.member_id@,
            instance_id: optional_text(self.instance_id),
            rack_id: optional_text(self.rack_id),
            member_epoch: self.member_epoch,
            client_id: self.client_id@,
            client_host: self.client_host@,
            subscribed_topic_names: views(self.subscribed_topic_names@),
            subscribed_topic_regex: optional_text(self.subscribed_topic_regex),
            assignment: self.assignment@,
            target_assignment: self.target_assignment@,
            member_type: self.member_type,
        }
    }
}

/// A member up to where its type stands in version 1.
#[verifier::opaque]
pub open spec fn read_member_fields(f: Format, r: Reader) -> (
    ConsumerGroupDescribeMemberView,
    Reader,
) {
    let (member_id, r) = r.string("member_id", f.flexible);
    let (instance_id, r) = r.nullable_string(f.flexible);
    let (rack_id, r) = r.nullable_string(f.flexible);
    let (member_epoch, r) = r.i32();
    let (client_id, r) = r.string("client_id", f.flexible);
    let (client_host, r) = r.string("client_host", f.flexible);
    let (subscribed_topic_names, r) = r.string_array("subscribed_topic", f.flexible);
    let (subscribed_topic_regex, r) = r.nullable_string(f.flexible);
    let (assignment, r) = r.one::<DescribeGroupAssignment>(f);
    let (target_assignment, r) = r.one::<DescribeGroupAssignment>(f);
    let value = ConsumerGroupDescribeMemberView {
        member_id,
        instance_id,
        rack_id,
        member_epoch,
        client_id,
        client_host,
        subscribed_topic_names,
        subscribed_topic_regex,
        assignment,
        target_assignment,
        member_type: (-1) as i8,
    };
    (value, r)
}

impl WireDecode for ConsumerGroupDescribeMember {
    open spec fn read(f: Format, r: Reader) -> (ConsumerGroupDescribeMemberView, Reader) {
        let (fields, r) = read_member_fields(f, r);
        let (member_type, r) = if f.version >= 1 {
            r.i8()
        } else {
            ((-1) as i8, r)
        };
        (ConsumerGroupDescribeMemberView { member_type, ..fields }, r.tags(f.flexible))
    }

    #[verifier::rlimit(60)]
    fn decode_wire(f: Format, buf: &mut Bytes) -> (res: Result<Self>) {
        reveal(read_member_fields);
        let member_id = read_string("member_id", f.flexible, buf)?;
        let instance_id = read_nullable_string(f.flexible, buf)?;
        let rack_id = read_nullable_string(f.flexible, buf)?;
        let member_epoch = read_i32(buf)?;
        let client_id = read_string("client_id", f.flexible, buf)?;
        let client_host = read_string("client_host", f.flexible, buf)?;
        let subscribed_topic_names = read_string_array("subscribed_topic", f.flexible, buf)?;
        let subscribed_topic_regex = read_nullable_string(f.flexible, buf)?;
        let assignment = DescribeGroupAssignment::decode_wire(f, buf)?;
        let target_assignment = DescribeGroupAssignment::decode_wire(f, buf)?;
        let member_type: i8 = if f.version >= 1 {
            read_i8(buf)?
        } else {
            -1
        };
        read_tags(f.flexible, buf)?;
        Ok(ConsumerGroupDescribeMember {
            member_id,
            instance_id,
            rack_id,
            member_epoch,
            client_id,
            client_host,
            subscribed_topic_names,
            subscribed_topic_regex,
            assignment,
            target_assignment,
            member_type,
        })
    }

    proof fn law_consumes(f: Format, r: Reader) {
        broadcast use group_consumes;

        lemma_member_fields_consume(f, r);
    }

    proof fn law_ignores_what_follows(f: Format, r: Reader, more: Seq<u8>) {
        broadcast use group_consumes, group_followed;

        lemma_member_fields_consume(f, r);
        lemma_member_fields_followed(f, r, more);
    }

    proof fn law_needs_only_what_it_takes(f: Format, r: Reader, k: nat) {
        broadcast use group_consumes, group_cut;

        lemma_member_fields_consume(f, r);
        lemma_member_fields_cut(f, r, k);
    }
}

/// A described group in ConsumerGroupDescribe response.
#[derive(Debug, Clone)]
pub struct ConsumerGroupDescribeGroup {
    /// Error code.
    pub error_code: ErrorCode,
    /// Error message.
    pub error_message: Option<String>,
    /// Group ID.
    pub group_id: String,
    /// Group state.
    pub group_state: String,
    /// Group epoch.
    pub group_epoch: i32,
    /// Assignment epoch.
    pub assignment_epoch: i32,
    /// Assignor name.
    pub assignor_name: String,
    /// Members.
    pub members: Vec<ConsumerGroupDescribeMember>,
    /// Authorized operations bitfield.
    pub authorized_operations: i32,
}

/// What a [`ConsumerGroupDescribeGroup`] holds.
pub struct ConsumerGroupDescribeGroupView {
    /// Error code.
    pub error_code: ErrorCode,
    /// Error message.
    pub error_message: Option<Seq<char>>,
    /// Group ID.
    pub group_id: Seq<char>,
    /// Group state.
    pub group_state: Seq<char>,
    /// Group epoch.
    pub group_epoch: i32,
    /// Assignment epoch.
    pub assignment_epoch: i32,
    /// Assignor name.
    pub assignor_name: Seq<char>,
    /// Members.
    pub members: Seq<ConsumerGroupDescribeMemberView>,
    /// Authorized operations bitfield.
    pub authorized_operations: i32,
}

impl View for ConsumerGroupDescribeGroup {
    type V = ConsumerGroupDescribeGroupView;

    open spec fn view(&self) -> ConsumerGroupDescribeGroupView {
        ConsumerGroupDescribeGroupView {
            error_code: self.error_code,
            error_message: optional_text(self.error_message),
            group_id: self.group_id@,
            group_state: self.group_state@,
            group_epoch: self.group_epoch,
            assignment_epoch: self.assignment_epoch,
            assignor_name: self.assignor_name@,
            members: views(self.members@),
            authorized_operations: self.authorized_operations,
        }
    }
}

/// A group up to its members, and how many there are.
#[verifier::opaque]
pub open spec fn read_group_head(f: Format, r: Reader) -> (
    (ConsumerGroupDescribeGroupView, nat),
    Reader,
) {
    let (error_code, r) = r.error_code();
    let (error_message, r) = r.nullable_string(f.flexible);
    let (group_id, r) = r.string("group_id", f.flexible);
    let (group_state, r) = r.string("group_state", f.flexible);
    let (group_epoch, r) = r.i32();
    let (assignment_epoch, r) = r.i32();
    let (assignor_name, r) = r.string("assignor_name", f.flexible);
    let (n, r) = r.array_len(f.flexible);
    let value = ConsumerGroupDescribeGroupView {
        error_code,
        error_message,
        group_id,
        group_state,
        group_epoch,
        assignment_epoch,
        assignor_name,
        members: Seq::empty(),
        authorized_operations: 0,
    };
    ((value, n), r)
}

/// What stands behind the members of a group.
pub open spec fn read_group_end(f: Format, r: Reader) -> (i32, Reader) {
    let (authorized_operations, r) = r.i32();
    (authorized_operations, r.tags(f.flexible))
}

impl WireDecode for ConsumerGroupDescribeGroup {
    open spec fn read(f: Format, r: Reader) -> (ConsumerGroupDescribeGroupView, Reader) {
        let ((head, n), r) = read_group_head(f, r);
        let (members, r) = r.items::<ConsumerGroupDescribeMember>(f, n);
        let (authorized_operations, r) = read_group_end(f, r);
        (ConsumerGroupDescribeGroupView { members, authorized_operations, ..head }, r)
    }

    fn decode_wire(f: Format, buf: &mut Bytes) -> (res: Result<Self>) {
        reveal(read_group_head);
        let error_code = read_error_code(buf)?;
        let error_message = read_nullable_string(f.flexible, buf)?;
        let group_id = read_string("group_id", f.flexible, buf)?;
        let group_state = read_string("group_state", f.flexible, buf)?;
        let group_epoch = read_i32(buf)?;
        let assignment_epoch = read_i32(buf)?;
        let assignor_name = read_string("assignor_name", f.flexible, buf)?;
        let members = read_array::<ConsumerGroupDescribeMember>(f, buf)?;
        let authorized_operations = read_i32(buf)?;
        read_tags(f.flexible, buf)?;
        Ok(ConsumerGroupDescribeGroup {
            error_code,
            error_message,
            group_id,
            group_state,
            group_epoch,
            assignment_epoch,
            assignor_name,
            members,
            authorized_operations,
        })
    }

    proof fn law_consumes(f: Format, r: Reader) {
        broadcast use group_consumes;

        lemma_group_head_consume(f, r);
    }

    proof fn law_ignores_what_follows(f: Format, r: Reader, more: Seq<u8>) {
        broadcast use group_consumes, group_followed;

        lemma_group_head_consume(f, r);
        lemma_group_head_followed(f, r, more);
    }

    proof fn law_needs_only_what_it_takes(f: Format, r: Reader, k: nat) {
        broadcast use group_consumes, group_cut;

        lemma_group_head_consume(f, r);
        lemma_group_head_cut(f, r, k);
    }
}

/// ConsumerGroupDescribe response (API Key 69). Flexible from v0.
#[derive(Debug, Clone)]
pub struct ConsumerGroupDescribeResponse {
    /// Throttle time in milliseconds.
    pub throttle_time_ms: i32,
    /// Described groups.
    pub groups: Vec<ConsumerGroupDescribeGroup>,
}

/// What a [`ConsumerGroupDescribeResponse`] holds.
pub struct ConsumerGroupDescribeResponseView {
    /// Throttle time in milliseconds.
    pub throttle_time_ms: i32,
    /// Described groups.
    pub groups: Seq<ConsumerGroupDescribeGroupView>,
}

impl View for ConsumerGroupDescribeResponse {
    type V = ConsumerGroupDescribeResponseView;

    open spec fn view(&self) -> ConsumerGroupDescribeResponseView {
        ConsumerGroupDescribeResponseView {
            throttle_time_ms: self.throttle_time_ms,
            groups: views(self.groups@),
        }
    }
}

impl WireDecode for ConsumerGroupDescribeResponse {
    open spec fn read(f: Format, r: Reader) -> (ConsumerGroupDescribeResponseView, Reader) {
        let (throttle_time_ms, r) = r.i32();
        let (groups, r) = r.array::<ConsumerGroupDescribeGroup>(f);
        let r = r.tags(f.flexible);
        let value = ConsumerGroupDescribeResponseView {
            throttle_time_ms,
            groups,
        };
        (value, r)
    }

    fn decode_wire(f: Format, buf: &mut Bytes) -> (res: Result<Self>) {
        let throttle_time_ms = read_i32(buf)?;
        let groups = read_array::<ConsumerGroupDescribeGroup>(f, buf)?;
        read_tags(f.flexible, buf)?;
        Ok(ConsumerGroupDescribeResponse {
            throttle_time_ms,
            groups,
        })
    }

    proof fn law_consumes(f: Format, r: Reader) {
        broadcast use group_consumes;

    }

    proof fn law_ignores_what_follows(f: Format, r: Reader, more: Seq<u8>) {
        broadcast use group_consumes, group_followed;

    }

    proof fn law_needs_only_what_it_takes(f: Format, r: Reader, k: nat) {
        broadcast use group_consumes, group_cut;

    }
}

impl ConsumerGroupDescribeResponse {
    /// Decode from version 0 (flexible from v0).
    pub fn decode_v0(buf: &mut Bytes) -> (res: Result<Self>)
        ensures
            decoded(
                result_view(res),
                final(buf)@,
                Self::read(Format::flexible(0), Reader::on(old(buf)@)),
            ),
    {
        Self::decode_wire(Format::flexible(0), buf)
    }

    /// Decode from version 1 (adds member_type per member; KIP-1099).
    pub fn decode_v1(buf: &mut Bytes) -> (res: Result<Self>)
        ensures
            decoded(
                result_view(res),
                final(buf)@,
                Self::read(Format::flexible(1), Reader::on(old(buf)@)),
            ),
    {
        Self::decode_wire(Format::flexible(1), buf)
    }
}

impl VersionedEncode for ConsumerGroupDescribeRequest {
    open spec fn request_key() -> ApiKey {
        ApiKey::ConsumerGroupDescribe
    }

    open spec fn encodes(version: i16) -> bool {
        0 <= version <= 1
    }

    open spec fn request_format(version: i16) -> Format {
        Format::flexible(0)
    }

    open spec fn request_name() -> &'static str {
        "ConsumerGroupDescribeRequest"
    }

    fn encode_versioned(&self, version: i16, buf: &mut BytesMut) -> (res: Result<()>) {
        match version {
            0 | 1 => self.encode_v0(buf),
            _ => Err(
                KrafkaError::Protocol(
                    ProtocolErrorKind::Malformed,
                    Reason::UnsupportedEncode("ConsumerGroupDescribeRequest", version),
                ),
            ),
        }
    }

    proof fn law_request_format(&self, version: i16, w: Writer) {
    }

    proof fn law_unsupported_encode(&self, version: i16, w: Writer) {
    }
}

impl VersionedDecode for ConsumerGroupDescribeResponse {
    open spec fn response_key() -> ApiKey {
        ApiKey::ConsumerGroupDescribe
    }

    open spec fn decodes(version: i16) -> bool {
        0 <= version <= 1
    }

    open spec fn response_format(version: i16) -> Format {
        match version {
            0 => Format::flexible(0),
            _ => Format::flexible(1),
        }
    }

    open spec fn response_name() -> &'static str {
        "ConsumerGroupDescribeResponse"
    }

    fn decode_versioned(version: i16, buf: &mut Bytes) -> (res: Result<Self>) {
        match version {
            0 => Self::decode_v0(buf),
            1 => Self::decode_v1(buf),
            _ => Err(
                KrafkaError::Protocol(
                    ProtocolErrorKind::Malformed,
                    Reason::UnsupportedDecode("ConsumerGroupDescribeResponse", version),
                ),
            ),
        }
    }

    proof fn law_response_format(version: i16, r: Reader) {
    }

    proof fn law_unsupported_decode(version: i16, r: Reader) {
    }
}

/// Versions 0 and 1 of the ConsumerGroupDescribe request have one format.
pub proof fn law_describe_requests_share_a_format(request: ConsumerGroupDescribeRequest, w: Writer)
    ensures
        request.written_versioned(1, w) == request.written_versioned(0, w),
{
}

/// What stands in front of the groups of a response: the throttle time and how many
/// groups there are.
pub open spec fn read_response_head(f: Format, r: Reader) -> ((i32, nat), Reader) {
    let (throttle_time_ms, r) = r.i32();
    let (n, r) = r.array_len(f.flexible);
    ((throttle_time_ms, n), r)
}

/// The bytes of the member at the front of a version 0 body with a byte for its type
/// put in, behind the target assignment and in front of the tagged fields.
pub open spec fn typed_member(r: Reader, member_type: i8) -> Seq<u8> {
    let before = read_member_fields(Format::flexible(0), r).1;
    taken(r, before) + seq![to_unsigned(member_type as int, 0x100) as u8] + taken(
        before,
        before.tags(true),
    )
}

/// The bytes of the first `n` members, each with its type put in.
pub open spec fn typed_members(r: Reader, member_types: Seq<i8>, n: nat) -> Seq<u8>
    decreases n,
{
    if n == 0 {
        Seq::empty()
    } else {
        let before = r.items::<ConsumerGroupDescribeMember>(Format::flexible(0), (n - 1) as nat).1;
        typed_members(r, member_types, (n - 1) as nat) + typed_member(before, member_types[n - 1])
    }
}

/// The bytes of the group at the front of a version 0 body with the types of its
/// members put in.
pub open spec fn typed_group(r: Reader, member_types: Seq<i8>) -> Seq<u8> {
    let f = Format::flexible(0);
    let ((_, n), before) = read_group_head(f, r);
    let behind = before.items::<ConsumerGroupDescribeMember>(f, n).1;
    taken(r, before) + typed_members(before, member_types, n) + taken(
        behind,
        read_group_end(f, behind).1,
    )
}

/// The bytes of the first `n` groups with the types of their members put in.
pub open spec fn typed_groups(r: Reader, member_types: Seq<Seq<i8>>, n: nat) -> Seq<u8>
    decreases n,
{
    if n == 0 {
        Seq::empty()
    } else {
        let before = r.items::<ConsumerGroupDescribeGroup>(Format::flexible(0), (n - 1) as nat).1;
        typed_groups(r, member_types, (n - 1) as nat) + typed_group(before, member_types[n - 1])
    }
}

/// A version 0 body with a byte put in for each member, which is its type.
pub open spec fn typed_body(body: Seq<u8>, member_types: Seq<Seq<i8>>) -> Seq<u8> {
    let f = Format::flexible(0);
    let r = Reader::on(body);
    let ((_, n), before) = read_response_head(f, r);
    let behind = before.items::<ConsumerGroupDescribeGroup>(f, n).1;
    taken(r, before) + typed_groups(before, member_types, n) + taken(behind, behind.tags(true))
}

/// Members with their types.
pub open spec fn with_types(
    members: Seq<ConsumerGroupDescribeMemberView>,
    member_types: Seq<i8>,
) -> Seq<ConsumerGroupDescribeMemberView> {
    Seq::new(
        members.len(),
        |i: int| ConsumerGroupDescribeMemberView { member_type: member_types[i], ..members[i] },
    )
}

/// A group with the types of its members.
pub open spec fn group_with_types(
    group: ConsumerGroupDescribeGroupView,
    member_types: Seq<i8>,
) -> ConsumerGroupDescribeGroupView {
    ConsumerGroupDescribeGroupView { members: with_types(group.members, member_types), ..group }
}

/// A response with the types of the members of its groups.
pub open spec fn response_with_types(
    response: ConsumerGroupDescribeResponseView,
    member_types: Seq<Seq<i8>>,
) -> ConsumerGroupDescribeResponseView {
    ConsumerGroupDescribeResponseView {
        groups: Seq::new(
            response.groups.len(),
            |i: int| group_with_types(response.groups[i], member_types[i]),
        ),
        ..response
    }
}

/// The number of members in the first `n` groups.
pub open spec fn members_in(groups: Seq<ConsumerGroupDescribeGroupView>, n: nat) -> nat
    decreases n,
{
    if n == 0 {
        0
    } else {
        members_in(groups, (n - 1) as nat) + groups[n - 1].members.len()
    }
}

/// Partition numbers have one format in versions 0 and 1.
proof fn lemma_numbers_alike(r: Reader, n: nat)
    ensures
        r.items::<i32>(Format::flexible(1), n) == r.items::<i32>(Format::flexible(0), n),
    decreases n,
{
    if n > 0 {
        lemma_numbers_alike(r, (n - 1) as nat);
    }
}

/// Assigned topics have one format in versions 0 and 1.
proof fn lemma_assigned_alike(r: Reader, n: nat)
    ensures
        r.items::<DescribeGroupTopicPartition>(Format::flexible(1), n) == r.items::<
            DescribeGroupTopicPartition,
        >(Format::flexible(0), n),
    decreases n,
{
    if n > 0 {
        lemma_assigned_alike(r, (n - 1) as nat);
        let before = r.items::<DescribeGroupTopicPartition>(
            Format::flexible(0),
            (n - 1) as nat,
        ).1;
        let (len, counted) = before.uuid().1.string("topic_name", true).1.array_len(true);
        lemma_numbers_alike(counted, len);
    }
}

/// Assignments have one format in versions 0 and 1.
proof fn lemma_assignment_alike(r: Reader)
    ensures
        r.one::<DescribeGroupAssignment>(Format::flexible(1)) == r.one::<DescribeGroupAssignment>(
            Format::flexible(0),
        ),
{
    let (n, counted) = r.array_len(true);
    lemma_assigned_alike(counted, n);
}

/// Members have one format in versions 0 and 1 up to their type.
proof fn lemma_member_fields_alike(r: Reader)
    ensures
        read_member_fields(Format::flexible(1), r) == read_member_fields(Format::flexible(0), r),
{
    reveal(read_member_fields);
    let r = r.string("member_id", true).1.nullable_string(true).1.nullable_string(true).1.i32().1;
    let r = r.string("client_id", true).1.string("client_host", true).1;
    let r = r.string_array("subscribed_topic", true).1.nullable_string(true).1;
    lemma_assignment_alike(r);
    lemma_assignment_alike(r.one::<DescribeGroupAssignment>(Format::flexible(0)).1);
}

/// The fields of a member are taken off the front.
proof fn lemma_member_fields_consume(f: Format, r: Reader)
    ensures
        consumes(r, read_member_fields(f, r).1),
{
    broadcast use group_consumes;

    reveal(read_member_fields);
}

/// The fields of a member are read the same where bytes behind them are missing.
#[verifier::rlimit(60)]
proof fn lemma_member_fields_cut(f: Format, r: Reader, k: nat)
    requires
        !read_member_fields(f, r).1.failed(),
        k <= read_member_fields(f, r).1.rest.len(),
    ensures
        read_member_fields(f, r.cut(k)) == (
            read_member_fields(f, r).0,
            read_member_fields(f, r).1.cut(k),
        ),
{
    broadcast use group_consumes, group_cut;

    reveal(read_member_fields);
}

/// What follows the fields of a member changes nothing of them.
#[verifier::rlimit(60)]
proof fn lemma_member_fields_followed(f: Format, r: Reader, more: Seq<u8>)
    requires
        !read_member_fields(f, r).1.failed(),
    ensures
        read_member_fields(f, r.followed_by(more)) == (
            read_member_fields(f, r).0,
            read_member_fields(f, r).1.followed_by(more),
        ),
{
    broadcast use group_consumes, group_followed;

    reveal(read_member_fields);
}

/// The fields of a member are read the same in version 1 in front of other bytes.
proof fn lemma_member_fields_moved(r: Reader, next: Seq<u8>)
    requires
        !read_member_fields(Format::flexible(0), r).1.failed(),
    ensures
        read_member_fields(
            Format::flexible(1),
            Reader::on(taken(r, read_member_fields(Format::flexible(0), r).1) + next),
        ) == (read_member_fields(Format::flexible(0), r).0, Reader::on(next)),
{
    let f = Format::flexible(0);
    let after = read_member_fields(f, r).1;
    let k = after.rest.len();
    lemma_member_fields_consume(f, r);
    lemma_member_fields_cut(f, r, k);
    lemma_member_fields_followed(f, r.cut(k), next);
    lemma_moved(r, after, next);
    lemma_member_fields_alike(Reader::on(taken(r, after) + next));
}

/// The head of a group is taken off the front.
proof fn lemma_group_head_consume(f: Format, r: Reader)
    ensures
        consumes(r, read_group_head(f, r).1),
{
    broadcast use group_consumes;

    reveal(read_group_head);
}

/// The head of a group is read the same where bytes behind it are missing.
#[verifier::rlimit(60)]
proof fn lemma_group_head_cut(f: Format, r: Reader, k: nat)
    requires
        !read_group_head(f, r).1.failed(),
        k <= read_group_head(f, r).1.rest.len(),
    ensures
        read_group_head(f, r.cut(k)) == (
            read_group_head(f, r).0,
            read_group_head(f, r).1.cut(k),
        ),
{
    broadcast use group_consumes, group_cut;

    reveal(read_group_head);
}

/// What follows the head of a group changes nothing of it.
#[verifier::rlimit(60)]
proof fn lemma_group_head_followed(f: Format, r: Reader, more: Seq<u8>)
    requires
        !read_group_head(f, r).1.failed(),
    ensures
        read_group_head(f, r.followed_by(more)) == (
            read_group_head(f, r).0,
            read_group_head(f, r).1.followed_by(more),
        ),
{
    broadcast use group_consumes, group_followed;

    reveal(read_group_head);
}

/// The head of a group is read the same in version 1 in front of other bytes.
proof fn lemma_group_head_moved(r: Reader, next: Seq<u8>)
    requires
        !read_group_head(Format::flexible(0), r).1.failed(),
    ensures
        read_group_head(
            Format::flexible(1),
            Reader::on(taken(r, read_group_head(Format::flexible(0), r).1) + next),
        ) == (read_group_head(Format::flexible(0), r).0, Reader::on(next)),
{
    let f = Format::flexible(0);
    let after = read_group_head(f, r).1;
    let k = after.rest.len();
    lemma_group_head_consume(f, r);
    lemma_group_head_cut(f, r, k);
    lemma_group_head_followed(f, r.cut(k), next);
    lemma_moved(r, after, next);
    let moved = Reader::on(taken(r, after) + next);
    assert(read_group_head(Format::flexible(1), moved) == read_group_head(f, moved)) by {
        reveal(read_group_head);
    }
}

/// The end of a group is read the same in front of other bytes.
proof fn lemma_group_end_moved(f: Format, r: Reader, next: Seq<u8>)
    requires
        !read_group_end(f, r).1.failed(),
    ensures
        read_group_end(f, Reader::on(taken(r, read_group_end(f, r).1) + next)) == (
            read_group_end(f, r).0,
            Reader::on(next),
        ),
{
    let after = read_group_end(f, r).1;
    let k = after.rest.len();
    assert(consumes(r, after)) by {
        broadcast use group_consumes;

    }
    assert(read_group_end(f, r.cut(k)) == (read_group_end(f, r).0, after.cut(k))) by {
        broadcast use group_consumes, group_cut;

    }
    let short = r.cut(k);
    assert(read_group_end(f, short.followed_by(next)) == (
        read_group_end(f, r).0,
        after.cut(k).followed_by(next),
    )) by {
        broadcast use group_consumes, group_followed;

    }
    lemma_moved(r, after, next);
}

/// The head of a response is read the same in front of other bytes.
proof fn lemma_response_head_moved(f: Format, r: Reader, next: Seq<u8>)
    requires
        !read_response_head(f, r).1.failed(),
    ensures
        read_response_head(f, Reader::on(taken(r, read_response_head(f, r).1) + next)) == (
            read_response_head(f, r).0,
            Reader::on(next),
        ),
{
    let after = read_response_head(f, r).1;
    let k = after.rest.len();
    assert(consumes(r, after)) by {
        broadcast use group_consumes;

    }
    assert(read_response_head(f, r.cut(k)) == (read_response_head(f, r).0, after.cut(k))) by {
        broadcast use group_consumes, group_cut;

    }
    let short = r.cut(k);
    assert(read_response_head(f, short.followed_by(next)) == (
        read_response_head(f, r).0,
        after.cut(k).followed_by(next),
    )) by {
        broadcast use group_consumes, group_followed;

    }
    lemma_moved(r, after, next);
}

/// Tagged fields are read the same in front of other bytes.
proof fn lemma_tags_moved(r: Reader, next: Seq<u8>)
    requires
        !r.tags(true).failed(),
    ensures
        Reader::on(taken(r, r.tags(true)) + next).tags(true) == Reader::on(next),
{
    broadcast use group_consumes, group_cut, group_followed;

    let after = r.tags(true);
    let k = after.rest.len();
    assert(r.cut(k).tags(true) == after.cut(k));
    assert(r.cut(k).followed_by(next).tags(true) == after.cut(k).followed_by(next));
    lemma_moved(r, after, next);
}

/// A member with its type put in is read in version 1 as it is in version 0, but for
/// its type, and is one byte longer.
proof fn lemma_typed_member(r: Reader, member_type: i8, next: Seq<u8>)
    requires
        !ConsumerGroupDescribeMember::read(Format::flexible(0), r).1.failed(),
    ensures
        ({
            let (member, after) = ConsumerGroupDescribeMember::read(Format::flexible(0), r);
            &&& member.member_type == -1
            &&& ConsumerGroupDescribeMember::read(
                Format::flexible(1),
                Reader::on(typed_member(r, member_type) + next),
            ) == (
                ConsumerGroupDescribeMemberView { member_type, ..member },
                Reader::on(next),
            )
            &&& typed_member(r, member_type).len() + after.rest.len() == r.rest.len() + 1
        }),
{
    let f = Format::flexible(0);
    let before = read_member_fields(f, r).1;
    let after = before.tags(true);
    lemma_member_fields_consume(f, r);
    assert(consumes(before, after) && !before.failed()) by {
        broadcast use group_consumes, group_followed;

    }
    reveal(consumes);
    let byte = seq![to_unsigned(member_type as int, 0x100) as u8];
    let tail = taken(before, after) + next;
    assert(typed_member(r, member_type) + next =~= taken(r, before) + (byte + tail));
    lemma_member_fields_moved(r, byte + tail);
    assert((byte + tail).skip(1) =~= tail);
    assert(Reader::on(byte + tail).i8() == (member_type, Reader::on(tail)));
    lemma_tags_moved(before, next);
}

/// Members with their types put in are read in version 1 as they are in version 0,
/// but for their types, and are one byte longer each.
proof fn lemma_typed_members(r: Reader, member_types: Seq<i8>, n: nat, next: Seq<u8>)
    requires
        !r.items::<ConsumerGroupDescribeMember>(Format::flexible(0), n).1.failed(),
    ensures
        ({
            let (members, after) = r.items::<ConsumerGroupDescribeMember>(Format::flexible(0), n);
            &&& members.len() == n
            &&& forall|i: int| 0 <= i < n ==> (#[trigger] members[i]).member_type == -1
            &&& Reader::on(typed_members(r, member_types, n) + next).items::<
                ConsumerGroupDescribeMember,
            >(Format::flexible(1), n) == (with_types(members, member_types), Reader::on(next))
            &&& typed_members(r, member_types, n).len() + after.rest.len() == r.rest.len() + n
        }),
    decreases n,
{
    let f = Format::flexible(0);
    let (members, after) = r.items::<ConsumerGroupDescribeMember>(f, n);
    if n == 0 {
        assert(typed_members(r, member_types, n) + next =~= next);
        assert(with_types(members, member_types) =~= Seq::empty());
    } else {
        let (others, before) = r.items::<ConsumerGroupDescribeMember>(f, (n - 1) as nat);
        assert(!r.failed() && !before.failed());
        let member_type = member_types[n - 1];
        let member = typed_member(before, member_type);
        lemma_typed_members(r, member_types, (n - 1) as nat, member + next);
        assert(typed_members(r, member_types, n) + next =~= typed_members(
            r,
            member_types,
            (n - 1) as nat,
        ) + (member + next));
        lemma_typed_member(before, member_type, next);
        assert(with_types(members, member_types) =~= with_types(others, member_types).push(
            ConsumerGroupDescribeMemberView { member_type, ..members[n - 1] },
        ));
    }
}

/// A group with the types of its members put in is read in version 1 as it is in
/// version 0, but for the types, and is one byte longer for each member.
proof fn lemma_typed_group(r: Reader, member_types: Seq<i8>, next: Seq<u8>)
    requires
        !ConsumerGroupDescribeGroup::read(Format::flexible(0), r).1.failed(),
    ensures
        ({
            let (group, after) = ConsumerGroupDescribeGroup::read(Format::flexible(0), r);
            &&& forall|i: int|
                0 <= i < group.members.len() ==> (#[trigger] group.members[i]).member_type == -1
            &&& ConsumerGroupDescribeGroup::read(
                Format::flexible(1),
                Reader::on(typed_group(r, member_types) + next),
            ) == (group_with_types(group, member_types), Reader::on(next))
            &&& typed_group(r, member_types).len() + after.rest.len() == r.rest.len()
                + group.members.len()
        }),
{
    let f = Format::flexible(0);
    let ((head, n), before) = read_group_head(f, r);
    let behind = before.items::<ConsumerGroupDescribeMember>(f, n).1;
    let after = read_group_end(f, behind).1;
    lemma_group_head_consume(f, r);
    assert(consumes(before, behind) && consumes(behind, after)) by {
        broadcast use group_consumes;

    }
    reveal(consumes);
    assert(!before.failed() && !behind.failed());
    let tail = taken(behind, after) + next;
    let members = typed_members(before, member_types, n);
    assert(typed_group(r, member_types) + next =~= taken(r, before) + (members + tail));
    lemma_group_head_moved(r, members + tail);
    lemma_typed_members(before, member_types, n, tail);
    lemma_group_end_moved(f, behind, next);
    assert(read_group_end(Format::flexible(1), Reader::on(tail)) == read_group_end(
        f,
        Reader::on(tail),
    ));
}

/// Groups with the types of their members put in are read in version 1 as they are in
/// version 0, but for the types, and are one byte longer for each member.
#[verifier::rlimit(60)]
proof fn lemma_typed_groups(r: Reader, member_types: Seq<Seq<i8>>, n: nat, next: Seq<u8>)
    requires
        !r.items::<ConsumerGroupDescribeGroup>(Format::flexible(0), n).1.failed(),
    ensures
        ({
            let (groups, after) = r.items::<ConsumerGroupDescribeGroup>(Format::flexible(0), n);
            &&& groups.len() == n
            &&& forall|i: int, j: int|
                0 <= i < n && 0 <= j < groups[i].members.len() ==> (
                #[trigger] groups[i].members[j]).member_type == -1
            &&& Reader::on(typed_groups(r, member_types, n) + next).items::<
                ConsumerGroupDescribeGroup,
            >(Format::flexible(1), n) == (
                Seq::new(n, |i: int| group_with_types(groups[i], member_types[i])),
                Reader::on(next),
            )
            &&& typed_groups(r, member_types, n).len() + after.rest.len() == r.rest.len()
                + members_in(groups, n)
        }),
    decreases n,
{
    let f = Format::flexible(0);
    let (groups, after) = r.items::<ConsumerGroupDescribeGroup>(f, n);
    let typed = Seq::new(n, |i: int| group_with_types(groups[i], member_types[i]));
    if n == 0 {
        assert(typed_groups(r, member_types, n) + next =~= next);
        assert(typed =~= Seq::empty());
    } else {
        let (others, before) = r.items::<ConsumerGroupDescribeGroup>(f, (n - 1) as nat);
        assert(!r.failed() && !before.failed());
        let group = typed_group(before, member_types[n - 1]);
        lemma_typed_groups(r, member_types, (n - 1) as nat, group + next);
        assert(typed_groups(r, member_types, n) + next =~= typed_groups(
            r,
            member_types,
            (n - 1) as nat,
        ) + (group + next));
        lemma_typed_group(before, member_types[n - 1], next);
        assert(groups =~= others.push(groups[n - 1]));
        assert(groups.take(others.len() as int) =~= others);
        assert(typed =~= Seq::new(
            (n - 1) as nat,
            |i: int| group_with_types(others[i], member_types[i]),
        ).push(group_with_types(groups[n - 1], member_types[n - 1])));
        lemma_members_in_front(others, groups, (n - 1) as nat);
    }
}

/// Groups behind the first ones do not count.
proof fn lemma_members_in_front(
    a: Seq<ConsumerGroupDescribeGroupView>,
    b: Seq<ConsumerGroupDescribeGroupView>,
    n: nat,
)
    requires
        n <= a.len() <= b.len(),
        b.take(a.len() as int) == a,
    ensures
        members_in(a, n) == members_in(b, n),
    decreases n,
{
    if n > 0 {
        lemma_members_in_front(a, b, (n - 1) as nat);
        assert(a[n - 1] == b.take(a.len() as int)[n - 1]);
    }
}

/// A version 0 body that is accepted becomes a version 1 body by a byte that is put
/// in for each member, behind its target assignment. Whatever follows, version 1
/// reads the same response from it, but that each member has the type that was put
/// in, where version 0 gives `-1`, and takes just the body.
pub proof fn law_member_types_are_added(
    body: Seq<u8>,
    member_types: Seq<Seq<i8>>,
    trailing: Seq<u8>,
)
    requires
        !ConsumerGroupDescribeResponse::read(Format::flexible(0), Reader::on(body)).1.failed(),
    ensures
        ({
            let (response, after) = ConsumerGroupDescribeResponse::read(
                Format::flexible(0),
                Reader::on(body),
            );
            &&& forall|i: int, j: int|
                0 <= i < response.groups.len() && 0 <= j < response.groups[i].members.len() ==> (
                #[trigger] response.groups[i].members[j]).member_type == -1
            &&& ConsumerGroupDescribeResponse::read(
                Format::flexible(1),
                Reader::on(typed_body(body, member_types) + trailing),
            ) == (response_with_types(response, member_types), Reader::on(trailing))
            &&& typed_body(body, member_types).len() + after.rest.len() == body.len() + members_in(
                response.groups,
                response.groups.len(),
            )
        }),
{
    let f = Format::flexible(0);
    let r = Reader::on(body);
    let ((throttle_time_ms, n), before) = read_response_head(f, r);
    let behind = before.items::<ConsumerGroupDescribeGroup>(f, n).1;
    let after = behind.tags(true);
    assert(consumes(r, before) && consumes(before, behind) && consumes(behind, after)) by {
        broadcast use group_consumes;

    }
    reveal(consumes);
    assert(!before.failed() && !behind.failed());
    let tail = taken(behind, after) + trailing;
    let groups = typed_groups(before, member_types, n);
    assert(typed_body(body, member_types) + trailing =~= taken(r, before) + (groups + tail));
    lemma_response_head_moved(f, r, groups + tail);
    lemma_typed_groups(before, member_types, n, tail);
    lemma_tags_moved(behind, trailing);
    let typed = Reader::on(typed_body(body, member_types) + trailing);
    assert(read_response_head(Format::flexible(1), typed) == read_response_head(f, typed));
}

} // verus!
