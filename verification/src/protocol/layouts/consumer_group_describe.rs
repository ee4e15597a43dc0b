//! Layouts of what [`crate::protocol::messages::consumer_group_describe`] holds.

use crate::buffer::Octets;
use crate::error::ErrorCode;
use crate::protocol::layouts::{
    count_fits, elements, is_tags, law_numbers_round_trip, law_texts_round_trip, lemma_array_read,
    lemma_array_written, lemma_one_read, lemma_tags_read, lemma_texts_named, lemma_views_of_numbers,
    writable,
};
use crate::protocol::messages::consumer_group_describe::{
    read_group_head, read_member_fields, ConsumerGroupDescribeGroup, ConsumerGroupDescribeGroupView,
    ConsumerGroupDescribeMember, ConsumerGroupDescribeMemberView, ConsumerGroupDescribeRequest,
    ConsumerGroupDescribeResponse, DescribeGroupAssignment, DescribeGroupAssignmentView,
    DescribeGroupTopicPartition, DescribeGroupTopicPartitionView,
};
use crate::protocol::messages::{VersionedDecode, VersionedEncode};
use crate::protocol::round_trip::{
    begins, behind, law_bool_round_trip, law_i16_round_trip, law_i32_round_trip, law_i8_round_trip,
    law_nullable_string_round_trip, law_raw_round_trip, law_varint_round_trip,
};
use crate::protocol::wire::{
    null_field, optional_text, views, Format, Reader, WireDecode, WireEncode, Writer,
};
use vstd::prelude::*;

verus! {

/// How a [`ConsumerGroupDescribeRequest`] is laid out in each version.
pub proof fn law_consumer_group_describe_request_layout(
    x: ConsumerGroupDescribeRequest,
    version: i16,
    w: Writer,
    total: Seq<u8>,
)
    requires
        !w.failed(),
    ensures
        ConsumerGroupDescribeRequest::request_name() == "ConsumerGroupDescribeRequest",
        ConsumerGroupDescribeRequest::encodes(version) <==> (0 <= version <= 1),
        (0 <= version <= 1) ==> ({
            let f = ConsumerGroupDescribeRequest::request_format(version);
            &&& f.flexible <==> true
        }),
        (0 <= version <= 1) ==> ({
            let f = ConsumerGroupDescribeRequest::request_format(version);
            (count_fits(x.group_ids@.len(), true) && writable(x.group_ids@, f))
        }) ==> !x.written_versioned(version, w).failed(),
        (0 <= version <= 1) ==> begins(total, x.written_versioned(version, w)) ==> ({
            let r = behind(total, w);
            let (group_ids, r) = r.string_array("", true);
            let (include_authorized_operations, r) = r.bool();
            let tags = r;
            let r = r.tags(true);
            &&& group_ids == views(x.group_ids@)
            &&& include_authorized_operations == x.include_authorized_operations
            &&& tags.tagged_fields().0.len() == 0
            &&& r == behind(total, x.written_versioned(version, w))
        }),
{
    if 0 <= version <= 1 {
        let f = ConsumerGroupDescribeRequest::request_format(version);
        let w0 = w;
        let w1 = w0.array(x.group_ids@, f);
        let w2 = w1.bool(x.include_authorized_operations);
        let w3 = w2.tags(true);
        lemma_array_written(w0, x.group_ids@, f);
        if begins(total, w3) {
            law_varint_round_trip(w2, 0, total);
            law_bool_round_trip(w1, x.include_authorized_operations, total);
            law_texts_round_trip(w0, x.group_ids@, f, total);
        }
        assert(x.written_versioned(version, w) == w3);
    }
}

/// How a [`DescribeGroupTopicPartition`] is laid out.
pub proof fn law_describe_group_topic_partition_layout(
    x: DescribeGroupTopicPartition,
    f: Format,
    topic_id: Seq<u8>,
    topic_name: Seq<char>,
    partitions: Seq<i32>,
    tags: Seq<u8>,
    rest: Seq<u8>,
)
    requires
        topic_id.len() == 16,
        is_tags(tags),
    ensures
        ({
            let w = Writer::at(Seq::empty());
            let w = w.raw(topic_id);
            let w = w.string(topic_name, f.flexible);
            let w = w.array(partitions, f);
            let w = if f.flexible {
                w.raw(tags)
            } else {
                w
            };
            let (read, r) = DescribeGroupTopicPartition::read(f, Reader::on(w.bytes + rest));
            !w.failed() ==> {
                &&& r == Reader::on(rest)
                &&& x@ == read ==> {
                    &&& x.topic_id@ == topic_id
                    &&& x.topic_name@ == topic_name
                    &&& x.partitions@ == partitions
                }
            }
        }),
{
    let w0 = Writer::at(Seq::empty());
    let w1 = w0.raw(topic_id);
    let w2 = w1.string(topic_name, f.flexible);
    let w3 = w2.array(partitions, f);
    let w4 = if f.flexible {
        w3.raw(tags)
    } else {
        w3
    };
    if !w4.failed() {
        let total = w4.bytes + rest;
        assert(total.take(w4.bytes.len() as int) =~= w4.bytes);
        assert(total.skip(w4.bytes.len() as int) =~= rest);
        if f.flexible {
            law_raw_round_trip(w3, tags, total);
            lemma_tags_read(tags, behind(total, w4).rest);
        }
        law_numbers_round_trip(w2, partitions, f, total);
        law_nullable_string_round_trip(w1, Some(topic_name), f.flexible, total);
        law_raw_round_trip(w0, topic_id, total);
        assert(total.skip(0) =~= total);
        lemma_views_of_numbers(x.partitions@);
    }
}

/// A [`DescribeGroupTopicPartition`] is refused where a field that it needs is null.
pub proof fn law_describe_group_topic_partition_needs_its_fields(f: Format, start: Reader)
    ensures
        ({
            let r = start;
            let r = r.uuid().1;
            let (topic_name, r) = r.nullable_string(f.flexible);
            !r.failed() && topic_name is None
                ==> DescribeGroupTopicPartition::read(f, start).1.failure == Some(
                    null_field("topic_name"),
                )
        }),
{
}

/// How a [`DescribeGroupAssignment`] is laid out.
#[verifier::rlimit(60)]
pub proof fn law_describe_group_assignment_layout(
    x: DescribeGroupAssignment,
    f: Format,
    topic_partitions: Seq<DescribeGroupTopicPartitionView>,
    topic_partitions_bytes: Seq<Seq<u8>>,
    tags: Seq<u8>,
    rest: Seq<u8>,
)
    requires
        elements::<DescribeGroupTopicPartition>(f, topic_partitions_bytes, topic_partitions),
        is_tags(tags),
    ensures
        ({
            let w = Writer::at(Seq::empty());
            let w = w.array_len(topic_partitions_bytes.len(), f.flexible).raw(
                topic_partitions_bytes.flatten(),
            );
            let w = if f.flexible {
                w.raw(tags)
            } else {
                w
            };
            let (read, r) = DescribeGroupAssignment::read(f, Reader::on(w.bytes + rest));
            !w.failed() ==> {
                &&& r == Reader::on(rest)
                &&& x@ == read ==> {
                    &&& views(x.topic_partitions@) == topic_partitions
                }
            }
        }),
{
    let w0 = Writer::at(Seq::empty());
    let w1 = w0.array_len(topic_partitions_bytes.len(), f.flexible).raw(
        topic_partitions_bytes.flatten(),
    );
    let w2 = if f.flexible {
        w1.raw(tags)
    } else {
        w1
    };
    if !w2.failed() {
        let total = w2.bytes + rest;
        assert(total.take(w2.bytes.len() as int) =~= w2.bytes);
        assert(total.skip(w2.bytes.len() as int) =~= rest);
        if f.flexible {
            law_raw_round_trip(w1, tags, total);
            lemma_tags_read(tags, behind(total, w2).rest);
        }
        lemma_array_read::<DescribeGroupTopicPartition>(
            w0,
            f,
            topic_partitions_bytes,
            topic_partitions,
            total,
        );
        assert(total.skip(0) =~= total);
    }
}

/// How a [`ConsumerGroupDescribeMember`] is laid out.
#[verifier::rlimit(60)]
pub proof fn law_consumer_group_describe_member_layout(
    x: ConsumerGroupDescribeMember,
    f: Format,
    member_id: Seq<char>,
    instance_id: Option<Seq<char>>,
    rack_id: Option<Seq<char>>,
    member_epoch: i32,
    client_id: Seq<char>,
    client_host: Seq<char>,
    subscribed_topic_names: Seq<String>,
    subscribed_topic_regex: Option<Seq<char>>,
    assignment: DescribeGroupAssignmentView,
    assignment_bytes: Seq<u8>,
    target_assignment: DescribeGroupAssignmentView,
    target_assignment_bytes: Seq<u8>,
    member_type: i8,
    tags: Seq<u8>,
    rest: Seq<u8>,
)
    requires
        DescribeGroupAssignment::read(f, Reader::on(assignment_bytes))
            == (assignment, Reader::on(Seq::empty())),
        DescribeGroupAssignment::read(f, Reader::on(target_assignment_bytes))
            == (target_assignment, Reader::on(Seq::empty())),
        is_tags(tags),
    ensures
        ({
            let w = Writer::at(Seq::empty());
            let w = w.string(member_id, f.flexible);
            let w = w.nullable_string(instance_id, f.flexible);
            let w = w.nullable_string(rack_id, f.flexible);
            let w = w.i32(member_epoch);
            let w = w.string(client_id, f.flexible);
            let w = w.string(client_host, f.flexible);
            let w = w.array(subscribed_topic_names, f);
            let w = w.nullable_string(subscribed_topic_regex, f.flexible);
            let w = w.raw(assignment_bytes);
            let w = w.raw(target_assignment_bytes);
            let w = if f.version >= 1 {
                w.i8(member_type)
            } else {
                w
            };
            let w = if f.flexible {
                w.raw(tags)
            } else {
                w
            };
            let (read, r) = ConsumerGroupDescribeMember::read(f, Reader::on(w.bytes + rest));
            !w.failed() ==> {
                &&& r == Reader::on(rest)
                &&& x@ == read ==> {
                    &&& x.member_id@ == member_id
                    &&& optional_text(x.instance_id) == instance_id
                    &&& optional_text(x.rack_id) == rack_id
                    &&& x.member_epoch == member_epoch
                    &&& x.client_id@ == client_id
                    &&& x.client_host@ == client_host
                    &&& views(x.subscribed_topic_names@) == views(subscribed_topic_names)
                    &&& optional_text(x.subscribed_topic_regex) == subscribed_topic_regex
                    &&& x.assignment@ == assignment
                    &&& x.target_assignment@ == target_assignment
                    &&& x.member_type == (if f.version >= 1 {
                        member_type
                    } else {
                        (-1) as i8
                    })
                }
            }
        }),
{
    let w0 = Writer::at(Seq::empty());
    let w1 = w0.string(member_id, f.flexible);
    let w2 = w1.nullable_string(instance_id, f.flexible);
    let w3 = w2.nullable_string(rack_id, f.flexible);
    let w4 = w3.i32(member_epoch);
    let w5 = w4.string(client_id, f.flexible);
    let w6 = w5.string(client_host, f.flexible);
    let w7 = w6.array(subscribed_topic_names, f);
    let w8 = w7.nullable_string(subscribed_topic_regex, f.flexible);
    let w9 = w8.raw(assignment_bytes);
    let w10 = w9.raw(target_assignment_bytes);
    let w11 = if f.version >= 1 {
        w10.i8(member_type)
    } else {
        w10
    };
    let w12 = if f.flexible {
        w11.raw(tags)
    } else {
        w11
    };
    if !w12.failed() {
        let total = w12.bytes + rest;
        assert(total.take(w12.bytes.len() as int) =~= w12.bytes);
        assert(total.skip(w12.bytes.len() as int) =~= rest);
        if f.flexible {
            law_raw_round_trip(w11, tags, total);
            lemma_tags_read(tags, behind(total, w12).rest);
        }
        if f.version >= 1 {
            law_i8_round_trip(w10, member_type, total);
        }
        law_raw_round_trip(w9, target_assignment_bytes, total);
        lemma_one_read::<DescribeGroupAssignment>(
            f,
            target_assignment_bytes,
            target_assignment,
            behind(total, w10).rest,
        );
        law_raw_round_trip(w8, assignment_bytes, total);
        lemma_one_read::<DescribeGroupAssignment>(
            f,
            assignment_bytes,
            assignment,
            behind(total, w9).rest,
        );
        law_nullable_string_round_trip(w7, subscribed_topic_regex, f.flexible, total);
        law_texts_round_trip(w6, subscribed_topic_names, f, total);
        law_nullable_string_round_trip(w5, Some(client_host), f.flexible, total);
        law_nullable_string_round_trip(w4, Some(client_id), f.flexible, total);
        law_i32_round_trip(w3, member_epoch, total);
        law_nullable_string_round_trip(w2, rack_id, f.flexible, total);
        law_nullable_string_round_trip(w1, instance_id, f.flexible, total);
        law_nullable_string_round_trip(w0, Some(member_id), f.flexible, total);
        lemma_texts_named(behind(total, w6), "subscribed_topic", f.flexible);
        assert(total.skip(0) =~= total);
        reveal(read_member_fields);
    }
}

/// A [`ConsumerGroupDescribeMember`] is refused where a field that it needs is null.
pub proof fn law_consumer_group_describe_member_needs_its_fields(f: Format, start: Reader)
    ensures
        ({
            let r = start;
            let (member_id, r) = r.nullable_string(f.flexible);
            !r.failed() && member_id is None
                ==> ConsumerGroupDescribeMember::read(f, start).1.failure == Some(
                    null_field("member_id"),
                )
        }),
        ({
            let r = start;
            let (member_id, r) = r.nullable_string(f.flexible);
            let r = r.nullable_string(f.flexible).1;
            let r = r.nullable_string(f.flexible).1;
            let r = r.i32().1;
            let (client_id, r) = r.nullable_string(f.flexible);
            !r.failed() && member_id is Some && client_id is None
                ==> ConsumerGroupDescribeMember::read(f, start).1.failure == Some(
                    null_field("client_id"),
                )
        }),
        ({
            let r = start;
            let (member_id, r) = r.nullable_string(f.flexible);
            let r = r.nullable_string(f.flexible).1;
            let r = r.nullable_string(f.flexible).1;
            let r = r.i32().1;
            let (client_id, r) = r.nullable_string(f.flexible);
            let (client_host, r) = r.nullable_string(f.flexible);
            !r.failed() && member_id is Some && client_id is Some && client_host is None
                ==> ConsumerGroupDescribeMember::read(f, start).1.failure == Some(
                    null_field("client_host"),
                )
        }),
{
    reveal(read_member_fields);
}

/// How a [`ConsumerGroupDescribeGroup`] is laid out.
#[verifier::rlimit(60)]
pub proof fn law_consumer_group_describe_group_layout(
    x: ConsumerGroupDescribeGroup,
    f: Format,
    error_code: i16,
    error_message: Option<Seq<char>>,
    group_id: Seq<char>,
    group_state: Seq<char>,
    group_epoch: i32,
    assignment_epoch: i32,
    assignor_name: Seq<char>,
    members: Seq<ConsumerGroupDescribeMemberView>,
    members_bytes: Seq<Seq<u8>>,
    authorized_operations: i32,
    tags: Seq<u8>,
    rest: Seq<u8>,
)
    requires
        elements::<ConsumerGroupDescribeMember>(f, members_bytes, members),
        is_tags(tags),
    ensures
        ({
            let w = Writer::at(Seq::empty());
            let w = w.i16(error_code);
            let w = w.nullable_string(error_message, f.flexible);
            let w = w.string(group_id, f.flexible);
            let w = w.string(group_state, f.flexible);
            let w = w.i32(group_epoch);
            let w = w.i32(assignment_epoch);
            let w = w.string(assignor_name, f.flexible);
            let w = w.array_len(members_bytes.len(), f.flexible).raw(members_bytes.flatten());
            let w = w.i32(authorized_operations);
            let w = if f.flexible {
                w.raw(tags)
            } else {
                w
            };
            let (read, r) = ConsumerGroupDescribeGroup::read(f, Reader::on(w.bytes + rest));
            !w.failed() ==> {
                &&& r == Reader::on(rest)
                &&& x@ == read ==> {
                    &&& x.error_code == ErrorCode::of(error_code)
                    &&& optional_text(x.error_message) == error_message
                    &&& x.group_id@ == group_id
                    &&& x.group_state@ == group_state
                    &&& x.group_epoch == group_epoch
                    &&& x.assignment_epoch == assignment_epoch
                    &&& x.assignor_name@ == assignor_name
                    &&& views(x.members@) == members
                    &&& x.authorized_operations == authorized_operations
                }
            }
        }),
{
    let w0 = Writer::at(Seq::empty());
    let w1 = w0.i16(error_code);
    let w2 = w1.nullable_string(error_message, f.flexible);
    let w3 = w2.string(group_id, f.flexible);
    let w4 = w3.string(group_state, f.flexible);
    let w5 = w4.i32(group_epoch);
    let w6 = w5.i32(assignment_epoch);
    let w7 = w6.string(assignor_name, f.flexible);
    let w8 = w7.array_len(members_bytes.len(), f.flexible).raw(members_bytes.flatten());
    let w9 = w8.i32(authorized_operations);
    let w10 = if f.flexible {
        w9.raw(tags)
    } else {
        w9
    };
    if !w10.failed() {
        let total = w10.bytes + rest;
        assert(total.take(w10.bytes.len() as int) =~= w10.bytes);
        assert(total.skip(w10.bytes.len() as int) =~= rest);
        if f.flexible {
            law_raw_round_trip(w9, tags, total);
            lemma_tags_read(tags, behind(total, w10).rest);
        }
        law_i32_round_trip(w8, authorized_operations, total);
        lemma_array_read::<ConsumerGroupDescribeMember>(w7, f, members_bytes, members, total);
        law_nullable_string_round_trip(w6, Some(assignor_name), f.flexible, total);
        law_i32_round_trip(w5, assignment_epoch, total);
        law_i32_round_trip(w4, group_epoch, total);
        law_nullable_string_round_trip(w3, Some(group_state), f.flexible, total);
        law_nullable_string_round_trip(w2, Some(group_id), f.flexible, total);
        law_nullable_string_round_trip(w1, error_message, f.flexible, total);
        law_i16_round_trip(w0, error_code, total);
        assert(total.skip(0) =~= total);
        reveal(read_group_head);
    }
}

/// A [`ConsumerGroupDescribeGroup`] is refused where a field that it needs is null.
pub proof fn law_consumer_group_describe_group_needs_its_fields(f: Format, start: Reader)
    ensures
        ({
            let r = start;
            let r = r.i16().1;
            let r = r.nullable_string(f.flexible).1;
            let (group_id, r) = r.nullable_string(f.flexible);
            !r.failed() && group_id is None
                ==> ConsumerGroupDescribeGroup::read(f, start).1.failure == Some(
                    null_field("group_id"),
                )
        }),
        ({
            let r = start;
            let r = r.i16().1;
            let r = r.nullable_string(f.flexible).1;
            let (group_id, r) = r.nullable_string(f.flexible);
            let (group_state, r) = r.nullable_string(f.flexible);
            !r.failed() && group_id is Some && group_state is None
                ==> ConsumerGroupDescribeGroup::read(f, start).1.failure == Some(
                    null_field("group_state"),
                )
        }),
        ({
            let r = start;
            let r = r.i16().1;
            let r = r.nullable_string(f.flexible).1;
            let (group_id, r) = r.nullable_string(f.flexible);
            let (group_state, r) = r.nullable_string(f.flexible);
            let r = r.i32().1;
            let r = r.i32().1;
            let (assignor_name, r) = r.nullable_string(f.flexible);
            !r.failed() && group_id is Some && group_state is Some && assignor_name is None
                ==> ConsumerGroupDescribeGroup::read(f, start).1.failure == Some(
                    null_field("assignor_name"),
                )
        }),
{
    reveal(read_group_head);
}

/// How a [`ConsumerGroupDescribeResponse`] is laid out in each version.
#[verifier::rlimit(60)]
pub proof fn law_consumer_group_describe_response_layout(
    x: ConsumerGroupDescribeResponse,
    version: i16,
    throttle_time_ms: i32,
    groups: Seq<ConsumerGroupDescribeGroupView>,
    groups_bytes: Seq<Seq<u8>>,
    tags: Seq<u8>,
    rest: Seq<u8>,
)
    requires
        elements::<ConsumerGroupDescribeGroup>(
            ConsumerGroupDescribeResponse::response_format(version),
            groups_bytes,
            groups,
        ),
        is_tags(tags),
    ensures
        ConsumerGroupDescribeResponse::response_name() == "ConsumerGroupDescribeResponse",
        ConsumerGroupDescribeResponse::decodes(version) <==> (0 <= version <= 1),
        (0 <= version <= 1) ==> ({
            let f = ConsumerGroupDescribeResponse::response_format(version);
            &&& f.flexible <==> true
            &&& (f.version >= 1) <==> (version >= 1)
        }),
        (0 <= version <= 1) ==> ({
            let w = Writer::at(Seq::empty());
            let w = w.i32(throttle_time_ms);
            let w = w.array_len(groups_bytes.len(), true).raw(groups_bytes.flatten());
            let w = w.raw(tags);
            let (read, r) = ConsumerGroupDescribeResponse::read_versioned(
                version,
                Reader::on(w.bytes + rest),
            );
            !w.failed() ==> {
                &&& r == Reader::on(rest)
                &&& x@ == read ==> {
                    &&& x.throttle_time_ms == throttle_time_ms
                    &&& views(x.groups@) == groups
                }
            }
        }),
{
    if 0 <= version <= 1 {
        let f = ConsumerGroupDescribeResponse::response_format(version);
        let w0 = Writer::at(Seq::empty());
        let w1 = w0.i32(throttle_time_ms);
        let w2 = w1.array_len(groups_bytes.len(), true).raw(groups_bytes.flatten());
        let w3 = w2.raw(tags);
        if !w3.failed() {
            let total = w3.bytes + rest;
            assert(total.take(w3.bytes.len() as int) =~= w3.bytes);
            assert(total.skip(w3.bytes.len() as int) =~= rest);
            law_raw_round_trip(w2, tags, total);
            lemma_tags_read(tags, behind(total, w3).rest);
            lemma_array_read::<ConsumerGroupDescribeGroup>(w1, f, groups_bytes, groups, total);
            law_i32_round_trip(w0, throttle_time_ms, total);
            assert(total.skip(0) =~= total);
        }
    }
}

} // verus!
