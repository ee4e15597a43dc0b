//! Layouts of what [`crate::protocol::messages::group`] holds.

use crate::buffer::Octets;
use crate::error::ErrorCode;
use crate::protocol::layouts::{
    count_fits, elements, law_texts_round_trip, lemma_array_read, lemma_array_stands,
    lemma_array_written, lemma_bytes_written, lemma_text_written, optional_text_fits, or_empty,
    past, stands, text_fits, writable,
};
use crate::protocol::messages::group::{
    DescribeGroupMember, DescribeGroupMemberView, DescribeGroupsRequest, DescribeGroupsResponse,
    DescribedGroup, DescribedGroupView, FindCoordinatorRequest, FindCoordinatorResponse,
    HeartbeatRequest, HeartbeatResponse, JoinGroupRequest, JoinGroupRequestProtocol,
    JoinGroupResponse, JoinGroupResponseMember, JoinGroupResponseMemberView, LeaveGroupMember,
    LeaveGroupRequest, LeaveGroupResponse, LeaveGroupResponseMember, LeaveGroupResponseMemberView,
    ListGroupsRequest, ListGroupsResponse, ListedGroup, ListedGroupView, SyncGroupRequest,
    SyncGroupRequestAssignment, SyncGroupResponse,
};
use crate::protocol::messages::{VersionedDecode, VersionedEncode};
use crate::protocol::round_trip::{
    begins, behind, law_i16_round_trip, law_i32_round_trip, law_i8_round_trip,
    law_nullable_bytes_round_trip, law_nullable_string_round_trip,
};
use crate::protocol::wire::{optional_text, views, Format, Reader, WireDecode, WireEncode, Writer};
use vstd::prelude::*;

verus! {

/// How a [`FindCoordinatorRequest`] is laid out in each version.
pub proof fn law_find_coordinator_request_layout(
    x: FindCoordinatorRequest,
    version: i16,
    w: Writer,
    total: Seq<u8>,
)
    requires
        !w.failed(),
    ensures
        FindCoordinatorRequest::request_name() == "FindCoordinatorRequest",
        FindCoordinatorRequest::encodes(version) <==> (0 <= version <= 1),
        (0 <= version <= 1) ==> ({
            let f = FindCoordinatorRequest::request_format(version);
            &&& f.flexible <==> false
        }),
        (0 <= version <= 1) ==> ({
            &&& text_fits(x.key@, false)
        }) ==> !x.written_versioned(version, w).failed(),
        (0 <= version <= 1) ==> begins(total, x.written_versioned(version, w)) ==> ({
            let r = behind(total, w);
            let (key, r) = r.nullable_string(false);
            let (key_type, r) = if version >= 1 {
                let (v, r) = r.i8();
                (Some(v), r)
            } else {
                (None, r)
            };
            &&& key == Some(x.key@)
            &&& key_type == (if version >= 1 {
                Some(x.key_type)
            } else {
                None
            })
            &&& r == behind(total, x.written_versioned(version, w))
        }),
{
    if 0 <= version <= 1 {
        let f = FindCoordinatorRequest::request_format(version);
        let w0 = w;
        let w1 = w0.string(x.key@, false);
        let w2 = if version >= 1 {
            w1.i8(x.key_type)
        } else {
            w1
        };
        lemma_text_written(w0, Some(x.key@), false);
        if begins(total, w2) {
            if version >= 1 {
                law_i8_round_trip(w1, x.key_type, total);
            }
            law_nullable_string_round_trip(w0, Some(x.key@), false, total);
        }
        assert(x.written_versioned(version, w) == w2);
    }
}

/// How a [`JoinGroupRequestProtocol`] is laid out.
pub proof fn law_join_group_request_protocol_layout(
    x: JoinGroupRequestProtocol,
    f: Format,
    w: Writer,
    total: Seq<u8>,
)
    requires
        !w.failed(),
    ensures
        ({
            &&& text_fits(x.name@, f.flexible)
            &&& count_fits(x.metadata@.len(), f.flexible)
        }) ==> !x.written(f, w).failed(),
        begins(total, x.written(f, w)) ==> ({
            let r = behind(total, w);
            let (name, r) = r.nullable_string(f.flexible);
            let (metadata, r) = r.nullable_bytes(f.flexible);
            &&& name == Some(x.name@)
            &&& metadata == Some(x.metadata@)
            &&& r == behind(total, x.written(f, w))
        }),
{
    let w0 = w;
    let w1 = w0.string(x.name@, f.flexible);
    let w2 = w1.bytes(x.metadata@, f.flexible);
    lemma_text_written(w0, Some(x.name@), f.flexible);
    lemma_bytes_written(w1, Some(x.metadata@), f.flexible);
    if begins(total, w2) {
        law_nullable_bytes_round_trip(w1, Some(x.metadata@), f.flexible, total);
        law_nullable_string_round_trip(w0, Some(x.name@), f.flexible, total);
    }
}

/// How a [`JoinGroupRequest`] is laid out in each version.
pub proof fn law_join_group_request_layout(
    x: JoinGroupRequest,
    version: i16,
    w: Writer,
    total: Seq<u8>,
)
    requires
        !w.failed(),
    ensures
        JoinGroupRequest::request_name() == "JoinGroupRequest",
        JoinGroupRequest::encodes(version) <==> (0 <= version <= 5),
        (0 <= version <= 5) ==> ({
            let f = JoinGroupRequest::request_format(version);
            &&& f.flexible <==> false
        }),
        (0 <= version <= 5) ==> ({
            let f = JoinGroupRequest::request_format(version);
            &&& text_fits(x.group_id@, false)
            &&& text_fits(x.member_id@, false)
            &&& version >= 5 ==> optional_text_fits(optional_text(x.group_instance_id), false)
            &&& text_fits(x.protocol_type@, false)
            &&& count_fits(x.protocols@.len(), false) && writable(x.protocols@, f)
        }) ==> !x.written_versioned(version, w).failed(),
        (0 <= version <= 5) ==> begins(total, x.written_versioned(version, w)) ==> ({
            let f = JoinGroupRequest::request_format(version);
            let r = behind(total, w);
            let (group_id, r) = r.nullable_string(false);
            let (session_timeout_ms, r) = r.i32();
            let (rebalance_timeout_ms, r) = if version >= 1 {
                let (v, r) = r.i32();
                (Some(v), r)
            } else {
                (None, r)
            };
            let (member_id, r) = r.nullable_string(false);
            let (group_instance_id, r) = if version >= 5 {
                let (v, r) = r.nullable_string(false);
                (Some(v), r)
            } else {
                (None, r)
            };
            let (protocol_type, r) = r.nullable_string(false);
            let (protocols_count, r) = r.array_len(false);
            let protocols_start = r;
            let r = past(total, r, x.protocols@, f);
            &&& group_id == Some(x.group_id@)
            &&& session_timeout_ms == x.session_timeout_ms
            &&& rebalance_timeout_ms == (if version >= 1 {
                Some(x.rebalance_timeout_ms)
            } else {
                None
            })
            &&& member_id == Some(x.member_id@)
            &&& group_instance_id == (if version >= 5 {
                Some(optional_text(x.group_instance_id))
            } else {
                None
            })
            &&& protocol_type == Some(x.protocol_type@)
            &&& protocols_count == x.protocols@.len()
            &&& stands(total, protocols_start, x.protocols@, f)
            &&& r == behind(total, x.written_versioned(version, w))
        }),
{
    if 0 <= version <= 5 {
        let f = JoinGroupRequest::request_format(version);
        let w0 = w;
        let w1 = w0.string(x.group_id@, false);
        let w2 = w1.i32(x.session_timeout_ms);
        let w3 = if version >= 1 {
            w2.i32(x.rebalance_timeout_ms)
        } else {
            w2
        };
        let w4 = w3.string(x.member_id@, false);
        let w5 = if version >= 5 {
            w4.nullable_string(optional_text(x.group_instance_id), false)
        } else {
            w4
        };
        let w6 = w5.string(x.protocol_type@, false);
        let w7 = w6.array(x.protocols@, f);
        lemma_text_written(w0, Some(x.group_id@), false);
        lemma_text_written(w3, Some(x.member_id@), false);
        lemma_text_written(w4, optional_text(x.group_instance_id), false);
        lemma_text_written(w5, Some(x.protocol_type@), false);
        lemma_array_written(w6, x.protocols@, f);
        if begins(total, w7) {
            lemma_array_stands(w6, x.protocols@, f, total);
            law_nullable_string_round_trip(w5, Some(x.protocol_type@), false, total);
            if version >= 5 {
                law_nullable_string_round_trip(
                    w4,
                    optional_text(x.group_instance_id),
                    false,
                    total,
                );
            }
            law_nullable_string_round_trip(w3, Some(x.member_id@), false, total);
            if version >= 1 {
                law_i32_round_trip(w2, x.rebalance_timeout_ms, total);
            }
            law_i32_round_trip(w1, x.session_timeout_ms, total);
            law_nullable_string_round_trip(w0, Some(x.group_id@), false, total);
        }
        assert(x.written_versioned(version, w) == w7);
    }
}

/// How a [`SyncGroupRequestAssignment`] is laid out.
pub proof fn law_sync_group_request_assignment_layout(
    x: SyncGroupRequestAssignment,
    f: Format,
    w: Writer,
    total: Seq<u8>,
)
    requires
        !w.failed(),
    ensures
        ({
            &&& text_fits(x.member_id@, f.flexible)
            &&& count_fits(x.assignment@.len(), f.flexible)
        }) ==> !x.written(f, w).failed(),
        begins(total, x.written(f, w)) ==> ({
            let r = behind(total, w);
            let (member_id, r) = r.nullable_string(f.flexible);
            let (assignment, r) = r.nullable_bytes(f.flexible);
            &&& member_id == Some(x.member_id@)
            &&& assignment == Some(x.assignment@)
            &&& r == behind(total, x.written(f, w))
        }),
{
    let w0 = w;
    let w1 = w0.string(x.member_id@, f.flexible);
    let w2 = w1.bytes(x.assignment@, f.flexible);
    lemma_text_written(w0, Some(x.member_id@), f.flexible);
    lemma_bytes_written(w1, Some(x.assignment@), f.flexible);
    if begins(total, w2) {
        law_nullable_bytes_round_trip(w1, Some(x.assignment@), f.flexible, total);
        law_nullable_string_round_trip(w0, Some(x.member_id@), f.flexible, total);
    }
}

/// How a [`SyncGroupRequest`] is laid out in each version.
pub proof fn law_sync_group_request_layout(
    x: SyncGroupRequest,
    version: i16,
    w: Writer,
    total: Seq<u8>,
)
    requires
        !w.failed(),
    ensures
        SyncGroupRequest::request_name() == "SyncGroupRequest",
        SyncGroupRequest::encodes(version) <==> (0 <= version <= 3),
        (0 <= version <= 3) ==> ({
            let f = SyncGroupRequest::request_format(version);
            &&& f.flexible <==> false
        }),
        (0 <= version <= 3) ==> ({
            let f = SyncGroupRequest::request_format(version);
            &&& text_fits(x.group_id@, false)
            &&& text_fits(x.member_id@, false)
            &&& version >= 3 ==> optional_text_fits(optional_text(x.group_instance_id), false)
            &&& count_fits(x.assignments@.len(), false) && writable(x.assignments@, f)
        }) ==> !x.written_versioned(version, w).failed(),
        (0 <= version <= 3) ==> begins(total, x.written_versioned(version, w)) ==> ({
            let f = SyncGroupRequest::request_format(version);
            let r = behind(total, w);
            let (group_id, r) = r.nullable_string(false);
            let (generation_id, r) = r.i32();
            let (member_id, r) = r.nullable_string(false);
            let (group_instance_id, r) = if version >= 3 {
                let (v, r) = r.nullable_string(false);
                (Some(v), r)
            } else {
                (None, r)
            };
            let (assignments_count, r) = r.array_len(false);
            let assignments_start = r;
            let r = past(total, r, x.assignments@, f);
            &&& group_id == Some(x.group_id@)
            &&& generation_id == x.generation_id
            &&& member_id == Some(x.member_id@)
            &&& group_instance_id == (if version >= 3 {
                Some(optional_text(x.group_instance_id))
            } else {
                None
            })
            &&& assignments_count == x.assignments@.len()
            &&& stands(total, assignments_start, x.assignments@, f)
            &&& r == behind(total, x.written_versioned(version, w))
        }),
{
    if 0 <= version <= 3 {
        let f = SyncGroupRequest::request_format(version);
        let w0 = w;
        let w1 = w0.string(x.group_id@, false);
        let w2 = w1.i32(x.generation_id);
        let w3 = w2.string(x.member_id@, false);
        let w4 = if version >= 3 {
            w3.nullable_string(optional_text(x.group_instance_id), false)
        } else {
            w3
        };
        let w5 = w4.array(x.assignments@, f);
        lemma_text_written(w0, Some(x.group_id@), false);
        lemma_text_written(w2, Some(x.member_id@), false);
        lemma_text_written(w3, optional_text(x.group_instance_id), false);
        lemma_array_written(w4, x.assignments@, f);
        if begins(total, w5) {
            lemma_array_stands(w4, x.assignments@, f, total);
            if version >= 3 {
                law_nullable_string_round_trip(
                    w3,
                    optional_text(x.group_instance_id),
                    false,
                    total,
                );
            }
            law_nullable_string_round_trip(w2, Some(x.member_id@), false, total);
            law_i32_round_trip(w1, x.generation_id, total);
            law_nullable_string_round_trip(w0, Some(x.group_id@), false, total);
        }
        assert(x.written_versioned(version, w) == w5);
    }
}

/// How a [`HeartbeatRequest`] is laid out in each version.
pub proof fn law_heartbeat_request_layout(
    x: HeartbeatRequest,
    version: i16,
    w: Writer,
    total: Seq<u8>,
)
    requires
        !w.failed(),
    ensures
        HeartbeatRequest::request_name() == "HeartbeatRequest",
        HeartbeatRequest::encodes(version) <==> (0 <= version <= 3),
        (0 <= version <= 3) ==> ({
            let f = HeartbeatRequest::request_format(version);
            &&& f.flexible <==> false
        }),
        (0 <= version <= 3) ==> ({
            &&& text_fits(x.group_id@, false)
            &&& text_fits(x.member_id@, false)
            &&& version >= 3 ==> optional_text_fits(optional_text(x.group_instance_id), false)
        }) ==> !x.written_versioned(version, w).failed(),
        (0 <= version <= 3) ==> begins(total, x.written_versioned(version, w)) ==> ({
            let r = behind(total, w);
            let (group_id, r) = r.nullable_string(false);
            let (generation_id, r) = r.i32();
            let (member_id, r) = r.nullable_string(false);
            let (group_instance_id, r) = if version >= 3 {
                let (v, r) = r.nullable_string(false);
                (Some(v), r)
            } else {
                (None, r)
            };
            &&& group_id == Some(x.group_id@)
            &&& generation_id == x.generation_id
            &&& member_id == Some(x.member_id@)
            &&& group_instance_id == (if version >= 3 {
                Some(optional_text(x.group_instance_id))
            } else {
                None
            })
            &&& r == behind(total, x.written_versioned(version, w))
        }),
{
    if 0 <= version <= 3 {
        let f = HeartbeatRequest::request_format(version);
        let w0 = w;
        let w1 = w0.string(x.group_id@, false);
        let w2 = w1.i32(x.generation_id);
        let w3 = w2.string(x.member_id@, false);
        let w4 = if version >= 3 {
            w3.nullable_string(optional_text(x.group_instance_id), false)
        } else {
            w3
        };
        lemma_text_written(w0, Some(x.group_id@), false);
        lemma_text_written(w2, Some(x.member_id@), false);
        lemma_text_written(w3, optional_text(x.group_instance_id), false);
        if begins(total, w4) {
            if version >= 3 {
                law_nullable_string_round_trip(
                    w3,
                    optional_text(x.group_instance_id),
                    false,
                    total,
                );
            }
            law_nullable_string_round_trip(w2, Some(x.member_id@), false, total);
            law_i32_round_trip(w1, x.generation_id, total);
            law_nullable_string_round_trip(w0, Some(x.group_id@), false, total);
        }
        assert(x.written_versioned(version, w) == w4);
    }
}

/// How a [`LeaveGroupMember`] is laid out.
pub proof fn law_leave_group_member_layout(
    x: LeaveGroupMember,
    f: Format,
    w: Writer,
    total: Seq<u8>,
)
    requires
        !w.failed(),
    ensures
        ({
            &&& text_fits(x.member_id@, f.flexible)
            &&& optional_text_fits(optional_text(x.group_instance_id), f.flexible)
        }) ==> !x.written(f, w).failed(),
        begins(total, x.written(f, w)) ==> ({
            let r = behind(total, w);
            let (member_id, r) = r.nullable_string(f.flexible);
            let (group_instance_id, r) = r.nullable_string(f.flexible);
            &&& member_id == Some(x.member_id@)
            &&& group_instance_id == optional_text(x.group_instance_id)
            &&& r == behind(total, x.written(f, w))
        }),
{
    let w0 = w;
    let w1 = w0.string(x.member_id@, f.flexible);
    let w2 = w1.nullable_string(optional_text(x.group_instance_id), f.flexible);
    lemma_text_written(w0, Some(x.member_id@), f.flexible);
    lemma_text_written(w1, optional_text(x.group_instance_id), f.flexible);
    if begins(total, w2) {
        law_nullable_string_round_trip(w1, optional_text(x.group_instance_id), f.flexible, total);
        law_nullable_string_round_trip(w0, Some(x.member_id@), f.flexible, total);
    }
}

/// How a [`LeaveGroupRequest`] is laid out in each version.
pub proof fn law_leave_group_request_layout(
    x: LeaveGroupRequest,
    version: i16,
    w: Writer,
    total: Seq<u8>,
)
    requires
        !w.failed(),
    ensures
        LeaveGroupRequest::request_name() == "LeaveGroupRequest",
        LeaveGroupRequest::encodes(version) <==> (0 <= version <= 3),
        (0 <= version <= 3) ==> ({
            let f = LeaveGroupRequest::request_format(version);
            &&& f.flexible <==> false
        }),
        (0 <= version <= 3) ==> ({
            let f = LeaveGroupRequest::request_format(version);
            &&& text_fits(x.group_id@, false)
            &&& version >= 3 ==> count_fits(x.members@.len(), false) && writable(x.members@, f)
            &&& version < 3 ==> text_fits(x.member_id@, false)
        }) ==> !x.written_versioned(version, w).failed(),
        (0 <= version <= 3) ==> begins(total, x.written_versioned(version, w)) ==> ({
            let f = LeaveGroupRequest::request_format(version);
            let r = behind(total, w);
            let (group_id, r) = r.nullable_string(false);
            let (members_count, r) = if version >= 3 {
                let (n, r) = r.array_len(false);
                (Some(n), r)
            } else {
                (None, r)
            };
            let members_start = r;
            let r = if version >= 3 {
                past(total, r, x.members@, f)
            } else {
                r
            };
            let (member_id, r) = if version < 3 {
                let (v, r) = r.nullable_string(false);
                (Some(v), r)
            } else {
                (None, r)
            };
            &&& group_id == Some(x.group_id@)
            &&& members_count == (if version >= 3 {
                Some(x.members@.len())
            } else {
                None
            })
            &&& version >= 3 ==> stands(total, members_start, x.members@, f)
            &&& member_id == (if version < 3 {
                Some(Some(x.member_id@))
            } else {
                None
            })
            &&& r == behind(total, x.written_versioned(version, w))
        }),
{
    if 0 <= version <= 3 {
        let f = LeaveGroupRequest::request_format(version);
        let w0 = w;
        let w1 = w0.string(x.group_id@, false);
        let w2 = if version >= 3 {
            w1.array(x.members@, f)
        } else {
            w1
        };
        let w3 = if version < 3 {
            w2.string(x.member_id@, false)
        } else {
            w2
        };
        lemma_text_written(w0, Some(x.group_id@), false);
        lemma_array_written(w1, x.members@, f);
        lemma_text_written(w2, Some(x.member_id@), false);
        if begins(total, w3) {
            if version < 3 {
                law_nullable_string_round_trip(w2, Some(x.member_id@), false, total);
            }
            if version >= 3 {
                lemma_array_stands(w1, x.members@, f, total);
            }
            law_nullable_string_round_trip(w0, Some(x.group_id@), false, total);
        }
        assert(x.written_versioned(version, w) == w3);
    }
}

/// How a [`DescribeGroupsRequest`] is laid out in each version.
pub proof fn law_describe_groups_request_layout(
    x: DescribeGroupsRequest,
    version: i16,
    w: Writer,
    total: Seq<u8>,
)
    requires
        !w.failed(),
    ensures
        DescribeGroupsRequest::request_name() == "DescribeGroupsRequest",
        DescribeGroupsRequest::encodes(version) <==> (0 <= version <= 1),
        (0 <= version <= 1) ==> ({
            let f = DescribeGroupsRequest::request_format(version);
            &&& f.flexible <==> false
        }),
        (0 <= version <= 1) ==> ({
            let f = DescribeGroupsRequest::request_format(version);
            (count_fits(x.groups@.len(), false) && writable(x.groups@, f))
        }) ==> !x.written_versioned(version, w).failed(),
        (0 <= version <= 1) ==> begins(total, x.written_versioned(version, w)) ==> ({
            let r = behind(total, w);
            let (groups, r) = r.string_array("", false);
            &&& groups == views(x.groups@)
            &&& r == behind(total, x.written_versioned(version, w))
        }),
{
    if 0 <= version <= 1 {
        let f = DescribeGroupsRequest::request_format(version);
        let w0 = w;
        let w1 = w0.array(x.groups@, f);
        lemma_array_written(w0, x.groups@, f);
        if begins(total, w1) {
            law_texts_round_trip(w0, x.groups@, f, total);
        }
        assert(x.written_versioned(version, w) == w1);
    }
}

/// How a [`ListGroupsRequest`] is laid out in each version.
pub proof fn law_list_groups_request_layout(
    x: ListGroupsRequest,
    version: i16,
    w: Writer,
    total: Seq<u8>,
)
    requires
        !w.failed(),
    ensures
        ListGroupsRequest::request_name() == "ListGroupsRequest",
        ListGroupsRequest::encodes(version) <==> (0 <= version <= 1),
        (0 <= version <= 1) ==> ({
            let f = ListGroupsRequest::request_format(version);
            &&& f.flexible <==> false
        }),
        (0 <= version <= 1) ==> !x.written_versioned(version, w).failed(),
        (0 <= version <= 1) ==> begins(total, x.written_versioned(version, w)) ==> ({
            let r = behind(total, w);
            &&& r == behind(total, x.written_versioned(version, w))
        }),
{
    if 0 <= version <= 1 {
        let f = ListGroupsRequest::request_format(version);
        let w0 = w;
        assert(x.written_versioned(version, w) == w0);
    }
}

/// How a [`FindCoordinatorResponse`] is laid out in each version.
pub proof fn law_find_coordinator_response_layout(
    x: FindCoordinatorResponse,
    version: i16,
    throttle_time_ms: i32,
    error_code: i16,
    error_message: Option<Seq<char>>,
    node_id: i32,
    host: Option<Seq<char>>,
    port: i32,
    rest: Seq<u8>,
)
    ensures
        FindCoordinatorResponse::response_name() == "FindCoordinatorResponse",
        FindCoordinatorResponse::decodes(version) <==> (0 <= version <= 1),
        (0 <= version <= 1) ==> ({
            let f = FindCoordinatorResponse::response_format(version);
            &&& f.flexible <==> false
        }),
        (0 <= version <= 1) ==> ({
            let w = Writer::at(Seq::empty());
            let w = if version >= 1 {
                w.i32(throttle_time_ms)
            } else {
                w
            };
            let w = w.i16(error_code);
            let w = if version >= 1 {
                w.nullable_string(error_message, false)
            } else {
                w
            };
            let w = w.i32(node_id);
            let w = w.nullable_string(host, false);
            let w = w.i32(port);
            let (read, r) = FindCoordinatorResponse::read_versioned(
                version,
                Reader::on(w.bytes + rest),
            );
            !w.failed() ==> {
                &&& r == Reader::on(rest)
                &&& x@ == read ==> {
                    &&& x.throttle_time_ms == (if version >= 1 {
                        throttle_time_ms
                    } else {
                        0
                    })
                    &&& x.error_code == ErrorCode::of(error_code)
                    &&& optional_text(x.error_message) == (if version >= 1 {
                        error_message
                    } else {
                        None
                    })
                    &&& x.node_id == node_id
                    &&& x.host@ == or_empty(host)
                    &&& x.port == port
                }
            }
        }),
{
    if 0 <= version <= 1 {
        let f = FindCoordinatorResponse::response_format(version);
        let w0 = Writer::at(Seq::empty());
        let w1 = if version >= 1 {
            w0.i32(throttle_time_ms)
        } else {
            w0
        };
        let w2 = w1.i16(error_code);
        let w3 = if version >= 1 {
            w2.nullable_string(error_message, false)
        } else {
            w2
        };
        let w4 = w3.i32(node_id);
        let w5 = w4.nullable_string(host, false);
        let w6 = w5.i32(port);
        if !w6.failed() {
            let total = w6.bytes + rest;
            assert(total.take(w6.bytes.len() as int) =~= w6.bytes);
            assert(total.skip(w6.bytes.len() as int) =~= rest);
            law_i32_round_trip(w5, port, total);
            law_nullable_string_round_trip(w4, host, false, total);
            law_i32_round_trip(w3, node_id, total);
            if version >= 1 {
                law_nullable_string_round_trip(w2, error_message, false, total);
            }
            law_i16_round_trip(w1, error_code, total);
            if version >= 1 {
                law_i32_round_trip(w0, throttle_time_ms, total);
            }
            assert(total.skip(0) =~= total);
        }
    }
}

/// How a [`JoinGroupResponseMember`] is laid out.
pub proof fn law_join_group_response_member_layout(
    x: JoinGroupResponseMember,
    f: Format,
    member_id: Option<Seq<char>>,
    group_instance_id: Option<Seq<char>>,
    metadata: Option<Seq<u8>>,
    rest: Seq<u8>,
)
    ensures
        ({
            let w = Writer::at(Seq::empty());
            let w = w.nullable_string(member_id, f.flexible);
            let w = if f.version >= 5 {
                w.nullable_string(group_instance_id, f.flexible)
            } else {
                w
            };
            let w = w.nullable_bytes(metadata, f.flexible);
            let (read, r) = JoinGroupResponseMember::read(f, Reader::on(w.bytes + rest));
            !w.failed() ==> {
                &&& r == Reader::on(rest)
                &&& x@ == read ==> {
                    &&& x.member_id@ == or_empty(member_id)
                    &&& optional_text(x.group_instance_id) == (if f.version >= 5 {
                        group_instance_id
                    } else {
                        None
                    })
                    &&& x.metadata@ == or_empty(metadata)
                }
            }
        }),
{
    let w0 = Writer::at(Seq::empty());
    let w1 = w0.nullable_string(member_id, f.flexible);
    let w2 = if f.version >= 5 {
        w1.nullable_string(group_instance_id, f.flexible)
    } else {
        w1
    };
    let w3 = w2.nullable_bytes(metadata, f.flexible);
    if !w3.failed() {
        let total = w3.bytes + rest;
        assert(total.take(w3.bytes.len() as int) =~= w3.bytes);
        assert(total.skip(w3.bytes.len() as int) =~= rest);
        law_nullable_bytes_round_trip(w2, metadata, f.flexible, total);
        if f.version >= 5 {
            law_nullable_string_round_trip(w1, group_instance_id, f.flexible, total);
        }
        law_nullable_string_round_trip(w0, member_id, f.flexible, total);
        assert(total.skip(0) =~= total);
    }
}

/// How a [`JoinGroupResponse`] is laid out in each version.
#[verifier::rlimit(60)]
pub proof fn law_join_group_response_layout(
    x: JoinGroupResponse,
    version: i16,
    throttle_time_ms: i32,
    error_code: i16,
    generation_id: i32,
    protocol_name: Option<Seq<char>>,
    leader: Option<Seq<char>>,
    member_id: Option<Seq<char>>,
    members: Seq<JoinGroupResponseMemberView>,
    members_bytes: Seq<Seq<u8>>,
    rest: Seq<u8>,
)
    requires
        elements::<JoinGroupResponseMember>(
            JoinGroupResponse::response_format(version),
            members_bytes,
            members,
        ),
    ensures
        JoinGroupResponse::response_name() == "JoinGroupResponse",
        JoinGroupResponse::decodes(version) <==> (0 <= version <= 5),
        (0 <= version <= 5) ==> ({
            let f = JoinGroupResponse::response_format(version);
            &&& f.flexible <==> false
            &&& (f.version >= 5) <==> (version >= 5)
        }),
        (0 <= version <= 5) ==> ({
            let w = Writer::at(Seq::empty());
            let w = if version >= 2 {
                w.i32(throttle_time_ms)
            } else {
                w
            };
            let w = w.i16(error_code);
            let w = w.i32(generation_id);
            let w = w.nullable_string(protocol_name, false);
            let w = w.nullable_string(leader, false);
            let w = w.nullable_string(member_id, false);
            let w = w.array_len(members_bytes.len(), false).raw(members_bytes.flatten());
            let (read, r) = JoinGroupResponse::read_versioned(version, Reader::on(w.bytes + rest));
            !w.failed() ==> {
                &&& r == Reader::on(rest)
                &&& x@ == read ==> {
                    &&& x.throttle_time_ms == (if version >= 2 {
                        throttle_time_ms
                    } else {
                        0
                    })
                    &&& x.error_code == ErrorCode::of(error_code)
                    &&& x.generation_id == generation_id
                    &&& optional_text(x.protocol_type) == None::<Seq<char>>
                    &&& optional_text(x.protocol_name) == protocol_name
                    &&& x.leader@ == or_empty(leader)
                    &&& x.member_id@ == or_empty(member_id)
                    &&& views(x.members@) == members
                }
            }
        }),
{
    if 0 <= version <= 5 {
        let f = JoinGroupResponse::response_format(version);
        let w0 = Writer::at(Seq::empty());
        let w1 = if version >= 2 {
            w0.i32(throttle_time_ms)
        } else {
            w0
        };
        let w2 = w1.i16(error_code);
        let w3 = w2.i32(generation_id);
        let w4 = w3.nullable_string(protocol_name, false);
        let w5 = w4.nullable_string(leader, false);
        let w6 = w5.nullable_string(member_id, false);
        let w7 = w6.array_len(members_bytes.len(), false).raw(members_bytes.flatten());
        if !w7.failed() {
            let total = w7.bytes + rest;
            assert(total.take(w7.bytes.len() as int) =~= w7.bytes);
            assert(total.skip(w7.bytes.len() as int) =~= rest);
            lemma_array_read::<JoinGroupResponseMember>(w6, f, members_bytes, members, total);
            law_nullable_string_round_trip(w5, member_id, false, total);
            law_nullable_string_round_trip(w4, leader, false, total);
            law_nullable_string_round_trip(w3, protocol_name, false, total);
            law_i32_round_trip(w2, generation_id, total);
            law_i16_round_trip(w1, error_code, total);
            if version >= 2 {
                law_i32_round_trip(w0, throttle_time_ms, total);
            }
            assert(total.skip(0) =~= total);
        }
    }
}

/// How a [`SyncGroupResponse`] is laid out in each version.
pub proof fn law_sync_group_response_layout(
    x: SyncGroupResponse,
    version: i16,
    throttle_time_ms: i32,
    error_code: i16,
    assignment: Option<Seq<u8>>,
    rest: Seq<u8>,
)
    ensures
        SyncGroupResponse::response_name() == "SyncGroupResponse",
        SyncGroupResponse::decodes(version) <==> (0 <= version <= 3),
        (0 <= version <= 3) ==> ({
            let f = SyncGroupResponse::response_format(version);
            &&& f.flexible <==> false
        }),
        (0 <= version <= 3) ==> ({
            let w = Writer::at(Seq::empty());
            let w = if version >= 1 {
                w.i32(throttle_time_ms)
            } else {
                w
            };
            let w = w.i16(error_code);
            let w = w.nullable_bytes(assignment, false);
            let (read, r) = SyncGroupResponse::read_versioned(version, Reader::on(w.bytes + rest));
            !w.failed() ==> {
                &&& r == Reader::on(rest)
                &&& x@ == read ==> {
                    &&& x.throttle_time_ms == (if version >= 1 {
                        throttle_time_ms
                    } else {
                        0
                    })
                    &&& x.error_code == ErrorCode::of(error_code)
                    &&& optional_text(x.protocol_type) == None::<Seq<char>>
                    &&& optional_text(x.protocol_name) == None::<Seq<char>>
                    &&& x.assignment@ == or_empty(assignment)
                }
            }
        }),
{
    if 0 <= version <= 3 {
        let f = SyncGroupResponse::response_format(version);
        let w0 = Writer::at(Seq::empty());
        let w1 = if version >= 1 {
            w0.i32(throttle_time_ms)
        } else {
            w0
        };
        let w2 = w1.i16(error_code);
        let w3 = w2.nullable_bytes(assignment, false);
        if !w3.failed() {
            let total = w3.bytes + rest;
            assert(total.take(w3.bytes.len() as int) =~= w3.bytes);
            assert(total.skip(w3.bytes.len() as int) =~= rest);
            law_nullable_bytes_round_trip(w2, assignment, false, total);
            law_i16_round_trip(w1, error_code, total);
            if version >= 1 {
                law_i32_round_trip(w0, throttle_time_ms, total);
            }
            assert(total.skip(0) =~= total);
        }
    }
}

/// How a [`HeartbeatResponse`] is laid out in each version.
pub proof fn law_heartbeat_response_layout(
    x: HeartbeatResponse,
    version: i16,
    throttle_time_ms: i32,
    error_code: i16,
    rest: Seq<u8>,
)
    ensures
        HeartbeatResponse::response_name() == "HeartbeatResponse",
        HeartbeatResponse::decodes(version) <==> (0 <= version <= 3),
        (0 <= version <= 3) ==> ({
            let f = HeartbeatResponse::response_format(version);
            &&& f.flexible <==> false
        }),
        (0 <= version <= 3) ==> ({
            let w = Writer::at(Seq::empty());
            let w = if version >= 1 {
                w.i32(throttle_time_ms)
            } else {
                w
            };
            let w = w.i16(error_code);
            let (read, r) = HeartbeatResponse::read_versioned(version, Reader::on(w.bytes + rest));
            !w.failed() ==> {
                &&& r == Reader::on(rest)
                &&& x@ == read ==> {
                    &&& x.throttle_time_ms == (if version >= 1 {
                        throttle_time_ms
                    } else {
                        0
                    })
                    &&& x.error_code == ErrorCode::of(error_code)
                }
            }
        }),
{
    if 0 <= version <= 3 {
        let f = HeartbeatResponse::response_format(version);
        let w0 = Writer::at(Seq::empty());
        let w1 = if version >= 1 {
            w0.i32(throttle_time_ms)
        } else {
            w0
        };
        let w2 = w1.i16(error_code);
        if !w2.failed() {
            let total = w2.bytes + rest;
            assert(total.take(w2.bytes.len() as int) =~= w2.bytes);
            assert(total.skip(w2.bytes.len() as int) =~= rest);
            law_i16_round_trip(w1, error_code, total);
            if version >= 1 {
                law_i32_round_trip(w0, throttle_time_ms, total);
            }
            assert(total.skip(0) =~= total);
        }
    }
}

/// How a [`LeaveGroupResponseMember`] is laid out.
pub proof fn law_leave_group_response_member_layout(
    x: LeaveGroupResponseMember,
    f: Format,
    member_id: Option<Seq<char>>,
    group_instance_id: Option<Seq<char>>,
    error_code: i16,
    rest: Seq<u8>,
)
    ensures
        ({
            let w = Writer::at(Seq::empty());
            let w = w.nullable_string(member_id, f.flexible);
            let w = w.nullable_string(group_instance_id, f.flexible);
            let w = w.i16(error_code);
            let (read, r) = LeaveGroupResponseMember::read(f, Reader::on(w.bytes + rest));
            !w.failed() ==> {
                &&& r == Reader::on(rest)
                &&& x@ == read ==> {
                    &&& x.member_id@ == or_empty(member_id)
                    &&& optional_text(x.group_instance_id) == group_instance_id
                    &&& x.error_code == ErrorCode::of(error_code)
                }
            }
        }),
{
    let w0 = Writer::at(Seq::empty());
    let w1 = w0.nullable_string(member_id, f.flexible);
    let w2 = w1.nullable_string(group_instance_id, f.flexible);
    let w3 = w2.i16(error_code);
    if !w3.failed() {
        let total = w3.bytes + rest;
        assert(total.take(w3.bytes.len() as int) =~= w3.bytes);
        assert(total.skip(w3.bytes.len() as int) =~= rest);
        law_i16_round_trip(w2, error_code, total);
        law_nullable_string_round_trip(w1, group_instance_id, f.flexible, total);
        law_nullable_string_round_trip(w0, member_id, f.flexible, total);
        assert(total.skip(0) =~= total);
    }
}

/// How a [`LeaveGroupResponse`] is laid out in each version.
#[verifier::rlimit(60)]
pub proof fn law_leave_group_response_layout(
    x: LeaveGroupResponse,
    version: i16,
    throttle_time_ms: i32,
    error_code: i16,
    members: Seq<LeaveGroupResponseMemberView>,
    members_bytes: Seq<Seq<u8>>,
    rest: Seq<u8>,
)
    requires
        elements::<LeaveGroupResponseMember>(
            LeaveGroupResponse::response_format(version),
            members_bytes,
            members,
        ),
    ensures
        LeaveGroupResponse::response_name() == "LeaveGroupResponse",
        LeaveGroupResponse::decodes(version) <==> (0 <= version <= 3),
        (0 <= version <= 3) ==> ({
            let f = LeaveGroupResponse::response_format(version);
            &&& f.flexible <==> false
        }),
        (0 <= version <= 3) ==> ({
            let w = Writer::at(Seq::empty());
            let w = if version >= 1 {
                w.i32(throttle_time_ms)
            } else {
                w
            };
            let w = w.i16(error_code);
            let w = if version >= 3 {
                w.array_len(members_bytes.len(), false).raw(members_bytes.flatten())
            } else {
                w
            };
            let (read, r) = LeaveGroupResponse::read_versioned(version, Reader::on(w.bytes + rest));
            !w.failed() ==> {
                &&& r == Reader::on(rest)
                &&& x@ == read ==> {
                    &&& x.throttle_time_ms == (if version >= 1 {
                        throttle_time_ms
                    } else {
                        0
                    })
                    &&& x.error_code == ErrorCode::of(error_code)
                    &&& views(x.members@) == (if version >= 3 {
                        members
                    } else {
                        Seq::empty()
                    })
                }
            }
        }),
{
    if 0 <= version <= 3 {
        let f = LeaveGroupResponse::response_format(version);
        let w0 = Writer::at(Seq::empty());
        let w1 = if version >= 1 {
            w0.i32(throttle_time_ms)
        } else {
            w0
        };
        let w2 = w1.i16(error_code);
        let w3 = if version >= 3 {
            w2.array_len(members_bytes.len(), false).raw(members_bytes.flatten())
        } else {
            w2
        };
        if !w3.failed() {
            let total = w3.bytes + rest;
            assert(total.take(w3.bytes.len() as int) =~= w3.bytes);
            assert(total.skip(w3.bytes.len() as int) =~= rest);
            if version >= 3 {
                lemma_array_read::<LeaveGroupResponseMember>(w2, f, members_bytes, members, total);
            }
            law_i16_round_trip(w1, error_code, total);
            if version >= 1 {
                law_i32_round_trip(w0, throttle_time_ms, total);
            }
            assert(total.skip(0) =~= total);
        }
    }
}

/// How a [`DescribeGroupMember`] is laid out.
pub proof fn law_describe_group_member_layout(
    x: DescribeGroupMember,
    f: Format,
    member_id: Option<Seq<char>>,
    client_id: Option<Seq<char>>,
    client_host: Option<Seq<char>>,
    member_metadata: Option<Seq<u8>>,
    member_assignment: Option<Seq<u8>>,
    rest: Seq<u8>,
)
    ensures
        ({
            let w = Writer::at(Seq::empty());
            let w = w.nullable_string(member_id, f.flexible);
            let w = w.nullable_string(client_id, f.flexible);
            let w = w.nullable_string(client_host, f.flexible);
            let w = w.nullable_bytes(member_metadata, f.flexible);
            let w = w.nullable_bytes(member_assignment, f.flexible);
            let (read, r) = DescribeGroupMember::read(f, Reader::on(w.bytes + rest));
            !w.failed() ==> {
                &&& r == Reader::on(rest)
                &&& x@ == read ==> {
                    &&& x.member_id@ == or_empty(member_id)
                    &&& optional_text(x.group_instance_id) == None::<Seq<char>>
                    &&& x.client_id@ == or_empty(client_id)
                    &&& x.client_host@ == or_empty(client_host)
                    &&& x.member_metadata@ == or_empty(member_metadata)
                    &&& x.member_assignment@ == or_empty(member_assignment)
                }
            }
        }),
{
    let w0 = Writer::at(Seq::empty());
    let w1 = w0.nullable_string(member_id, f.flexible);
    let w2 = w1.nullable_string(client_id, f.flexible);
    let w3 = w2.nullable_string(client_host, f.flexible);
    let w4 = w3.nullable_bytes(member_metadata, f.flexible);
    let w5 = w4.nullable_bytes(member_assignment, f.flexible);
    if !w5.failed() {
        let total = w5.bytes + rest;
        assert(total.take(w5.bytes.len() as int) =~= w5.bytes);
        assert(total.skip(w5.bytes.len() as int) =~= rest);
        law_nullable_bytes_round_trip(w4, member_assignment, f.flexible, total);
        law_nullable_bytes_round_trip(w3, member_metadata, f.flexible, total);
        law_nullable_string_round_trip(w2, client_host, f.flexible, total);
        law_nullable_string_round_trip(w1, client_id, f.flexible, total);
        law_nullable_string_round_trip(w0, member_id, f.flexible, total);
        assert(total.skip(0) =~= total);
    }
}

/// How a [`DescribedGroup`] is laid out.
#[verifier::rlimit(60)]
pub proof fn law_described_group_layout(
    x: DescribedGroup,
    f: Format,
    error_code: i16,
    group_id: Option<Seq<char>>,
    group_state: Option<Seq<char>>,
    protocol_type: Option<Seq<char>>,
    protocol_data: Option<Seq<char>>,
    members: Seq<DescribeGroupMemberView>,
    members_bytes: Seq<Seq<u8>>,
    rest: Seq<u8>,
)
    requires
        elements::<DescribeGroupMember>(f, members_bytes, members),
    ensures
        ({
            let w = Writer::at(Seq::empty());
            let w = w.i16(error_code);
            let w = w.nullable_string(group_id, f.flexible);
            let w = w.nullable_string(group_state, f.flexible);
            let w = w.nullable_string(protocol_type, f.flexible);
            let w = w.nullable_string(protocol_data, f.flexible);
            let w = w.array_len(members_bytes.len(), f.flexible).raw(members_bytes.flatten());
            let (read, r) = DescribedGroup::read(f, Reader::on(w.bytes + rest));
            !w.failed() ==> {
                &&& r == Reader::on(rest)
                &&& x@ == read ==> {
                    &&& x.error_code == ErrorCode::of(error_code)
                    &&& x.group_id@ == or_empty(group_id)
                    &&& x.group_state@ == or_empty(group_state)
                    &&& x.protocol_type@ == or_empty(protocol_type)
                    &&& x.protocol_data@ == or_empty(protocol_data)
                    &&& views(x.members@) == members
                }
            }
        }),
{
    let w0 = Writer::at(Seq::empty());
    let w1 = w0.i16(error_code);
    let w2 = w1.nullable_string(group_id, f.flexible);
    let w3 = w2.nullable_string(group_state, f.flexible);
    let w4 = w3.nullable_string(protocol_type, f.flexible);
    let w5 = w4.nullable_string(protocol_data, f.flexible);
    let w6 = w5.array_len(members_bytes.len(), f.flexible).raw(members_bytes.flatten());
    if !w6.failed() {
        let total = w6.bytes + rest;
        assert(total.take(w6.bytes.len() as int) =~= w6.bytes);
        assert(total.skip(w6.bytes.len() as int) =~= rest);
        lemma_array_read::<DescribeGroupMember>(w5, f, members_bytes, members, total);
        law_nullable_string_round_trip(w4, protocol_data, f.flexible, total);
        law_nullable_string_round_trip(w3, protocol_type, f.flexible, total);
        law_nullable_string_round_trip(w2, group_state, f.flexible, total);
        law_nullable_string_round_trip(w1, group_id, f.flexible, total);
        law_i16_round_trip(w0, error_code, total);
        assert(total.skip(0) =~= total);
    }
}

/// How a [`DescribeGroupsResponse`] is laid out in each version.
#[verifier::rlimit(60)]
pub proof fn law_describe_groups_response_layout(
    x: DescribeGroupsResponse,
    version: i16,
    throttle_time_ms: i32,
    groups: Seq<DescribedGroupView>,
    groups_bytes: Seq<Seq<u8>>,
    rest: Seq<u8>,
)
    requires
        elements::<DescribedGroup>(
            DescribeGroupsResponse::response_format(version),
            groups_bytes,
            groups,
        ),
    ensures
        DescribeGroupsResponse::response_name() == "DescribeGroupsResponse",
        DescribeGroupsResponse::decodes(version) <==> (0 <= version <= 1),
        (0 <= version <= 1) ==> ({
            let f = DescribeGroupsResponse::response_format(version);
            &&& f.flexible <==> false
        }),
        (0 <= version <= 1) ==> ({
            let w = Writer::at(Seq::empty());
            let w = if version >= 1 {
                w.i32(throttle_time_ms)
            } else {
                w
            };
            let w = w.array_len(groups_bytes.len(), false).raw(groups_bytes.flatten());
            let (read, r) = DescribeGroupsResponse::read_versioned(
                version,
                Reader::on(w.bytes + rest),
            );
            !w.failed() ==> {
                &&& r == Reader::on(rest)
                &&& x@ == read ==> {
                    &&& x.throttle_time_ms == (if version >= 1 {
                        throttle_time_ms
                    } else {
                        0
                    })
                    &&& views(x.groups@) == groups
                }
            }
        }),
{
    if 0 <= version <= 1 {
        let f = DescribeGroupsResponse::response_format(version);
        let w0 = Writer::at(Seq::empty());
        let w1 = if version >= 1 {
            w0.i32(throttle_time_ms)
        } else {
            w0
        };
        let w2 = w1.array_len(groups_bytes.len(), false).raw(groups_bytes.flatten());
        if !w2.failed() {
            let total = w2.bytes + rest;
            assert(total.take(w2.bytes.len() as int) =~= w2.bytes);
            assert(total.skip(w2.bytes.len() as int) =~= rest);
            lemma_array_read::<DescribedGroup>(w1, f, groups_bytes, groups, total);
            if version >= 1 {
                law_i32_round_trip(w0, throttle_time_ms, total);
            }
            assert(total.skip(0) =~= total);
        }
    }
}

/// How a [`ListedGroup`] is laid out.
pub proof fn law_listed_group_layout(
    x: ListedGroup,
    f: Format,
    group_id: Option<Seq<char>>,
    protocol_type: Option<Seq<char>>,
    rest: Seq<u8>,
)
    ensures
        ({
            let w = Writer::at(Seq::empty());
            let w = w.nullable_string(group_id, f.flexible);
            let w = w.nullable_string(protocol_type, f.flexible);
            let (read, r) = ListedGroup::read(f, Reader::on(w.bytes + rest));
            !w.failed() ==> {
                &&& r == Reader::on(rest)
                &&& x@ == read ==> {
                    &&& x.group_id@ == or_empty(group_id)
                    &&& x.protocol_type@ == or_empty(protocol_type)
                }
            }
        }),
{
    let w0 = Writer::at(Seq::empty());
    let w1 = w0.nullable_string(group_id, f.flexible);
    let w2 = w1.nullable_string(protocol_type, f.flexible);
    if !w2.failed() {
        let total = w2.bytes + rest;
        assert(total.take(w2.bytes.len() as int) =~= w2.bytes);
        assert(total.skip(w2.bytes.len() as int) =~= rest);
        law_nullable_string_round_trip(w1, protocol_type, f.flexible, total);
        law_nullable_string_round_trip(w0, group_id, f.flexible, total);
        assert(total.skip(0) =~= total);
    }
}

/// How a [`ListGroupsResponse`] is laid out in each version.
#[verifier::rlimit(60)]
pub proof fn law_list_groups_response_layout(
    x: ListGroupsResponse,
    version: i16,
    throttle_time_ms: i32,
    error_code: i16,
    groups: Seq<ListedGroupView>,
    groups_bytes: Seq<Seq<u8>>,
    rest: Seq<u8>,
)
    requires
        elements::<ListedGroup>(ListGroupsResponse::response_format(version), groups_bytes, groups),
    ensures
        ListGroupsResponse::response_name() == "ListGroupsResponse",
        ListGroupsResponse::decodes(version) <==> (0 <= version <= 1),
        (0 <= version <= 1) ==> ({
            let f = ListGroupsResponse::response_format(version);
            &&& f.flexible <==> false
        }),
        (0 <= version <= 1) ==> ({
            let w = Writer::at(Seq::empty());
            let w = if version >= 1 {
                w.i32(throttle_time_ms)
            } else {
                w
            };
            let w = w.i16(error_code);
            let w = w.array_len(groups_bytes.len(), false).raw(groups_bytes.flatten());
            let (read, r) = ListGroupsResponse::read_versioned(version, Reader::on(w.bytes + rest));
            !w.failed() ==> {
                &&& r == Reader::on(rest)
                &&& x@ == read ==> {
                    &&& x.throttle_time_ms == (if version >= 1 {
                        throttle_time_ms
                    } else {
                        0
                    })
                    &&& x.error_code == ErrorCode::of(error_code)
                    &&& views(x.groups@) == groups
                }
            }
        }),
{
    if 0 <= version <= 1 {
        let f = ListGroupsResponse::response_format(version);
        let w0 = Writer::at(Seq::empty());
        let w1 = if version >= 1 {
            w0.i32(throttle_time_ms)
        } else {
            w0
        };
        let w2 = w1.i16(error_code);
        let w3 = w2.array_len(groups_bytes.len(), false).raw(groups_bytes.flatten());
        if !w3.failed() {
            let total = w3.bytes + rest;
            assert(total.take(w3.bytes.len() as int) =~= w3.bytes);
            assert(total.skip(w3.bytes.len() as int) =~= rest);
            lemma_array_read::<ListedGroup>(w2, f, groups_bytes, groups, total);
            law_i16_round_trip(w1, error_code, total);
            if version >= 1 {
                law_i32_round_trip(w0, throttle_time_ms, total);
            }
            assert(total.skip(0) =~= total);
        }
    }
}

} // verus!
