//! Tests of `krafka::protocol::messages::admin`.

use bytes::{Buf, BufMut, Bytes, BytesMut};
use krafka::protocol::api::ApiKey;
use krafka::protocol::messages::admin::{
    ConsumerGroupDescribeRequest, ConsumerGroupDescribeResponse, DeleteGroupsRequest,
    DeleteGroupsResponse, DescribeClusterRequest, DescribeClusterResponse, DescribeGroupsRequest,
    DescribeGroupsResponse, ListClientMetricsResourcesRequest, ListClientMetricsResourcesResponse,
    ListGroupsRequest, ListGroupsResponse,
};

// ConsumerGroupHeartbeat (API key 68, KIP-848)

/// Helper: encode a compact string into `buf`.
/// Non-null string: varint(len + 1) then bytes.
/// Null string: varint(0).
fn put_compact_string(buf: &mut BytesMut, s: Option<&str>) {
    match s {
        Some(val) => {
            // len + 1 fits in one byte for small strings
            buf.put_u8((val.len() + 1) as u8);
            buf.put_slice(val.as_bytes());
        }
        None => buf.put_u8(0),
    }
}

/// Helper: write empty tagged fields (varint 0).
fn put_tagged_fields(buf: &mut BytesMut) {
    buf.put_u8(0);
}

#[test]
fn admin_test_describe_groups_request() {
    let request = DescribeGroupsRequest {
        groups: vec!["group-1".to_string(), "group-2".to_string()],
        include_authorized_operations: false,
    };
    assert_eq!(request.groups.len(), 2);
    assert_eq!(DescribeGroupsRequest::api_key(), ApiKey::DescribeGroups);

    let mut buf = BytesMut::new();
    request.encode_v1(&mut buf).unwrap();
    assert!(!buf.is_empty());
}

#[test]
fn test_describe_groups_response_decode_v1() {
    // Build a minimal v1 response: throttle_time_ms + 1 group with 0 members
    let mut buf = BytesMut::new();
    // throttle_time_ms
    buf.put_i32(0);
    // group count
    buf.put_i32(1);
    // error_code
    buf.put_i16(0);
    // group_id
    let group_id = "test-group";
    buf.put_i16(group_id.len() as i16);
    buf.put_slice(group_id.as_bytes());
    // group_state
    let state = "Stable";
    buf.put_i16(state.len() as i16);
    buf.put_slice(state.as_bytes());
    // protocol_type
    let ptype = "consumer";
    buf.put_i16(ptype.len() as i16);
    buf.put_slice(ptype.as_bytes());
    // protocol_data
    let pdata = "range";
    buf.put_i16(pdata.len() as i16);
    buf.put_slice(pdata.as_bytes());
    // members count
    buf.put_i32(0);

    let response = DescribeGroupsResponse::decode_v1(&mut buf.freeze()).unwrap();
    assert_eq!(response.throttle_time_ms, 0);
    assert_eq!(response.groups.len(), 1);
    assert_eq!(response.groups[0].group_id, "test-group");
    assert_eq!(response.groups[0].group_state, "Stable");
    assert_eq!(response.groups[0].protocol_type, "consumer");
    assert_eq!(response.groups[0].protocol_data, "range");
    assert!(response.groups[0].error_code.is_ok());
    assert!(response.groups[0].members.is_empty());
}

#[test]
fn test_describe_groups_request_encode_v3_authorized_ops() {
    let request = DescribeGroupsRequest {
        groups: vec!["my-group".to_string()],
        include_authorized_operations: true,
    };

    let mut buf_v1 = BytesMut::new();
    request.encode_v1(&mut buf_v1).unwrap();

    let mut buf_v3 = BytesMut::new();
    request.encode_v3(&mut buf_v3).unwrap();

    // v3 adds the include_authorized_operations bool (1 byte)
    assert_eq!(buf_v3.len(), buf_v1.len() + 1);
}

#[test]
fn test_describe_groups_request_encode_v5_flexible() {
    let request = DescribeGroupsRequest {
        groups: vec!["my-group".to_string()],
        include_authorized_operations: true,
    };

    let mut buf_v3 = BytesMut::new();
    request.encode_v3(&mut buf_v3).unwrap();

    let mut buf_v5 = BytesMut::new();
    request.encode_v5(&mut buf_v5).unwrap();

    // v5 uses compact encoding (varint lengths instead of i32/i16)
    assert!(!buf_v5.is_empty());
    assert_ne!(buf_v3.len(), buf_v5.len());
}

#[test]
fn test_describe_groups_response_decode_v3_authorized_ops() {
    let mut buf = BytesMut::new();

    buf.put_i32(10); // throttle_time_ms
    buf.put_i32(1); // group count

    buf.put_i16(0); // error_code
    let gid = b"test-group";
    buf.put_i16(gid.len() as i16);
    buf.put_slice(gid);
    let state = b"Stable";
    buf.put_i16(state.len() as i16);
    buf.put_slice(state);
    let ptype = b"consumer";
    buf.put_i16(ptype.len() as i16);
    buf.put_slice(ptype);
    let pdata = b"range";
    buf.put_i16(pdata.len() as i16);
    buf.put_slice(pdata);
    buf.put_i32(0); // member count
    buf.put_i32(0x0000_001F); // authorized_operations

    let mut data = buf.freeze();
    let resp = DescribeGroupsResponse::decode_v3(&mut data).unwrap();

    assert_eq!(resp.throttle_time_ms, 10);
    assert_eq!(resp.groups.len(), 1);
    assert_eq!(resp.groups[0].group_id, "test-group");
    assert_eq!(resp.groups[0].authorized_operations, 0x0000_001F);
    assert_eq!(resp.groups[0].error_message, None);
}

#[test]
fn test_describe_groups_response_decode_v4_instance_id() {
    let mut buf = BytesMut::new();

    buf.put_i32(0); // throttle_time_ms
    buf.put_i32(1); // group count

    buf.put_i16(0); // error_code
    let gid = b"grp";
    buf.put_i16(gid.len() as i16);
    buf.put_slice(gid);
    let state = b"Stable";
    buf.put_i16(state.len() as i16);
    buf.put_slice(state);
    let ptype = b"consumer";
    buf.put_i16(ptype.len() as i16);
    buf.put_slice(ptype);
    let pdata = b"range";
    buf.put_i16(pdata.len() as i16);
    buf.put_slice(pdata);

    // 1 member
    buf.put_i32(1);
    let mid = b"member-1";
    buf.put_i16(mid.len() as i16);
    buf.put_slice(mid);
    // group_instance_id (v4+): "inst-1"
    let inst = b"inst-1";
    buf.put_i16(inst.len() as i16);
    buf.put_slice(inst);
    let cid = b"client-1";
    buf.put_i16(cid.len() as i16);
    buf.put_slice(cid);
    let host = b"/10.0.0.1";
    buf.put_i16(host.len() as i16);
    buf.put_slice(host);
    buf.put_i32(0); // member_metadata (empty bytes)
    buf.put_i32(0); // member_assignment (empty bytes)

    buf.put_i32(i32::MIN); // authorized_operations (not requested)

    let mut data = buf.freeze();
    let resp = DescribeGroupsResponse::decode_v4(&mut data).unwrap();

    assert_eq!(resp.groups.len(), 1);
    assert_eq!(resp.groups[0].members.len(), 1);
    assert_eq!(
        resp.groups[0].members[0].group_instance_id,
        Some("inst-1".to_string())
    );
    assert_eq!(resp.groups[0].members[0].client_id, "client-1");
    assert_eq!(resp.groups[0].members[0].client_host, "/10.0.0.1");
    assert_eq!(resp.groups[0].authorized_operations, i32::MIN);
}

#[test]
fn test_describe_groups_response_decode_v5_flexible() {
    let mut buf = BytesMut::new();

    buf.put_i32(5); // throttle_time_ms

    // groups compact array: 1 group -> varint(2)
    krafka::util::varint::encode_unsigned_varint(2, &mut buf);
    {
        buf.put_i16(0); // error_code

        // group_id (compact): "grp"
        krafka::util::varint::encode_unsigned_varint(4, &mut buf);
        buf.put_slice(b"grp");
        // group_state (compact): "Empty"
        krafka::util::varint::encode_unsigned_varint(6, &mut buf);
        buf.put_slice(b"Empty");
        // protocol_type (compact): "consumer"
        krafka::util::varint::encode_unsigned_varint(9, &mut buf);
        buf.put_slice(b"consumer");
        // protocol_data (compact): ""
        krafka::util::varint::encode_unsigned_varint(1, &mut buf);

        // members compact array: 0 -> varint(1)
        krafka::util::varint::encode_unsigned_varint(1, &mut buf);

        buf.put_i32(0x0F); // authorized_operations
        // group tagged fields
        krafka::util::varint::encode_unsigned_varint(0, &mut buf);
    }

    // top-level tagged fields
    krafka::util::varint::encode_unsigned_varint(0, &mut buf);

    let mut data = buf.freeze();
    let resp = DescribeGroupsResponse::decode_v5(&mut data).unwrap();

    assert_eq!(resp.throttle_time_ms, 5);
    assert_eq!(resp.groups.len(), 1);
    assert_eq!(resp.groups[0].group_id, "grp");
    assert_eq!(resp.groups[0].group_state, "Empty");
    assert_eq!(resp.groups[0].error_message, None);
    assert_eq!(resp.groups[0].authorized_operations, 0x0F);
    assert!(resp.groups[0].members.is_empty());
}

#[test]
fn test_describe_groups_response_decode_v6_error_message() {
    let mut buf = BytesMut::new();

    buf.put_i32(0); // throttle_time_ms

    // groups compact array: 1 group -> varint(2)
    krafka::util::varint::encode_unsigned_varint(2, &mut buf);
    {
        buf.put_i16(69); // error_code (GROUP_ID_NOT_FOUND)

        // error_message (compact nullable): "group not found"
        let msg = b"group not found";
        krafka::util::varint::encode_unsigned_varint((msg.len() + 1) as u32, &mut buf);
        buf.put_slice(msg);

        // group_id (compact): "missing-grp"
        let gid = b"missing-grp";
        krafka::util::varint::encode_unsigned_varint((gid.len() + 1) as u32, &mut buf);
        buf.put_slice(gid);
        // group_state (compact): ""
        krafka::util::varint::encode_unsigned_varint(1, &mut buf);
        // protocol_type (compact): ""
        krafka::util::varint::encode_unsigned_varint(1, &mut buf);
        // protocol_data (compact): ""
        krafka::util::varint::encode_unsigned_varint(1, &mut buf);

        // members compact array: 0 -> varint(1)
        krafka::util::varint::encode_unsigned_varint(1, &mut buf);

        buf.put_i32(i32::MIN); // authorized_operations
        // group tagged fields
        krafka::util::varint::encode_unsigned_varint(0, &mut buf);
    }

    // top-level tagged fields
    krafka::util::varint::encode_unsigned_varint(0, &mut buf);

    let mut data = buf.freeze();
    let resp = DescribeGroupsResponse::decode_v6(&mut data).unwrap();

    assert_eq!(resp.groups.len(), 1);
    assert!(!resp.groups[0].error_code.is_ok());
    assert_eq!(
        resp.groups[0].error_message,
        Some("group not found".to_string())
    );
    assert_eq!(resp.groups[0].group_id, "missing-grp");
}

#[test]
fn admin_test_list_groups_request() {
    let request = ListGroupsRequest {
        states_filter: Vec::new(),
        types_filter: Vec::new(),
    };
    assert_eq!(ListGroupsRequest::api_key(), ApiKey::ListGroups);
    let mut buf = BytesMut::new();
    request.encode_v1(&mut buf).unwrap();
    // ListGroups v1 has an empty body
    assert!(buf.is_empty());
}

#[test]
fn test_list_groups_response_decode_v1() {
    let mut buf = BytesMut::new();
    // throttle_time_ms
    buf.put_i32(0);
    // error_code
    buf.put_i16(0);
    // groups count
    buf.put_i32(2);
    // group 1
    let g1 = "group-a";
    buf.put_i16(g1.len() as i16);
    buf.put_slice(g1.as_bytes());
    let pt1 = "consumer";
    buf.put_i16(pt1.len() as i16);
    buf.put_slice(pt1.as_bytes());
    // group 2
    let g2 = "group-b";
    buf.put_i16(g2.len() as i16);
    buf.put_slice(g2.as_bytes());
    let pt2 = "consumer";
    buf.put_i16(pt2.len() as i16);
    buf.put_slice(pt2.as_bytes());

    let response = ListGroupsResponse::decode_v1(&mut buf.freeze()).unwrap();
    assert!(response.error_code.is_ok());
    assert_eq!(response.groups.len(), 2);
    assert_eq!(response.groups[0].group_id, "group-a");
    assert_eq!(response.groups[1].group_id, "group-b");
    assert_eq!(response.groups[0].group_state, None);
    assert_eq!(response.groups[0].group_type, None);
}

#[test]
fn test_list_groups_request_encode_v3_flexible() {
    let request = ListGroupsRequest {
        states_filter: Vec::new(),
        types_filter: Vec::new(),
    };

    let mut buf_v1 = BytesMut::new();
    request.encode_v1(&mut buf_v1).unwrap();
    assert!(buf_v1.is_empty());

    let mut buf_v3 = BytesMut::new();
    request.encode_v3(&mut buf_v3).unwrap();

    // v3 adds tagged fields (just 0x00 for empty)
    assert_eq!(buf_v3.len(), 1);
    assert_eq!(buf_v3[0], 0x00);
}

#[test]
fn test_list_groups_request_encode_v4_states_filter() {
    let request = ListGroupsRequest {
        states_filter: vec!["Stable".to_string(), "Empty".to_string()],
        types_filter: Vec::new(),
    };

    let mut buf = BytesMut::new();
    request.encode_v4(&mut buf).unwrap();

    // Should contain the state filter strings
    let data = String::from_utf8_lossy(&buf);
    assert!(data.contains("Stable"));
    assert!(data.contains("Empty"));
}

#[test]
fn test_list_groups_request_encode_v5_types_filter() {
    let request = ListGroupsRequest {
        states_filter: vec!["Stable".to_string()],
        types_filter: vec!["classic".to_string(), "consumer".to_string()],
    };

    let mut buf = BytesMut::new();
    request.encode_v5(&mut buf).unwrap();

    let data = String::from_utf8_lossy(&buf);
    assert!(data.contains("Stable"));
    assert!(data.contains("classic"));
    assert!(data.contains("consumer"));
}

#[test]
fn test_list_groups_response_decode_v3_flexible() {
    let mut buf = BytesMut::new();

    buf.put_i32(10); // throttle_time_ms
    buf.put_i16(0); // error_code

    // groups compact array: 1 -> varint(2)
    krafka::util::varint::encode_unsigned_varint(2, &mut buf);
    {
        // group_id: "grp-1"
        krafka::util::varint::encode_unsigned_varint(6, &mut buf);
        buf.put_slice(b"grp-1");
        // protocol_type: "consumer"
        krafka::util::varint::encode_unsigned_varint(9, &mut buf);
        buf.put_slice(b"consumer");
        // element tagged fields
        krafka::util::varint::encode_unsigned_varint(0, &mut buf);
    }

    // top-level tagged fields
    krafka::util::varint::encode_unsigned_varint(0, &mut buf);

    let mut data = buf.freeze();
    let resp = ListGroupsResponse::decode_v3(&mut data).unwrap();

    assert_eq!(resp.throttle_time_ms, 10);
    assert!(resp.error_code.is_ok());
    assert_eq!(resp.groups.len(), 1);
    assert_eq!(resp.groups[0].group_id, "grp-1");
    assert_eq!(resp.groups[0].protocol_type, "consumer");
    assert_eq!(resp.groups[0].group_state, None);
    assert_eq!(resp.groups[0].group_type, None);
}

#[test]
fn test_list_groups_response_decode_v4_group_state() {
    let mut buf = BytesMut::new();

    buf.put_i32(0); // throttle_time_ms
    buf.put_i16(0); // error_code

    // groups compact array: 1 -> varint(2)
    krafka::util::varint::encode_unsigned_varint(2, &mut buf);
    {
        // group_id: "grp-1"
        krafka::util::varint::encode_unsigned_varint(6, &mut buf);
        buf.put_slice(b"grp-1");
        // protocol_type: "consumer"
        krafka::util::varint::encode_unsigned_varint(9, &mut buf);
        buf.put_slice(b"consumer");
        // group_state: "Stable"
        krafka::util::varint::encode_unsigned_varint(7, &mut buf);
        buf.put_slice(b"Stable");
        // element tagged fields
        krafka::util::varint::encode_unsigned_varint(0, &mut buf);
    }

    // top-level tagged fields
    krafka::util::varint::encode_unsigned_varint(0, &mut buf);

    let mut data = buf.freeze();
    let resp = ListGroupsResponse::decode_v4(&mut data).unwrap();

    assert_eq!(resp.groups.len(), 1);
    assert_eq!(resp.groups[0].group_state, Some("Stable".to_string()));
    assert_eq!(resp.groups[0].group_type, None);
}

#[test]
fn test_list_groups_response_decode_v5_group_type() {
    let mut buf = BytesMut::new();

    buf.put_i32(0); // throttle_time_ms
    buf.put_i16(0); // error_code

    // groups compact array: 2 -> varint(3)
    krafka::util::varint::encode_unsigned_varint(3, &mut buf);
    {
        // group 1
        krafka::util::varint::encode_unsigned_varint(6, &mut buf);
        buf.put_slice(b"grp-1");
        krafka::util::varint::encode_unsigned_varint(9, &mut buf);
        buf.put_slice(b"consumer");
        krafka::util::varint::encode_unsigned_varint(7, &mut buf);
        buf.put_slice(b"Stable");
        krafka::util::varint::encode_unsigned_varint(8, &mut buf);
        buf.put_slice(b"classic");
        krafka::util::varint::encode_unsigned_varint(0, &mut buf);

        // group 2
        krafka::util::varint::encode_unsigned_varint(6, &mut buf);
        buf.put_slice(b"grp-2");
        krafka::util::varint::encode_unsigned_varint(1, &mut buf); // empty protocol_type
        krafka::util::varint::encode_unsigned_varint(6, &mut buf);
        buf.put_slice(b"Empty");
        krafka::util::varint::encode_unsigned_varint(9, &mut buf);
        buf.put_slice(b"consumer");
        krafka::util::varint::encode_unsigned_varint(0, &mut buf);
    }

    // top-level tagged fields
    krafka::util::varint::encode_unsigned_varint(0, &mut buf);

    let mut data = buf.freeze();
    let resp = ListGroupsResponse::decode_v5(&mut data).unwrap();

    assert_eq!(resp.groups.len(), 2);
    assert_eq!(resp.groups[0].group_id, "grp-1");
    assert_eq!(resp.groups[0].group_state, Some("Stable".to_string()));
    assert_eq!(resp.groups[0].group_type, Some("classic".to_string()));
    assert_eq!(resp.groups[1].group_id, "grp-2");
    assert_eq!(resp.groups[1].group_state, Some("Empty".to_string()));
    assert_eq!(resp.groups[1].group_type, Some("consumer".to_string()));
}

#[test]
fn test_delete_groups_request_encode_v0_round_trip() {
    let req = DeleteGroupsRequest::new(vec!["g1".to_string(), "g2".to_string()]);
    let mut buf = BytesMut::new();
    req.encode_v0(&mut buf).unwrap();

    let mut cur = Bytes::copy_from_slice(&buf);
    assert_eq!(cur.get_i32(), 2); // 2 groups
    assert_eq!(cur.get_i16(), 2);
    let mut g = vec![0u8; 2];
    cur.copy_to_slice(&mut g);
    assert_eq!(g, b"g1");
    assert_eq!(cur.get_i16(), 2);
    cur.copy_to_slice(&mut g);
    assert_eq!(g, b"g2");
    assert!(cur.is_empty());
}

#[test]
fn test_delete_groups_request_encode_v2_flexible() {
    let req = DeleteGroupsRequest::new(vec!["grp".to_string()]);
    let mut buf = BytesMut::new();
    req.encode_v2(&mut buf).unwrap();

    let mut cur = Bytes::copy_from_slice(&buf);
    let arr = krafka::util::varint::decode_unsigned_varint(&mut cur).unwrap();
    assert_eq!(arr, 2); // 1 + 1
    let name_v = krafka::util::varint::decode_unsigned_varint(&mut cur).unwrap();
    assert_eq!(name_v, 4); // len("grp") + 1
    let mut g = vec![0u8; 3];
    cur.copy_to_slice(&mut g);
    assert_eq!(g, b"grp");
    assert_eq!(cur.get_u8(), 0); // tagged fields
    assert!(cur.is_empty());
}

#[test]
fn test_delete_groups_response_decode_v0() {
    let mut buf = BytesMut::new();
    buf.put_i32(20); // throttle_time_ms
    buf.put_i32(2); // 2 results
    buf.put_i16(3);
    buf.put_slice(b"ga1");
    buf.put_i16(0); // NONE
    buf.put_i16(2);
    buf.put_slice(b"gb");
    buf.put_i16(69); // NON_EMPTY_GROUP

    let resp = DeleteGroupsResponse::decode_v0(&mut buf.freeze()).unwrap();
    assert_eq!(resp.throttle_time_ms, 20);
    assert_eq!(resp.results.len(), 2);
    assert_eq!(resp.results[0].group_id, "ga1");
    assert!(resp.results[0].error_code.is_ok());
    assert_eq!(resp.results[1].group_id, "gb");
    assert!(!resp.results[1].error_code.is_ok());
}

#[test]
fn test_delete_groups_response_decode_v2_flexible() {
    let mut buf = BytesMut::new();
    buf.put_i32(0); // throttle_time_ms
    krafka::util::varint::encode_unsigned_varint(2, &mut buf); // 1 result
    put_compact_string(&mut buf, Some("mygroup"));
    buf.put_i16(0); // NONE
    put_tagged_fields(&mut buf); // result tagged fields
    put_tagged_fields(&mut buf); // top-level tagged fields

    let resp = DeleteGroupsResponse::decode_v2(&mut buf.freeze()).unwrap();
    assert_eq!(resp.results.len(), 1);
    assert_eq!(resp.results[0].group_id, "mygroup");
    assert!(resp.results[0].error_code.is_ok());
}

#[test]
fn test_describe_cluster_request_encode_v0() {
    let req = DescribeClusterRequest {
        include_cluster_authorized_operations: true,
        endpoint_type: 1,
        include_fenced_brokers: false,
    };
    let mut buf = BytesMut::new();
    req.encode_v0(&mut buf).unwrap();

    let mut cur = Bytes::copy_from_slice(&buf);
    assert_eq!(cur.get_u8(), 1); // include_cluster_authorized_operations
    assert_eq!(cur.get_u8(), 0); // tagged fields
    assert!(cur.is_empty());
}

#[test]
fn test_describe_cluster_request_encode_v1_endpoint_type() {
    let req = DescribeClusterRequest {
        include_cluster_authorized_operations: false,
        endpoint_type: 2,
        include_fenced_brokers: false,
    };
    let mut buf = BytesMut::new();
    req.encode_v1(&mut buf).unwrap();

    let mut cur = Bytes::copy_from_slice(&buf);
    assert_eq!(cur.get_u8(), 0); // include_cluster_authorized_operations
    assert_eq!(cur.get_i8(), 2); // endpoint_type
    assert_eq!(cur.get_u8(), 0); // tagged fields
    assert!(cur.is_empty());
}

#[test]
fn test_describe_cluster_request_encode_v2_fenced() {
    let req = DescribeClusterRequest {
        include_cluster_authorized_operations: true,
        endpoint_type: 1,
        include_fenced_brokers: true,
    };
    let mut buf = BytesMut::new();
    req.encode_v2(&mut buf).unwrap();

    let mut cur = Bytes::copy_from_slice(&buf);
    assert_eq!(cur.get_u8(), 1);
    assert_eq!(cur.get_i8(), 1);
    assert_eq!(cur.get_u8(), 1); // include_fenced_brokers
    assert_eq!(cur.get_u8(), 0); // tagged fields
    assert!(cur.is_empty());
}

#[test]
fn test_describe_cluster_response_decode_v0() {
    let mut buf = BytesMut::new();
    buf.put_i32(10); // throttle_time_ms
    buf.put_i16(0); // error_code
    put_compact_string(&mut buf, None); // error_message null
    put_compact_string(&mut buf, Some("cluster-1")); // cluster_id
    buf.put_i32(0); // controller_id
    krafka::util::varint::encode_unsigned_varint(2, &mut buf); // 1 broker
    buf.put_i32(0); // broker_id
    put_compact_string(&mut buf, Some("host-0")); // host
    buf.put_i32(9092); // port
    put_compact_string(&mut buf, Some("rack-a")); // rack
    put_tagged_fields(&mut buf); // broker tagged fields
    buf.put_i32(-2_147_483_648); // cluster_authorized_operations
    put_tagged_fields(&mut buf); // top-level tagged fields

    let resp = DescribeClusterResponse::decode_v0(&mut buf.freeze()).unwrap();
    assert_eq!(resp.throttle_time_ms, 10);
    assert!(resp.error_code.is_ok());
    assert_eq!(resp.cluster_id, "cluster-1");
    assert_eq!(resp.controller_id, 0);
    assert_eq!(resp.brokers.len(), 1);
    assert_eq!(resp.brokers[0].broker_id, 0);
    assert_eq!(resp.brokers[0].host, "host-0");
    assert_eq!(resp.brokers[0].port, 9092);
    assert_eq!(resp.brokers[0].rack.as_deref(), Some("rack-a"));
    assert!(!resp.brokers[0].is_fenced); // default false in v0
    assert_eq!(resp.endpoint_type, 1); // default for v0
}

#[test]
fn test_describe_cluster_response_decode_v1_endpoint_type() {
    let mut buf = BytesMut::new();
    buf.put_i32(0); // throttle_time_ms
    buf.put_i16(0); // error_code
    put_compact_string(&mut buf, None); // null error_message
    buf.put_i8(2); // endpoint_type = 2 (controllers)
    put_compact_string(&mut buf, Some("c")); // cluster_id
    buf.put_i32(1); // controller_id
    krafka::util::varint::encode_unsigned_varint(1, &mut buf); // 0 brokers
    buf.put_i32(0); // authorized_operations
    put_tagged_fields(&mut buf); // top-level tagged fields

    let resp = DescribeClusterResponse::decode_v1(&mut buf.freeze()).unwrap();
    assert_eq!(resp.endpoint_type, 2);
    assert_eq!(resp.cluster_id, "c");
    assert!(resp.brokers.is_empty());
}

#[test]
fn test_describe_cluster_response_decode_v2_is_fenced() {
    let mut buf = BytesMut::new();
    buf.put_i32(0); // throttle_time_ms
    buf.put_i16(0); // error_code
    put_compact_string(&mut buf, None); // null error_message
    buf.put_i8(1); // endpoint_type
    put_compact_string(&mut buf, Some("c")); // cluster_id
    buf.put_i32(0); // controller_id
    krafka::util::varint::encode_unsigned_varint(3, &mut buf); // 2 brokers
    // broker 0: not fenced
    buf.put_i32(0);
    put_compact_string(&mut buf, Some("h0"));
    buf.put_i32(9092);
    put_compact_string(&mut buf, None); // rack null
    buf.put_i8(0); // is_fenced = false
    put_tagged_fields(&mut buf);
    // broker 1: fenced
    buf.put_i32(1);
    put_compact_string(&mut buf, Some("h1"));
    buf.put_i32(9093);
    put_compact_string(&mut buf, None);
    buf.put_i8(1); // is_fenced = true
    put_tagged_fields(&mut buf);
    buf.put_i32(0); // authorized_operations
    put_tagged_fields(&mut buf);

    let resp = DescribeClusterResponse::decode_v2(&mut buf.freeze()).unwrap();
    assert_eq!(resp.brokers.len(), 2);
    assert!(!resp.brokers[0].is_fenced);
    assert!(resp.brokers[1].is_fenced);
}

#[test]
fn admin_test_consumer_group_describe_request_encode_v0() {
    let req = ConsumerGroupDescribeRequest::new(vec!["g1".to_string()]);
    let mut buf = BytesMut::new();
    req.encode_v0(&mut buf).unwrap();

    let mut cur = Bytes::copy_from_slice(&buf);
    let arr = krafka::util::varint::decode_unsigned_varint(&mut cur).unwrap();
    assert_eq!(arr, 2); // 1 + 1
    let id_len = krafka::util::varint::decode_unsigned_varint(&mut cur).unwrap();
    assert_eq!(id_len, 3); // len("g1") + 1
    let mut id_bytes = vec![0u8; 2];
    cur.copy_to_slice(&mut id_bytes);
    assert_eq!(id_bytes, b"g1");
    assert_eq!(cur.get_u8(), 0); // include_authorized_operations = false
    assert_eq!(cur.get_u8(), 0); // tagged fields
    assert!(cur.is_empty());
}

#[test]
fn admin_test_consumer_group_describe_response_decode_v0_empty_group() {
    let mut buf = BytesMut::new();
    buf.put_i32(5); // throttle_time_ms
    krafka::util::varint::encode_unsigned_varint(2, &mut buf); // 1 group
    buf.put_i16(0); // error_code
    put_compact_string(&mut buf, None); // error_message null
    put_compact_string(&mut buf, Some("g1")); // group_id
    put_compact_string(&mut buf, Some("Stable")); // group_state
    buf.put_i32(1); // group_epoch
    buf.put_i32(1); // assignment_epoch
    put_compact_string(&mut buf, Some("range")); // assignor_name
    krafka::util::varint::encode_unsigned_varint(1, &mut buf); // 0 members
    buf.put_i32(0); // authorized_operations
    put_tagged_fields(&mut buf); // group tagged fields
    put_tagged_fields(&mut buf); // top-level tagged fields

    let resp = ConsumerGroupDescribeResponse::decode_v0(&mut buf.freeze()).unwrap();
    assert_eq!(resp.throttle_time_ms, 5);
    assert_eq!(resp.groups.len(), 1);
    let g = &resp.groups[0];
    assert!(g.error_code.is_ok());
    assert_eq!(g.group_id, "g1");
    assert_eq!(g.group_state, "Stable");
    assert_eq!(g.group_epoch, 1);
    assert_eq!(g.assignor_name, "range");
    assert!(g.members.is_empty());
}

#[test]
fn admin_test_consumer_group_describe_response_decode_v0_with_member() {
    let mut buf = BytesMut::new();
    buf.put_i32(0); // throttle_time_ms
    krafka::util::varint::encode_unsigned_varint(2, &mut buf); // 1 group
    buf.put_i16(0); // error_code
    put_compact_string(&mut buf, None); // error_message
    put_compact_string(&mut buf, Some("g")); // group_id
    put_compact_string(&mut buf, Some("S")); // group_state
    buf.put_i32(2); // group_epoch
    buf.put_i32(2); // assignment_epoch
    put_compact_string(&mut buf, Some("a")); // assignor_name
    krafka::util::varint::encode_unsigned_varint(2, &mut buf); // 1 member
    // member fields
    put_compact_string(&mut buf, Some("m1")); // member_id
    put_compact_string(&mut buf, None); // instance_id null
    put_compact_string(&mut buf, Some("rack0")); // rack_id
    buf.put_i32(3); // member_epoch
    put_compact_string(&mut buf, Some("client")); // client_id
    put_compact_string(&mut buf, Some("/127.0.0.1")); // client_host
    krafka::util::varint::encode_unsigned_varint(2, &mut buf); // 1 subscribed_topic_name
    put_compact_string(&mut buf, Some("tp1"));
    put_compact_string(&mut buf, None); // subscribed_topic_regex null
    // assignment (current): 1 topic_partition
    krafka::util::varint::encode_unsigned_varint(2, &mut buf); // 1 tp
    buf.put_slice(&[0u8; 16]); // topic_id
    put_compact_string(&mut buf, Some("tp1")); // topic_name
    krafka::util::varint::encode_unsigned_varint(3, &mut buf); // 2 partitions
    buf.put_i32(0);
    buf.put_i32(1);
    put_tagged_fields(&mut buf); // tp tagged fields
    put_tagged_fields(&mut buf); // assignment tagged fields
    // target_assignment: empty
    krafka::util::varint::encode_unsigned_varint(1, &mut buf); // 0 tp
    put_tagged_fields(&mut buf); // target assignment tagged fields
    put_tagged_fields(&mut buf); // member tagged fields
    buf.put_i32(-2_147_483_648); // authorized_operations
    put_tagged_fields(&mut buf); // group tagged fields
    put_tagged_fields(&mut buf); // top-level tagged fields

    let resp = ConsumerGroupDescribeResponse::decode_v0(&mut buf.freeze()).unwrap();
    let g = &resp.groups[0];
    assert_eq!(g.members.len(), 1);
    let m = &g.members[0];
    assert_eq!(m.member_id, "m1");
    assert!(m.instance_id.is_none());
    assert_eq!(m.rack_id.as_deref(), Some("rack0"));
    assert_eq!(m.member_epoch, 3);
    assert_eq!(m.subscribed_topic_names, vec!["tp1"]);
    assert_eq!(m.assignment.topic_partitions.len(), 1);
    assert_eq!(m.assignment.topic_partitions[0].partitions, vec![0, 1]);
    assert!(m.target_assignment.topic_partitions.is_empty());
    assert_eq!(m.member_type, -1); // v0 default
}

#[test]
fn admin_test_consumer_group_describe_response_decode_v1_member_type() {
    let mut buf = BytesMut::new();
    buf.put_i32(0); // throttle_time_ms
    krafka::util::varint::encode_unsigned_varint(2, &mut buf); // 1 group
    buf.put_i16(0); // error_code
    put_compact_string(&mut buf, None); // error_message
    put_compact_string(&mut buf, Some("g")); // group_id
    put_compact_string(&mut buf, Some("S")); // state
    buf.put_i32(1);
    buf.put_i32(1); // epochs
    put_compact_string(&mut buf, Some("a")); // assignor
    krafka::util::varint::encode_unsigned_varint(2, &mut buf); // 1 member
    put_compact_string(&mut buf, Some("m")); // member_id
    put_compact_string(&mut buf, None); // instance_id
    put_compact_string(&mut buf, None); // rack_id
    buf.put_i32(1); // member_epoch
    put_compact_string(&mut buf, Some("c")); // client_id
    put_compact_string(&mut buf, Some("h")); // client_host
    krafka::util::varint::encode_unsigned_varint(1, &mut buf); // 0 subscribed topics
    put_compact_string(&mut buf, None); // subscribed_topic_regex
    // current assignment: empty
    krafka::util::varint::encode_unsigned_varint(1, &mut buf);
    put_tagged_fields(&mut buf);
    // target assignment: empty
    krafka::util::varint::encode_unsigned_varint(1, &mut buf);
    put_tagged_fields(&mut buf);
    buf.put_i8(1); // member_type = consumer (v1 field)
    put_tagged_fields(&mut buf); // member tagged fields
    buf.put_i32(0); // authorized_operations
    put_tagged_fields(&mut buf); // group tagged fields
    put_tagged_fields(&mut buf); // top-level tagged fields

    let resp = ConsumerGroupDescribeResponse::decode_v1(&mut buf.freeze()).unwrap();
    let m = &resp.groups[0].members[0];
    assert_eq!(m.member_type, 1); // consumer
}

#[test]
fn test_list_client_metrics_resources_request_encode_v0() {
    let req = ListClientMetricsResourcesRequest;
    let mut buf = BytesMut::new();
    req.encode_v0(&mut buf).unwrap();

    let mut cur = Bytes::copy_from_slice(&buf);
    assert_eq!(cur.get_u8(), 0); // tagged fields only
    assert!(cur.is_empty());
}

#[test]
fn test_list_client_metrics_resources_response_decode_v0() {
    let mut buf = BytesMut::new();
    buf.put_i32(0); // throttle_time_ms
    buf.put_i16(0); // error_code
    krafka::util::varint::encode_unsigned_varint(3, &mut buf); // 2 resources
    put_compact_string(&mut buf, Some("metric-a"));
    put_tagged_fields(&mut buf); // resource tagged fields
    put_compact_string(&mut buf, Some("metric-b"));
    put_tagged_fields(&mut buf); // resource tagged fields
    put_tagged_fields(&mut buf); // top-level tagged fields

    let resp = ListClientMetricsResourcesResponse::decode_v0(&mut buf.freeze()).unwrap();
    assert_eq!(resp.throttle_time_ms, 0);
    assert!(resp.error_code.is_ok());
    assert_eq!(resp.client_metrics_resources.len(), 2);
    assert_eq!(resp.client_metrics_resources[0].name, "metric-a");
    assert_eq!(resp.client_metrics_resources[1].name, "metric-b");
}

#[test]
fn test_list_client_metrics_resources_response_decode_v0_empty() {
    let mut buf = BytesMut::new();
    buf.put_i32(10); // throttle_time_ms
    buf.put_i16(0); // error_code
    krafka::util::varint::encode_unsigned_varint(1, &mut buf); // 0 resources
    put_tagged_fields(&mut buf); // top-level tagged fields

    let resp = ListClientMetricsResourcesResponse::decode_v0(&mut buf.freeze()).unwrap();
    assert_eq!(resp.throttle_time_ms, 10);
    assert!(resp.client_metrics_resources.is_empty());
}
