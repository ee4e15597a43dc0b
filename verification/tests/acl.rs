//! Tests of `krafka::protocol::messages::acl`.

use bytes::{BufMut, BytesMut};
use krafka::protocol::messages::VersionedEncode;
use krafka::protocol::messages::acl::{
    AclBinding, AclBindingFilter, AclOperation, AclPatternType, AclPermissionType, AclResourceType,
    CreateAclsRequest, CreateAclsResponse, DeleteAclsRequest, DeleteAclsResponse,
    DescribeAclsRequest, DescribeAclsResponse,
};

#[test]
fn acl_test_acl_resource_type() {
    assert_eq!(AclResourceType::Topic.to_i8(), 2);
    assert_eq!(AclResourceType::Group.to_i8(), 3);
    assert_eq!(AclResourceType::Cluster.to_i8(), 4);
    assert_eq!(AclResourceType::from_i8(2), AclResourceType::Topic);
    assert_eq!(AclResourceType::from_i8(99), AclResourceType::Unknown);
}

#[test]
fn acl_test_acl_operation() {
    assert_eq!(AclOperation::Read.to_i8(), 3);
    assert_eq!(AclOperation::Write.to_i8(), 4);
    assert_eq!(AclOperation::from_i8(3), AclOperation::Read);
    assert_eq!(AclOperation::from_i8(99), AclOperation::Unknown);
}

#[test]
fn acl_test_acl_permission_type() {
    assert_eq!(AclPermissionType::Allow.to_i8(), 3);
    assert_eq!(AclPermissionType::Deny.to_i8(), 2);
    assert_eq!(AclPermissionType::from_i8(3), AclPermissionType::Allow);
}

#[test]
fn acl_test_acl_binding() {
    let binding = AclBinding::allow_read_topic("my-topic", "User:alice");
    assert_eq!(binding.resource_type, AclResourceType::Topic);
    assert_eq!(binding.resource_name, "my-topic");
    assert_eq!(binding.principal, "User:alice");
    assert_eq!(binding.host, "*");
    assert_eq!(binding.operation, AclOperation::Read);
    assert_eq!(binding.permission_type, AclPermissionType::Allow);
}

#[test]
fn acl_test_describe_acls_request() {
    let request = DescribeAclsRequest::all();
    assert_eq!(request.resource_type, AclResourceType::Any);
    assert!(request.resource_name.is_none());

    let request = DescribeAclsRequest::for_topic("my-topic");
    assert_eq!(request.resource_type, AclResourceType::Topic);
    assert_eq!(request.resource_name.as_deref(), Some("my-topic"));
}

#[test]
fn acl_test_create_acls_request() {
    let bindings = vec![
        AclBinding::allow_read_topic("topic1", "User:alice"),
        AclBinding::allow_write_topic("topic2", "User:bob"),
    ];
    let request = CreateAclsRequest::new(bindings);
    assert_eq!(request.creations.len(), 2);

    let mut buf = BytesMut::new();
    request.encode_v1(&mut buf).unwrap();
    assert!(!buf.is_empty());
}

#[test]
fn acl_test_delete_acls_filter() {
    let binding = AclBinding::allow_read_topic("my-topic", "User:alice");
    let filter = AclBindingFilter::matching(&binding);

    assert_eq!(filter.resource_name.as_deref(), Some("my-topic"));
    assert_eq!(filter.principal.as_deref(), Some("User:alice"));
}

#[test]
fn test_describe_acls_v2_flexible() {
    let request = DescribeAclsRequest::all();
    let mut v1 = BytesMut::new();
    request.encode_v1(&mut v1).unwrap();
    let mut v2 = BytesMut::new();
    request.encode_v2(&mut v2).unwrap();
    // v2 has compact strings + tagged fields -> different size
    assert_ne!(v1.len(), v2.len());
    assert!(!v2.is_empty());
    // v2 and v3 use the same wire format
    let mut v3 = BytesMut::new();
    request.encode_versioned(3, &mut v3).unwrap();
    assert_eq!(v2, v3);
}

#[test]
fn test_describe_acls_response_v2_roundtrip() {
    let mut buf = BytesMut::new();
    buf.put_i32(0); // throttle_time_ms
    buf.put_i16(0); // error_code
    buf.put_u8(1); // error_message: compact null (0+1=1 -> 0 bytes, but 1 means len 0 compact string)
    // Actually compact nullable string null = varint(0), non-null = varint(len+1) + bytes
    // null = 0
    let mut buf = BytesMut::new();
    buf.put_i32(0); // throttle_time_ms
    buf.put_i16(0); // error_code
    buf.put_u8(0); // error_message: compact null
    buf.put_u8(2); // resources: compact array count = 1+1 = 2
    // resource 0
    buf.put_i8(2); // resource_type = TOPIC
    buf.put_u8(6); // resource_name: compact string len=5+1=6
    buf.put_slice(b"test1");
    buf.put_i8(3); // pattern_type = LITERAL
    buf.put_u8(2); // acls: compact array count = 1+1 = 2
    // acl 0
    buf.put_u8(6); // principal: compact string len=5+1=6
    buf.put_slice(b"User:");
    buf.put_u8(2); // host: compact string len=1+1=2
    buf.put_slice(b"*");
    buf.put_i8(2); // operation = WRITE
    buf.put_i8(3); // permission_type = ALLOW
    buf.put_u8(0); // per-acl tagged fields
    buf.put_u8(0); // per-resource tagged fields
    buf.put_u8(0); // top-level tagged fields

    let mut frozen = buf.freeze();
    let resp = DescribeAclsResponse::decode_v2(&mut frozen).unwrap();
    assert!(resp.error_code.is_ok());
    assert_eq!(resp.resources.len(), 1);
    assert_eq!(resp.resources[0].resource_name, "test1");
    assert_eq!(resp.resources[0].acls.len(), 1);
    assert_eq!(resp.resources[0].acls[0].principal, "User:");
}

#[test]
fn test_create_acls_v2_flexible() {
    let request = CreateAclsRequest::new(vec![AclBinding {
        resource_type: AclResourceType::Topic,
        resource_name: "test".to_string(),
        pattern_type: AclPatternType::Literal,
        principal: "User:alice".to_string(),
        host: "*".to_string(),
        operation: AclOperation::Read,
        permission_type: AclPermissionType::Allow,
    }]);
    let mut v1 = BytesMut::new();
    request.encode_v1(&mut v1).unwrap();
    let mut v2 = BytesMut::new();
    request.encode_v2(&mut v2).unwrap();
    assert_ne!(v1.len(), v2.len());
    // v3 = same wire format as v2
    let mut v3 = BytesMut::new();
    request.encode_versioned(3, &mut v3).unwrap();
    assert_eq!(v2, v3);
}

#[test]
fn test_create_acls_response_v2_roundtrip() {
    let mut buf = BytesMut::new();
    buf.put_i32(0); // throttle_time_ms
    buf.put_u8(2); // results: compact array count=1+1=2
    buf.put_i16(0); // error_code
    buf.put_u8(0); // error_message: compact null
    buf.put_u8(0); // per-result tagged fields
    buf.put_u8(0); // top-level tagged fields

    let mut frozen = buf.freeze();
    let resp = CreateAclsResponse::decode_v2(&mut frozen).unwrap();
    assert_eq!(resp.results.len(), 1);
    assert!(resp.results[0].error_code.is_ok());
}

#[test]
fn test_delete_acls_v2_flexible() {
    let filter = AclBindingFilter::for_topic("test");
    let request = DeleteAclsRequest::new(vec![filter]);
    let mut v1 = BytesMut::new();
    request.encode_v1(&mut v1).unwrap();
    let mut v2 = BytesMut::new();
    request.encode_v2(&mut v2).unwrap();
    assert_ne!(v1.len(), v2.len());
    // v3 = same wire format as v2
    let mut v3 = BytesMut::new();
    request.encode_versioned(3, &mut v3).unwrap();
    assert_eq!(v2, v3);
}

#[test]
fn test_delete_acls_response_v2_roundtrip() {
    let mut buf = BytesMut::new();
    buf.put_i32(5); // throttle_time_ms
    buf.put_u8(2); // filter_results: compact array count=1+1=2
    buf.put_i16(0); // error_code
    buf.put_u8(0); // error_message: compact null
    buf.put_u8(1); // matching_acls: compact array count=0+1=1 (empty)
    buf.put_u8(0); // per-filter tagged fields
    buf.put_u8(0); // top-level tagged fields

    let mut frozen = buf.freeze();
    let resp = DeleteAclsResponse::decode_v2(&mut frozen).unwrap();
    assert_eq!(resp.throttle_time_ms, 5);
    assert_eq!(resp.filter_results.len(), 1);
    assert!(resp.filter_results[0].matching_acls.is_empty());
}

#[test]
fn test_describe_acls_encode_below_min() {
    for version in [0i16] {
        let request = DescribeAclsRequest {
            resource_type: AclResourceType::Any,
            resource_name: None,
            pattern_type: AclPatternType::Any,
            principal: None,
            host: None,
            operation: AclOperation::All,
            permission_type: AclPermissionType::Allow,
        };
        let mut buf = BytesMut::new();
        assert!(request.encode_versioned(version, &mut buf).is_err());
    }
}
