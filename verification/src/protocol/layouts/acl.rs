//! Layouts of what [`crate::protocol::messages::acl`] holds.

use crate::buffer::Octets;
use crate::error::ErrorCode;
use crate::protocol::layouts::{
    count_fits, elements, is_tags, lemma_array_read, lemma_array_stands, lemma_array_written,
    lemma_tags_read, lemma_text_written, optional_text_fits, past, stands, text_fits, writable,
};
use crate::protocol::messages::acl::{
    AclBinding, AclBindingFilter, AclDescription, AclDescriptionView, AclOperation, AclPatternType,
    AclPermissionType, AclResourceType, CreateAclsRequest, CreateAclsResponse, CreateAclsResult,
    CreateAclsResultView, DeleteAclsFilterResult, DeleteAclsFilterResultView, DeleteAclsMatchingAcl,
    DeleteAclsMatchingAclView, DeleteAclsRequest, DeleteAclsResponse, DescribeAclsRequest,
    DescribeAclsResource, DescribeAclsResourceView, DescribeAclsResponse,
};
use crate::protocol::messages::{VersionedDecode, VersionedEncode};
use crate::protocol::round_trip::{
    begins, behind, law_i16_round_trip, law_i32_round_trip, law_i8_round_trip,
    law_nullable_string_round_trip, law_raw_round_trip, law_varint_round_trip,
};
use crate::protocol::wire::{
    null_field, optional_text, views, Format, Reader, WireDecode, WireEncode, Writer,
};
use vstd::prelude::*;

verus! {

/// How a [`AclBinding`] is laid out.
pub proof fn law_acl_binding_layout(x: AclBinding, f: Format, w: Writer, total: Seq<u8>)
    requires
        !w.failed(),
    ensures
        ({
            &&& text_fits(x.resource_name@, f.flexible)
            &&& text_fits(x.principal@, f.flexible)
            &&& text_fits(x.host@, f.flexible)
        }) ==> !x.written(f, w).failed(),
        begins(total, x.written(f, w)) ==> ({
            let r = behind(total, w);
            let (resource_type, r) = r.i8();
            let (resource_name, r) = r.nullable_string(f.flexible);
            let (pattern_type, r) = r.i8();
            let (principal, r) = r.nullable_string(f.flexible);
            let (host, r) = r.nullable_string(f.flexible);
            let (operation, r) = r.i8();
            let (permission_type, r) = r.i8();
            let tags = r;
            let r = r.tags(f.flexible);
            &&& resource_type == x.resource_type.code()
            &&& resource_name == Some(x.resource_name@)
            &&& pattern_type == x.pattern_type.code()
            &&& principal == Some(x.principal@)
            &&& host == Some(x.host@)
            &&& operation == x.operation.code()
            &&& permission_type == x.permission_type.code()
            &&& f.flexible ==> tags.tagged_fields().0.len() == 0
            &&& r == behind(total, x.written(f, w))
        }),
{
    let w0 = w;
    let w1 = w0.i8(x.resource_type.code());
    let w2 = w1.string(x.resource_name@, f.flexible);
    let w3 = w2.i8(x.pattern_type.code());
    let w4 = w3.string(x.principal@, f.flexible);
    let w5 = w4.string(x.host@, f.flexible);
    let w6 = w5.i8(x.operation.code());
    let w7 = w6.i8(x.permission_type.code());
    let w8 = w7.tags(f.flexible);
    lemma_text_written(w1, Some(x.resource_name@), f.flexible);
    lemma_text_written(w3, Some(x.principal@), f.flexible);
    lemma_text_written(w4, Some(x.host@), f.flexible);
    if begins(total, w8) {
        if f.flexible {
            law_varint_round_trip(w7, 0, total);
        }
        law_i8_round_trip(w6, x.permission_type.code(), total);
        law_i8_round_trip(w5, x.operation.code(), total);
        law_nullable_string_round_trip(w4, Some(x.host@), f.flexible, total);
        law_nullable_string_round_trip(w3, Some(x.principal@), f.flexible, total);
        law_i8_round_trip(w2, x.pattern_type.code(), total);
        law_nullable_string_round_trip(w1, Some(x.resource_name@), f.flexible, total);
        law_i8_round_trip(w0, x.resource_type.code(), total);
    }
}

/// How a [`DescribeAclsRequest`] is laid out in each version.
pub proof fn law_describe_acls_request_layout(
    x: DescribeAclsRequest,
    version: i16,
    w: Writer,
    total: Seq<u8>,
)
    requires
        !w.failed(),
    ensures
        DescribeAclsRequest::request_name() == "DescribeAclsRequest",
        DescribeAclsRequest::encodes(version) <==> (1 <= version <= 3),
        (1 <= version <= 3) ==> ({
            let f = DescribeAclsRequest::request_format(version);
            &&& f.flexible <==> version >= 2
        }),
        (1 <= version <= 3) ==> ({
            &&& optional_text_fits(optional_text(x.resource_name), version >= 2)
            &&& optional_text_fits(optional_text(x.principal), version >= 2)
            &&& optional_text_fits(optional_text(x.host), version >= 2)
        }) ==> !x.written_versioned(version, w).failed(),
        (1 <= version <= 3) ==> begins(total, x.written_versioned(version, w)) ==> ({
            let r = behind(total, w);
            let (resource_type, r) = r.i8();
            let (resource_name, r) = r.nullable_string(version >= 2);
            let (pattern_type, r) = r.i8();
            let (principal, r) = r.nullable_string(version >= 2);
            let (host, r) = r.nullable_string(version >= 2);
            let (operation, r) = r.i8();
            let (permission_type, r) = r.i8();
            let tags = r;
            let r = r.tags(version >= 2);
            &&& resource_type == x.resource_type.code()
            &&& resource_name == optional_text(x.resource_name)
            &&& pattern_type == x.pattern_type.code()
            &&& principal == optional_text(x.principal)
            &&& host == optional_text(x.host)
            &&& operation == x.operation.code()
            &&& permission_type == x.permission_type.code()
            &&& version >= 2 ==> tags.tagged_fields().0.len() == 0
            &&& r == behind(total, x.written_versioned(version, w))
        }),
{
    if 1 <= version <= 3 {
        let f = DescribeAclsRequest::request_format(version);
        let w0 = w;
        let w1 = w0.i8(x.resource_type.code());
        let w2 = w1.nullable_string(optional_text(x.resource_name), version >= 2);
        let w3 = w2.i8(x.pattern_type.code());
        let w4 = w3.nullable_string(optional_text(x.principal), version >= 2);
        let w5 = w4.nullable_string(optional_text(x.host), version >= 2);
        let w6 = w5.i8(x.operation.code());
        let w7 = w6.i8(x.permission_type.code());
        let w8 = w7.tags(version >= 2);
        lemma_text_written(w1, optional_text(x.resource_name), version >= 2);
        lemma_text_written(w3, optional_text(x.principal), version >= 2);
        lemma_text_written(w4, optional_text(x.host), version >= 2);
        if begins(total, w8) {
            if version >= 2 {
                law_varint_round_trip(w7, 0, total);
            }
            law_i8_round_trip(w6, x.permission_type.code(), total);
            law_i8_round_trip(w5, x.operation.code(), total);
            law_nullable_string_round_trip(w4, optional_text(x.host), version >= 2, total);
            law_nullable_string_round_trip(w3, optional_text(x.principal), version >= 2, total);
            law_i8_round_trip(w2, x.pattern_type.code(), total);
            law_nullable_string_round_trip(w1, optional_text(x.resource_name), version >= 2, total);
            law_i8_round_trip(w0, x.resource_type.code(), total);
        }
        assert(x.written_versioned(version, w) == w8);
    }
}

/// How a [`CreateAclsRequest`] is laid out in each version.
pub proof fn law_create_acls_request_layout(
    x: CreateAclsRequest,
    version: i16,
    w: Writer,
    total: Seq<u8>,
)
    requires
        !w.failed(),
    ensures
        CreateAclsRequest::request_name() == "CreateAclsRequest",
        CreateAclsRequest::encodes(version) <==> (1 <= version <= 3),
        (1 <= version <= 3) ==> ({
            let f = CreateAclsRequest::request_format(version);
            &&& f.flexible <==> version >= 2
        }),
        (1 <= version <= 3) ==> ({
            let f = CreateAclsRequest::request_format(version);
            (count_fits(x.creations@.len(), version >= 2) && writable(x.creations@, f))
        }) ==> !x.written_versioned(version, w).failed(),
        (1 <= version <= 3) ==> begins(total, x.written_versioned(version, w)) ==> ({
            let f = CreateAclsRequest::request_format(version);
            let r = behind(total, w);
            let (creations_count, r) = r.array_len(version >= 2);
            let creations_start = r;
            let r = past(total, r, x.creations@, f);
            let tags = r;
            let r = r.tags(version >= 2);
            &&& creations_count == x.creations@.len()
            &&& stands(total, creations_start, x.creations@, f)
            &&& version >= 2 ==> tags.tagged_fields().0.len() == 0
            &&& r == behind(total, x.written_versioned(version, w))
        }),
{
    if 1 <= version <= 3 {
        let f = CreateAclsRequest::request_format(version);
        let w0 = w;
        let w1 = w0.array(x.creations@, f);
        let w2 = w1.tags(version >= 2);
        lemma_array_written(w0, x.creations@, f);
        if begins(total, w2) {
            if version >= 2 {
                law_varint_round_trip(w1, 0, total);
            }
            lemma_array_stands(w0, x.creations@, f, total);
        }
        assert(x.written_versioned(version, w) == w2);
    }
}

/// How a [`AclBindingFilter`] is laid out.
pub proof fn law_acl_binding_filter_layout(
    x: AclBindingFilter,
    f: Format,
    w: Writer,
    total: Seq<u8>,
)
    requires
        !w.failed(),
    ensures
        ({
            &&& optional_text_fits(optional_text(x.resource_name), f.flexible)
            &&& optional_text_fits(optional_text(x.principal), f.flexible)
            &&& optional_text_fits(optional_text(x.host), f.flexible)
        }) ==> !x.written(f, w).failed(),
        begins(total, x.written(f, w)) ==> ({
            let r = behind(total, w);
            let (resource_type, r) = r.i8();
            let (resource_name, r) = r.nullable_string(f.flexible);
            let (pattern_type, r) = r.i8();
            let (principal, r) = r.nullable_string(f.flexible);
            let (host, r) = r.nullable_string(f.flexible);
            let (operation, r) = r.i8();
            let (permission_type, r) = r.i8();
            let tags = r;
            let r = r.tags(f.flexible);
            &&& resource_type == x.resource_type.code()
            &&& resource_name == optional_text(x.resource_name)
            &&& pattern_type == x.pattern_type.code()
            &&& principal == optional_text(x.principal)
            &&& host == optional_text(x.host)
            &&& operation == x.operation.code()
            &&& permission_type == x.permission_type.code()
            &&& f.flexible ==> tags.tagged_fields().0.len() == 0
            &&& r == behind(total, x.written(f, w))
        }),
{
    let w0 = w;
    let w1 = w0.i8(x.resource_type.code());
    let w2 = w1.nullable_string(optional_text(x.resource_name), f.flexible);
    let w3 = w2.i8(x.pattern_type.code());
    let w4 = w3.nullable_string(optional_text(x.principal), f.flexible);
    let w5 = w4.nullable_string(optional_text(x.host), f.flexible);
    let w6 = w5.i8(x.operation.code());
    let w7 = w6.i8(x.permission_type.code());
    let w8 = w7.tags(f.flexible);
    lemma_text_written(w1, optional_text(x.resource_name), f.flexible);
    lemma_text_written(w3, optional_text(x.principal), f.flexible);
    lemma_text_written(w4, optional_text(x.host), f.flexible);
    if begins(total, w8) {
        if f.flexible {
            law_varint_round_trip(w7, 0, total);
        }
        law_i8_round_trip(w6, x.permission_type.code(), total);
        law_i8_round_trip(w5, x.operation.code(), total);
        law_nullable_string_round_trip(w4, optional_text(x.host), f.flexible, total);
        law_nullable_string_round_trip(w3, optional_text(x.principal), f.flexible, total);
        law_i8_round_trip(w2, x.pattern_type.code(), total);
        law_nullable_string_round_trip(w1, optional_text(x.resource_name), f.flexible, total);
        law_i8_round_trip(w0, x.resource_type.code(), total);
    }
}

/// How a [`DeleteAclsRequest`] is laid out in each version.
pub proof fn law_delete_acls_request_layout(
    x: DeleteAclsRequest,
    version: i16,
    w: Writer,
    total: Seq<u8>,
)
    requires
        !w.failed(),
    ensures
        DeleteAclsRequest::request_name() == "DeleteAclsRequest",
        DeleteAclsRequest::encodes(version) <==> (1 <= version <= 3),
        (1 <= version <= 3) ==> ({
            let f = DeleteAclsRequest::request_format(version);
            &&& f.flexible <==> version >= 2
        }),
        (1 <= version <= 3) ==> ({
            let f = DeleteAclsRequest::request_format(version);
            (count_fits(x.filters@.len(), version >= 2) && writable(x.filters@, f))
        }) ==> !x.written_versioned(version, w).failed(),
        (1 <= version <= 3) ==> begins(total, x.written_versioned(version, w)) ==> ({
            let f = DeleteAclsRequest::request_format(version);
            let r = behind(total, w);
            let (filters_count, r) = r.array_len(version >= 2);
            let filters_start = r;
            let r = past(total, r, x.filters@, f);
            let tags = r;
            let r = r.tags(version >= 2);
            &&& filters_count == x.filters@.len()
            &&& stands(total, filters_start, x.filters@, f)
            &&& version >= 2 ==> tags.tagged_fields().0.len() == 0
            &&& r == behind(total, x.written_versioned(version, w))
        }),
{
    if 1 <= version <= 3 {
        let f = DeleteAclsRequest::request_format(version);
        let w0 = w;
        let w1 = w0.array(x.filters@, f);
        let w2 = w1.tags(version >= 2);
        lemma_array_written(w0, x.filters@, f);
        if begins(total, w2) {
            if version >= 2 {
                law_varint_round_trip(w1, 0, total);
            }
            lemma_array_stands(w0, x.filters@, f, total);
        }
        assert(x.written_versioned(version, w) == w2);
    }
}

/// How a [`AclDescription`] is laid out.
pub proof fn law_acl_description_layout(
    x: AclDescription,
    f: Format,
    principal: Seq<char>,
    host: Seq<char>,
    operation: i8,
    permission_type: i8,
    tags: Seq<u8>,
    rest: Seq<u8>,
)
    requires
        is_tags(tags),
    ensures
        ({
            let w = Writer::at(Seq::empty());
            let w = w.string(principal, f.flexible);
            let w = w.string(host, f.flexible);
            let w = w.i8(operation);
            let w = w.i8(permission_type);
            let w = if f.flexible {
                w.raw(tags)
            } else {
                w
            };
            let (read, r) = AclDescription::read(f, Reader::on(w.bytes + rest));
            !w.failed() ==> {
                &&& r == Reader::on(rest)
                &&& x@ == read ==> {
                    &&& x.principal@ == principal
                    &&& x.host@ == host
                    &&& x.operation == AclOperation::of(operation)
                    &&& x.permission_type == AclPermissionType::of(permission_type)
                }
            }
        }),
{
    let w0 = Writer::at(Seq::empty());
    let w1 = w0.string(principal, f.flexible);
    let w2 = w1.string(host, f.flexible);
    let w3 = w2.i8(operation);
    let w4 = w3.i8(permission_type);
    let w5 = if f.flexible {
        w4.raw(tags)
    } else {
        w4
    };
    if !w5.failed() {
        let total = w5.bytes + rest;
        assert(total.take(w5.bytes.len() as int) =~= w5.bytes);
        assert(total.skip(w5.bytes.len() as int) =~= rest);
        if f.flexible {
            law_raw_round_trip(w4, tags, total);
            lemma_tags_read(tags, behind(total, w5).rest);
        }
        law_i8_round_trip(w3, permission_type, total);
        law_i8_round_trip(w2, operation, total);
        law_nullable_string_round_trip(w1, Some(host), f.flexible, total);
        law_nullable_string_round_trip(w0, Some(principal), f.flexible, total);
        assert(total.skip(0) =~= total);
    }
}

/// A [`AclDescription`] is refused where a field that it needs is null.
pub proof fn law_acl_description_needs_its_fields(f: Format, start: Reader)
    ensures
        ({
            let r = start;
            let (principal, r) = r.nullable_string(f.flexible);
            !r.failed() && principal is None
                ==> AclDescription::read(f, start).1.failure == Some(null_field("principal"))
        }),
        ({
            let r = start;
            let (principal, r) = r.nullable_string(f.flexible);
            let (host, r) = r.nullable_string(f.flexible);
            !r.failed() && principal is Some && host is None
                ==> AclDescription::read(f, start).1.failure == Some(null_field("host"))
        }),
{
}

/// How a [`DescribeAclsResource`] is laid out.
#[verifier::rlimit(60)]
pub proof fn law_describe_acls_resource_layout(
    x: DescribeAclsResource,
    f: Format,
    resource_type: i8,
    resource_name: Seq<char>,
    pattern_type: i8,
    acls: Seq<AclDescriptionView>,
    acls_bytes: Seq<Seq<u8>>,
    tags: Seq<u8>,
    rest: Seq<u8>,
)
    requires
        elements::<AclDescription>(f, acls_bytes, acls),
        is_tags(tags),
    ensures
        ({
            let w = Writer::at(Seq::empty());
            let w = w.i8(resource_type);
            let w = w.string(resource_name, f.flexible);
            let w = w.i8(pattern_type);
            let w = w.array_len(acls_bytes.len(), f.flexible).raw(acls_bytes.flatten());
            let w = if f.flexible {
                w.raw(tags)
            } else {
                w
            };
            let (read, r) = DescribeAclsResource::read(f, Reader::on(w.bytes + rest));
            !w.failed() ==> {
                &&& r == Reader::on(rest)
                &&& x@ == read ==> {
                    &&& x.resource_type == AclResourceType::of(resource_type)
                    &&& x.resource_name@ == resource_name
                    &&& x.pattern_type == AclPatternType::of(pattern_type)
                    &&& views(x.acls@) == acls
                }
            }
        }),
{
    let w0 = Writer::at(Seq::empty());
    let w1 = w0.i8(resource_type);
    let w2 = w1.string(resource_name, f.flexible);
    let w3 = w2.i8(pattern_type);
    let w4 = w3.array_len(acls_bytes.len(), f.flexible).raw(acls_bytes.flatten());
    let w5 = if f.flexible {
        w4.raw(tags)
    } else {
        w4
    };
    if !w5.failed() {
        let total = w5.bytes + rest;
        assert(total.take(w5.bytes.len() as int) =~= w5.bytes);
        assert(total.skip(w5.bytes.len() as int) =~= rest);
        if f.flexible {
            law_raw_round_trip(w4, tags, total);
            lemma_tags_read(tags, behind(total, w5).rest);
        }
        lemma_array_read::<AclDescription>(w3, f, acls_bytes, acls, total);
        law_i8_round_trip(w2, pattern_type, total);
        law_nullable_string_round_trip(w1, Some(resource_name), f.flexible, total);
        law_i8_round_trip(w0, resource_type, total);
        assert(total.skip(0) =~= total);
    }
}

/// A [`DescribeAclsResource`] is refused where a field that it needs is null.
pub proof fn law_describe_acls_resource_needs_its_fields(f: Format, start: Reader)
    ensures
        ({
            let r = start;
            let r = r.i8().1;
            let (resource_name, r) = r.nullable_string(f.flexible);
            !r.failed() && resource_name is None
                ==> DescribeAclsResource::read(f, start).1.failure == Some(
                    null_field("resource name"),
                )
        }),
{
}

/// How a [`DescribeAclsResponse`] is laid out in each version.
#[verifier::rlimit(60)]
pub proof fn law_describe_acls_response_layout(
    x: DescribeAclsResponse,
    version: i16,
    throttle_time_ms: i32,
    error_code: i16,
    error_message: Option<Seq<char>>,
    resources: Seq<DescribeAclsResourceView>,
    resources_bytes: Seq<Seq<u8>>,
    tags: Seq<u8>,
    rest: Seq<u8>,
)
    requires
        elements::<DescribeAclsResource>(
            DescribeAclsResponse::response_format(version),
            resources_bytes,
            resources,
        ),
        is_tags(tags),
    ensures
        DescribeAclsResponse::response_name() == "DescribeAclsResponse",
        DescribeAclsResponse::decodes(version) <==> (1 <= version <= 3),
        (1 <= version <= 3) ==> ({
            let f = DescribeAclsResponse::response_format(version);
            &&& f.flexible <==> version >= 2
        }),
        (1 <= version <= 3) ==> ({
            let w = Writer::at(Seq::empty());
            let w = w.i32(throttle_time_ms);
            let w = w.i16(error_code);
            let w = w.nullable_string(error_message, version >= 2);
            let w = w.array_len(resources_bytes.len(), version >= 2).raw(resources_bytes.flatten());
            let w = if version >= 2 {
                w.raw(tags)
            } else {
                w
            };
            let (read, r) = DescribeAclsResponse::read_versioned(
                version,
                Reader::on(w.bytes + rest),
            );
            !w.failed() ==> {
                &&& r == Reader::on(rest)
                &&& x@ == read ==> {
                    &&& x.throttle_time_ms == throttle_time_ms
                    &&& x.error_code == ErrorCode::of(error_code)
                    &&& optional_text(x.error_message) == error_message
                    &&& views(x.resources@) == resources
                }
            }
        }),
{
    if 1 <= version <= 3 {
        let f = DescribeAclsResponse::response_format(version);
        let w0 = Writer::at(Seq::empty());
        let w1 = w0.i32(throttle_time_ms);
        let w2 = w1.i16(error_code);
        let w3 = w2.nullable_string(error_message, version >= 2);
        let w4 = w3.array_len(resources_bytes.len(), version >= 2).raw(resources_bytes.flatten());
        let w5 = if version >= 2 {
            w4.raw(tags)
        } else {
            w4
        };
        if !w5.failed() {
            let total = w5.bytes + rest;
            assert(total.take(w5.bytes.len() as int) =~= w5.bytes);
            assert(total.skip(w5.bytes.len() as int) =~= rest);
            if version >= 2 {
                law_raw_round_trip(w4, tags, total);
                lemma_tags_read(tags, behind(total, w5).rest);
            }
            lemma_array_read::<DescribeAclsResource>(w3, f, resources_bytes, resources, total);
            law_nullable_string_round_trip(w2, error_message, version >= 2, total);
            law_i16_round_trip(w1, error_code, total);
            law_i32_round_trip(w0, throttle_time_ms, total);
            assert(total.skip(0) =~= total);
        }
    }
}

/// How a [`CreateAclsResult`] is laid out.
pub proof fn law_create_acls_result_layout(
    x: CreateAclsResult,
    f: Format,
    error_code: i16,
    error_message: Option<Seq<char>>,
    tags: Seq<u8>,
    rest: Seq<u8>,
)
    requires
        is_tags(tags),
    ensures
        ({
            let w = Writer::at(Seq::empty());
            let w = w.i16(error_code);
            let w = w.nullable_string(error_message, f.flexible);
            let w = if f.flexible {
                w.raw(tags)
            } else {
                w
            };
            let (read, r) = CreateAclsResult::read(f, Reader::on(w.bytes + rest));
            !w.failed() ==> {
                &&& r == Reader::on(rest)
                &&& x@ == read ==> {
                    &&& x.error_code == ErrorCode::of(error_code)
                    &&& optional_text(x.error_message) == error_message
                }
            }
        }),
{
    let w0 = Writer::at(Seq::empty());
    let w1 = w0.i16(error_code);
    let w2 = w1.nullable_string(error_message, f.flexible);
    let w3 = if f.flexible {
        w2.raw(tags)
    } else {
        w2
    };
    if !w3.failed() {
        let total = w3.bytes + rest;
        assert(total.take(w3.bytes.len() as int) =~= w3.bytes);
        assert(total.skip(w3.bytes.len() as int) =~= rest);
        if f.flexible {
            law_raw_round_trip(w2, tags, total);
            lemma_tags_read(tags, behind(total, w3).rest);
        }
        law_nullable_string_round_trip(w1, error_message, f.flexible, total);
        law_i16_round_trip(w0, error_code, total);
        assert(total.skip(0) =~= total);
    }
}

/// How a [`CreateAclsResponse`] is laid out in each version.
#[verifier::rlimit(60)]
pub proof fn law_create_acls_response_layout(
    x: CreateAclsResponse,
    version: i16,
    throttle_time_ms: i32,
    results: Seq<CreateAclsResultView>,
    results_bytes: Seq<Seq<u8>>,
    tags: Seq<u8>,
    rest: Seq<u8>,
)
    requires
        elements::<CreateAclsResult>(
            CreateAclsResponse::response_format(version),
            results_bytes,
            results,
        ),
        is_tags(tags),
    ensures
        CreateAclsResponse::response_name() == "CreateAclsResponse",
        CreateAclsResponse::decodes(version) <==> (1 <= version <= 3),
        (1 <= version <= 3) ==> ({
            let f = CreateAclsResponse::response_format(version);
            &&& f.flexible <==> version >= 2
        }),
        (1 <= version <= 3) ==> ({
            let w = Writer::at(Seq::empty());
            let w = w.i32(throttle_time_ms);
            let w = w.array_len(results_bytes.len(), version >= 2).raw(results_bytes.flatten());
            let w = if version >= 2 {
                w.raw(tags)
            } else {
                w
            };
            let (read, r) = CreateAclsResponse::read_versioned(version, Reader::on(w.bytes + rest));
            !w.failed() ==> {
                &&& r == Reader::on(rest)
                &&& x@ == read ==> {
                    &&& x.throttle_time_ms == throttle_time_ms
                    &&& views(x.results@) == results
                }
            }
        }),
{
    if 1 <= version <= 3 {
        let f = CreateAclsResponse::response_format(version);
        let w0 = Writer::at(Seq::empty());
        let w1 = w0.i32(throttle_time_ms);
        let w2 = w1.array_len(results_bytes.len(), version >= 2).raw(results_bytes.flatten());
        let w3 = if version >= 2 {
            w2.raw(tags)
        } else {
            w2
        };
        if !w3.failed() {
            let total = w3.bytes + rest;
            assert(total.take(w3.bytes.len() as int) =~= w3.bytes);
            assert(total.skip(w3.bytes.len() as int) =~= rest);
            if version >= 2 {
                law_raw_round_trip(w2, tags, total);
                lemma_tags_read(tags, behind(total, w3).rest);
            }
            lemma_array_read::<CreateAclsResult>(w1, f, results_bytes, results, total);
            law_i32_round_trip(w0, throttle_time_ms, total);
            assert(total.skip(0) =~= total);
        }
    }
}

/// How a [`DeleteAclsMatchingAcl`] is laid out.
pub proof fn law_delete_acls_matching_acl_layout(
    x: DeleteAclsMatchingAcl,
    f: Format,
    error_code: i16,
    error_message: Option<Seq<char>>,
    resource_type: i8,
    resource_name: Seq<char>,
    pattern_type: i8,
    principal: Seq<char>,
    host: Seq<char>,
    operation: i8,
    permission_type: i8,
    tags: Seq<u8>,
    rest: Seq<u8>,
)
    requires
        is_tags(tags),
    ensures
        ({
            let w = Writer::at(Seq::empty());
            let w = w.i16(error_code);
            let w = w.nullable_string(error_message, f.flexible);
            let w = w.i8(resource_type);
            let w = w.string(resource_name, f.flexible);
            let w = w.i8(pattern_type);
            let w = w.string(principal, f.flexible);
            let w = w.string(host, f.flexible);
            let w = w.i8(operation);
            let w = w.i8(permission_type);
            let w = if f.flexible {
                w.raw(tags)
            } else {
                w
            };
            let (read, r) = DeleteAclsMatchingAcl::read(f, Reader::on(w.bytes + rest));
            !w.failed() ==> {
                &&& r == Reader::on(rest)
                &&& x@ == read ==> {
                    &&& x.error_code == ErrorCode::of(error_code)
                    &&& optional_text(x.error_message) == error_message
                    &&& x.resource_type == AclResourceType::of(resource_type)
                    &&& x.resource_name@ == resource_name
                    &&& x.pattern_type == AclPatternType::of(pattern_type)
                    &&& x.principal@ == principal
                    &&& x.host@ == host
                    &&& x.operation == AclOperation::of(operation)
                    &&& x.permission_type == AclPermissionType::of(permission_type)
                }
            }
        }),
{
    let w0 = Writer::at(Seq::empty());
    let w1 = w0.i16(error_code);
    let w2 = w1.nullable_string(error_message, f.flexible);
    let w3 = w2.i8(resource_type);
    let w4 = w3.string(resource_name, f.flexible);
    let w5 = w4.i8(pattern_type);
    let w6 = w5.string(principal, f.flexible);
    let w7 = w6.string(host, f.flexible);
    let w8 = w7.i8(operation);
    let w9 = w8.i8(permission_type);
    let w10 = if f.flexible {
        w9.raw(tags)
    } else {
        w9
    };
    if !w10.failed() {
        let total = w10.bytes + rest;
        assert(total.take(w10.bytes.len() as int) =~= w10.bytes);
        assert(total.skip(w10.bytes.len() as int) =~= rest);
        if f.flexible {
            law_raw_round_trip(w9, tags, total);
            lemma_tags_read(tags, behind(total, w10).rest);
        }
        law_i8_round_trip(w8, permission_type, total);
        law_i8_round_trip(w7, operation, total);
        law_nullable_string_round_trip(w6, Some(host), f.flexible, total);
        law_nullable_string_round_trip(w5, Some(principal), f.flexible, total);
        law_i8_round_trip(w4, pattern_type, total);
        law_nullable_string_round_trip(w3, Some(resource_name), f.flexible, total);
        law_i8_round_trip(w2, resource_type, total);
        law_nullable_string_round_trip(w1, error_message, f.flexible, total);
        law_i16_round_trip(w0, error_code, total);
        assert(total.skip(0) =~= total);
    }
}

/// A [`DeleteAclsMatchingAcl`] is refused where a field that it needs is null.
pub proof fn law_delete_acls_matching_acl_needs_its_fields(f: Format, start: Reader)
    ensures
        ({
            let r = start;
            let r = r.i16().1;
            let r = r.nullable_string(f.flexible).1;
            let r = r.i8().1;
            let (resource_name, r) = r.nullable_string(f.flexible);
            !r.failed() && resource_name is None
                ==> DeleteAclsMatchingAcl::read(f, start).1.failure == Some(
                    null_field("resource name"),
                )
        }),
        ({
            let r = start;
            let r = r.i16().1;
            let r = r.nullable_string(f.flexible).1;
            let r = r.i8().1;
            let (resource_name, r) = r.nullable_string(f.flexible);
            let r = r.i8().1;
            let (principal, r) = r.nullable_string(f.flexible);
            !r.failed() && resource_name is Some && principal is None
                ==> DeleteAclsMatchingAcl::read(f, start).1.failure == Some(null_field("principal"))
        }),
        ({
            let r = start;
            let r = r.i16().1;
            let r = r.nullable_string(f.flexible).1;
            let r = r.i8().1;
            let (resource_name, r) = r.nullable_string(f.flexible);
            let r = r.i8().1;
            let (principal, r) = r.nullable_string(f.flexible);
            let (host, r) = r.nullable_string(f.flexible);
            !r.failed() && resource_name is Some && principal is Some && host is None
                ==> DeleteAclsMatchingAcl::read(f, start).1.failure == Some(null_field("host"))
        }),
{
}

/// How a [`DeleteAclsFilterResult`] is laid out.
#[verifier::rlimit(60)]
pub proof fn law_delete_acls_filter_result_layout(
    x: DeleteAclsFilterResult,
    f: Format,
    error_code: i16,
    error_message: Option<Seq<char>>,
    matching_acls: Seq<DeleteAclsMatchingAclView>,
    matching_acls_bytes: Seq<Seq<u8>>,
    tags: Seq<u8>,
    rest: Seq<u8>,
)
    requires
        elements::<DeleteAclsMatchingAcl>(f, matching_acls_bytes, matching_acls),
        is_tags(tags),
    ensures
        ({
            let w = Writer::at(Seq::empty());
            let w = w.i16(error_code);
            let w = w.nullable_string(error_message, f.flexible);
            let w = w.array_len(matching_acls_bytes.len(), f.flexible).raw(
                matching_acls_bytes.flatten(),
            );
            let w = if f.flexible {
                w.raw(tags)
            } else {
                w
            };
            let (read, r) = DeleteAclsFilterResult::read(f, Reader::on(w.bytes + rest));
            !w.failed() ==> {
                &&& r == Reader::on(rest)
                &&& x@ == read ==> {
                    &&& x.error_code == ErrorCode::of(error_code)
                    &&& optional_text(x.error_message) == error_message
                    &&& views(x.matching_acls@) == matching_acls
                }
            }
        }),
{
    let w0 = Writer::at(Seq::empty());
    let w1 = w0.i16(error_code);
    let w2 = w1.nullable_string(error_message, f.flexible);
    let w3 = w2.array_len(matching_acls_bytes.len(), f.flexible).raw(matching_acls_bytes.flatten());
    let w4 = if f.flexible {
        w3.raw(tags)
    } else {
        w3
    };
    if !w4.failed() {
        let total = w4.bytes + rest;
        assert(total.take(w4.bytes.len() as int) =~= w4.bytes);
        assert(total.skip(w4.bytes.len() as int) =~= rest);
        if f.flexible {
            law_raw_round_trip(w3, tags, total);
            lemma_tags_read(tags, behind(total, w4).rest);
        }
        lemma_array_read::<DeleteAclsMatchingAcl>(w2, f, matching_acls_bytes, matching_acls, total);
        law_nullable_string_round_trip(w1, error_message, f.flexible, total);
        law_i16_round_trip(w0, error_code, total);
        assert(total.skip(0) =~= total);
    }
}

/// How a [`DeleteAclsResponse`] is laid out in each version.
#[verifier::rlimit(60)]
pub proof fn law_delete_acls_response_layout(
    x: DeleteAclsResponse,
    version: i16,
    throttle_time_ms: i32,
    filter_results: Seq<DeleteAclsFilterResultView>,
    filter_results_bytes: Seq<Seq<u8>>,
    tags: Seq<u8>,
    rest: Seq<u8>,
)
    requires
        elements::<DeleteAclsFilterResult>(
            DeleteAclsResponse::response_format(version),
            filter_results_bytes,
            filter_results,
        ),
        is_tags(tags),
    ensures
        DeleteAclsResponse::response_name() == "DeleteAclsResponse",
        DeleteAclsResponse::decodes(version) <==> (1 <= version <= 3),
        (1 <= version <= 3) ==> ({
            let f = DeleteAclsResponse::response_format(version);
            &&& f.flexible <==> version >= 2
        }),
        (1 <= version <= 3) ==> ({
            let w = Writer::at(Seq::empty());
            let w = w.i32(throttle_time_ms);
            let w = w.array_len(filter_results_bytes.len(), version >= 2).raw(
                filter_results_bytes.flatten(),
            );
            let w = if version >= 2 {
                w.raw(tags)
            } else {
                w
            };
            let (read, r) = DeleteAclsResponse::read_versioned(version, Reader::on(w.bytes + rest));
            !w.failed() ==> {
                &&& r == Reader::on(rest)
                &&& x@ == read ==> {
                    &&& x.throttle_time_ms == throttle_time_ms
                    &&& views(x.filter_results@) == filter_results
                }
            }
        }),
{
    if 1 <= version <= 3 {
        let f = DeleteAclsResponse::response_format(version);
        let w0 = Writer::at(Seq::empty());
        let w1 = w0.i32(throttle_time_ms);
        let w2 = w1.array_len(filter_results_bytes.len(), version >= 2).raw(
            filter_results_bytes.flatten(),
        );
        let w3 = if version >= 2 {
            w2.raw(tags)
        } else {
            w2
        };
        if !w3.failed() {
            let total = w3.bytes + rest;
            assert(total.take(w3.bytes.len() as int) =~= w3.bytes);
            assert(total.skip(w3.bytes.len() as int) =~= rest);
            if version >= 2 {
                law_raw_round_trip(w2, tags, total);
                lemma_tags_read(tags, behind(total, w3).rest);
            }
            lemma_array_read::<DeleteAclsFilterResult>(
                w1,
                f,
                filter_results_bytes,
                filter_results,
                total,
            );
            law_i32_round_trip(w0, throttle_time_ms, total);
            assert(total.skip(0) =~= total);
        }
    }
}

} // verus!
