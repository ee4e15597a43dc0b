//! Layouts of what [`crate::protocol::messages::security`] holds.

use crate::buffer::Octets;
use crate::error::ErrorCode;
use crate::protocol::layouts::{
    count_fits, elements, lemma_array_read, lemma_array_stands, lemma_array_written,
    lemma_bytes_written, lemma_text_written, optional_text_fits, or_empty, past, stands, text_fits,
    writable,
};
use crate::protocol::messages::security::{
    present, AclBinding, AclBindingFilter, AclDescription, AclDescriptionView, AclOperation,
    AclPatternType, AclPermissionType, AclResourceType, CreateAclsRequest, CreateAclsResponse,
    CreateAclsResult, CreateAclsResultView, DeleteAclsFilterResult, DeleteAclsFilterResultView,
    DeleteAclsMatchingAcl, DeleteAclsMatchingAclView, DeleteAclsRequest, DeleteAclsResponse,
    DescribeAclsRequest, DescribeAclsResource, DescribeAclsResourceView, DescribeAclsResponse,
    SaslAuthenticateRequest, SaslAuthenticateResponse, SaslHandshakeRequest, SaslHandshakeResponse,
};
use crate::protocol::messages::{VersionedDecode, VersionedEncode};
use crate::protocol::primitives::KafkaString;
use crate::protocol::round_trip::{
    begins, behind, law_array_round_trip, law_i16_round_trip, law_i32_round_trip,
    law_i64_round_trip, law_i8_round_trip, law_nullable_bytes_round_trip,
    law_nullable_string_round_trip,
};
use crate::protocol::wire::{optional_text, views, Format, Reader, WireDecode, WireEncode, Writer};
use vstd::prelude::*;

verus! {

/// How a [`SaslHandshakeRequest`] is laid out in each version.
pub proof fn law_sasl_handshake_request_layout(
    x: SaslHandshakeRequest,
    version: i16,
    w: Writer,
    total: Seq<u8>,
)
    requires
        !w.failed(),
    ensures
        SaslHandshakeRequest::request_name() == "SaslHandshakeRequest",
        SaslHandshakeRequest::encodes(version) <==> (0 <= version <= 1),
        (0 <= version <= 1) ==> ({
            let f = SaslHandshakeRequest::request_format(version);
            &&& f.flexible <==> false
        }),
        (0 <= version <= 1) ==> ({
            &&& text_fits(x.mechanism@, false)
        }) ==> !x.written_versioned(version, w).failed(),
        (0 <= version <= 1) ==> begins(total, x.written_versioned(version, w)) ==> ({
            let r = behind(total, w);
            let (mechanism, r) = r.nullable_string(false);
            &&& mechanism == Some(x.mechanism@)
            &&& r == behind(total, x.written_versioned(version, w))
        }),
{
    if 0 <= version <= 1 {
        let f = SaslHandshakeRequest::request_format(version);
        let w0 = w;
        let w1 = w0.string(x.mechanism@, false);
        lemma_text_written(w0, Some(x.mechanism@), false);
        if begins(total, w1) {
            law_nullable_string_round_trip(w0, Some(x.mechanism@), false, total);
        }
        assert(x.written_versioned(version, w) == w1);
    }
}

/// How a [`SaslAuthenticateRequest`] is laid out in each version.
pub proof fn law_sasl_authenticate_request_layout(
    x: SaslAuthenticateRequest,
    version: i16,
    w: Writer,
    total: Seq<u8>,
)
    requires
        !w.failed(),
    ensures
        SaslAuthenticateRequest::request_name() == "SaslAuthenticateRequest",
        SaslAuthenticateRequest::encodes(version) <==> (0 <= version <= 1),
        (0 <= version <= 1) ==> ({
            let f = SaslAuthenticateRequest::request_format(version);
            &&& f.flexible <==> false
        }),
        (0 <= version <= 1) ==> ({
            &&& count_fits(x.auth_bytes@.len(), false)
        }) ==> !x.written_versioned(version, w).failed(),
        (0 <= version <= 1) ==> begins(total, x.written_versioned(version, w)) ==> ({
            let r = behind(total, w);
            let (auth_bytes, r) = r.nullable_bytes(false);
            &&& auth_bytes == Some(x.auth_bytes@)
            &&& r == behind(total, x.written_versioned(version, w))
        }),
{
    if 0 <= version <= 1 {
        let f = SaslAuthenticateRequest::request_format(version);
        let w0 = w;
        let w1 = w0.bytes(x.auth_bytes@, false);
        lemma_bytes_written(w0, Some(x.auth_bytes@), false);
        if begins(total, w1) {
            law_nullable_bytes_round_trip(w0, Some(x.auth_bytes@), false, total);
        }
        assert(x.written_versioned(version, w) == w1);
    }
}

/// How a [`AclBinding`] is laid out.
pub proof fn law_acl_binding_layout(x: AclBinding, f: Format, w: Writer, total: Seq<u8>)
    requires
        !w.failed(),
    ensures
        ({
            &&& text_fits(x.resource_name@, f.flexible)
            &&& text_fits(x.principal@, f.flexible)
            &&& text_fits(x.host@, f.flexible)
        }) ==> !x.written(f, w).failed(),
        begins(total, x.written(f, w)) ==> ({
            let r = behind(total, w);
            let (resource_type, r) = r.i8();
            let (resource_name, r) = r.nullable_string(f.flexible);
            let (pattern_type, r) = if f.version >= 1 {
                let (v, r) = r.i8();
                (Some(v), r)
            } else {
                (None, r)
            };
            let (principal, r) = r.nullable_string(f.flexible);
            let (host, r) = r.nullable_string(f.flexible);
            let (operation, r) = r.i8();
            let (permission_type, r) = r.i8();
            &&& resource_type == x.resource_type.code()
            &&& resource_name == Some(x.resource_name@)
            &&& pattern_type == (if f.version >= 1 {
                Some(x.pattern_type.code())
            } else {
                None
            })
            &&& principal == Some(x.principal@)
            &&& host == Some(x.host@)
            &&& operation == x.operation.code()
            &&& permission_type == x.permission_type.code()
            &&& r == behind(total, x.written(f, w))
        }),
{
    let w0 = w;
    let w1 = w0.i8(x.resource_type.code());
    let w2 = w1.string(x.resource_name@, f.flexible);
    let w3 = if f.version >= 1 {
        w2.i8(x.pattern_type.code())
    } else {
        w2
    };
    let w4 = w3.string(x.principal@, f.flexible);
    let w5 = w4.string(x.host@, f.flexible);
    let w6 = w5.i8(x.operation.code());
    let w7 = w6.i8(x.permission_type.code());
    lemma_text_written(w1, Some(x.resource_name@), f.flexible);
    lemma_text_written(w3, Some(x.principal@), f.flexible);
    lemma_text_written(w4, Some(x.host@), f.flexible);
    if begins(total, w7) {
        law_i8_round_trip(w6, x.permission_type.code(), total);
        law_i8_round_trip(w5, x.operation.code(), total);
        law_nullable_string_round_trip(w4, Some(x.host@), f.flexible, total);
        law_nullable_string_round_trip(w3, Some(x.principal@), f.flexible, total);
        if f.version >= 1 {
            law_i8_round_trip(w2, x.pattern_type.code(), total);
        }
        law_nullable_string_round_trip(w1, Some(x.resource_name@), f.flexible, total);
        law_i8_round_trip(w0, x.resource_type.code(), total);
    }
}

/// How a [`DescribeAclsRequest`] is laid out in each version.
pub proof fn law_describe_acls_request_layout(
    x: DescribeAclsRequest,
    version: i16,
    w: Writer,
    total: Seq<u8>,
)
    requires
        !w.failed(),
    ensures
        DescribeAclsRequest::request_name() == "DescribeAclsRequest",
        DescribeAclsRequest::encodes(version) <==> (0 <= version <= 1),
        (0 <= version <= 1) ==> ({
            let f = DescribeAclsRequest::request_format(version);
            &&& f.flexible <==> false
        }),
        (0 <= version <= 1) ==> ({
            &&& optional_text_fits(optional_text(x.resource_name), false)
            &&& optional_text_fits(optional_text(x.principal), false)
            &&& optional_text_fits(optional_text(x.host), false)
        }) ==> !x.written_versioned(version, w).failed(),
        (0 <= version <= 1) ==> begins(total, x.written_versioned(version, w)) ==> ({
            let r = behind(total, w);
            let (resource_type, r) = r.i8();
            let (resource_name, r) = r.nullable_string(false);
            let (pattern_type, r) = if version >= 1 {
                let (v, r) = r.i8();
                (Some(v), r)
            } else {
                (None, r)
            };
            let (principal, r) = r.nullable_string(false);
            let (host, r) = r.nullable_string(false);
            let (operation, r) = r.i8();
            let (permission_type, r) = r.i8();
            &&& resource_type == x.resource_type.code()
            &&& resource_name == optional_text(x.resource_name)
            &&& pattern_type == (if version >= 1 {
                Some(x.pattern_type.code())
            } else {
                None
            })
            &&& principal == optional_text(x.principal)
            &&& host == optional_text(x.host)
            &&& operation == x.operation.code()
            &&& permission_type == x.permission_type.code()
            &&& r == behind(total, x.written_versioned(version, w))
        }),
{
    if 0 <= version <= 1 {
        let f = DescribeAclsRequest::request_format(version);
        let w0 = w;
        let w1 = w0.i8(x.resource_type.code());
        let w2 = w1.nullable_string(optional_text(x.resource_name), false);
        let w3 = if version >= 1 {
            w2.i8(x.pattern_type.code())
        } else {
            w2
        };
        let w4 = w3.nullable_string(optional_text(x.principal), false);
        let w5 = w4.nullable_string(optional_text(x.host), false);
        let w6 = w5.i8(x.operation.code());
        let w7 = w6.i8(x.permission_type.code());
        lemma_text_written(w1, optional_text(x.resource_name), false);
        lemma_text_written(w3, optional_text(x.principal), false);
        lemma_text_written(w4, optional_text(x.host), false);
        if begins(total, w7) {
            law_i8_round_trip(w6, x.permission_type.code(), total);
            law_i8_round_trip(w5, x.operation.code(), total);
            law_nullable_string_round_trip(w4, optional_text(x.host), false, total);
            law_nullable_string_round_trip(w3, optional_text(x.principal), false, total);
            if version >= 1 {
                law_i8_round_trip(w2, x.pattern_type.code(), total);
            }
            law_nullable_string_round_trip(w1, optional_text(x.resource_name), false, total);
            law_i8_round_trip(w0, x.resource_type.code(), total);
        }
        assert(x.written_versioned(version, w) == w7);
    }
}

/// How a [`CreateAclsRequest`] is laid out in each version.
pub proof fn law_create_acls_request_layout(
    x: CreateAclsRequest,
    version: i16,
    w: Writer,
    total: Seq<u8>,
)
    requires
        !w.failed(),
    ensures
        CreateAclsRequest::request_name() == "CreateAclsRequest",
        CreateAclsRequest::encodes(version) <==> (0 <= version <= 1),
        (0 <= version <= 1) ==> ({
            let f = CreateAclsRequest::request_format(version);
            &&& f.flexible <==> false
            &&& (f.version >= 1) <==> (version >= 1)
        }),
        (0 <= version <= 1) ==> ({
            let f = CreateAclsRequest::request_format(version);
            (count_fits(x.creations@.len(), false) && writable(x.creations@, f))
        }) ==> !x.written_versioned(version, w).failed(),
        (0 <= version <= 1) ==> begins(total, x.written_versioned(version, w)) ==> ({
            let f = CreateAclsRequest::request_format(version);
            let r = behind(total, w);
            let (creations_count, r) = r.array_len(false);
            let creations_start = r;
            let r = past(total, r, x.creations@, f);
            &&& creations_count == x.creations@.len()
            &&& stands(total, creations_start, x.creations@, f)
            &&& r == behind(total, x.written_versioned(version, w))
        }),
{
    if 0 <= version <= 1 {
        let f = CreateAclsRequest::request_format(version);
        let w0 = w;
        let w1 = w0.array(x.creations@, f);
        lemma_array_written(w0, x.creations@, f);
        if begins(total, w1) {
            lemma_array_stands(w0, x.creations@, f, total);
        }
        assert(x.written_versioned(version, w) == w1);
    }
}

/// How a [`AclBindingFilter`] is laid out.
pub proof fn law_acl_binding_filter_layout(
    x: AclBindingFilter,
    f: Format,
    w: Writer,
    total: Seq<u8>,
)
    requires
        !w.failed(),
    ensures
        ({
            &&& optional_text_fits(optional_text(x.resource_name), f.flexible)
            &&& optional_text_fits(optional_text(x.principal), f.flexible)
            &&& optional_text_fits(optional_text(x.host), f.flexible)
        }) ==> !x.written(f, w).failed(),
        begins(total, x.written(f, w)) ==> ({
            let r = behind(total, w);
            let (resource_type, r) = r.i8();
            let (resource_name, r) = r.nullable_string(f.flexible);
            let (pattern_type, r) = if f.version >= 1 {
                let (v, r) = r.i8();
                (Some(v), r)
            } else {
                (None, r)
            };
            let (principal, r) = r.nullable_string(f.flexible);
            let (host, r) = r.nullable_string(f.flexible);
            let (operation, r) = r.i8();
            let (permission_type, r) = r.i8();
            &&& resource_type == x.resource_type.code()
            &&& resource_name == optional_text(x.resource_name)
            &&& pattern_type == (if f.version >= 1 {
                Some(x.pattern_type.code())
            } else {
                None
            })
            &&& principal == optional_text(x.principal)
            &&& host == optional_text(x.host)
            &&& operation == x.operation.code()
            &&& permission_type == x.permission_type.code()
            &&& r == behind(total, x.written(f, w))
        }),
{
    let w0 = w;
    let w1 = w0.i8(x.resource_type.code());
    let w2 = w1.nullable_string(optional_text(x.resource_name), f.flexible);
    let w3 = if f.version >= 1 {
        w2.i8(x.pattern_type.code())
    } else {
        w2
    };
    let w4 = w3.nullable_string(optional_text(x.principal), f.flexible);
    let w5 = w4.nullable_string(optional_text(x.host), f.flexible);
    let w6 = w5.i8(x.operation.code());
    let w7 = w6.i8(x.permission_type.code());
    lemma_text_written(w1, optional_text(x.resource_name), f.flexible);
    lemma_text_written(w3, optional_text(x.principal), f.flexible);
    lemma_text_written(w4, optional_text(x.host), f.flexible);
    if begins(total, w7) {
        law_i8_round_trip(w6, x.permission_type.code(), total);
        law_i8_round_trip(w5, x.operation.code(), total);
        law_nullable_string_round_trip(w4, optional_text(x.host), f.flexible, total);
        law_nullable_string_round_trip(w3, optional_text(x.principal), f.flexible, total);
        if f.version >= 1 {
            law_i8_round_trip(w2, x.pattern_type.code(), total);
        }
        law_nullable_string_round_trip(w1, optional_text(x.resource_name), f.flexible, total);
        law_i8_round_trip(w0, x.resource_type.code(), total);
    }
}

/// How a [`DeleteAclsRequest`] is laid out in each version.
pub proof fn law_delete_acls_request_layout(
    x: DeleteAclsRequest,
    version: i16,
    w: Writer,
    total: Seq<u8>,
)
    requires
        !w.failed(),
    ensures
        DeleteAclsRequest::request_name() == "DeleteAclsRequest",
        DeleteAclsRequest::encodes(version) <==> (0 <= version <= 1),
        (0 <= version <= 1) ==> ({
            let f = DeleteAclsRequest::request_format(version);
            &&& f.flexible <==> false
            &&& (f.version >= 1) <==> (version >= 1)
        }),
        (0 <= version <= 1) ==> ({
            let f = DeleteAclsRequest::request_format(version);
            (count_fits(x.filters@.len(), false) && writable(x.filters@, f))
        }) ==> !x.written_versioned(version, w).failed(),
        (0 <= version <= 1) ==> begins(total, x.written_versioned(version, w)) ==> ({
            let f = DeleteAclsRequest::request_format(version);
            let r = behind(total, w);
            let (filters_count, r) = r.array_len(false);
            let filters_start = r;
            let r = past(total, r, x.filters@, f);
            &&& filters_count == x.filters@.len()
            &&& stands(total, filters_start, x.filters@, f)
            &&& r == behind(total, x.written_versioned(version, w))
        }),
{
    if 0 <= version <= 1 {
        let f = DeleteAclsRequest::request_format(version);
        let w0 = w;
        let w1 = w0.array(x.filters@, f);
        lemma_array_written(w0, x.filters@, f);
        if begins(total, w1) {
            lemma_array_stands(w0, x.filters@, f, total);
        }
        assert(x.written_versioned(version, w) == w1);
    }
}

/// How a [`SaslAuthenticateResponse`] is laid out in each version.
pub proof fn law_sasl_authenticate_response_layout(
    x: SaslAuthenticateResponse,
    version: i16,
    error_code: i16,
    error_message: Option<Seq<char>>,
    auth_bytes: Option<Seq<u8>>,
    session_lifetime_ms: i64,
    rest: Seq<u8>,
)
    ensures
        SaslAuthenticateResponse::response_name() == "SaslAuthenticateResponse",
        SaslAuthenticateResponse::decodes(version) <==> (0 <= version <= 1),
        (0 <= version <= 1) ==> ({
            let f = SaslAuthenticateResponse::response_format(version);
            &&& f.flexible <==> false
        }),
        (0 <= version <= 1) ==> ({
            let w = Writer::at(Seq::empty());
            let w = w.i16(error_code);
            let w = w.nullable_string(error_message, false);
            let w = w.nullable_bytes(auth_bytes, false);
            let w = if version >= 1 {
                w.i64(session_lifetime_ms)
            } else {
                w
            };
            let (read, r) = SaslAuthenticateResponse::read_versioned(
                version,
                Reader::on(w.bytes + rest),
            );
            !w.failed() ==> {
                &&& r == Reader::on(rest)
                &&& x@ == read ==> {
                    &&& x.error_code == ErrorCode::of(error_code)
                    &&& optional_text(x.error_message) == error_message
                    &&& views(x.auth_bytes@) == or_empty(auth_bytes)
                    &&& x.session_lifetime_ms == (if version >= 1 {
                        session_lifetime_ms
                    } else {
                        0
                    })
                }
            }
        }),
{
    if 0 <= version <= 1 {
        let f = SaslAuthenticateResponse::response_format(version);
        let w0 = Writer::at(Seq::empty());
        let w1 = w0.i16(error_code);
        let w2 = w1.nullable_string(error_message, false);
        let w3 = w2.nullable_bytes(auth_bytes, false);
        let w4 = if version >= 1 {
            w3.i64(session_lifetime_ms)
        } else {
            w3
        };
        if !w4.failed() {
            let total = w4.bytes + rest;
            assert(total.take(w4.bytes.len() as int) =~= w4.bytes);
            assert(total.skip(w4.bytes.len() as int) =~= rest);
            if version >= 1 {
                law_i64_round_trip(w3, session_lifetime_ms, total);
            }
            law_nullable_bytes_round_trip(w2, auth_bytes, false, total);
            law_nullable_string_round_trip(w1, error_message, false, total);
            law_i16_round_trip(w0, error_code, total);
            assert(total.skip(0) =~= total);
        }
    }
}

/// How a [`AclDescription`] is laid out.
pub proof fn law_acl_description_layout(
    x: AclDescription,
    f: Format,
    principal: Option<Seq<char>>,
    host: Option<Seq<char>>,
    operation: i8,
    permission_type: i8,
    rest: Seq<u8>,
)
    ensures
        ({
            let w = Writer::at(Seq::empty());
            let w = w.nullable_string(principal, f.flexible);
            let w = w.nullable_string(host, f.flexible);
            let w = w.i8(operation);
            let w = w.i8(permission_type);
            let (read, r) = AclDescription::read(f, Reader::on(w.bytes + rest));
            !w.failed() ==> {
                &&& r == Reader::on(rest)
                &&& x@ == read ==> {
                    &&& x.principal@ == or_empty(principal)
                    &&& x.host@ == or_empty(host)
                    &&& x.operation == AclOperation::of(operation)
                    &&& x.permission_type == AclPermissionType::of(permission_type)
                }
            }
        }),
{
    let w0 = Writer::at(Seq::empty());
    let w1 = w0.nullable_string(principal, f.flexible);
    let w2 = w1.nullable_string(host, f.flexible);
    let w3 = w2.i8(operation);
    let w4 = w3.i8(permission_type);
    if !w4.failed() {
        let total = w4.bytes + rest;
        assert(total.take(w4.bytes.len() as int) =~= w4.bytes);
        assert(total.skip(w4.bytes.len() as int) =~= rest);
        law_i8_round_trip(w3, permission_type, total);
        law_i8_round_trip(w2, operation, total);
        law_nullable_string_round_trip(w1, host, f.flexible, total);
        law_nullable_string_round_trip(w0, principal, f.flexible, total);
        assert(total.skip(0) =~= total);
    }
}

/// How a [`DescribeAclsResource`] is laid out.
#[verifier::rlimit(60)]
pub proof fn law_describe_acls_resource_layout(
    x: DescribeAclsResource,
    f: Format,
    resource_type: i8,
    resource_name: Option<Seq<char>>,
    acls: Seq<AclDescriptionView>,
    acls_bytes: Seq<Seq<u8>>,
    rest: Seq<u8>,
)
    requires
        elements::<AclDescription>(f, acls_bytes, acls),
    ensures
        ({
            let w = Writer::at(Seq::empty());
            let w = w.i8(resource_type);
            let w = w.nullable_string(resource_name, f.flexible);
            let w = w.array_len(acls_bytes.len(), f.flexible).raw(acls_bytes.flatten());
            let (read, r) = DescribeAclsResource::read(f, Reader::on(w.bytes + rest));
            !w.failed() ==> {
                &&& r == Reader::on(rest)
                &&& x@ == read ==> {
                    &&& x.resource_type == AclResourceType::of(resource_type)
                    &&& x.resource_name@ == or_empty(resource_name)
                    &&& x.pattern_type == AclPatternType::Literal
                    &&& views(x.acls@) == acls
                }
            }
        }),
{
    let w0 = Writer::at(Seq::empty());
    let w1 = w0.i8(resource_type);
    let w2 = w1.nullable_string(resource_name, f.flexible);
    let w3 = w2.array_len(acls_bytes.len(), f.flexible).raw(acls_bytes.flatten());
    if !w3.failed() {
        let total = w3.bytes + rest;
        assert(total.take(w3.bytes.len() as int) =~= w3.bytes);
        assert(total.skip(w3.bytes.len() as int) =~= rest);
        lemma_array_read::<AclDescription>(w2, f, acls_bytes, acls, total);
        law_nullable_string_round_trip(w1, resource_name, f.flexible, total);
        law_i8_round_trip(w0, resource_type, total);
        assert(total.skip(0) =~= total);
    }
}

/// How a [`DescribeAclsResponse`] is laid out in each version.
#[verifier::rlimit(60)]
pub proof fn law_describe_acls_response_layout(
    x: DescribeAclsResponse,
    version: i16,
    throttle_time_ms: i32,
    error_code: i16,
    error_message: Option<Seq<char>>,
    resources: Seq<DescribeAclsResourceView>,
    resources_bytes: Seq<Seq<u8>>,
    rest: Seq<u8>,
)
    requires
        elements::<DescribeAclsResource>(
            DescribeAclsResponse::response_format(version),
            resources_bytes,
            resources,
        ),
    ensures
        DescribeAclsResponse::response_name() == "DescribeAclsResponse",
        DescribeAclsResponse::decodes(version) <==> (0 <= version <= 1),
        (0 <= version <= 1) ==> ({
            let f = DescribeAclsResponse::response_format(version);
            &&& f.flexible <==> false
        }),
        (0 <= version <= 1) ==> ({
            let w = Writer::at(Seq::empty());
            let w = w.i32(throttle_time_ms);
            let w = w.i16(error_code);
            let w = w.nullable_string(error_message, false);
            let w = w.array_len(resources_bytes.len(), false).raw(resources_bytes.flatten());
            let (read, r) = DescribeAclsResponse::read_versioned(
                version,
                Reader::on(w.bytes + rest),
            );
            !w.failed() ==> {
                &&& r == Reader::on(rest)
                &&& x@ == read ==> {
                    &&& x.throttle_time_ms == throttle_time_ms
                    &&& x.error_code == ErrorCode::of(error_code)
                    &&& optional_text(x.error_message) == error_message
                    &&& views(x.resources@) == resources
                }
            }
        }),
{
    if 0 <= version <= 1 {
        let f = DescribeAclsResponse::response_format(version);
        let w0 = Writer::at(Seq::empty());
        let w1 = w0.i32(throttle_time_ms);
        let w2 = w1.i16(error_code);
        let w3 = w2.nullable_string(error_message, false);
        let w4 = w3.array_len(resources_bytes.len(), false).raw(resources_bytes.flatten());
        if !w4.failed() {
            let total = w4.bytes + rest;
            assert(total.take(w4.bytes.len() as int) =~= w4.bytes);
            assert(total.skip(w4.bytes.len() as int) =~= rest);
            lemma_array_read::<DescribeAclsResource>(w3, f, resources_bytes, resources, total);
            law_nullable_string_round_trip(w2, error_message, false, total);
            law_i16_round_trip(w1, error_code, total);
            law_i32_round_trip(w0, throttle_time_ms, total);
            assert(total.skip(0) =~= total);
        }
    }
}

/// How a [`CreateAclsResult`] is laid out.
pub proof fn law_create_acls_result_layout(
    x: CreateAclsResult,
    f: Format,
    error_code: i16,
    error_message: Option<Seq<char>>,
    rest: Seq<u8>,
)
    ensures
        ({
            let w = Writer::at(Seq::empty());
            let w = w.i16(error_code);
            let w = w.nullable_string(error_message, f.flexible);
            let (read, r) = CreateAclsResult::read(f, Reader::on(w.bytes + rest));
            !w.failed() ==> {
                &&& r == Reader::on(rest)
                &&& x@ == read ==> {
                    &&& x.error_code == ErrorCode::of(error_code)
                    &&& optional_text(x.error_message) == error_message
                }
            }
        }),
{
    let w0 = Writer::at(Seq::empty());
    let w1 = w0.i16(error_code);
    let w2 = w1.nullable_string(error_message, f.flexible);
    if !w2.failed() {
        let total = w2.bytes + rest;
        assert(total.take(w2.bytes.len() as int) =~= w2.bytes);
        assert(total.skip(w2.bytes.len() as int) =~= rest);
        law_nullable_string_round_trip(w1, error_message, f.flexible, total);
        law_i16_round_trip(w0, error_code, total);
        assert(total.skip(0) =~= total);
    }
}

/// How a [`CreateAclsResponse`] is laid out in each version.
#[verifier::rlimit(60)]
pub proof fn law_create_acls_response_layout(
    x: CreateAclsResponse,
    version: i16,
    throttle_time_ms: i32,
    results: Seq<CreateAclsResultView>,
    results_bytes: Seq<Seq<u8>>,
    rest: Seq<u8>,
)
    requires
        elements::<CreateAclsResult>(
            CreateAclsResponse::response_format(version),
            results_bytes,
            results,
        ),
    ensures
        CreateAclsResponse::response_name() == "CreateAclsResponse",
        CreateAclsResponse::decodes(version) <==> (0 <= version <= 1),
        (0 <= version <= 1) ==> ({
            let f = CreateAclsResponse::response_format(version);
            &&& f.flexible <==> false
        }),
        (0 <= version <= 1) ==> ({
            let w = Writer::at(Seq::empty());
            let w = w.i32(throttle_time_ms);
            let w = w.array_len(results_bytes.len(), false).raw(results_bytes.flatten());
            let (read, r) = CreateAclsResponse::read_versioned(version, Reader::on(w.bytes + rest));
            !w.failed() ==> {
                &&& r == Reader::on(rest)
                &&& x@ == read ==> {
                    &&& x.throttle_time_ms == throttle_time_ms
                    &&& views(x.results@) == results
                }
            }
        }),
{
    if 0 <= version <= 1 {
        let f = CreateAclsResponse::response_format(version);
        let w0 = Writer::at(Seq::empty());
        let w1 = w0.i32(throttle_time_ms);
        let w2 = w1.array_len(results_bytes.len(), false).raw(results_bytes.flatten());
        if !w2.failed() {
            let total = w2.bytes + rest;
            assert(total.take(w2.bytes.len() as int) =~= w2.bytes);
            assert(total.skip(w2.bytes.len() as int) =~= rest);
            lemma_array_read::<CreateAclsResult>(w1, f, results_bytes, results, total);
            law_i32_round_trip(w0, throttle_time_ms, total);
            assert(total.skip(0) =~= total);
        }
    }
}

/// How a [`DeleteAclsMatchingAcl`] is laid out.
pub proof fn law_delete_acls_matching_acl_layout(
    x: DeleteAclsMatchingAcl,
    f: Format,
    error_code: i16,
    error_message: Option<Seq<char>>,
    resource_type: i8,
    resource_name: Option<Seq<char>>,
    principal: Option<Seq<char>>,
    host: Option<Seq<char>>,
    operation: i8,
    permission_type: i8,
    rest: Seq<u8>,
)
    ensures
        ({
            let w = Writer::at(Seq::empty());
            let w = w.i16(error_code);
            let w = w.nullable_string(error_message, f.flexible);
            let w = w.i8(resource_type);
            let w = w.nullable_string(resource_name, f.flexible);
            let w = w.nullable_string(principal, f.flexible);
            let w = w.nullable_string(host, f.flexible);
            let w = w.i8(operation);
            let w = w.i8(permission_type);
            let (read, r) = DeleteAclsMatchingAcl::read(f, Reader::on(w.bytes + rest));
            !w.failed() ==> {
                &&& r == Reader::on(rest)
                &&& x@ == read ==> {
                    &&& x.error_code == ErrorCode::of(error_code)
                    &&& optional_text(x.error_message) == error_message
                    &&& x.resource_type == AclResourceType::of(resource_type)
                    &&& x.resource_name@ == or_empty(resource_name)
                    &&& x.pattern_type == AclPatternType::Literal
                    &&& x.principal@ == or_empty(principal)
                    &&& x.host@ == or_empty(host)
                    &&& x.operation == AclOperation::of(operation)
                    &&& x.permission_type == AclPermissionType::of(permission_type)
                }
            }
        }),
{
    let w0 = Writer::at(Seq::empty());
    let w1 = w0.i16(error_code);
    let w2 = w1.nullable_string(error_message, f.flexible);
    let w3 = w2.i8(resource_type);
    let w4 = w3.nullable_string(resource_name, f.flexible);
    let w5 = w4.nullable_string(principal, f.flexible);
    let w6 = w5.nullable_string(host, f.flexible);
    let w7 = w6.i8(operation);
    let w8 = w7.i8(permission_type);
    if !w8.failed() {
        let total = w8.bytes + rest;
        assert(total.take(w8.bytes.len() as int) =~= w8.bytes);
        assert(total.skip(w8.bytes.len() as int) =~= rest);
        law_i8_round_trip(w7, permission_type, total);
        law_i8_round_trip(w6, operation, total);
        law_nullable_string_round_trip(w5, host, f.flexible, total);
        law_nullable_string_round_trip(w4, principal, f.flexible, total);
        law_nullable_string_round_trip(w3, resource_name, f.flexible, total);
        law_i8_round_trip(w2, resource_type, total);
        law_nullable_string_round_trip(w1, error_message, f.flexible, total);
        law_i16_round_trip(w0, error_code, total);
        assert(total.skip(0) =~= total);
    }
}

/// How a [`DeleteAclsFilterResult`] is laid out.
#[verifier::rlimit(60)]
pub proof fn law_delete_acls_filter_result_layout(
    x: DeleteAclsFilterResult,
    f: Format,
    error_code: i16,
    error_message: Option<Seq<char>>,
    matching_acls: Seq<DeleteAclsMatchingAclView>,
    matching_acls_bytes: Seq<Seq<u8>>,
    rest: Seq<u8>,
)
    requires
        elements::<DeleteAclsMatchingAcl>(f, matching_acls_bytes, matching_acls),
    ensures
        ({
            let w = Writer::at(Seq::empty());
            let w = w.i16(error_code);
            let w = w.nullable_string(error_message, f.flexible);
            let w = w.array_len(matching_acls_bytes.len(), f.flexible).raw(
                matching_acls_bytes.flatten(),
            );
            let (read, r) = DeleteAclsFilterResult::read(f, Reader::on(w.bytes + rest));
            !w.failed() ==> {
                &&& r == Reader::on(rest)
                &&& x@ == read ==> {
                    &&& x.error_code == ErrorCode::of(error_code)
                    &&& optional_text(x.error_message) == error_message
                    &&& views(x.matching_acls@) == matching_acls
                }
            }
        }),
{
    let w0 = Writer::at(Seq::empty());
    let w1 = w0.i16(error_code);
    let w2 = w1.nullable_string(error_message, f.flexible);
    let w3 = w2.array_len(matching_acls_bytes.len(), f.flexible).raw(matching_acls_bytes.flatten());
    if !w3.failed() {
        let total = w3.bytes + rest;
        assert(total.take(w3.bytes.len() as int) =~= w3.bytes);
        assert(total.skip(w3.bytes.len() as int) =~= rest);
        lemma_array_read::<DeleteAclsMatchingAcl>(w2, f, matching_acls_bytes, matching_acls, total);
        law_nullable_string_round_trip(w1, error_message, f.flexible, total);
        law_i16_round_trip(w0, error_code, total);
        assert(total.skip(0) =~= total);
    }
}

/// How a [`DeleteAclsResponse`] is laid out in each version.
#[verifier::rlimit(60)]
pub proof fn law_delete_acls_response_layout(
    x: DeleteAclsResponse,
    version: i16,
    throttle_time_ms: i32,
    filter_results: Seq<DeleteAclsFilterResultView>,
    filter_results_bytes: Seq<Seq<u8>>,
    rest: Seq<u8>,
)
    requires
        elements::<DeleteAclsFilterResult>(
            DeleteAclsResponse::response_format(version),
            filter_results_bytes,
            filter_results,
        ),
    ensures
        DeleteAclsResponse::response_name() == "DeleteAclsResponse",
        DeleteAclsResponse::decodes(version) <==> (0 <= version <= 1),
        (0 <= version <= 1) ==> ({
            let f = DeleteAclsResponse::response_format(version);
            &&& f.flexible <==> false
        }),
        (0 <= version <= 1) ==> ({
            let w = Writer::at(Seq::empty());
            let w = w.i32(throttle_time_ms);
            let w = w.array_len(filter_results_bytes.len(), false).raw(
                filter_results_bytes.flatten(),
            );
            let (read, r) = DeleteAclsResponse::read_versioned(version, Reader::on(w.bytes + rest));
            !w.failed() ==> {
                &&& r == Reader::on(rest)
                &&& x@ == read ==> {
                    &&& x.throttle_time_ms == throttle_time_ms
                    &&& views(x.filter_results@) == filter_results
                }
            }
        }),
{
    if 0 <= version <= 1 {
        let f = DeleteAclsResponse::response_format(version);
        let w0 = Writer::at(Seq::empty());
        let w1 = w0.i32(throttle_time_ms);
        let w2 = w1.array_len(filter_results_bytes.len(), false).raw(
            filter_results_bytes.flatten(),
        );
        if !w2.failed() {
            let total = w2.bytes + rest;
            assert(total.take(w2.bytes.len() as int) =~= w2.bytes);
            assert(total.skip(w2.bytes.len() as int) =~= rest);
            lemma_array_read::<DeleteAclsFilterResult>(
                w1,
                f,
                filter_results_bytes,
                filter_results,
                total,
            );
            law_i32_round_trip(w0, throttle_time_ms, total);
            assert(total.skip(0) =~= total);
        }
    }
}

/// How a [`SaslHandshakeResponse`] is laid out in each version. Mechanisms that are
/// null are left out.
pub proof fn law_sasl_handshake_response_layout(
    x: SaslHandshakeResponse,
    version: i16,
    error_code: i16,
    mechanisms: Seq<KafkaString>,
    rest: Seq<u8>,
)
    ensures
        SaslHandshakeResponse::response_name() == "SaslHandshakeResponse",
        SaslHandshakeResponse::decodes(version) <==> (0 <= version <= 1),
        (0 <= version <= 1) ==> !SaslHandshakeResponse::response_format(version).flexible,
        (0 <= version <= 1) ==> ({
            let w = Writer::at(Seq::empty());
            let w = w.i16(error_code);
            let w = w.array(mechanisms, Format::plain(0));
            let (read, r) = SaslHandshakeResponse::read_versioned(
                version,
                Reader::on(w.bytes + rest),
            );
            !w.failed() ==> {
                &&& r == Reader::on(rest)
                &&& x@ == read ==> {
                    &&& x.error_code == ErrorCode::of(error_code)
                    &&& views(x.enabled_mechanisms@) == views(mechanisms).filter(
                        |s: Option<Seq<char>>| s is Some,
                    ).map_values(|s: Option<Seq<char>>| s->0)
                }
            }
        }),
{
    if 0 <= version <= 1 {
        let f = SaslHandshakeResponse::response_format(version);
        let w0 = Writer::at(Seq::empty());
        let w1 = w0.i16(error_code);
        let w2 = w1.array(mechanisms, Format::plain(0));
        if !w2.failed() {
            let total = w2.bytes + rest;
            assert(total.take(w2.bytes.len() as int) =~= w2.bytes);
            assert(total.skip(w2.bytes.len() as int) =~= rest);
            law_array_round_trip(w1, mechanisms, Format::plain(0), total);
            law_i16_round_trip(w0, error_code, total);
            assert(total.skip(0) =~= total);
            lemma_present(views(mechanisms));
        }
    }
}

/// What is left of texts without those that are null.
proof fn lemma_present(texts: Seq<Option<Seq<char>>>)
    ensures
        present(texts) == texts.filter(|s: Option<Seq<char>>| s is Some).map_values(
            |s: Option<Seq<char>>| s->0,
        ),
    decreases texts.len(),
{
    reveal(Seq::filter);
    if texts.len() > 0 {
        lemma_present(texts.drop_last());
        let kept = texts.drop_last().filter(|s: Option<Seq<char>>| s is Some);
        assert(texts.last() is Some ==> kept.push(texts.last()).map_values(
            |s: Option<Seq<char>>| s->0,
        ) =~= kept.map_values(|s: Option<Seq<char>>| s->0).push(texts.last()->0));
    }
    assert(present(texts) =~= texts.filter(|s: Option<Seq<char>>| s is Some).map_values(
        |s: Option<Seq<char>>| s->0,
    ));
}

} // verus!
