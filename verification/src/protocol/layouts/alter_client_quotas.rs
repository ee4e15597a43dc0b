//! Layouts of what [`crate::protocol::messages::alter_client_quotas`] holds.

use crate::buffer::{to_signed, Octets};
use crate::error::ErrorCode;
use crate::protocol::layouts::{
    count_fits, elements, is_tags, law_u64_round_trip, lemma_array_read, lemma_array_stands,
    lemma_array_written, lemma_tags_read, lemma_text_written, optional_text_fits, past, stands,
    text_fits, writable,
};
use crate::protocol::messages::alter_client_quotas::{
    AlterClientQuotasRequest, AlterClientQuotasResponse, AlterQuotaEntity, AlterQuotaEntityResult,
    AlterQuotaEntityResultView, AlterQuotaEntry, AlterQuotaEntryResult, AlterQuotaEntryResultView,
    AlterQuotaOp,
};
use crate::protocol::messages::{VersionedDecode, VersionedEncode};
use crate::protocol::round_trip::{
    begins, behind, law_bool_round_trip, law_i16_round_trip, law_i32_round_trip,
    law_nullable_string_round_trip, law_raw_round_trip, law_varint_round_trip,
};
use crate::protocol::wire::{
    null_field, optional_text, views, Format, Reader, WireDecode, WireEncode, Writer,
};
use vstd::prelude::*;

verus! {

/// How a [`AlterQuotaEntity`] is laid out.
pub proof fn law_alter_quota_entity_layout(
    x: AlterQuotaEntity,
    f: Format,
    w: Writer,
    total: Seq<u8>,
)
    requires
        !w.failed(),
    ensures
        ({
            &&& text_fits(x.entity_type@, f.flexible)
            &&& optional_text_fits(optional_text(x.entity_name), f.flexible)
        }) ==> !x.written(f, w).failed(),
        begins(total, x.written(f, w)) ==> ({
            let r = behind(total, w);
            let (entity_type, r) = r.nullable_string(f.flexible);
            let (entity_name, r) = r.nullable_string(f.flexible);
            let tags = r;
            let r = r.tags(f.flexible);
            &&& entity_type == Some(x.entity_type@)
            &&& entity_name == optional_text(x.entity_name)
            &&& f.flexible ==> tags.tagged_fields().0.len() == 0
            &&& r == behind(total, x.written(f, w))
        }),
{
    let w0 = w;
    let w1 = w0.string(x.entity_type@, f.flexible);
    let w2 = w1.nullable_string(optional_text(x.entity_name), f.flexible);
    let w3 = w2.tags(f.flexible);
    lemma_text_written(w0, Some(x.entity_type@), f.flexible);
    lemma_text_written(w1, optional_text(x.entity_name), f.flexible);
    if begins(total, w3) {
        if f.flexible {
            law_varint_round_trip(w2, 0, total);
        }
        law_nullable_string_round_trip(w1, optional_text(x.entity_name), f.flexible, total);
        law_nullable_string_round_trip(w0, Some(x.entity_type@), f.flexible, total);
    }
}

/// How a [`AlterQuotaOp`] is laid out.
pub proof fn law_alter_quota_op_layout(x: AlterQuotaOp, f: Format, w: Writer, total: Seq<u8>)
    requires
        !w.failed(),
    ensures
        (text_fits(x.key@, f.flexible)) ==> !x.written(f, w).failed(),
        begins(total, x.written(f, w)) ==> ({
            let r = behind(total, w);
            let (key, r) = r.nullable_string(f.flexible);
            let (value, r) = r.i64();
            let (remove, r) = r.bool();
            let tags = r;
            let r = r.tags(f.flexible);
            &&& key == Some(x.key@)
            &&& value == to_signed(x.value as int, 0x1_0000_0000_0000_0000) as i64
            &&& remove == x.remove
            &&& f.flexible ==> tags.tagged_fields().0.len() == 0
            &&& r == behind(total, x.written(f, w))
        }),
{
    let w0 = w;
    let w1 = w0.string(x.key@, f.flexible);
    let w2 = w1.u64(x.value);
    let w3 = w2.bool(x.remove);
    let w4 = w3.tags(f.flexible);
    lemma_text_written(w0, Some(x.key@), f.flexible);
    if begins(total, w4) {
        if f.flexible {
            law_varint_round_trip(w3, 0, total);
        }
        law_bool_round_trip(w2, x.remove, total);
        law_u64_round_trip(w1, x.value, total);
        law_nullable_string_round_trip(w0, Some(x.key@), f.flexible, total);
    }
}

/// How a [`AlterQuotaEntry`] is laid out.
pub proof fn law_alter_quota_entry_layout(x: AlterQuotaEntry, f: Format, w: Writer, total: Seq<u8>)
    requires
        !w.failed(),
    ensures
        ({
            &&& count_fits(x.entity@.len(), f.flexible) && writable(x.entity@, f)
            &&& count_fits(x.ops@.len(), f.flexible) && writable(x.ops@, f)
        }) ==> !x.written(f, w).failed(),
        begins(total, x.written(f, w)) ==> ({
            let r = behind(total, w);
            let (entity_count, r) = r.array_len(f.flexible);
            let entity_start = r;
            let r = past(total, r, x.entity@, f);
            let (ops_count, r) = r.array_len(f.flexible);
            let ops_start = r;
            let r = past(total, r, x.ops@, f);
            let tags = r;
            let r = r.tags(f.flexible);
            &&& entity_count == x.entity@.len()
            &&& stands(total, entity_start, x.entity@, f)
            &&& ops_count == x.ops@.len()
            &&& stands(total, ops_start, x.ops@, f)
            &&& f.flexible ==> tags.tagged_fields().0.len() == 0
            &&& r == behind(total, x.written(f, w))
        }),
{
    let w0 = w;
    let w1 = w0.array(x.entity@, f);
    let w2 = w1.array(x.ops@, f);
    let w3 = w2.tags(f.flexible);
    lemma_array_written(w0, x.entity@, f);
    lemma_array_written(w1, x.ops@, f);
    if begins(total, w3) {
        if f.flexible {
            law_varint_round_trip(w2, 0, total);
        }
        lemma_array_stands(w1, x.ops@, f, total);
        lemma_array_stands(w0, x.entity@, f, total);
    }
}

/// How a [`AlterClientQuotasRequest`] is laid out in each version.
pub proof fn law_alter_client_quotas_request_layout(
    x: AlterClientQuotasRequest,
    version: i16,
    w: Writer,
    total: Seq<u8>,
)
    requires
        !w.failed(),
    ensures
        AlterClientQuotasRequest::request_name() == "AlterClientQuotasRequest",
        AlterClientQuotasRequest::encodes(version) <==> (0 <= version <= 1),
        (0 <= version <= 1) ==> ({
            let f = AlterClientQuotasRequest::request_format(version);
            &&& f.flexible <==> version >= 1
        }),
        (0 <= version <= 1) ==> ({
            let f = AlterClientQuotasRequest::request_format(version);
            (count_fits(x.entries@.len(), version >= 1) && writable(x.entries@, f))
        }) ==> !x.written_versioned(version, w).failed(),
        (0 <= version <= 1) ==> begins(total, x.written_versioned(version, w)) ==> ({
            let f = AlterClientQuotasRequest::request_format(version);
            let r = behind(total, w);
            let (entries_count, r) = r.array_len(version >= 1);
            let entries_start = r;
            let r = past(total, r, x.entries@, f);
            let (validate_only, r) = r.bool();
            let tags = r;
            let r = r.tags(version >= 1);
            &&& entries_count == x.entries@.len()
            &&& stands(total, entries_start, x.entries@, f)
            &&& validate_only == x.validate_only
            &&& version >= 1 ==> tags.tagged_fields().0.len() == 0
            &&& r == behind(total, x.written_versioned(version, w))
        }),
{
    if 0 <= version <= 1 {
        let f = AlterClientQuotasRequest::request_format(version);
        let w0 = w;
        let w1 = w0.array(x.entries@, f);
        let w2 = w1.bool(x.validate_only);
        let w3 = w2.tags(version >= 1);
        lemma_array_written(w0, x.entries@, f);
        if begins(total, w3) {
            if version >= 1 {
                law_varint_round_trip(w2, 0, total);
            }
            law_bool_round_trip(w1, x.validate_only, total);
            lemma_array_stands(w0, x.entries@, f, total);
        }
        assert(x.written_versioned(version, w) == w3);
    }
}

/// How a [`AlterQuotaEntityResult`] is laid out.
pub proof fn law_alter_quota_entity_result_layout(
    x: AlterQuotaEntityResult,
    f: Format,
    entity_type: Seq<char>,
    entity_name: Option<Seq<char>>,
    tags: Seq<u8>,
    rest: Seq<u8>,
)
    requires
        is_tags(tags),
    ensures
        ({
            let w = Writer::at(Seq::empty());
            let w = w.string(entity_type, f.flexible);
            let w = w.nullable_string(entity_name, f.flexible);
            let w = if f.flexible {
                w.raw(tags)
            } else {
                w
            };
            let (read, r) = AlterQuotaEntityResult::read(f, Reader::on(w.bytes + rest));
            !w.failed() ==> {
                &&& r == Reader::on(rest)
                &&& x@ == read ==> {
                    &&& x.entity_type@ == entity_type
                    &&& optional_text(x.entity_name) == entity_name
                }
            }
        }),
{
    let w0 = Writer::at(Seq::empty());
    let w1 = w0.string(entity_type, f.flexible);
    let w2 = w1.nullable_string(entity_name, f.flexible);
    let w3 = if f.flexible {
        w2.raw(tags)
    } else {
        w2
    };
    if !w3.failed() {
        let total = w3.bytes + rest;
        assert(total.take(w3.bytes.len() as int) =~= w3.bytes);
        assert(total.skip(w3.bytes.len() as int) =~= rest);
        if f.flexible {
            law_raw_round_trip(w2, tags, total);
            lemma_tags_read(tags, behind(total, w3).rest);
        }
        law_nullable_string_round_trip(w1, entity_name, f.flexible, total);
        law_nullable_string_round_trip(w0, Some(entity_type), f.flexible, total);
        assert(total.skip(0) =~= total);
    }
}

/// A [`AlterQuotaEntityResult`] is refused where a field that it needs is null.
pub proof fn law_alter_quota_entity_result_needs_its_fields(f: Format, start: Reader)
    ensures
        ({
            let r = start;
            let (entity_type, r) = r.nullable_string(f.flexible);
            !r.failed() && entity_type is None
                ==> AlterQuotaEntityResult::read(f, start).1.failure == Some(
                    null_field("entity_type"),
                )
        }),
{
}

/// How a [`AlterQuotaEntryResult`] is laid out.
#[verifier::rlimit(60)]
pub proof fn law_alter_quota_entry_result_layout(
    x: AlterQuotaEntryResult,
    f: Format,
    error_code: i16,
    error_message: Option<Seq<char>>,
    entity: Seq<AlterQuotaEntityResultView>,
    entity_bytes: Seq<Seq<u8>>,
    tags: Seq<u8>,
    rest: Seq<u8>,
)
    requires
        elements::<AlterQuotaEntityResult>(f, entity_bytes, entity),
        is_tags(tags),
    ensures
        ({
            let w = Writer::at(Seq::empty());
            let w = w.i16(error_code);
            let w = w.nullable_string(error_message, f.flexible);
            let w = w.array_len(entity_bytes.len(), f.flexible).raw(entity_bytes.flatten());
            let w = if f.flexible {
                w.raw(tags)
            } else {
                w
            };
            let (read, r) = AlterQuotaEntryResult::read(f, Reader::on(w.bytes + rest));
            !w.failed() ==> {
                &&& r == Reader::on(rest)
                &&& x@ == read ==> {
                    &&& x.error_code == ErrorCode::of(error_code)
                    &&& optional_text(x.error_message) == error_message
                    &&& views(x.entity@) == entity
                }
            }
        }),
{
    let w0 = Writer::at(Seq::empty());
    let w1 = w0.i16(error_code);
    let w2 = w1.nullable_string(error_message, f.flexible);
    let w3 = w2.array_len(entity_bytes.len(), f.flexible).raw(entity_bytes.flatten());
    let w4 = if f.flexible {
        w3.raw(tags)
    } else {
        w3
    };
    if !w4.failed() {
        let total = w4.bytes + rest;
        assert(total.take(w4.bytes.len() as int) =~= w4.bytes);
        assert(total.skip(w4.bytes.len() as int) =~= rest);
        if f.flexible {
            law_raw_round_trip(w3, tags, total);
            lemma_tags_read(tags, behind(total, w4).rest);
        }
        lemma_array_read::<AlterQuotaEntityResult>(w2, f, entity_bytes, entity, total);
        law_nullable_string_round_trip(w1, error_message, f.flexible, total);
        law_i16_round_trip(w0, error_code, total);
        assert(total.skip(0) =~= total);
    }
}

/// How a [`AlterClientQuotasResponse`] is laid out in each version.
#[verifier::rlimit(60)]
pub proof fn law_alter_client_quotas_response_layout(
    x: AlterClientQuotasResponse,
    version: i16,
    throttle_time_ms: i32,
    entries: Seq<AlterQuotaEntryResultView>,
    entries_bytes: Seq<Seq<u8>>,
    tags: Seq<u8>,
    rest: Seq<u8>,
)
    requires
        elements::<AlterQuotaEntryResult>(
            AlterClientQuotasResponse::response_format(version),
            entries_bytes,
            entries,
        ),
        is_tags(tags),
    ensures
        AlterClientQuotasResponse::response_name() == "AlterClientQuotasResponse",
        AlterClientQuotasResponse::decodes(version) <==> (0 <= version <= 1),
        (0 <= version <= 1) ==> ({
            let f = AlterClientQuotasResponse::response_format(version);
            &&& f.flexible <==> version >= 1
        }),
        (0 <= version <= 1) ==> ({
            let w = Writer::at(Seq::empty());
            let w = w.i32(throttle_time_ms);
            let w = w.array_len(entries_bytes.len(), version >= 1).raw(entries_bytes.flatten());
            let w = if version >= 1 {
                w.raw(tags)
            } else {
                w
            };
            let (read, r) = AlterClientQuotasResponse::read_versioned(
                version,
                Reader::on(w.bytes + rest),
            );
            !w.failed() ==> {
                &&& r == Reader::on(rest)
                &&& x@ == read ==> {
                    &&& x.throttle_time_ms == throttle_time_ms
                    &&& views(x.entries@) == entries
                }
            }
        }),
{
    if 0 <= version <= 1 {
        let f = AlterClientQuotasResponse::response_format(version);
        let w0 = Writer::at(Seq::empty());
        let w1 = w0.i32(throttle_time_ms);
        let w2 = w1.array_len(entries_bytes.len(), version >= 1).raw(entries_bytes.flatten());
        let w3 = if version >= 1 {
            w2.raw(tags)
        } else {
            w2
        };
        if !w3.failed() {
            let total = w3.bytes + rest;
            assert(total.take(w3.bytes.len() as int) =~= w3.bytes);
            assert(total.skip(w3.bytes.len() as int) =~= rest);
            if version >= 1 {
                law_raw_round_trip(w2, tags, total);
                lemma_tags_read(tags, behind(total, w3).rest);
            }
            lemma_array_read::<AlterQuotaEntryResult>(w1, f, entries_bytes, entries, total);
            law_i32_round_trip(w0, throttle_time_ms, total);
            assert(total.skip(0) =~= total);
        }
    }
}

} // verus!
