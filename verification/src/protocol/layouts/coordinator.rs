//! Layouts of what [`crate::protocol::messages::coordinator`] holds.

use crate::buffer::Octets;
use crate::error::ErrorCode;
use crate::protocol::layouts::{
    elements, is_tags, lemma_elements_read, lemma_tags_read, lemma_text_written, text_fits,
};
use crate::protocol::messages::coordinator::{
    FindCoordinatorRequest, FindCoordinatorResponse, OtherCoordinator,
};
use crate::protocol::messages::{VersionedDecode, VersionedEncode};
use crate::protocol::round_trip::{
    begins, behind, law_array_len_round_trip, law_i16_round_trip, law_i32_round_trip,
    law_i8_round_trip, law_nullable_string_round_trip, law_raw_round_trip, law_varint_round_trip,
};
use crate::protocol::wire::{optional_text, Format, Reader, WireDecode, WireEncode, Writer};
use vstd::prelude::*;

verus! {

/// How a [`FindCoordinatorRequest`] is laid out in each version.
pub proof fn law_find_coordinator_request_layout(
    x: FindCoordinatorRequest,
    version: i16,
    w: Writer,
    total: Seq<u8>,
)
    requires
        !w.failed(),
    ensures
        FindCoordinatorRequest::request_name() == "FindCoordinatorRequest",
        FindCoordinatorRequest::encodes(version) <==> (1 <= version <= 6),
        (1 <= version <= 6) ==> ({
            let f = FindCoordinatorRequest::request_format(version);
            &&& f.flexible <==> version >= 3
        }),
        (1 <= version <= 6) ==> ({
            &&& version >= 4 ==> text_fits(x.key@, version >= 3)
            &&& version < 4 ==> text_fits(x.key@, version >= 3)
        }) ==> !x.written_versioned(version, w).failed(),
        (1 <= version <= 6) ==> begins(total, x.written_versioned(version, w)) ==> ({
            let r = behind(total, w);
            let (key_type, r) = if version >= 4 {
                let (v, r) = r.i8();
                (Some(v), r)
            } else {
                (None, r)
            };
            let (varint, r) = if version >= 4 {
                let (v, r) = r.varint();
                (Some(v), r)
            } else {
                (None, r)
            };
            let (key, r) = if version >= 4 {
                let (v, r) = r.nullable_string(version >= 3);
                (Some(v), r)
            } else {
                (None, r)
            };
            let (key_2, r) = if version < 4 {
                let (v, r) = r.nullable_string(version >= 3);
                (Some(v), r)
            } else {
                (None, r)
            };
            let (key_type_2, r) = if version < 4 {
                let (v, r) = r.i8();
                (Some(v), r)
            } else {
                (None, r)
            };
            let tags = r;
            let r = r.tags(version >= 3);
            &&& key_type == (if version >= 4 {
                Some(x.key_type)
            } else {
                None
            })
            &&& varint == (if version >= 4 {
                Some(2u32)
            } else {
                None
            })
            &&& key == (if version >= 4 {
                Some(Some(x.key@))
            } else {
                None
            })
            &&& key_2 == (if version < 4 {
                Some(Some(x.key@))
            } else {
                None
            })
            &&& key_type_2 == (if version < 4 {
                Some(x.key_type)
            } else {
                None
            })
            &&& version >= 3 ==> tags.tagged_fields().0.len() == 0
            &&& r == behind(total, x.written_versioned(version, w))
        }),
{
    if 1 <= version <= 6 {
        let f = FindCoordinatorRequest::request_format(version);
        let w0 = w;
        let w1 = if version >= 4 {
            w0.i8(x.key_type)
        } else {
            w0
        };
        let w2 = if version >= 4 {
            w1.varint(2)
        } else {
            w1
        };
        let w3 = if version >= 4 {
            w2.string(x.key@, version >= 3)
        } else {
            w2
        };
        let w4 = if version < 4 {
            w3.string(x.key@, version >= 3)
        } else {
            w3
        };
        let w5 = if version < 4 {
            w4.i8(x.key_type)
        } else {
            w4
        };
        let w6 = w5.tags(version >= 3);
        lemma_text_written(w2, Some(x.key@), version >= 3);
        lemma_text_written(w3, Some(x.key@), version >= 3);
        if begins(total, w6) {
            if version >= 3 {
                law_varint_round_trip(w5, 0, total);
            }
            if version < 4 {
                law_i8_round_trip(w4, x.key_type, total);
            }
            if version < 4 {
                law_nullable_string_round_trip(w3, Some(x.key@), version >= 3, total);
            }
            if version >= 4 {
                law_nullable_string_round_trip(w2, Some(x.key@), version >= 3, total);
            }
            if version >= 4 {
                law_varint_round_trip(w1, 2, total);
            }
            if version >= 4 {
                law_i8_round_trip(w0, x.key_type, total);
            }
        }
        assert(x.written_versioned(version, w) == w6);
    }
}

/// How a coordinator behind the first one is laid out, which is passed over.
pub proof fn law_other_coordinator_layout(
    f: Format,
    key: Option<Seq<char>>,
    node_id: i32,
    host: Option<Seq<char>>,
    port: i32,
    error_code: i16,
    error_message: Option<Seq<char>>,
    tags: Seq<u8>,
    rest: Seq<u8>,
)
    requires
        is_tags(tags),
    ensures
        ({
            let w = Writer::at(Seq::empty());
            let w = w.nullable_string(key, f.flexible);
            let w = w.i32(node_id);
            let w = w.nullable_string(host, f.flexible);
            let w = w.i32(port);
            let w = w.i16(error_code);
            let w = w.nullable_string(error_message, f.flexible);
            let w = if f.flexible {
                w.raw(tags)
            } else {
                w
            };
            !w.failed() ==> OtherCoordinator::read(f, Reader::on(w.bytes + rest)).1 == Reader::on(
                rest,
            )
        }),
{
    let w0 = Writer::at(Seq::empty());
    let w1 = w0.nullable_string(key, f.flexible);
    let w2 = w1.i32(node_id);
    let w3 = w2.nullable_string(host, f.flexible);
    let w4 = w3.i32(port);
    let w5 = w4.i16(error_code);
    let w6 = w5.nullable_string(error_message, f.flexible);
    let w7 = if f.flexible {
        w6.raw(tags)
    } else {
        w6
    };
    if !w7.failed() {
        let total = w7.bytes + rest;
        assert(total.take(w7.bytes.len() as int) =~= w7.bytes);
        assert(total.skip(w7.bytes.len() as int) =~= rest);
        if f.flexible {
            law_raw_round_trip(w6, tags, total);
            lemma_tags_read(tags, behind(total, w7).rest);
        }
        law_nullable_string_round_trip(w5, error_message, f.flexible, total);
        law_i16_round_trip(w4, error_code, total);
        law_i32_round_trip(w3, port, total);
        law_nullable_string_round_trip(w2, host, f.flexible, total);
        law_i32_round_trip(w1, node_id, total);
        law_nullable_string_round_trip(w0, key, f.flexible, total);
        assert(total.skip(0) =~= total);
    }
}

/// How a [`FindCoordinatorResponse`] is laid out up to version 3.
pub proof fn law_find_coordinator_response_layout(
    x: FindCoordinatorResponse,
    version: i16,
    throttle_time_ms: i32,
    error_code: i16,
    error_message: Option<Seq<char>>,
    node_id: i32,
    host: Seq<char>,
    port: i32,
    tags: Seq<u8>,
    rest: Seq<u8>,
)
    requires
        is_tags(tags),
    ensures
        FindCoordinatorResponse::response_name() == "FindCoordinatorResponse",
        FindCoordinatorResponse::decodes(version) <==> (1 <= version <= 6),
        (1 <= version <= 6) ==> (FindCoordinatorResponse::response_format(version).flexible
            <==> version >= 3),
        (1 <= version <= 3) ==> ({
            let w = Writer::at(Seq::empty());
            let w = w.i32(throttle_time_ms);
            let w = w.i16(error_code);
            let w = w.nullable_string(error_message, version >= 3);
            let w = w.i32(node_id);
            let w = w.string(host, version >= 3);
            let w = w.i32(port);
            let w = if version >= 3 {
                w.raw(tags)
            } else {
                w
            };
            let (read, r) = FindCoordinatorResponse::read_versioned(
                version,
                Reader::on(w.bytes + rest),
            );
            !w.failed() ==> {
                &&& r == Reader::on(rest)
                &&& x@ == read ==> {
                    &&& x.throttle_time_ms == throttle_time_ms
                    &&& x.error_code == ErrorCode::of(error_code)
                    &&& optional_text(x.error_message) == error_message
                    &&& x.node_id == node_id
                    &&& x.host@ == host
                    &&& x.port == port
                }
            }
        }),
{
    if 1 <= version <= 3 {
        let w0 = Writer::at(Seq::empty());
        let w1 = w0.i32(throttle_time_ms);
        let w2 = w1.i16(error_code);
        let w3 = w2.nullable_string(error_message, version >= 3);
        let w4 = w3.i32(node_id);
        let w5 = w4.string(host, version >= 3);
        let w6 = w5.i32(port);
        let w7 = if version >= 3 {
            w6.raw(tags)
        } else {
            w6
        };
        if !w7.failed() {
            let total = w7.bytes + rest;
            assert(total.take(w7.bytes.len() as int) =~= w7.bytes);
            assert(total.skip(w7.bytes.len() as int) =~= rest);
            if version >= 3 {
                law_raw_round_trip(w6, tags, total);
                lemma_tags_read(tags, behind(total, w7).rest);
            }
            law_i32_round_trip(w5, port, total);
            law_nullable_string_round_trip(w4, Some(host), version >= 3, total);
            law_i32_round_trip(w3, node_id, total);
            law_nullable_string_round_trip(w2, error_message, version >= 3, total);
            law_i16_round_trip(w1, error_code, total);
            law_i32_round_trip(w0, throttle_time_ms, total);
            assert(total.skip(0) =~= total);
        }
    }
}

/// How a [`FindCoordinatorResponse`] is laid out from version 4 on: the first of the
/// coordinators is the one that is returned.
#[verifier::rlimit(60)]
pub proof fn law_coordinator_batch_layout(
    x: FindCoordinatorResponse,
    version: i16,
    throttle_time_ms: i32,
    key: Option<Seq<char>>,
    node_id: i32,
    host: Seq<char>,
    port: i32,
    error_code: i16,
    error_message: Option<Seq<char>>,
    first_tags: Seq<u8>,
    others: Seq<()>,
    others_bytes: Seq<Seq<u8>>,
    tags: Seq<u8>,
    rest: Seq<u8>,
)
    requires
        4 <= version <= 6,
        elements::<OtherCoordinator>(
            FindCoordinatorResponse::response_format(version),
            others_bytes,
            others,
        ),
        is_tags(first_tags),
        is_tags(tags),
    ensures
        ({
            let w = Writer::at(Seq::empty());
            let w = w.i32(throttle_time_ms);
            let w = w.array_len(others_bytes.len() + 1, true);
            let w = w.nullable_string(key, true);
            let w = w.i32(node_id);
            let w = w.string(host, true);
            let w = w.i32(port);
            let w = w.i16(error_code);
            let w = w.nullable_string(error_message, true);
            let w = w.raw(first_tags);
            let w = w.raw(others_bytes.flatten());
            let w = w.raw(tags);
            let (read, r) = FindCoordinatorResponse::read_versioned(
                version,
                Reader::on(w.bytes + rest),
            );
            !w.failed() ==> {
                &&& r == Reader::on(rest)
                &&& x@ == read ==> {
                    &&& x.throttle_time_ms == throttle_time_ms
                    &&& x.error_code == ErrorCode::of(error_code)
                    &&& optional_text(x.error_message) == error_message
                    &&& x.node_id == node_id
                    &&& x.host@ == host
                    &&& x.port == port
                }
            }
        }),
{
    let f = FindCoordinatorResponse::response_format(version);
    let w0 = Writer::at(Seq::empty());
    let w1 = w0.i32(throttle_time_ms);
    let w2 = w1.array_len(others_bytes.len() + 1, true);
    let w3 = w2.nullable_string(key, true);
    let w4 = w3.i32(node_id);
    let w5 = w4.string(host, true);
    let w6 = w5.i32(port);
    let w7 = w6.i16(error_code);
    let w8 = w7.nullable_string(error_message, true);
    let w9 = w8.raw(first_tags);
    let w10 = w9.raw(others_bytes.flatten());
    let w11 = w10.raw(tags);
    if !w11.failed() {
        let total = w11.bytes + rest;
        assert(total.take(w11.bytes.len() as int) =~= w11.bytes);
        assert(total.skip(w11.bytes.len() as int) =~= rest);
        law_raw_round_trip(w10, tags, total);
        lemma_tags_read(tags, behind(total, w11).rest);
        law_raw_round_trip(w9, others_bytes.flatten(), total);
        lemma_elements_read::<OtherCoordinator>(
            f,
            others_bytes,
            others,
            behind(total, w10).rest,
        );
        law_raw_round_trip(w8, first_tags, total);
        lemma_tags_read(first_tags, behind(total, w9).rest);
        law_nullable_string_round_trip(w7, error_message, true, total);
        law_i16_round_trip(w6, error_code, total);
        law_i32_round_trip(w5, port, total);
        law_nullable_string_round_trip(w4, Some(host), true, total);
        law_i32_round_trip(w3, node_id, total);
        law_nullable_string_round_trip(w2, key, true, total);
        law_array_len_round_trip(w1, others_bytes.len() + 1, true, total);
        law_i32_round_trip(w0, throttle_time_ms, total);
        assert(total.skip(0) =~= total);
    }
}

} // verus!
