//! Layouts of the headers.

use crate::protocol::api::ApiKey;
use crate::protocol::header::{RequestHeader, ResponseHeader};
use crate::protocol::layouts::{is_tags, lemma_tags_read, lemma_text_written, optional_text_fits};
use crate::protocol::primitives::KafkaString;
use crate::protocol::round_trip::{
    begins, behind, law_i16_round_trip, law_i32_round_trip, law_nullable_string_round_trip,
    law_raw_round_trip, law_varint_round_trip,
};
use crate::protocol::wire::{optional_text, Reader, WireDecode, WireEncode, Writer};
use vstd::prelude::*;

verus! {

/// The characters of a string that may be missing.
pub open spec fn text_in(s: Option<KafkaString>) -> Option<Seq<char>> {
    match s {
        Some(s) => optional_text(s.0),
        None => None,
    }
}

/// How a [`RequestHeader`] is laid out: the client ID always has a two-byte length, and
/// from the flexible version of the API on a section of tagged fields ends the header.
pub proof fn law_request_header_layout(x: RequestHeader, w: Writer, total: Seq<u8>)
    requires
        !w.failed(),
    ensures
        optional_text_fits(text_in(x.client_id), false) ==> !x.written_header(w).failed(),
        begins(total, x.written_header(w)) ==> ({
            let r = behind(total, w);
            let (api_key, r) = r.i16();
            let (api_version, r) = r.i16();
            let (correlation_id, r) = r.i32();
            let (client_id, r) = r.nullable_string(false);
            let tags = r;
            let r = r.tags(x.api_version >= x.api_key.flexible_from());
            &&& api_key == x.api_key.number()
            &&& api_version == x.api_version
            &&& correlation_id == x.correlation_id
            &&& client_id == text_in(x.client_id)
            &&& x.api_version >= x.api_key.flexible_from() ==> tags.tagged_fields().0.len() == 0
            &&& r == behind(total, x.written_header(w))
        }),
{
    let flexible = x.api_version >= x.api_key.flexible_from();
    let w1 = w.i16(x.api_key.number());
    let w2 = w1.i16(x.api_version);
    let w3 = w2.i32(x.correlation_id);
    let w4 = w3.nullable_string(text_in(x.client_id), false);
    let w5 = w4.tags(flexible);
    assert(x.written_header(w) == w5);
    lemma_text_written(w3, text_in(x.client_id), false);
    if begins(total, w5) {
        if flexible {
            law_varint_round_trip(w4, 0, total);
        }
        law_nullable_string_round_trip(w3, text_in(x.client_id), false, total);
        law_i32_round_trip(w2, x.correlation_id, total);
        law_i16_round_trip(w1, x.api_version, total);
        law_i16_round_trip(w, x.api_key.number(), total);
    }
}

/// How a [`ResponseHeader`] is laid out: tagged fields end it from the flexible version
/// of the API on, but never in the answer to ApiVersions.
pub proof fn law_response_header_layout(
    x: ResponseHeader,
    api_key: ApiKey,
    api_version: i16,
    correlation_id: i32,
    tags: Seq<u8>,
    rest: Seq<u8>,
)
    requires
        is_tags(tags),
    ensures
        ({
            let w = Writer::at(Seq::empty());
            let w = w.i32(correlation_id);
            let w = if api_key != ApiKey::ApiVersions && api_version >= api_key.flexible_from() {
                w.raw(tags)
            } else {
                w
            };
            let (read, r) = ResponseHeader::read_header(
                Reader::on(w.bytes + rest),
                api_key,
                api_version,
            );
            &&& r == Reader::on(rest)
            &&& x@ == read ==> x.correlation_id == correlation_id
        }),
{
    let flexible = api_key != ApiKey::ApiVersions && api_version >= api_key.flexible_from();
    let w0 = Writer::at(Seq::empty());
    let w1 = w0.i32(correlation_id);
    let w2 = if flexible {
        w1.raw(tags)
    } else {
        w1
    };
    let total = w2.bytes + rest;
    assert(total.take(w2.bytes.len() as int) =~= w2.bytes);
    assert(total.skip(w2.bytes.len() as int) =~= rest);
    if flexible {
        law_raw_round_trip(w1, tags, total);
        lemma_tags_read(tags, behind(total, w2).rest);
    }
    law_i32_round_trip(w0, correlation_id, total);
    assert(total.skip(0) =~= total);
}

} // verus!
