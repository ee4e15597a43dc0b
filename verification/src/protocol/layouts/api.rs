//! Layouts of the ApiVersions messages.

use crate::buffer::Octets;
use crate::protocol::api::{
    features_in, first_field_zero, ApiKey, ApiVersionRange, ApiVersionsRequest, ApiVersionsResponse,
    MAX_SUPPORTED_FEATURES, SupportedFeature, SupportedFeatureView,
};
use crate::protocol::layouts::header::text_in;
use crate::protocol::layouts::{
    elements, is_tags, lemma_elements_read, lemma_optional_array_read, lemma_tags_read,
    lemma_text_written, optional_text_fits, past, stands, text_fits,
};
use crate::protocol::primitives::TaggedFields;
use crate::protocol::round_trip::{
    begins, behind, law_i16_round_trip, law_i32_round_trip, law_nullable_string_round_trip,
    law_raw_round_trip, law_varint_round_trip, RoundTrip,
};
use crate::protocol::wire::{
    optional_text, views, Format, Reader, TaggedField, WireDecode, WireEncode, Writer,
};
use vstd::prelude::*;

verus! {

/// How an [`ApiVersionRange`] is written.
pub proof fn law_api_version_range_bytes(
    x: ApiVersionRange,
    f: Format,
    w: Writer,
    total: Seq<u8>,
)
    requires
        !w.failed(),
    ensures
        !x.written(f, w).failed(),
        begins(total, x.written(f, w)) ==> ({
            let r = behind(total, w);
            let (api_key, r) = r.i16();
            let (min_version, r) = r.i16();
            let (max_version, r) = r.i16();
            let tags = r;
            let r = r.tags(f.flexible);
            &&& api_key == x.api_key.number()
            &&& min_version == x.min_version
            &&& max_version == x.max_version
            &&& f.flexible ==> tags.tagged_fields().0.len() == 0
            &&& r == behind(total, x.written(f, w))
        }),
{
    let w1 = w.i16(x.api_key.number());
    let w2 = w1.i16(x.min_version);
    let w3 = w2.i16(x.max_version);
    let w4 = w3.tags(f.flexible);
    if begins(total, w4) {
        if f.flexible {
            law_varint_round_trip(w3, 0, total);
        }
        law_i16_round_trip(w2, x.max_version, total);
        law_i16_round_trip(w1, x.min_version, total);
        law_i16_round_trip(w, x.api_key.number(), total);
    }
}

/// How an [`ApiVersionRange`] is laid out.
pub proof fn law_api_version_range_layout(
    x: ApiVersionRange,
    f: Format,
    api_key: i16,
    min_version: i16,
    max_version: i16,
    tags: Seq<u8>,
    rest: Seq<u8>,
)
    requires
        is_tags(tags),
    ensures
        ({
            let w = Writer::at(Seq::empty());
            let w = w.i16(api_key);
            let w = w.i16(min_version);
            let w = w.i16(max_version);
            let w = if f.flexible {
                w.raw(tags)
            } else {
                w
            };
            let (read, r) = ApiVersionRange::read(f, Reader::on(w.bytes + rest));
            &&& r == Reader::on(rest)
            &&& x@ == read ==> {
                &&& x.api_key == ApiKey::of(api_key)
                &&& x.min_version == min_version
                &&& x.max_version == max_version
            }
        }),
{
    let w0 = Writer::at(Seq::empty());
    let w1 = w0.i16(api_key);
    let w2 = w1.i16(min_version);
    let w3 = w2.i16(max_version);
    let w4 = if f.flexible {
        w3.raw(tags)
    } else {
        w3
    };
    let total = w4.bytes + rest;
    assert(total.take(w4.bytes.len() as int) =~= w4.bytes);
    assert(total.skip(w4.bytes.len() as int) =~= rest);
    if f.flexible {
        law_raw_round_trip(w3, tags, total);
        lemma_tags_read(tags, behind(total, w4).rest);
    }
    law_i16_round_trip(w2, max_version, total);
    law_i16_round_trip(w1, min_version, total);
    law_i16_round_trip(w0, api_key, total);
    assert(total.skip(0) =~= total);
}

/// A version lies in a range from the least to the greatest, both included.
pub proof fn law_range_covers(x: ApiVersionRange, version: i16)
    ensures
        x.covers(version) <==> x.min_version <= version && version <= x.max_version,
{
}

/// How a [`SupportedFeature`] is laid out.
pub proof fn law_supported_feature_layout(
    x: SupportedFeature,
    f: Format,
    name: Seq<char>,
    min_version: i16,
    max_version: i16,
    tags: Seq<u8>,
    rest: Seq<u8>,
)
    requires
        is_tags(tags),
        text_fits(name, f.flexible),
    ensures
        ({
            let w = Writer::at(Seq::empty());
            let w = w.string(name, f.flexible);
            let w = w.i16(min_version);
            let w = w.i16(max_version);
            let w = if f.flexible {
                w.raw(tags)
            } else {
                w
            };
            let (read, r) = SupportedFeature::read(f, Reader::on(w.bytes + rest));
            &&& r == Reader::on(rest)
            &&& x@ == read ==> {
                &&& x.name@ == name
                &&& x.min_version == min_version
                &&& x.max_version == max_version
            }
        }),
{
    let w0 = Writer::at(Seq::empty());
    let w1 = w0.string(name, f.flexible);
    let w2 = w1.i16(min_version);
    let w3 = w2.i16(max_version);
    let w4 = if f.flexible {
        w3.raw(tags)
    } else {
        w3
    };
    lemma_text_written(w0, Some(name), f.flexible);
    let total = w4.bytes + rest;
    assert(total.take(w4.bytes.len() as int) =~= w4.bytes);
    assert(total.skip(w4.bytes.len() as int) =~= rest);
    if f.flexible {
        law_raw_round_trip(w3, tags, total);
        lemma_tags_read(tags, behind(total, w4).rest);
    }
    law_i16_round_trip(w2, max_version, total);
    law_i16_round_trip(w1, min_version, total);
    law_nullable_string_round_trip(w0, Some(name), f.flexible, total);
    assert(total.skip(0) =~= total);
}

/// How an [`ApiVersionsRequest`] is laid out from version 3 on: name and version of the
/// client, from version 5 on the cluster and the node, and no tagged fields.
pub proof fn law_api_versions_request_layout(
    x: ApiVersionsRequest,
    f: Format,
    w: Writer,
    total: Seq<u8>,
)
    requires
        !w.failed(),
    ensures
        ({
            &&& optional_text_fits(text_in(x.client_software_name), true)
            &&& optional_text_fits(text_in(x.client_software_version), true)
            &&& f.version >= 5 ==> optional_text_fits(optional_text(x.cluster_id), true)
        }) ==> !x.written(f, w).failed(),
        begins(total, x.written(f, w)) ==> ({
            let r = behind(total, w);
            let (name, r) = r.nullable_string(true);
            let (version, r) = r.nullable_string(true);
            let (cluster_id, r) = if f.version >= 5 {
                let (v, r) = r.nullable_string(true);
                (Some(v), r)
            } else {
                (None, r)
            };
            let (node_id, r) = if f.version >= 5 {
                let (v, r) = r.i32();
                (Some(v), r)
            } else {
                (None, r)
            };
            let tags = r;
            let r = r.tags(true);
            &&& name == text_in(x.client_software_name)
            &&& version == text_in(x.client_software_version)
            &&& f.version >= 5 ==> cluster_id == Some(optional_text(x.cluster_id))
            &&& f.version >= 5 ==> node_id == Some(x.node_id)
            &&& tags.tagged_fields().0.len() == 0
            &&& r == behind(total, x.written(f, w))
        }),
{
    let w1 = w.nullable_string(text_in(x.client_software_name), true);
    let w2 = w1.nullable_string(text_in(x.client_software_version), true);
    let w3 = if f.version >= 5 {
        w2.nullable_string(optional_text(x.cluster_id), true)
    } else {
        w2
    };
    let w4 = if f.version >= 5 {
        w3.i32(x.node_id)
    } else {
        w3
    };
    let w5 = w4.tags(true);
    assert(x.written(f, w) == w5);
    lemma_text_written(w, text_in(x.client_software_name), true);
    lemma_text_written(w1, text_in(x.client_software_version), true);
    lemma_text_written(w2, optional_text(x.cluster_id), true);
    if begins(total, w5) {
        law_varint_round_trip(w4, 0, total);
        if f.version >= 5 {
            law_i32_round_trip(w3, x.node_id, total);
            law_nullable_string_round_trip(w2, optional_text(x.cluster_id), true, total);
        }
        law_nullable_string_round_trip(w1, text_in(x.client_software_version), true, total);
        law_nullable_string_round_trip(w, text_in(x.client_software_name), true, total);
    }
}

/// The bytes of a list of features, as the tagged field holds them, give the features;
/// more of them than the limit, or a byte behind them, is refused.
pub proof fn law_features_layout(
    features: Seq<SupportedFeatureView>,
    pieces: Seq<Seq<u8>>,
    trailing: Seq<u8>,
)
    requires
        elements::<SupportedFeature>(Format::flexible(3), pieces, features),
        pieces.len() < u32::MAX,
    ensures
        ({
            let w = Writer::at(Seq::empty());
            let w = w.varint(pieces.len() + 1).raw(pieces.flatten()).raw(trailing);
            &&& features_in(w.bytes) is Ok <==> features.len() <= 256 && trailing.len() == 0
            &&& features_in(w.bytes) matches Ok(found) ==> found == features
        }),
{
    let n = (pieces.len() + 1) as u32;
    let w0 = Writer::at(Seq::empty());
    let w1 = w0.varint(n as nat);
    let w2 = w1.raw(pieces.flatten());
    let w3 = w2.raw(trailing);
    let total = w3.bytes;
    assert(total.take(w3.bytes.len() as int) =~= w3.bytes);
    law_raw_round_trip(w2, trailing, total);
    law_raw_round_trip(w1, pieces.flatten(), total);
    law_varint_round_trip(w0, n, total);
    lemma_elements_read::<SupportedFeature>(
        Format::flexible(3),
        pieces,
        features,
        behind(total, w2).rest,
    );
    assert(total.skip(0) =~= total);
    assert(behind(total, w3).rest.len() == 0);
    assert(MAX_SUPPORTED_FEATURES == 256);
}

/// No field with tag 0 stands before the first one.
proof fn lemma_first_field(fields: Seq<(u32, Seq<u8>)>, from: nat, i: nat)
    requires
        from <= i <= fields.len(),
        forall|k: int| from <= k < i ==> (#[trigger] fields[k]).0 != 0,
        i < fields.len() ==> fields[i as int].0 == 0,
    ensures
        first_field_zero(fields, from) == (if i < fields.len() {
            Some(fields[i as int].1)
        } else {
            None
        }),
    decreases i - from,
{
    if from < i {
        assert(fields[from as int].0 != 0);
        lemma_first_field(fields, from + 1, i);
    }
}

/// How an [`ApiVersionsResponse`] is laid out. From version 3 on it ends with tagged
/// fields, and the first one with tag 0 holds the supported features.
#[verifier::rlimit(60)]
pub proof fn law_api_versions_response_layout(
    x: ApiVersionsResponse,
    f: Format,
    error_code: i16,
    api_keys: Seq<ApiVersionRange>,
    api_keys_bytes: Option<Seq<Seq<u8>>>,
    throttle_time_ms: i32,
    fields: TaggedFields,
    first: nat,
    rest: Seq<u8>,
)
    requires
        api_keys_bytes matches Some(pieces) ==> elements::<ApiVersionRange>(f, pieces, api_keys),
        first <= fields.0@.len(),
        forall|k: int| 0 <= k < first ==> (#[trigger] fields.0@[k]).tag != 0,
        first < fields.0@.len() ==> fields.0@[first as int].tag == 0,
    ensures
        ({
            let w = Writer::at(Seq::empty());
            let w = w.i16(error_code);
            let w = match api_keys_bytes {
                Some(pieces) => w.array_len(pieces.len(), f.flexible).raw(pieces.flatten()),
                None => w.null_array(f.flexible),
            };
            let w = if f.version >= 1 {
                w.i32(throttle_time_ms)
            } else {
                w
            };
            let w = if f.version >= 3 && !w.failed() {
                fields.written(f, w)
            } else {
                w
            };
            let (read, r) = ApiVersionsResponse::read(f, Reader::on(w.bytes + rest));
            let held = if f.version >= 3 && first < fields.0@.len() {
                features_in(fields.0@[first as int].data@)
            } else {
                Ok(Seq::empty())
            };
            !w.failed() ==> {
                &&& r.rest == rest
                &&& held matches Err(e) ==> r.failure == Some(e)
                &&& held matches Ok(features) ==> {
                    &&& r == Reader::on(rest)
                    &&& x@ == read ==> {
                        &&& x.error_code == error_code
                        &&& views(x.api_keys@) == (if api_keys_bytes is Some {
                            api_keys
                        } else {
                            Seq::empty()
                        })
                        &&& x.throttle_time_ms == (if f.version >= 1 {
                            throttle_time_ms
                        } else {
                            0
                        })
                        &&& views(x.supported_features@) == features
                    }
                }
            }
        }),
{
    let w0 = Writer::at(Seq::empty());
    let w1 = w0.i16(error_code);
    let w2 = match api_keys_bytes {
        Some(pieces) => w1.array_len(pieces.len(), f.flexible).raw(pieces.flatten()),
        None => w1.null_array(f.flexible),
    };
    let w3 = if f.version >= 1 {
        w2.i32(throttle_time_ms)
    } else {
        w2
    };
    let w4 = if f.version >= 3 && !w3.failed() {
        fields.written(f, w3)
    } else {
        w3
    };
    if !w4.failed() {
        let total = w4.bytes + rest;
        assert(total.take(w4.bytes.len() as int) =~= w4.bytes);
        assert(total.skip(w4.bytes.len() as int) =~= rest);
        if f.version >= 3 {
            fields.law_round_trip(f, w3, total);
            let found = views(fields.0@);
            assert forall|k: int| 0 <= k < first implies (#[trigger] found[k]).0 != 0 by {
                assert(fields.0@[k].tag != 0);
            }
            lemma_first_field(found, 0, first);
        }
        if f.version >= 1 {
            law_i32_round_trip(w2, throttle_time_ms, total);
        }
        lemma_optional_array_read::<ApiVersionRange>(w1, f, api_keys_bytes, api_keys, total);
        law_i16_round_trip(w0, error_code, total);
        assert(total.skip(0) =~= total);
    }
}

/// How a [`TaggedField`] is laid out: its tag, its length and its bytes.
pub proof fn law_tagged_field_layout(x: TaggedField, f: Format, w: Writer, total: Seq<u8>)
    requires
        !w.failed(),
    ensures
        x.data@.len() <= u32::MAX ==> !x.written(f, w).failed(),
        begins(total, x.written(f, w)) ==> ({
            let r = behind(total, w);
            let (tag, r) = r.varint();
            let (len, r) = r.varint();
            let (data, r) = r.raw(len as nat);
            &&& tag == x.tag
            &&& len == x.data@.len()
            &&& data == x.data@
            &&& r == behind(total, x.written(f, w))
        }),
{
    if begins(total, x.written(f, w)) {
        let w1 = w.varint(x.tag as nat);
        let w2 = w1.varint(x.data@.len());
        law_raw_round_trip(w2, x.data@, total);
        law_varint_round_trip(w1, x.data@.len() as u32, total);
        law_varint_round_trip(w, x.tag, total);
    }
}

/// How [`TaggedFields`] are laid out: how many there are, and each of them.
pub proof fn law_tagged_fields_layout(x: TaggedFields, f: Format, w: Writer, total: Seq<u8>)
    requires
        !w.failed(),
    ensures
        begins(total, x.written(f, w)) ==> ({
            let r = behind(total, w);
            let (count, r) = r.varint();
            let start = r;
            let r = past(total, r, x.0@, f);
            &&& count == x.0@.len()
            &&& stands(total, start, x.0@, f)
            &&& r == behind(total, x.written(f, w))
        }),
{
    if begins(total, x.written(f, w)) {
        let w1 = w.varint(x.0@.len());
        crate::protocol::layouts::lemma_items_stand(w1, x.0@, f, total);
        law_varint_round_trip(w, x.0@.len() as u32, total);
    }
}

} // verus!
