//! Layouts of what [`crate::protocol::messages::config`] holds.

use crate::buffer::Octets;
use crate::error::ErrorCode;
use crate::protocol::layouts::{
    count_fits, elements, is_tags, law_null_array_round_trip, lemma_array_read, lemma_array_stands,
    lemma_array_written, lemma_tags_read, lemma_text_written, optional_text_fits, past, stands,
    text_fits, writable,
};
use crate::protocol::messages::config::{
    AlterableConfig, ConfigResourceType, ConfigSynonym, ConfigSynonymView, DescribeConfigsEntry,
    DescribeConfigsEntryView, DescribeConfigsRequest, DescribeConfigsResource,
    DescribeConfigsResponse, DescribeConfigsResult, DescribeConfigsResultView,
    IncrementalAlterConfigsRequest, IncrementalAlterConfigsResource,
    IncrementalAlterConfigsResponse, IncrementalAlterConfigsResult,
    IncrementalAlterConfigsResultView,
};
use crate::protocol::messages::{VersionedDecode, VersionedEncode};
use crate::protocol::round_trip::{
    begins, behind, law_bool_round_trip, law_i16_round_trip, law_i32_round_trip, law_i8_round_trip,
    law_nullable_string_round_trip, law_raw_round_trip, law_varint_round_trip,
};
use crate::protocol::wire::{
    null_field, optional_text, views, Format, Reader, WireDecode, WireEncode, Writer,
};
use vstd::prelude::*;

verus! {

/// How a [`DescribeConfigsResource`] is laid out.
pub proof fn law_describe_configs_resource_layout(
    x: DescribeConfigsResource,
    f: Format,
    w: Writer,
    total: Seq<u8>,
)
    requires
        !w.failed(),
    ensures
        ({
            &&& text_fits(x.resource_name@, f.flexible)
            &&& x.config_names matches Some(items) ==> {
                &&& count_fits(items@.len(), f.flexible)
                &&& writable(items@, f)
            }
        }) ==> !x.written(f, w).failed(),
        begins(total, x.written(f, w)) ==> ({
            let r = behind(total, w);
            let (resource_type, r) = r.i8();
            let (resource_name, r) = r.nullable_string(f.flexible);
            let (config_names_count, r) = r.optional_array_len(f.flexible);
            let config_names_start = r;
            let r = match x.config_names {
                Some(items) => past(total, r, items@, f),
                None => r,
            };
            let tags = r;
            let r = r.tags(f.flexible);
            &&& resource_type == x.resource_type.code()
            &&& resource_name == Some(x.resource_name@)
            &&& config_names_count == (match x.config_names {
                Some(items) => Some(items@.len()),
                None => None,
            })
            &&& x.config_names matches Some(items) ==> stands(total, config_names_start, items@, f)
            &&& f.flexible ==> tags.tagged_fields().0.len() == 0
            &&& r == behind(total, x.written(f, w))
        }),
{
    let w0 = w;
    let w1 = w0.i8(x.resource_type.code());
    let w2 = w1.string(x.resource_name@, f.flexible);
    let w3 = w2.optional_array(x.config_names, f);
    let w4 = w3.tags(f.flexible);
    lemma_text_written(w1, Some(x.resource_name@), f.flexible);
    if let Some(items) = x.config_names {
        lemma_array_written(w2, items@, f);
    }
    if begins(total, w4) {
        if f.flexible {
            law_varint_round_trip(w3, 0, total);
        }
        match x.config_names {
            Some(items) => {
                lemma_array_stands(w2, items@, f, total);
            },
            None => {
                law_null_array_round_trip(w2, f.flexible, total);
            },
        }
        law_nullable_string_round_trip(w1, Some(x.resource_name@), f.flexible, total);
        law_i8_round_trip(w0, x.resource_type.code(), total);
    }
}

/// How a [`DescribeConfigsRequest`] is laid out in each version.
pub proof fn law_describe_configs_request_layout(
    x: DescribeConfigsRequest,
    version: i16,
    w: Writer,
    total: Seq<u8>,
)
    requires
        !w.failed(),
    ensures
        DescribeConfigsRequest::request_name() == "DescribeConfigsRequest",
        DescribeConfigsRequest::encodes(version) <==> (0 <= version <= 4),
        (0 <= version <= 4) ==> ({
            let f = DescribeConfigsRequest::request_format(version);
            &&& f.flexible <==> version >= 4
        }),
        (0 <= version <= 4) ==> ({
            let f = DescribeConfigsRequest::request_format(version);
            (count_fits(x.resources@.len(), version >= 4) && writable(x.resources@, f))
        }) ==> !x.written_versioned(version, w).failed(),
        (0 <= version <= 4) ==> begins(total, x.written_versioned(version, w)) ==> ({
            let f = DescribeConfigsRequest::request_format(version);
            let r = behind(total, w);
            let (resources_count, r) = r.array_len(version >= 4);
            let resources_start = r;
            let r = past(total, r, x.resources@, f);
            let (include_synonyms, r) = if version >= 1 {
                let (v, r) = r.bool();
                (Some(v), r)
            } else {
                (None, r)
            };
            let (include_documentation, r) = if version >= 3 {
                let (v, r) = r.bool();
                (Some(v), r)
            } else {
                (None, r)
            };
            let tags = r;
            let r = r.tags(version >= 4);
            &&& resources_count == x.resources@.len()
            &&& stands(total, resources_start, x.resources@, f)
            &&& include_synonyms == (if version >= 1 {
                Some(x.include_synonyms)
            } else {
                None
            })
            &&& include_documentation == (if version >= 3 {
                Some(x.include_documentation)
            } else {
                None
            })
            &&& version >= 4 ==> tags.tagged_fields().0.len() == 0
            &&& r == behind(total, x.written_versioned(version, w))
        }),
{
    if 0 <= version <= 4 {
        let f = DescribeConfigsRequest::request_format(version);
        let w0 = w;
        let w1 = w0.array(x.resources@, f);
        let w2 = if version >= 1 {
            w1.bool(x.include_synonyms)
        } else {
            w1
        };
        let w3 = if version >= 3 {
            w2.bool(x.include_documentation)
        } else {
            w2
        };
        let w4 = w3.tags(version >= 4);
        lemma_array_written(w0, x.resources@, f);
        if begins(total, w4) {
            if version >= 4 {
                law_varint_round_trip(w3, 0, total);
            }
            if version >= 3 {
                law_bool_round_trip(w2, x.include_documentation, total);
            }
            if version >= 1 {
                law_bool_round_trip(w1, x.include_synonyms, total);
            }
            lemma_array_stands(w0, x.resources@, f, total);
        }
        assert(x.written_versioned(version, w) == w4);
    }
}

/// How a [`AlterableConfig`] is laid out.
pub proof fn law_alterable_config_layout(x: AlterableConfig, f: Format, w: Writer, total: Seq<u8>)
    requires
        !w.failed(),
    ensures
        ({
            &&& text_fits(x.name@, f.flexible)
            &&& optional_text_fits(optional_text(x.value), f.flexible)
        }) ==> !x.written(f, w).failed(),
        begins(total, x.written(f, w)) ==> ({
            let r = behind(total, w);
            let (name, r) = r.nullable_string(f.flexible);
            let (config_operation, r) = r.i8();
            let (value, r) = r.nullable_string(f.flexible);
            let tags = r;
            let r = r.tags(f.flexible);
            &&& name == Some(x.name@)
            &&& config_operation == x.config_operation.code()
            &&& value == optional_text(x.value)
            &&& f.flexible ==> tags.tagged_fields().0.len() == 0
            &&& r == behind(total, x.written(f, w))
        }),
{
    let w0 = w;
    let w1 = w0.string(x.name@, f.flexible);
    let w2 = w1.i8(x.config_operation.code());
    let w3 = w2.nullable_string(optional_text(x.value), f.flexible);
    let w4 = w3.tags(f.flexible);
    lemma_text_written(w0, Some(x.name@), f.flexible);
    lemma_text_written(w2, optional_text(x.value), f.flexible);
    if begins(total, w4) {
        if f.flexible {
            law_varint_round_trip(w3, 0, total);
        }
        law_nullable_string_round_trip(w2, optional_text(x.value), f.flexible, total);
        law_i8_round_trip(w1, x.config_operation.code(), total);
        law_nullable_string_round_trip(w0, Some(x.name@), f.flexible, total);
    }
}

/// How a [`IncrementalAlterConfigsResource`] is laid out.
pub proof fn law_incremental_alter_configs_resource_layout(
    x: IncrementalAlterConfigsResource,
    f: Format,
    w: Writer,
    total: Seq<u8>,
)
    requires
        !w.failed(),
    ensures
        ({
            &&& text_fits(x.resource_name@, f.flexible)
            &&& count_fits(x.configs@.len(), f.flexible) && writable(x.configs@, f)
        }) ==> !x.written(f, w).failed(),
        begins(total, x.written(f, w)) ==> ({
            let r = behind(total, w);
            let (resource_type, r) = r.i8();
            let (resource_name, r) = r.nullable_string(f.flexible);
            let (configs_count, r) = r.array_len(f.flexible);
            let configs_start = r;
            let r = past(total, r, x.configs@, f);
            let tags = r;
            let r = r.tags(f.flexible);
            &&& resource_type == x.resource_type.code()
            &&& resource_name == Some(x.resource_name@)
            &&& configs_count == x.configs@.len()
            &&& stands(total, configs_start, x.configs@, f)
            &&& f.flexible ==> tags.tagged_fields().0.len() == 0
            &&& r == behind(total, x.written(f, w))
        }),
{
    let w0 = w;
    let w1 = w0.i8(x.resource_type.code());
    let w2 = w1.string(x.resource_name@, f.flexible);
    let w3 = w2.array(x.configs@, f);
    let w4 = w3.tags(f.flexible);
    lemma_text_written(w1, Some(x.resource_name@), f.flexible);
    lemma_array_written(w2, x.configs@, f);
    if begins(total, w4) {
        if f.flexible {
            law_varint_round_trip(w3, 0, total);
        }
        lemma_array_stands(w2, x.configs@, f, total);
        law_nullable_string_round_trip(w1, Some(x.resource_name@), f.flexible, total);
        law_i8_round_trip(w0, x.resource_type.code(), total);
    }
}

/// How a [`IncrementalAlterConfigsRequest`] is laid out in each version.
pub proof fn law_incremental_alter_configs_request_layout(
    x: IncrementalAlterConfigsRequest,
    version: i16,
    w: Writer,
    total: Seq<u8>,
)
    requires
        !w.failed(),
    ensures
        IncrementalAlterConfigsRequest::request_name() == "IncrementalAlterConfigsRequest",
        IncrementalAlterConfigsRequest::encodes(version) <==> (0 <= version <= 1),
        (0 <= version <= 1) ==> ({
            let f = IncrementalAlterConfigsRequest::request_format(version);
            &&& f.flexible <==> version >= 1
        }),
        (0 <= version <= 1) ==> ({
            let f = IncrementalAlterConfigsRequest::request_format(version);
            (count_fits(x.resources@.len(), version >= 1) && writable(x.resources@, f))
        }) ==> !x.written_versioned(version, w).failed(),
        (0 <= version <= 1) ==> begins(total, x.written_versioned(version, w)) ==> ({
            let f = IncrementalAlterConfigsRequest::request_format(version);
            let r = behind(total, w);
            let (resources_count, r) = r.array_len(version >= 1);
            let resources_start = r;
            let r = past(total, r, x.resources@, f);
            let (validate_only, r) = r.bool();
            let tags = r;
            let r = r.tags(version >= 1);
            &&& resources_count == x.resources@.len()
            &&& stands(total, resources_start, x.resources@, f)
            &&& validate_only == x.validate_only
            &&& version >= 1 ==> tags.tagged_fields().0.len() == 0
            &&& r == behind(total, x.written_versioned(version, w))
        }),
{
    if 0 <= version <= 1 {
        let f = IncrementalAlterConfigsRequest::request_format(version);
        let w0 = w;
        let w1 = w0.array(x.resources@, f);
        let w2 = w1.bool(x.validate_only);
        let w3 = w2.tags(version >= 1);
        lemma_array_written(w0, x.resources@, f);
        if begins(total, w3) {
            if version >= 1 {
                law_varint_round_trip(w2, 0, total);
            }
            law_bool_round_trip(w1, x.validate_only, total);
            lemma_array_stands(w0, x.resources@, f, total);
        }
        assert(x.written_versioned(version, w) == w3);
    }
}

/// How a [`ConfigSynonym`] is laid out.
pub proof fn law_config_synonym_layout(
    x: ConfigSynonym,
    f: Format,
    name: Seq<char>,
    value: Option<Seq<char>>,
    source: i8,
    tags: Seq<u8>,
    rest: Seq<u8>,
)
    requires
        is_tags(tags),
    ensures
        ({
            let w = Writer::at(Seq::empty());
            let w = w.string(name, f.flexible);
            let w = w.nullable_string(value, f.flexible);
            let w = w.i8(source);
            let w = if f.flexible {
                w.raw(tags)
            } else {
                w
            };
            let (read, r) = ConfigSynonym::read(f, Reader::on(w.bytes + rest));
            !w.failed() ==> {
                &&& r == Reader::on(rest)
                &&& x@ == read ==> {
                    &&& x.name@ == name
                    &&& optional_text(x.value) == value
                    &&& x.source == source
                }
            }
        }),
{
    let w0 = Writer::at(Seq::empty());
    let w1 = w0.string(name, f.flexible);
    let w2 = w1.nullable_string(value, f.flexible);
    let w3 = w2.i8(source);
    let w4 = if f.flexible {
        w3.raw(tags)
    } else {
        w3
    };
    if !w4.failed() {
        let total = w4.bytes + rest;
        assert(total.take(w4.bytes.len() as int) =~= w4.bytes);
        assert(total.skip(w4.bytes.len() as int) =~= rest);
        if f.flexible {
            law_raw_round_trip(w3, tags, total);
            lemma_tags_read(tags, behind(total, w4).rest);
        }
        law_i8_round_trip(w2, source, total);
        law_nullable_string_round_trip(w1, value, f.flexible, total);
        law_nullable_string_round_trip(w0, Some(name), f.flexible, total);
        assert(total.skip(0) =~= total);
    }
}

/// A [`ConfigSynonym`] is refused where a field that it needs is null.
pub proof fn law_config_synonym_needs_its_fields(f: Format, start: Reader)
    ensures
        ({
            let r = start;
            let (name, r) = r.nullable_string(f.flexible);
            !r.failed() && name is None
                ==> ConfigSynonym::read(f, start).1.failure == Some(null_field("synonym name"))
        }),
{
}

/// How a [`DescribeConfigsEntry`] is laid out.
#[verifier::rlimit(60)]
pub proof fn law_describe_configs_entry_layout(
    x: DescribeConfigsEntry,
    f: Format,
    name: Seq<char>,
    value: Option<Seq<char>>,
    read_only: bool,
    is_default: bool,
    config_source: i8,
    is_sensitive: bool,
    synonyms: Seq<ConfigSynonymView>,
    synonyms_bytes: Seq<Seq<u8>>,
    config_type: i8,
    documentation: Option<Seq<char>>,
    tags: Seq<u8>,
    rest: Seq<u8>,
)
    requires
        elements::<ConfigSynonym>(f, synonyms_bytes, synonyms),
        is_tags(tags),
    ensures
        ({
            let w = Writer::at(Seq::empty());
            let w = w.string(name, f.flexible);
            let w = w.nullable_string(value, f.flexible);
            let w = w.bool(read_only);
            let w = if f.version < 1 {
                w.bool(is_default)
            } else {
                w
            };
            let w = if f.version >= 1 {
                w.i8(config_source)
            } else {
                w
            };
            let w = w.bool(is_sensitive);
            let w = if f.version >= 1 {
                w.array_len(synonyms_bytes.len(), f.flexible).raw(synonyms_bytes.flatten())
            } else {
                w
            };
            let w = if f.version >= 3 {
                w.i8(config_type)
            } else {
                w
            };
            let w = if f.version >= 3 {
                w.nullable_string(documentation, f.flexible)
            } else {
                w
            };
            let w = if f.flexible {
                w.raw(tags)
            } else {
                w
            };
            let (read, r) = DescribeConfigsEntry::read(f, Reader::on(w.bytes + rest));
            !w.failed() ==> {
                &&& r == Reader::on(rest)
                &&& x@ == read ==> {
                    &&& x.name@ == name
                    &&& optional_text(x.value) == value
                    &&& x.read_only == read_only
                    &&& x.is_default == (if f.version < 1 {
                        is_default
                    } else {
                        false
                    })
                    &&& x.is_sensitive == is_sensitive
                    &&& x.config_source == (if f.version >= 1 {
                        config_source
                    } else {
                        (-1) as i8
                    })
                    &&& views(x.synonyms@) == (if f.version >= 1 {
                        synonyms
                    } else {
                        Seq::empty()
                    })
                    &&& x.config_type == (if f.version >= 3 {
                        config_type
                    } else {
                        0
                    })
                    &&& optional_text(x.documentation) == (if f.version >= 3 {
                        documentation
                    } else {
                        None
                    })
                }
            }
        }),
{
    let w0 = Writer::at(Seq::empty());
    let w1 = w0.string(name, f.flexible);
    let w2 = w1.nullable_string(value, f.flexible);
    let w3 = w2.bool(read_only);
    let w4 = if f.version < 1 {
        w3.bool(is_default)
    } else {
        w3
    };
    let w5 = if f.version >= 1 {
        w4.i8(config_source)
    } else {
        w4
    };
    let w6 = w5.bool(is_sensitive);
    let w7 = if f.version >= 1 {
        w6.array_len(synonyms_bytes.len(), f.flexible).raw(synonyms_bytes.flatten())
    } else {
        w6
    };
    let w8 = if f.version >= 3 {
        w7.i8(config_type)
    } else {
        w7
    };
    let w9 = if f.version >= 3 {
        w8.nullable_string(documentation, f.flexible)
    } else {
        w8
    };
    let w10 = if f.flexible {
        w9.raw(tags)
    } else {
        w9
    };
    if !w10.failed() {
        let total = w10.bytes + rest;
        assert(total.take(w10.bytes.len() as int) =~= w10.bytes);
        assert(total.skip(w10.bytes.len() as int) =~= rest);
        if f.flexible {
            law_raw_round_trip(w9, tags, total);
            lemma_tags_read(tags, behind(total, w10).rest);
        }
        if f.version >= 3 {
            law_nullable_string_round_trip(w8, documentation, f.flexible, total);
        }
        if f.version >= 3 {
            law_i8_round_trip(w7, config_type, total);
        }
        if f.version >= 1 {
            lemma_array_read::<ConfigSynonym>(w6, f, synonyms_bytes, synonyms, total);
        }
        law_bool_round_trip(w5, is_sensitive, total);
        if f.version >= 1 {
            law_i8_round_trip(w4, config_source, total);
        }
        if f.version < 1 {
            law_bool_round_trip(w3, is_default, total);
        }
        law_bool_round_trip(w2, read_only, total);
        law_nullable_string_round_trip(w1, value, f.flexible, total);
        law_nullable_string_round_trip(w0, Some(name), f.flexible, total);
        assert(total.skip(0) =~= total);
    }
}

/// A [`DescribeConfigsEntry`] is refused where a field that it needs is null.
pub proof fn law_describe_configs_entry_needs_its_fields(f: Format, start: Reader)
    ensures
        ({
            let r = start;
            let (name, r) = r.nullable_string(f.flexible);
            !r.failed() && name is None
                ==> DescribeConfigsEntry::read(f, start).1.failure == Some(
                    null_field("config entry name"),
                )
        }),
{
}

/// How a [`DescribeConfigsResult`] is laid out.
#[verifier::rlimit(60)]
pub proof fn law_describe_configs_result_layout(
    x: DescribeConfigsResult,
    f: Format,
    error_code: i16,
    error_message: Option<Seq<char>>,
    resource_type: i8,
    resource_name: Seq<char>,
    configs: Seq<DescribeConfigsEntryView>,
    configs_bytes: Seq<Seq<u8>>,
    tags: Seq<u8>,
    rest: Seq<u8>,
)
    requires
        elements::<DescribeConfigsEntry>(f, configs_bytes, configs),
        is_tags(tags),
    ensures
        ({
            let w = Writer::at(Seq::empty());
            let w = w.i16(error_code);
            let w = w.nullable_string(error_message, f.flexible);
            let w = w.i8(resource_type);
            let w = w.string(resource_name, f.flexible);
            let w = w.array_len(configs_bytes.len(), f.flexible).raw(configs_bytes.flatten());
            let w = if f.flexible {
                w.raw(tags)
            } else {
                w
            };
            let (read, r) = DescribeConfigsResult::read(f, Reader::on(w.bytes + rest));
            !w.failed() ==> {
                &&& r == Reader::on(rest)
                &&& x@ == read ==> {
                    &&& x.error_code == ErrorCode::of(error_code)
                    &&& optional_text(x.error_message) == error_message
                    &&& x.resource_type == ConfigResourceType::of(resource_type)
                    &&& x.resource_name@ == resource_name
                    &&& views(x.configs@) == configs
                }
            }
        }),
{
    let w0 = Writer::at(Seq::empty());
    let w1 = w0.i16(error_code);
    let w2 = w1.nullable_string(error_message, f.flexible);
    let w3 = w2.i8(resource_type);
    let w4 = w3.string(resource_name, f.flexible);
    let w5 = w4.array_len(configs_bytes.len(), f.flexible).raw(configs_bytes.flatten());
    let w6 = if f.flexible {
        w5.raw(tags)
    } else {
        w5
    };
    if !w6.failed() {
        let total = w6.bytes + rest;
        assert(total.take(w6.bytes.len() as int) =~= w6.bytes);
        assert(total.skip(w6.bytes.len() as int) =~= rest);
        if f.flexible {
            law_raw_round_trip(w5, tags, total);
            lemma_tags_read(tags, behind(total, w6).rest);
        }
        lemma_array_read::<DescribeConfigsEntry>(w4, f, configs_bytes, configs, total);
        law_nullable_string_round_trip(w3, Some(resource_name), f.flexible, total);
        law_i8_round_trip(w2, resource_type, total);
        law_nullable_string_round_trip(w1, error_message, f.flexible, total);
        law_i16_round_trip(w0, error_code, total);
        assert(total.skip(0) =~= total);
    }
}

/// A [`DescribeConfigsResult`] is refused where a field that it needs is null.
pub proof fn law_describe_configs_result_needs_its_fields(f: Format, start: Reader)
    ensures
        ({
            let r = start;
            let r = r.i16().1;
            let r = r.nullable_string(f.flexible).1;
            let r = r.i8().1;
            let (resource_name, r) = r.nullable_string(f.flexible);
            !r.failed() && resource_name is None
                ==> DescribeConfigsResult::read(f, start).1.failure == Some(
                    null_field("resource name"),
                )
        }),
{
}

/// How a [`DescribeConfigsResponse`] is laid out in each version.
#[verifier::rlimit(60)]
pub proof fn law_describe_configs_response_layout(
    x: DescribeConfigsResponse,
    version: i16,
    throttle_time_ms: i32,
    results: Seq<DescribeConfigsResultView>,
    results_bytes: Seq<Seq<u8>>,
    tags: Seq<u8>,
    rest: Seq<u8>,
)
    requires
        elements::<DescribeConfigsResult>(
            DescribeConfigsResponse::response_format(version),
            results_bytes,
            results,
        ),
        is_tags(tags),
    ensures
        DescribeConfigsResponse::response_name() == "DescribeConfigsResponse",
        DescribeConfigsResponse::decodes(version) <==> (0 <= version <= 4),
        (0 <= version <= 4) ==> ({
            let f = DescribeConfigsResponse::response_format(version);
            &&& f.flexible <==> version >= 4
            &&& (f.version < 1) <==> (version < 1)
            &&& (f.version >= 1) <==> (version >= 1)
            &&& (f.version >= 3) <==> (version >= 3)
        }),
        (0 <= version <= 4) ==> ({
            let w = Writer::at(Seq::empty());
            let w = w.i32(throttle_time_ms);
            let w = w.array_len(results_bytes.len(), version >= 4).raw(results_bytes.flatten());
            let w = if version >= 4 {
                w.raw(tags)
            } else {
                w
            };
            let (read, r) = DescribeConfigsResponse::read_versioned(
                version,
                Reader::on(w.bytes + rest),
            );
            !w.failed() ==> {
                &&& r == Reader::on(rest)
                &&& x@ == read ==> {
                    &&& x.throttle_time_ms == throttle_time_ms
                    &&& views(x.results@) == results
                }
            }
        }),
{
    if 0 <= version <= 4 {
        let f = DescribeConfigsResponse::response_format(version);
        let w0 = Writer::at(Seq::empty());
        let w1 = w0.i32(throttle_time_ms);
        let w2 = w1.array_len(results_bytes.len(), version >= 4).raw(results_bytes.flatten());
        let w3 = if version >= 4 {
            w2.raw(tags)
        } else {
            w2
        };
        if !w3.failed() {
            let total = w3.bytes + rest;
            assert(total.take(w3.bytes.len() as int) =~= w3.bytes);
            assert(total.skip(w3.bytes.len() as int) =~= rest);
            if version >= 4 {
                law_raw_round_trip(w2, tags, total);
                lemma_tags_read(tags, behind(total, w3).rest);
            }
            lemma_array_read::<DescribeConfigsResult>(w1, f, results_bytes, results, total);
            law_i32_round_trip(w0, throttle_time_ms, total);
            assert(total.skip(0) =~= total);
        }
    }
}

/// How a [`IncrementalAlterConfigsResult`] is laid out.
pub proof fn law_incremental_alter_configs_result_layout(
    x: IncrementalAlterConfigsResult,
    f: Format,
    error_code: i16,
    error_message: Option<Seq<char>>,
    resource_type: i8,
    resource_name: Seq<char>,
    tags: Seq<u8>,
    rest: Seq<u8>,
)
    requires
        is_tags(tags),
    ensures
        ({
            let w = Writer::at(Seq::empty());
            let w = w.i16(error_code);
            let w = w.nullable_string(error_message, f.flexible);
            let w = w.i8(resource_type);
            let w = w.string(resource_name, f.flexible);
            let w = if f.flexible {
                w.raw(tags)
            } else {
                w
            };
            let (read, r) = IncrementalAlterConfigsResult::read(f, Reader::on(w.bytes + rest));
            !w.failed() ==> {
                &&& r == Reader::on(rest)
                &&& x@ == read ==> {
                    &&& x.error_code == ErrorCode::of(error_code)
                    &&& optional_text(x.error_message) == error_message
                    &&& x.resource_type == ConfigResourceType::of(resource_type)
                    &&& x.resource_name@ == resource_name
                }
            }
        }),
{
    let w0 = Writer::at(Seq::empty());
    let w1 = w0.i16(error_code);
    let w2 = w1.nullable_string(error_message, f.flexible);
    let w3 = w2.i8(resource_type);
    let w4 = w3.string(resource_name, f.flexible);
    let w5 = if f.flexible {
        w4.raw(tags)
    } else {
        w4
    };
    if !w5.failed() {
        let total = w5.bytes + rest;
        assert(total.take(w5.bytes.len() as int) =~= w5.bytes);
        assert(total.skip(w5.bytes.len() as int) =~= rest);
        if f.flexible {
            law_raw_round_trip(w4, tags, total);
            lemma_tags_read(tags, behind(total, w5).rest);
        }
        law_nullable_string_round_trip(w3, Some(resource_name), f.flexible, total);
        law_i8_round_trip(w2, resource_type, total);
        law_nullable_string_round_trip(w1, error_message, f.flexible, total);
        law_i16_round_trip(w0, error_code, total);
        assert(total.skip(0) =~= total);
    }
}

/// A [`IncrementalAlterConfigsResult`] is refused where a field that it needs is null.
pub proof fn law_incremental_alter_configs_result_needs_its_fields(f: Format, start: Reader)
    ensures
        ({
            let r = start;
            let r = r.i16().1;
            let r = r.nullable_string(f.flexible).1;
            let r = r.i8().1;
            let (resource_name, r) = r.nullable_string(f.flexible);
            !r.failed() && resource_name is None
                ==> IncrementalAlterConfigsResult::read(f, start).1.failure == Some(
                    null_field("resource name"),
                )
        }),
{
}

/// How a [`IncrementalAlterConfigsResponse`] is laid out in each version.
#[verifier::rlimit(60)]
pub proof fn law_incremental_alter_configs_response_layout(
    x: IncrementalAlterConfigsResponse,
    version: i16,
    throttle_time_ms: i32,
    results: Seq<IncrementalAlterConfigsResultView>,
    results_bytes: Seq<Seq<u8>>,
    tags: Seq<u8>,
    rest: Seq<u8>,
)
    requires
        elements::<IncrementalAlterConfigsResult>(
            IncrementalAlterConfigsResponse::response_format(version),
            results_bytes,
            results,
        ),
        is_tags(tags),
    ensures
        IncrementalAlterConfigsResponse::response_name() == "IncrementalAlterConfigsResponse",
        IncrementalAlterConfigsResponse::decodes(version) <==> (0 <= version <= 1),
        (0 <= version <= 1) ==> ({
            let f = IncrementalAlterConfigsResponse::response_format(version);
            &&& f.flexible <==> version >= 1
        }),
        (0 <= version <= 1) ==> ({
            let w = Writer::at(Seq::empty());
            let w = w.i32(throttle_time_ms);
            let w = w.array_len(results_bytes.len(), version >= 1).raw(results_bytes.flatten());
            let w = if version >= 1 {
                w.raw(tags)
            } else {
                w
            };
            let (read, r) = IncrementalAlterConfigsResponse::read_versioned(
                version,
                Reader::on(w.bytes + rest),
            );
            !w.failed() ==> {
                &&& r == Reader::on(rest)
                &&& x@ == read ==> {
                    &&& x.throttle_time_ms == throttle_time_ms
                    &&& views(x.results@) == results
                }
            }
        }),
{
    if 0 <= version <= 1 {
        let f = IncrementalAlterConfigsResponse::response_format(version);
        let w0 = Writer::at(Seq::empty());
        let w1 = w0.i32(throttle_time_ms);
        let w2 = w1.array_len(results_bytes.len(), version >= 1).raw(results_bytes.flatten());
        let w3 = if version >= 1 {
            w2.raw(tags)
        } else {
            w2
        };
        if !w3.failed() {
            let total = w3.bytes + rest;
            assert(total.take(w3.bytes.len() as int) =~= w3.bytes);
            assert(total.skip(w3.bytes.len() as int) =~= rest);
            if version >= 1 {
                law_raw_round_trip(w2, tags, total);
                lemma_tags_read(tags, behind(total, w3).rest);
            }
            lemma_array_read::<IncrementalAlterConfigsResult>(w1, f, results_bytes, results, total);
            law_i32_round_trip(w0, throttle_time_ms, total);
            assert(total.skip(0) =~= total);
        }
    }
}

} // verus!
