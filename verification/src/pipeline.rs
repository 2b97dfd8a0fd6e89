//! The pipeline orchestrator: each public operation is a single
//! short-circuiting sequence of stages, and every failure is converted at the
//! stage that produces it into a descriptive result value — no fault ever
//! escapes to the caller.

use vstd::prelude::*;
use crate::bridge::{
    config_of_json, decode_geojson, engine_buffer, geojson_parse_error, geometry_kind,
    geometry_kind_of, is_number_text, parse_config,
};
use crate::config::{
    cap_code, join_code, opt_view, resolve_cap, resolve_join, spec_resolve_cap, spec_resolve_join,
};
use crate::envelope::{BufferResult, envelope_json};
use crate::escape::concat2;
use crate::kind::{kind_label, spec_kind_label, GeomKind};

verus! {

/// The envelope text that reports a failed stage: empty payload, the message
/// alone populated.
pub open spec fn error_envelope(msg: Seq<char>) -> Seq<char> {
    envelope_json(Seq::<char>::empty(), Some(msg))
}

/// The configuration text decodes and carries a numeric distance: the
/// condition under which the buffering operation proceeds past its first
/// stage.
pub open spec fn config_usable(cfg: Seq<char>) -> bool {
    config_of_json(cfg) is Ok && (config_of_json(cfg)->Ok_0).distance is Some
}

/// Reports whether the input is well-formed structured interchange text.
///
/// The validity bar of this operation is structural: the text must parse as
/// an interchange document; it need not narrow to a single canonical
/// geometry, so a well-formed document with an empty feature collection
/// passes.
pub fn validate_geojson(geojson_input: &str) -> (r: Result<(), String>)
    ensures
        r is Ok <==> geojson_parse_error(geojson_input@) is None,
        r matches Err(e) ==> geojson_parse_error(geojson_input@) matches Some(m) && e@ == "error: "@
            + m,
{
    match decode_geojson(geojson_input) {
        Ok(_) => Ok(()),
        Err(e) => Err(concat2("error: ", e.as_str())),
    }
}

/// Describes the geometry in the input text: decodes it, narrows it to a
/// single canonical geometry, and labels that geometry's kind with one of the
/// ten fixed labels.
pub fn get_geometry_info(geojson_input: &str) -> (r: Result<String, String>)
    ensures
        geometry_kind_of(geojson_input@) matches Ok(k) ==> r matches Ok(t) && t@ == "type: "@
            + spec_kind_label(k),
        geometry_kind_of(geojson_input@) matches Err(m) ==> r matches Err(e) && e@ == "error: "@
            + m,
{
    match geometry_kind(geojson_input) {
        Ok(k) => Ok(concat2("type: ", kind_label(&k))),
        Err(e) => Err(concat2("error: ", e.as_str())),
    }
}

/// Buffers the geometry in the input text by the configured distance and
/// style, and returns the serialized result envelope.
///
/// The stages run in order — decode the configuration, decode the geometry,
/// narrow it, resolve the style, invoke the offsetting engine, encode the
/// outcome — and the first failure short-circuits the rest: in particular,
/// malformed configuration text produces the configuration error alone, and
/// the geometry text is never consulted for it. Once every decoding stage has
/// passed, the engine owes a result: the envelope then carries the buffered
/// geometry, whose text, where it reparses, narrows back to a multi-polygon —
/// the encode path feeds the decode path. The result is always a well-formed
/// envelope: exactly one of its payload and its error is populated.
pub fn buffer_geometry(geojson_input: &str, config_json: &str) -> (r: String)
    ensures
        exists|b: BufferResult| b.wf() && r@ == b.spec_json(),
        config_of_json(config_json@) is Err ==> r@ == error_envelope(
            "Invalid config JSON: "@ + config_of_json(config_json@)->Err_0,
        ),
        config_of_json(config_json@) is Ok && (config_of_json(config_json@)->Ok_0).distance
            is None ==> r@ == error_envelope(
            "Invalid config JSON: missing or non-numeric `distance`"@,
        ),
        config_usable(config_json@) && geojson_parse_error(geojson_input@) is Some ==> r@
            == error_envelope("Invalid GeoJSON: "@ + geojson_parse_error(geojson_input@)->0),
        config_usable(config_json@) && geojson_parse_error(geojson_input@) is None
            && geometry_kind_of(geojson_input@) is Err ==> r@ == error_envelope(
            "Cannot convert GeoJSON to geometry: "@ + geometry_kind_of(geojson_input@)->Err_0,
        ),
        config_usable(config_json@) && geojson_parse_error(geojson_input@) is None
            && geometry_kind_of(geojson_input@) is Ok ==> exists|t: Seq<char>|
            t.len() > 0 && r@ == envelope_json(t, None) && (geojson_parse_error(t) is None
                ==> geometry_kind_of(t) is Ok && geometry_kind_of(t)->Ok_0
                == GeomKind::MultiPolygon),
{
    let config = match parse_config(config_json) {
        Ok(c) => c,
        Err(e) => {
            let b = BufferResult::failure(concat2("Invalid config JSON: ", e.as_str()));
            let out = b.to_json();
            proof {
                assert(b.wf() && out@ == b.spec_json());
            }
            return out;
        },
    };
    let distance = match &config.distance {
        Some(d) => d.clone(),
        None => {
            let b = BufferResult::failure(
                String::from_str("Invalid config JSON: missing or non-numeric `distance`"),
            );
            let out = b.to_json();
            proof {
                assert(b.wf() && out@ == b.spec_json());
            }
            return out;
        },
    };
    match decode_geojson(geojson_input) {
        Ok(_) => (),
        Err(e) => {
            let b = BufferResult::failure(concat2("Invalid GeoJSON: ", e.as_str()));
            let out = b.to_json();
            proof {
                assert(b.wf() && out@ == b.spec_json());
            }
            return out;
        },
    };
    match geometry_kind(geojson_input) {
        Ok(_) => (),
        Err(e) => {
            let b = BufferResult::failure(concat2("Cannot convert GeoJSON to geometry: ", e.as_str()));
            let out = b.to_json();
            proof {
                assert(b.wf() && out@ == b.spec_json());
            }
            return out;
        },
    };
    let cap = resolve_cap(&config.line_cap);
    let join = resolve_join(&config.line_join, &config.miter_limit);
    let (capc, capv) = cap_code(&cap);
    let (joinc, joinv) = join_code(&join);
    proof {
        assert(cap@ == spec_resolve_cap(opt_view(config.line_cap)));
        assert(capc == 0 || capc == 1 || capc == 2);
        assert(joinc == 0 || joinc == 1 || joinc == 2);
        assert(capc == 0 ==> cap@ is Round && capv@ == "0.2"@);
        assert(join@ == spec_resolve_join(opt_view(config.line_join), opt_view(config.miter_limit)));
        assert(joinc == 0 ==> join@ is Round && joinv@ == "0.2"@);
        assert(joinc == 1 ==> join@ is Miter && (is_number_text(joinv@) || joinv@ == "1.0"@));
    }
    let t = engine_buffer(
        geojson_input,
        distance.as_str(),
        capc,
        capv.as_str(),
        joinc,
        joinv.as_str(),
    ).unwrap();
    let b = BufferResult::success(t);
    let out = b.to_json();
    proof {
        assert(b.wf() && out@ == b.spec_json());
    }
    out
}

} // verus!
