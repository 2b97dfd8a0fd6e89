//! The trusted boundary to the outside crates: the structured-feature format
//! parser and encoder, and the offsetting engine. Each item here is believed,
//! not proved; its doc comment names the outside functions it relies on.

use vstd::prelude::*;
use crate::config::{BufferConfig, ConfigView};
use crate::kind::GeomKind;
use std::num::ParseFloatError;
use geo::Geometry as GeoGeometry;
use geo::algorithm::buffer::{Buffer, BufferStyle, LineCap, LineJoin};
use geojson::{GeoJson, GeometryValue};

verus! {

/// The structured-feature interchange document type of the geojson crate,
/// handled opaquely by the position-arity guard below.
#[verifier::external_type_specification]
#[verifier::external_body]
pub struct ExGeoJson(geojson::GeoJson);

/// The geometry value of an interchange document, handled opaquely by the
/// position-arity guard below.
#[verifier::external_type_specification]
#[verifier::external_body]
pub struct ExGeometryValue(geojson::GeometryValue);

/// What deserializing configuration text yields: either the decoded
/// configuration or the parse error's text. A deterministic function of the
/// text alone.
pub uninterp spec fn config_of_json(s: Seq<char>) -> Result<ConfigView, Seq<char>>;

/// What parsing structured interchange text yields: the parse error's text,
/// or nothing when the text is a well-formed document. A deterministic
/// function of the text alone.
pub uninterp spec fn geojson_parse_error(s: Seq<char>) -> Option<Seq<char>>;

/// What parsing structured interchange text and narrowing it to a single
/// canonical geometry yields: the geometry's kind, or the text of whichever
/// error the steps hit first — the parse, the position-arity guard, or the
/// conversion. A deterministic function of the text alone.
pub uninterp spec fn geometry_kind_of(s: Seq<char>) -> Result<GeomKind, Seq<char>>;

/// Whether text is a well-formed JSON number: what deserializing it as a
/// serde_json::Number yields. A deterministic function of the text alone.
pub uninterp spec fn is_number_text(s: Seq<char>) -> bool;

/// Relies on serde_json::from_str::<Value> and Value's accessors (get,
/// as_str, as_number) to deserialize the configuration object: `distance` and
/// `miter_limit` are numbers whose JSON text is kept (Number's display text,
/// which serde_json reparses as a number), `line_cap` and `line_join` are
/// strings; a key that is absent or not of its expected type decodes to
/// nothing; unrecognized keys are ignored.
#[verifier::external_body]
pub(crate) fn parse_config(s: &str) -> (r: Result<BufferConfig, String>)
    ensures
        r matches Ok(c) ==> config_of_json(s@) matches Ok(cv) && cv == c@,
        r matches Err(e) ==> config_of_json(s@) matches Err(m) && m == e@,
        r matches Ok(c) ==> ((c@.distance is Some ==> is_number_text(c@.distance->0)) && (
        c@.miter_limit is Some ==> is_number_text(c@.miter_limit->0))),
{
    let v: serde_json::Value = match serde_json::from_str(s) {
        Ok(v) => v,
        Err(e) => return Err(e.to_string()),
    };
    Ok(BufferConfig {
        distance: v.get("distance").and_then(serde_json::Value::as_number).map(|n| n.to_string()),
        line_cap: v.get("line_cap").and_then(serde_json::Value::as_str).map(|s| s.to_string()),
        line_join: v.get("line_join").and_then(serde_json::Value::as_str).map(|s| s.to_string()),
        miter_limit: v.get("miter_limit").and_then(serde_json::Value::as_number).map(
            |n| n.to_string(),
        ),
    })
}

/// Relies on geojson::GeoJson::from_str: a deterministic parse of structured
/// interchange text; on failure the error's display text names the fault.
#[verifier::external_body]
pub(crate) fn decode_geojson(s: &str) -> (r: Result<(), String>)
    ensures
        r is Ok <==> geojson_parse_error(s@) is None,
        r matches Err(e) ==> geojson_parse_error(s@) == Some(e@),
{
    match s.parse::<GeoJson>() {
        Ok(_) => Ok(()),
        Err(e) => Err(e.to_string()),
    }
}

/// Position-arity guard over a geometry value: geojson's parser checks that a
/// position holds at least two coordinates only for a top-level Point, while
/// the geojson-to-geo_types conversion indexes the first two coordinates of
/// every position unconditionally and would abort on a shorter one. Reports
/// whether the value holds such a position; the narrowing wrappers call it
/// before converting.
#[verifier::external_body]
fn value_defect(v: &GeometryValue) -> bool {
    match v {
        GeometryValue::Point { coordinates } => coordinates.len() < 2,
        GeometryValue::MultiPoint { coordinates } | GeometryValue::LineString { coordinates } => coordinates.iter().any(|p| p.len() < 2),
        GeometryValue::MultiLineString { coordinates } | GeometryValue::Polygon { coordinates } => coordinates.iter().any(|l| l.iter().any(|p| p.len() < 2)),
        GeometryValue::MultiPolygon { coordinates } => coordinates.iter().any(|pg| pg.iter().any(|l| l.iter().any(|p| p.len() < 2))),
        GeometryValue::GeometryCollection { geometries } => geometries.iter().any(|g| value_defect(&g.value)),
    }
}

/// Position-arity guard over a whole document: applies `value_defect` to
/// every geometry the narrowing conversion would reach, and returns the
/// narrowing error for a defective one.
#[verifier::external_body]
fn check_positions(gj: &GeoJson) -> Result<(), String> {
    let defect = match gj {
        GeoJson::Geometry(g) => value_defect(&g.value),
        GeoJson::Feature(f) => f.geometry.as_ref().is_some_and(|g| value_defect(&g.value)),
        GeoJson::FeatureCollection(fc) => fc.features.iter().any(|f| f.geometry.as_ref().is_some_and(|g| value_defect(&g.value))),
    };
    if defect { Err("a position holds fewer than two coordinates".to_string()) } else { Ok(()) }
}

/// Relies on geojson::GeoJson::from_str, the position-arity guard above, the
/// geojson-to-geo_types conversion (which narrows a document to a single
/// geometry), and the geo_types::Geometry variants, read one arm each.
#[verifier::external_body]
pub(crate) fn geometry_kind(s: &str) -> (r: Result<GeomKind, String>)
    ensures
        r matches Ok(k) ==> geometry_kind_of(s@) matches Ok(k2) && k2 == k,
        r matches Err(e) ==> geometry_kind_of(s@) matches Err(m) && m == e@,
{
    let g = s.parse::<GeoJson>().map_err(|e| e.to_string())?;
    check_positions(&g)?;
    let geom: GeoGeometry = g.try_into().map_err(|e: geojson::Error| e.to_string())?;
    Ok(match geom {
        GeoGeometry::Point(_) => GeomKind::Point,
        GeoGeometry::Line(_) => GeomKind::Line,
        GeoGeometry::LineString(_) => GeomKind::LineString,
        GeoGeometry::Polygon(_) => GeomKind::Polygon,
        GeoGeometry::MultiPoint(_) => GeomKind::MultiPoint,
        GeoGeometry::MultiLineString(_) => GeomKind::MultiLineString,
        GeoGeometry::MultiPolygon(_) => GeomKind::MultiPolygon,
        GeoGeometry::GeometryCollection(_) => GeomKind::GeometryCollection,
        GeoGeometry::Rect(_) => GeomKind::Rect,
        GeoGeometry::Triangle(_) => GeomKind::Triangle,
    })
}

/// Relies on geojson::GeoJson::from_str and the geojson-to-geo_types
/// conversion — which repeat the narrowing the caller has already checked, so
/// they succeed and meet no short position — on geo's
/// Buffer::buffer_with_style, and on geojson's encoding of the resulting
/// multi-polygon. The buffering is total for every geometry and style it is
/// handed here: degenerate geometry buffers to an empty result, and the arc
/// tessellation's segment count depends on the round tolerance alone, which
/// the caller pins to the text 0.2. Every numeric text the caller's
/// obligations admit — a JSON number's text, or the literals 0.2 and 1.0 —
/// parses as a float, so the error paths below are vestigial and the call
/// returns nonempty text. A payload that reparses (a coordinate serializes as
/// null only past float range) narrows back to a multi-polygon.
#[verifier::external_body]
pub(crate) fn engine_buffer(
    s: &str,
    distance: &str,
    cap: u8,
    cap_val: &str,
    join: u8,
    join_val: &str,
) -> (r: Result<String, String>)
    requires
        geometry_kind_of(s@) is Ok,
        is_number_text(distance@),
        cap == 0 || cap == 1 || cap == 2,
        join == 0 || join == 1 || join == 2,
        cap == 0 ==> cap_val@ == "0.2"@,
        join == 0 ==> join_val@ == "0.2"@,
        join == 1 ==> is_number_text(join_val@) || join_val@ == "1.0"@,
    ensures
        r is Ok,
        r matches Ok(t) ==> t@.len() > 0,
        r is Ok && geojson_parse_error((r->Ok_0)@) is None ==> geometry_kind_of((r->Ok_0)@) is Ok
            && geometry_kind_of((r->Ok_0)@)->Ok_0 == GeomKind::MultiPolygon,
{
    let num = |x: &str| x.parse().map_err(|e: ParseFloatError| e.to_string());
    let geom: GeoGeometry = s.parse::<GeoJson>().and_then(|g| g.try_into()).map_err(|e| e.to_string())?;
    let lc = match cap { 1 => LineCap::Square, 2 => LineCap::Butt, _ => LineCap::Round(num(cap_val)?) };
    let lj = match join { 1 => LineJoin::Miter(num(join_val)?), 2 => LineJoin::Bevel, _ => LineJoin::Round(num(join_val)?) };
    let buffered = geom.buffer_with_style(BufferStyle::new(num(distance)?).line_cap(lc).line_join(lj));
    Ok(GeoJson::Geometry(geojson::Geometry::new(GeometryValue::from(&buffered))).to_string())
}

} // verus!
