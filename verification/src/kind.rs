//! The canonical geometry kinds and their descriptive labels.

use vstd::prelude::*;

verus! {

/// The ten variants of the canonical geometry model. Every geometry the
/// structured-feature adapter can decode falls under exactly one of them.
#[derive(Clone, Copy, PartialEq, Eq, Structural, Debug)]
pub enum GeomKind {
    Point,
    Line,
    LineString,
    Polygon,
    MultiPoint,
    MultiLineString,
    MultiPolygon,
    GeometryCollection,
    Rect,
    Triangle,
}

/// The label that describes each geometry kind.
pub open spec fn spec_kind_label(k: GeomKind) -> Seq<char> {
    match k {
        GeomKind::Point => "Point"@,
        GeomKind::Line => "Line"@,
        GeomKind::LineString => "LineString"@,
        GeomKind::Polygon => "Polygon"@,
        GeomKind::MultiPoint => "MultiPoint"@,
        GeomKind::MultiLineString => "MultiLineString"@,
        GeomKind::MultiPolygon => "MultiPolygon"@,
        GeomKind::GeometryCollection => "GeometryCollection"@,
        GeomKind::Rect => "Rect"@,
        GeomKind::Triangle => "Triangle"@,
    }
}

/// Maps a geometry kind to its label, one fixed label per variant.
pub fn kind_label(k: &GeomKind) -> (r: &'static str)
    ensures
        r@ == spec_kind_label(*k),
{
    match k {
        GeomKind::Point => "Point",
        GeomKind::Line => "Line",
        GeomKind::LineString => "LineString",
        GeomKind::Polygon => "Polygon",
        GeomKind::MultiPoint => "MultiPoint",
        GeomKind::MultiLineString => "MultiLineString",
        GeomKind::MultiPolygon => "MultiPolygon",
        GeomKind::GeometryCollection => "GeometryCollection",
        GeomKind::Rect => "Rect",
        GeomKind::Triangle => "Triangle",
    }
}

/// Every kind's label is one of the ten fixed labels: no fallback label exists.
pub proof fn lemma_kind_label_complete(k: GeomKind)
    ensures
        spec_kind_label(k) == "Point"@ || spec_kind_label(k) == "Line"@ || spec_kind_label(k)
            == "LineString"@ || spec_kind_label(k) == "Polygon"@ || spec_kind_label(k)
            == "MultiPoint"@ || spec_kind_label(k) == "MultiLineString"@ || spec_kind_label(k)
            == "MultiPolygon"@ || spec_kind_label(k) == "GeometryCollection"@ || spec_kind_label(k)
            == "Rect"@ || spec_kind_label(k) == "Triangle"@,
{
}

/// Distinct kinds carry distinct labels: the label determines the variant.
pub proof fn lemma_kind_label_injective(k1: GeomKind, k2: GeomKind)
    requires
        spec_kind_label(k1) == spec_kind_label(k2),
    ensures
        k1 == k2,
{
    reveal_strlit("Point");
    reveal_strlit("Line");
    reveal_strlit("LineString");
    reveal_strlit("Polygon");
    reveal_strlit("MultiPoint");
    reveal_strlit("MultiLineString");
    reveal_strlit("MultiPolygon");
    reveal_strlit("GeometryCollection");
    reveal_strlit("Rect");
    reveal_strlit("Triangle");
    assert("Point"@.len() == 5 && "Line"@.len() == 4 && "LineString"@.len() == 10 && "Polygon"@.len()
        == 7 && "MultiPoint"@.len() == 10 && "MultiLineString"@.len() == 15 && "MultiPolygon"@.len()
        == 12 && "GeometryCollection"@.len() == 18 && "Rect"@.len() == 4 && "Triangle"@.len() == 8);
    assert("LineString"@[0] == 'L' && "MultiPoint"@[0] == 'M');
    assert("Line"@[0] == 'L' && "Rect"@[0] == 'R');
    assert(spec_kind_label(k1) == spec_kind_label(k2) ==> k1 == k2);
}

} // verus!
