use sqlitegis::spatial::ewkb::{extract_srid, geom_type_name, parse_ewkb_header};
use sqlitegis::spatial::functions::io::geom_from_text;
use sqlitegis::spatial::functions::operations::{
    concat_multipolygon_bodies, finish_polygon_op, OverlayReply, PolygonOp, PolygonStep,
};
use sqlitegis::spatial::functions::operations as ops;
use sqlitegis::spatial::codec::GeoKind;
use sqlitegis::SqliteGisError;

use geo::algorithm::bool_ops::BooleanOps;
use geo::{Area, Geometry, MultiPolygon};
use geozero::{CoordDimensions, ToGeo, ToWkb};

/// `geo`'s overlay for `op`, as the host runs it (inputs here never make it panic).
fn overlay(op: PolygonOp, a: &[u8], b: &[u8]) -> OverlayReply {
    let multi = |blob: &[u8]| match geozero::wkb::Ewkb(blob.to_vec()).to_geo().unwrap() {
        Geometry::Polygon(p) => MultiPolygon::from(p),
        Geometry::MultiPolygon(m) => m,
        other => panic!("not polygonal: {other:?}"),
    };
    let (ma, mb) = (multi(a), multi(b));
    let out = match op {
        PolygonOp::Union => ma.union(&mb),
        PolygonOp::Difference => ma.difference(&mb),
        PolygonOp::SymDifference => ma.xor(&mb),
    };
    OverlayReply::Wkb(Geometry::MultiPolygon(out).to_wkb(CoordDimensions::xy()).unwrap())
}

fn complete(
    op: PolygonOp,
    a: &[u8],
    b: &[u8],
    step: Result<PolygonStep, SqliteGisError>,
) -> Result<Vec<u8>, SqliteGisError> {
    match step? {
        PolygonStep::Done(v) => Ok(v),
        PolygonStep::Overlay(srid) => finish_polygon_op(op, srid, overlay(op, a, b)),
    }
}

fn st_union(a: &[u8], b: &[u8]) -> Result<Vec<u8>, SqliteGisError> {
    complete(PolygonOp::Union, a, b, ops::st_union(a, b))
}

fn st_difference(a: &[u8], b: &[u8]) -> Result<Vec<u8>, SqliteGisError> {
    complete(PolygonOp::Difference, a, b, ops::st_difference(a, b))
}

fn st_sym_difference(a: &[u8], b: &[u8]) -> Result<Vec<u8>, SqliteGisError> {
    complete(PolygonOp::SymDifference, a, b, ops::st_sym_difference(a, b))
}

fn area(blob: &[u8]) -> f64 {
    geozero::wkb::Ewkb(blob.to_vec()).to_geo().expect("decodes").unsigned_area()
}

fn geometry_kind(blob: &[u8]) -> &'static str {
    geom_type_name(parse_ewkb_header(blob).unwrap().geom_type)
}

#[test]
fn union_overlapping() {
    let a = geom_from_text("POLYGON((0 0,2 0,2 2,0 2,0 0))", None).unwrap();
    let b = geom_from_text("POLYGON((1 0,3 0,3 2,1 2,1 0))", None).unwrap();
    let u = st_union(&a, &b).unwrap();
    assert!((area(&u) - 6.0).abs() < 1e-10);
}

#[test]
fn difference_overlapping() {
    let a = geom_from_text("POLYGON((0 0,2 0,2 2,0 2,0 0))", None).unwrap();
    let b = geom_from_text("POLYGON((1 0,3 0,3 2,1 2,1 0))", None).unwrap();
    let d = st_difference(&a, &b).unwrap();
    assert!((area(&d) - 2.0).abs() < 1e-10);
}

#[test]
fn sym_difference_overlapping() {
    let a = geom_from_text("POLYGON((0 0,2 0,2 2,0 2,0 0))", None).unwrap();
    let b = geom_from_text("POLYGON((1 0,3 0,3 2,1 2,1 0))", None).unwrap();
    let sd = st_sym_difference(&a, &b).unwrap();
    assert!((area(&sd) - 4.0).abs() < 1e-10);
}

#[test]
fn union_wrong_type() {
    let line = geom_from_text("LINESTRING(0 0,1 1)", None).unwrap();
    let poly = geom_from_text("POLYGON((0 0,1 0,1 1,0 1,0 0))", None).unwrap();
    assert!(st_union(&line, &poly).is_err());
}

#[test]
fn union_accepts_multipolygon_inputs() {
    let mp = geom_from_text("MULTIPOLYGON(((0 0,1 0,1 1,0 1,0 0)))", None).unwrap();
    let poly = geom_from_text("POLYGON((1 0,2 0,2 1,1 1,1 0))", None).unwrap();
    let u = st_union(&mp, &poly).unwrap();
    assert!(area(&u) > 1.0);
}

#[test]
fn sym_difference_disjoint_concatenates_polygons() {
    let a = geom_from_text("POLYGON((0 0,1 0,1 1,0 1,0 0))", None).unwrap();
    let b = geom_from_text("POLYGON((10 10,11 10,11 11,10 11,10 10))", None).unwrap();
    let sd = st_sym_difference(&a, &b).unwrap();
    assert!((area(&sd) - 2.0).abs() < 1e-10);
    assert_eq!(geometry_kind(&sd), "ST_MultiPolygon");
}

#[test]
fn union_disjoint_concatenates_polygons() {
    let a = geom_from_text("POLYGON((0 0,1 0,1 1,0 1,0 0))", None).unwrap();
    let b = geom_from_text("POLYGON((10 10,11 10,11 11,10 11,10 10))", None).unwrap();
    let u = st_union(&a, &b).unwrap();
    assert!((area(&u) - 2.0).abs() < 1e-10);
    assert_eq!(geometry_kind(&u), "ST_MultiPolygon");
}

#[test]
fn union_overlapping_slow_path() {
    let a = geom_from_text("POLYGON((0 0,2 0,2 2,0 2,0 0))", None).unwrap();
    let b = geom_from_text("POLYGON((1 1,3 1,3 3,1 3,1 1))", None).unwrap();
    let u = st_union(&a, &b).unwrap();
    assert!((area(&u) - 7.0).abs() < 1e-10);
}

#[test]
fn sym_difference_overlapping_slow_path() {
    let a = geom_from_text("POLYGON((0 0,2 0,2 2,0 2,0 0))", None).unwrap();
    let b = geom_from_text("POLYGON((1 0,3 0,3 2,1 2,1 0))", None).unwrap();
    let sd = st_sym_difference(&a, &b).unwrap();
    assert!((area(&sd) - 4.0).abs() < 1e-10);
}

// ---------------------------------------------------------------------
// Further cases of the library's own
// ---------------------------------------------------------------------

#[test]
fn splice_keeps_parts_in_order_with_shared_srid() {
    let a = geom_from_text("MULTIPOLYGON(((0 0,1 0,1 1,0 1,0 0)),((2 0,3 0,3 1,2 1,2 0)))", Some(4326))
        .unwrap();
    let b = geom_from_text("POLYGON((10 10,11 10,11 11,10 11,10 10))", Some(4326)).unwrap();
    let v = concat_multipolygon_bodies(&a, &b).expect("boxes do not meet");
    assert_eq!(extract_srid(&v), Some(4326));
    let hdr = parse_ewkb_header(&v).unwrap();
    let count = u32::from_le_bytes(v[hdr.data_offset..hdr.data_offset + 4].try_into().unwrap());
    assert_eq!(count, 3);
    match geozero::wkb::Ewkb(v.clone()).to_geo().unwrap() {
        geo::Geometry::MultiPolygon(mp) => {
            assert_eq!(mp.0.len(), 3);
            assert_eq!(mp.0[2].exterior().0[0], geo::Coord { x: 10.0, y: 10.0 });
        }
        other => panic!("expected a MultiPolygon, got {other:?}"),
    }
    assert_eq!(st_union(&a, &b).unwrap(), v);
    assert_eq!(st_sym_difference(&a, &b).unwrap(), v);
}

#[test]
fn splice_does_not_apply_to_meeting_boxes() {
    let a = geom_from_text("POLYGON((0 0,2 0,2 2,0 2,0 0))", None).unwrap();
    let b = geom_from_text("POLYGON((1 1,3 1,3 3,1 3,1 1))", None).unwrap();
    assert!(concat_multipolygon_bodies(&a, &b).is_none());
}

#[test]
fn union_keeps_the_shared_srid() {
    let a = geom_from_text("POLYGON((0 0,2 0,2 2,0 2,0 0))", Some(3857)).unwrap();
    let b = geom_from_text("POLYGON((1 1,3 1,3 3,1 3,1 1))", Some(3857)).unwrap();
    assert_eq!(extract_srid(&st_union(&a, &b).unwrap()), Some(3857));
    assert_eq!(extract_srid(&st_difference(&a, &b).unwrap()), Some(3857));
}

#[test]
fn polygon_ops_reject_mixed_srids() {
    let a = geom_from_text("POLYGON((0 0,2 0,2 2,0 2,0 0))", Some(4326)).unwrap();
    let b = geom_from_text("POLYGON((1 1,3 1,3 3,1 3,1 1))", Some(3857)).unwrap();
    let err = st_difference(&a, &b).unwrap_err();
    assert_eq!(err.message(), "operation on mixed SRID geometries (4326 != 3857)");
}

#[test]
fn polygon_ops_name_the_wrong_type() {
    let line = geom_from_text("LINESTRING(0 0,1 1)", None).unwrap();
    let poly = geom_from_text("POLYGON((0 0,1 0,1 1,0 1,0 0))", None).unwrap();
    let err = st_difference(&poly, &line).unwrap_err();
    assert!(matches!(
        err,
        SqliteGisError::WrongType { expected: "Polygon or MultiPolygon", actual: "LineString" }
    ));
    assert_eq!(err.message(), "geometry is not a Polygon or MultiPolygon; got LineString");
}

use sqlitegis::spatial::functions::operations::{pack_shape, Part};

#[test]
fn intersection_packing_picks_the_smallest_variant() {
    let p = pack_shape(0, 0, 0);
    assert!(p.collection);
    assert_eq!((p.points, p.lines, p.polygons), (Part::Absent, Part::Absent, Part::Absent));
    let p = pack_shape(1, 0, 0);
    assert!(!p.collection);
    assert_eq!(p.points, Part::Single);
    let p = pack_shape(0, 3, 0);
    assert!(!p.collection);
    assert_eq!(p.lines, Part::Multi);
    let p = pack_shape(2, 0, 1);
    assert!(p.collection);
    assert_eq!((p.points, p.lines, p.polygons), (Part::Multi, Part::Absent, Part::Single));
}


#[test]
fn a_panicking_overlay_is_an_invalid_input_error() {
    let err = finish_polygon_op(PolygonOp::SymDifference, None, OverlayReply::Panicked).unwrap_err();
    match err {
        SqliteGisError::InvalidInput(m) => assert_eq!(
            m,
            "ST_SymDifference: operation failed on degenerate or invalid geometry"
        ),
        other => panic!("expected InvalidInput, got {other:?}"),
    }
}

#[test]
fn the_overlay_result_is_stored_with_the_shared_srid() {
    let iso = geom_from_text("POLYGON((0 0,1 0,1 1,0 1,0 0))", None).unwrap();
    let v = finish_polygon_op(PolygonOp::Union, Some(3857), OverlayReply::Wkb(iso.clone())).unwrap();
    assert_eq!(extract_srid(&v), Some(3857));
    assert_eq!(&v[9..], &iso[5..]);
}

#[test]
fn difference_never_takes_the_splice() {
    let a = geom_from_text("POLYGON((0 0,1 0,1 1,0 1,0 0))", None).unwrap();
    let b = geom_from_text("POLYGON((10 10,11 10,11 11,10 11,10 10))", None).unwrap();
    assert!(matches!(ops::st_difference(&a, &b).unwrap(), PolygonStep::Overlay(None)));
    assert!(matches!(ops::st_union(&a, &b).unwrap(), PolygonStep::Done(_)));
}

#[test]
fn difference_of_disjoint_polygons_is_the_first_as_a_multipolygon() {
    let a = geom_from_text("POLYGON((0 0,1 0,1 1,0 1,0 0))", Some(4326)).unwrap();
    let b = geom_from_text("POLYGON((10 10,11 10,11 11,10 11,10 10))", Some(4326)).unwrap();
    let d = st_difference(&a, &b).unwrap();
    assert_eq!(geometry_kind(&d), "ST_MultiPolygon");
    assert!((area(&d) - 1.0).abs() < 1e-10);
    assert_eq!(extract_srid(&d), Some(4326));
}

#[test]
fn intersection_operands_go_where_their_variant_says() {
    assert_eq!(ops::piece_of(GeoKind::MultiPoint).unwrap(), ops::Piece::Points);
    assert_eq!(ops::piece_of(GeoKind::LineString).unwrap(), ops::Piece::Lines);
    assert_eq!(ops::piece_of(GeoKind::MultiPolygon).unwrap(), ops::Piece::Polygons);
    assert_eq!(ops::piece_of(GeoKind::GeometryCollection).unwrap(), ops::Piece::Members);
    let err = ops::piece_of(GeoKind::Triangle).unwrap_err();
    assert_eq!(
        err.message(),
        "geometry is not a Point, LineString, Polygon, or a Multi/Collection of these; got Triangle"
    );
}
