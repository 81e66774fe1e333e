use sqlitegis::spatial::codec::GeoKind;
use sqlitegis::spatial::ewkb::{
    ensure_matching_srid, extract_mbr, extract_srid, geom_type_name, is_empty_point_blob,
    parse_ewkb, parse_ewkb_header, parse_ewkb_pair, patch_wkb_with_srid, set_srid,
    validate_ewkb_payload, validate_xy_ewkb_payload, EWKB_M_FLAG, EWKB_SRID_FLAG, EWKB_Z_FLAG,
    WKB_GEOMETRYCOLLECTION, WKB_LINESTRING, WKB_MULTILINESTRING, WKB_MULTIPOINT,
    WKB_MULTIPOLYGON, WKB_POINT, WKB_POLYGON,
};
use sqlitegis::spatial::functions::io::geom_from_text;
use sqlitegis::SqliteGisError;

use geo::BoundingRect;
use geozero::ToGeo;

fn decode(blob: &[u8]) -> geo::Geometry<f64> {
    geozero::wkb::Ewkb(blob.to_vec()).to_geo().expect("decodes")
}

#[test]
fn header_blob_too_short() {
    assert!(parse_ewkb_header(&[0x01, 0x02]).is_err());
    assert!(parse_ewkb_header(&[]).is_err());
}

#[test]
fn header_big_endian_point_without_srid() {
    let mut blob = vec![0x00];
    blob.extend_from_slice(&WKB_POINT.to_be_bytes());
    blob.extend_from_slice(&1.0f64.to_be_bytes());
    blob.extend_from_slice(&2.0f64.to_be_bytes());

    let hdr = parse_ewkb_header(&blob).unwrap();
    assert_eq!(hdr.geom_type, WKB_POINT);
    assert_eq!(hdr.srid, None);
    assert!(!hdr.has_z);
    assert!(!hdr.has_m);
    assert_eq!(hdr.data_offset, 5);
    assert!(!hdr.little_endian);
}

#[test]
fn header_big_endian_point_with_srid() {
    let mut blob = vec![0x00];
    let typ = WKB_POINT | EWKB_SRID_FLAG;
    blob.extend_from_slice(&typ.to_be_bytes());
    blob.extend_from_slice(&4326i32.to_be_bytes());
    blob.extend_from_slice(&1.0f64.to_be_bytes());
    blob.extend_from_slice(&2.0f64.to_be_bytes());

    let hdr = parse_ewkb_header(&blob).unwrap();
    assert_eq!(hdr.geom_type, WKB_POINT);
    assert_eq!(hdr.srid, Some(4326));
    assert_eq!(hdr.data_offset, 9);
    assert!(!hdr.little_endian);
}

#[test]
fn header_invalid_byte_order_marker() {
    assert!(parse_ewkb_header(&[0x02, 0x01, 0x00, 0x00, 0x00]).is_err());
}

#[test]
fn header_srid_flag_but_truncated() {
    let mut blob = vec![0x01];
    let raw_type = WKB_POINT | EWKB_SRID_FLAG;
    blob.extend_from_slice(&raw_type.to_le_bytes());
    assert!(parse_ewkb_header(&blob).is_err());
}

#[test]
fn header_valid_point_with_srid() {
    let blob = geom_from_text("POINT(1 2)", Some(4326)).unwrap();
    let hdr = parse_ewkb_header(&blob).unwrap();
    assert_eq!(hdr.geom_type, WKB_POINT);
    assert_eq!(hdr.srid, Some(4326));
    assert!(!hdr.has_z);
    assert!(!hdr.has_m);
    assert_eq!(hdr.data_offset, 9);
}

#[test]
fn header_valid_point_without_srid() {
    let blob = geom_from_text("POINT(1 2)", None).unwrap();
    let hdr = parse_ewkb_header(&blob).unwrap();
    assert_eq!(hdr.geom_type, WKB_POINT);
    assert_eq!(hdr.srid, None);
    assert_eq!(hdr.data_offset, 5);
}

#[test]
fn extract_srid_empty_blob() {
    assert_eq!(extract_srid(&[]), None);
}

#[test]
fn extract_srid_malformed_blob() {
    assert_eq!(extract_srid(&[0xFF, 0xFF]), None);
}

#[test]
fn set_srid_replaces_existing() {
    let blob = geom_from_text("POINT(1 2)", Some(4326)).unwrap();
    let updated = set_srid(&blob, 3857).unwrap();
    assert_eq!(extract_srid(&updated), Some(3857));
    let (_, srid) = parse_ewkb(&updated).unwrap();
    assert_eq!(srid, Some(3857));
}

#[test]
fn set_srid_adds_to_blob_without_srid() {
    let blob = geom_from_text("POINT(1 2)", None).unwrap();
    let updated = set_srid(&blob, 4326).unwrap();
    assert_eq!(extract_srid(&updated), Some(4326));
}

#[test]
fn set_srid_rejects_truncated_point_payload() {
    let mut truncated = vec![0x01];
    truncated.extend_from_slice(&WKB_POINT.to_le_bytes());
    truncated.extend_from_slice(&1.0f64.to_le_bytes());

    set_srid(&truncated, 4326).expect_err("truncated payload must error");
}

#[test]
fn set_srid_rejects_malformed_non_empty_payload() {
    let mut malformed = vec![0x01];
    malformed.extend_from_slice(&WKB_LINESTRING.to_le_bytes());
    malformed.extend_from_slice(&1u32.to_le_bytes());

    set_srid(&malformed, 3857).expect_err("malformed payload must error");
}

#[test]
fn set_srid_allows_valid_empty_point_blob() {
    let empty = geom_from_text("POINT EMPTY", None).unwrap();
    let updated = set_srid(&empty, 4326).unwrap();

    let (kind, srid) = parse_ewkb(&updated).unwrap();
    assert_eq!(srid, Some(4326));
    assert_eq!(kind, GeoKind::Point);
    assert!(is_empty_point_blob(&updated).unwrap());
    let x = f64::from_le_bytes(updated[9..17].try_into().unwrap());
    let y = f64::from_le_bytes(updated[17..25].try_into().unwrap());
    assert!(x.is_nan());
    assert!(y.is_nan());
}

#[test]
fn geom_type_name_all_types() {
    assert_eq!(geom_type_name(WKB_POINT), "ST_Point");
    assert_eq!(geom_type_name(WKB_LINESTRING), "ST_LineString");
    assert_eq!(geom_type_name(WKB_POLYGON), "ST_Polygon");
    assert_eq!(geom_type_name(WKB_MULTIPOINT), "ST_MultiPoint");
    assert_eq!(geom_type_name(WKB_MULTILINESTRING), "ST_MultiLineString");
    assert_eq!(geom_type_name(WKB_MULTIPOLYGON), "ST_MultiPolygon");
    assert_eq!(geom_type_name(WKB_GEOMETRYCOLLECTION), "ST_GeometryCollection");
    assert_eq!(geom_type_name(42), "ST_Unknown");
}

#[test]
fn parse_big_endian_ewkb_point() {
    let mut blob = vec![0x00];
    let typ = WKB_POINT | EWKB_SRID_FLAG;
    blob.extend_from_slice(&typ.to_be_bytes());
    blob.extend_from_slice(&4326i32.to_be_bytes());
    blob.extend_from_slice(&10.0f64.to_be_bytes());
    blob.extend_from_slice(&(-20.0f64).to_be_bytes());

    let (kind, srid) = parse_ewkb(&blob).unwrap();
    assert_eq!(srid, Some(4326));
    assert_eq!(kind, GeoKind::Point);
    assert_eq!(
        decode(&blob),
        geo::Geometry::Point(geo::Point::new(10.0, -20.0)),
        "big-endian EWKB should parse into XY geometry"
    );
}

#[test]
fn parse_ewkb_with_zm_point_is_rejected() {
    let mut blob = vec![0x01];
    let typ = WKB_POINT | EWKB_Z_FLAG | EWKB_M_FLAG;
    blob.extend_from_slice(&typ.to_le_bytes());
    blob.extend_from_slice(&1.0f64.to_le_bytes());
    blob.extend_from_slice(&2.0f64.to_le_bytes());
    blob.extend_from_slice(&3.0f64.to_le_bytes());
    blob.extend_from_slice(&4.0f64.to_le_bytes());

    let err = parse_ewkb(&blob).expect_err("Z/M payloads must not be flattened to XY");
    assert!(err.message().contains("unsupported coordinate dimensions"));
}

#[test]
fn set_srid_preserves_big_endian_header_order() {
    let mut blob = vec![0x00];
    blob.extend_from_slice(&WKB_POINT.to_be_bytes());
    blob.extend_from_slice(&7.0f64.to_be_bytes());
    blob.extend_from_slice(&8.0f64.to_be_bytes());

    let updated = set_srid(&blob, 4326).unwrap();
    assert_eq!(updated[0], 0x00, "byte-order marker must stay big-endian");
    assert_eq!(extract_srid(&updated), Some(4326));

    let (kind, srid) = parse_ewkb(&updated).unwrap();
    assert_eq!(srid, Some(4326));
    assert_eq!(kind, GeoKind::Point);
    assert_eq!(decode(&updated), geo::Geometry::Point(geo::Point::new(7.0, 8.0)));
}

#[test]
fn parse_ewkb_invalid_blob() {
    assert!(parse_ewkb(&[0x01, 0x02]).is_err());
}

#[test]
fn ensure_matching_srid_accepts_equal() {
    assert_eq!(ensure_matching_srid(Some(4326), Some(4326)).unwrap(), Some(4326));
    assert_eq!(ensure_matching_srid(None, None).unwrap(), None);
}

#[test]
fn ensure_matching_srid_treats_unknown_and_zero_as_compatible() {
    assert_eq!(ensure_matching_srid(None, Some(0)).unwrap(), Some(0));
    assert_eq!(ensure_matching_srid(Some(0), None).unwrap(), Some(0));
}

#[test]
fn ensure_matching_srid_rejects_mismatch() {
    assert!(ensure_matching_srid(Some(4326), Some(3857)).is_err());
    assert!(ensure_matching_srid(Some(4326), None).is_err());
}

#[test]
fn parse_ewkb_pair_requires_matching_srid() {
    let a = geom_from_text("POINT(0 0)", Some(4326)).unwrap();
    let b = geom_from_text("POINT(1 1)", Some(4326)).unwrap();
    assert!(parse_ewkb_pair(&a, &b).is_ok());

    let mixed = geom_from_text("POINT(1 1)", Some(3857)).unwrap();
    assert!(parse_ewkb_pair(&a, &mixed).is_err());
}

#[test]
fn parse_ewkb_pair_accepts_unknown_and_zero_srid() {
    let a = geom_from_text("POINT(0 0)", None).unwrap();
    let b = geom_from_text("POINT(1 1)", Some(0)).unwrap();
    let pair = parse_ewkb_pair(&a, &b).expect("None and SRID=0 should be compatible");
    assert_eq!(pair.2, Some(0));
}

#[test]
fn patch_wkb_with_srid_little_endian() {
    let mut iso = vec![0x01];
    iso.extend_from_slice(&WKB_POINT.to_le_bytes());
    iso.extend_from_slice(&1.0f64.to_le_bytes());
    iso.extend_from_slice(&2.0f64.to_le_bytes());

    let ewkb = patch_wkb_with_srid(&iso, 4326).unwrap();
    let hdr = parse_ewkb_header(&ewkb).unwrap();
    assert!(hdr.little_endian);
    assert_eq!(hdr.srid, Some(4326));
}

#[test]
fn patch_wkb_with_srid_big_endian() {
    let mut iso = vec![0x00];
    iso.extend_from_slice(&WKB_POINT.to_be_bytes());
    iso.extend_from_slice(&1.0f64.to_be_bytes());
    iso.extend_from_slice(&2.0f64.to_be_bytes());

    let ewkb = patch_wkb_with_srid(&iso, 4326).unwrap();
    let hdr = parse_ewkb_header(&ewkb).unwrap();
    assert!(!hdr.little_endian);
    assert_eq!(hdr.srid, Some(4326));

    let (kind, srid) = parse_ewkb(&ewkb).unwrap();
    assert_eq!(srid, Some(4326));
    assert_eq!(kind, GeoKind::Point);
    assert_eq!(decode(&ewkb), geo::Geometry::Point(geo::Point::new(1.0, 2.0)));
}

#[test]
fn patch_wkb_with_srid_rejects_short_input() {
    assert!(patch_wkb_with_srid(&[0x01], 4326).is_err());
}

#[test]
fn patch_wkb_with_srid_rejects_invalid_byte_order_marker() {
    let mut blob = vec![0x02];
    blob.extend_from_slice(&WKB_POINT.to_le_bytes());
    let err = patch_wkb_with_srid(&blob, 4326).expect_err("must reject 0x02");
    assert!(matches!(err, SqliteGisError::InvalidEwkb(ref s) if s.contains("byte order marker")));
}

#[test]
fn validate_ewkb_payload_accepts_valid_blob() {
    let blob = geom_from_text("LINESTRING(0 0,1 1)", Some(4326)).expect("valid EWKB");
    let header = validate_ewkb_payload(&blob).expect("valid payload");
    assert_eq!(header.geom_type, WKB_LINESTRING);
    assert_eq!(header.srid, Some(4326));
}

#[test]
fn validate_ewkb_payload_rejects_malformed_non_empty_blob() {
    let mut malformed = vec![0x01];
    malformed.extend_from_slice(&WKB_LINESTRING.to_le_bytes());
    malformed.extend_from_slice(&1u32.to_le_bytes());

    validate_ewkb_payload(&malformed).expect_err("malformed payload must error");
}

#[test]
fn validate_xy_ewkb_payload_rejects_zm_blob() {
    let mut blob = vec![0x01];
    let typ = WKB_POINT | EWKB_Z_FLAG | EWKB_M_FLAG;
    blob.extend_from_slice(&typ.to_le_bytes());
    blob.extend_from_slice(&1.0f64.to_le_bytes());
    blob.extend_from_slice(&2.0f64.to_le_bytes());
    blob.extend_from_slice(&3.0f64.to_le_bytes());
    blob.extend_from_slice(&4.0f64.to_le_bytes());

    let err = validate_xy_ewkb_payload(&blob).expect_err("Z/M payload must be rejected");
    assert!(err.message().contains("unsupported coordinate dimensions"));
}

fn assert_mbr_matches_reference(wkt: &str) {
    let blob = geom_from_text(wkt, None).expect("seed blob from WKT");
    let fast = extract_mbr(&blob).expect("fast MBR path must succeed on valid blob");
    parse_ewkb(&blob).expect("reference parse must succeed");
    let reference = decode(&blob).bounding_rect();

    match (fast, reference) {
        (None, None) => {}
        (Some((a, b, c, d)), Some(r)) => {
            let (min_x, min_y) = (f64::from_bits(a), f64::from_bits(b));
            let (max_x, max_y) = (f64::from_bits(c), f64::from_bits(d));
            assert!(
                (min_x - r.min().x).abs() < 1e-12
                    && (min_y - r.min().y).abs() < 1e-12
                    && (max_x - r.max().x).abs() < 1e-12
                    && (max_y - r.max().y).abs() < 1e-12,
                "MBR mismatch for {wkt:?}"
            );
        }
        _ => panic!("MBR presence mismatch for {wkt:?}"),
    }
}

#[test]
fn extract_mbr_point_matches_reference() {
    assert_mbr_matches_reference("POINT(1 2)");
    assert_mbr_matches_reference("POINT(-180 -90)");
    assert_mbr_matches_reference("POINT(180 90)");
}

#[test]
fn extract_mbr_empty_point_returns_none() {
    let blob = geom_from_text("POINT EMPTY", None).expect("seed");
    assert!(extract_mbr(&blob).expect("ok").is_none());
}

#[test]
fn extract_mbr_linestring_matches_reference() {
    assert_mbr_matches_reference("LINESTRING(0 0, 10 0, 10 5, 0 5)");
    assert_mbr_matches_reference("LINESTRING(-5 -10, 5 10)");
}

#[test]
fn extract_mbr_polygon_with_hole_matches_reference() {
    assert_mbr_matches_reference(
        "POLYGON((0 0, 10 0, 10 10, 0 10, 0 0), (2 2, 4 2, 4 4, 2 4, 2 2))",
    );
}

#[test]
fn extract_mbr_multipoint_matches_reference() {
    assert_mbr_matches_reference("MULTIPOINT((1 2), (5 5), (-3 4))");
}

#[test]
fn extract_mbr_multilinestring_matches_reference() {
    assert_mbr_matches_reference("MULTILINESTRING((0 0, 1 1), (5 5, 6 7, -2 3))");
}

#[test]
fn extract_mbr_multipolygon_matches_reference() {
    assert_mbr_matches_reference(
        "MULTIPOLYGON(((0 0, 1 0, 1 1, 0 1, 0 0)), ((10 10, 20 10, 20 20, 10 20, 10 10)))",
    );
}

#[test]
fn extract_mbr_geometrycollection_matches_reference() {
    assert_mbr_matches_reference(
        "GEOMETRYCOLLECTION(POINT(1 2), LINESTRING(0 0, 5 5), POLYGON((0 0, 2 0, 2 2, 0 2, 0 0)))",
    );
}

#[test]
fn extract_mbr_respects_big_endian_byte_order() {
    let mut blob = vec![0x00];
    blob.extend_from_slice(&WKB_POINT.to_be_bytes());
    blob.extend_from_slice(&3.0f64.to_be_bytes());
    blob.extend_from_slice(&4.0f64.to_be_bytes());

    let (a, b, c, d) = extract_mbr(&blob).expect("ok").expect("non-empty");
    assert_eq!(f64::from_bits(a), 3.0);
    assert_eq!(f64::from_bits(b), 4.0);
    assert_eq!(f64::from_bits(c), 3.0);
    assert_eq!(f64::from_bits(d), 4.0);
}

#[test]
fn extract_mbr_respects_srid_flag_offset() {
    let blob = geom_from_text("POINT(7 8)", Some(4326)).expect("seed");
    let (a, _, _, d) = extract_mbr(&blob).expect("ok").expect("non-empty");
    assert_eq!(f64::from_bits(a), 7.0);
    assert_eq!(f64::from_bits(d), 8.0);
}

#[test]
fn extract_mbr_rejects_truncated_point_blob() {
    let mut blob = vec![0x01];
    blob.extend_from_slice(&WKB_POINT.to_le_bytes());
    assert!(extract_mbr(&blob).is_err());
}

#[test]
fn extract_mbr_rejects_truncated_polygon_blob() {
    let mut blob = vec![0x01];
    blob.extend_from_slice(&WKB_POLYGON.to_le_bytes());
    blob.extend_from_slice(&1u32.to_le_bytes());
    blob.extend_from_slice(&4u32.to_le_bytes());
    assert!(extract_mbr(&blob).is_err());
}

#[test]
fn parse_empty_point() {
    let blob = sqlitegis::spatial::ewkb::write_empty_point(Some(4326));
    let (kind, srid) = sqlitegis::spatial::ewkb::parse_ewkb(&blob).unwrap();
    assert_eq!(srid, Some(4326));
    match kind {
        sqlitegis::spatial::codec::GeoKind::Point => {
            let x = f64::from_le_bytes(blob[9..17].try_into().unwrap());
            let y = f64::from_le_bytes(blob[17..25].try_into().unwrap());
            assert!(x.is_nan());
            assert!(y.is_nan());
        }
        other => panic!("expected point, got {other:?}"),
    }
    assert!(sqlitegis::spatial::ewkb::is_empty_point_blob(&blob).unwrap());
}

fn nested_collections(depth: usize, marker: u8, type_word: u32) -> Vec<u8> {
    let mut blob = vec![1u8];
    blob.extend_from_slice(&7u32.to_le_bytes());
    blob.extend_from_slice(&1u32.to_le_bytes());
    for _ in 1..depth {
        blob.push(marker);
        blob.extend_from_slice(&type_word.to_le_bytes());
        blob.extend_from_slice(&1u32.to_le_bytes());
    }
    blob.push(1);
    blob.extend_from_slice(&1u32.to_le_bytes());
    blob.extend_from_slice(&0.0f64.to_le_bytes());
    blob.extend_from_slice(&0.0f64.to_le_bytes());
    blob
}

#[test]
fn nesting_guard_reads_headers_as_the_decoder_does() {
    // A marker of 2 reads little-endian and 0x107 reads as type 7 for the decoder.
    let deep = nested_collections(300, 2, 0x107);
    assert!(matches!(sqlitegis::spatial::ewkb::ensure_ewkb_nesting_ok(&deep), Err(SqliteGisError::InvalidInput(_))));
    assert!(sqlitegis::spatial::ewkb::validate_ewkb_payload(&deep).is_err());
    let shallow = nested_collections(10, 2, 0x107);
    assert!(sqlitegis::spatial::ewkb::ensure_ewkb_nesting_ok(&shallow).is_ok());
    let at_limit = nested_collections(256, 1, 7);
    assert!(sqlitegis::spatial::ewkb::ensure_ewkb_nesting_ok(&at_limit).is_ok());
    let past_limit = nested_collections(257, 1, 7);
    assert!(sqlitegis::spatial::ewkb::ensure_ewkb_nesting_ok(&past_limit).is_err());
}

#[test]
fn counts_without_bytes_never_reach_the_decoder() {
    // A LineString announcing 2^28 points in a 9-byte blob.
    let blob = [1u8, 2, 0, 0, 0, 0, 0, 0, 0x10];
    assert!(matches!(sqlitegis::spatial::ewkb::ensure_ewkb_nesting_ok(&blob), Err(SqliteGisError::InvalidEwkb(_))));
    assert!(sqlitegis::spatial::ewkb::validate_ewkb_payload(&blob).is_err());
    assert!(sqlitegis::spatial::ewkb::parse_ewkb(&blob).is_err());
}

#[test]
fn a_truncated_payload_is_geozeros_own_error() {
    let mut blob = geom_from_text("LINESTRING(0 0,1 1,2 2)", Some(4326)).unwrap();
    blob.truncate(blob.len() - 3);
    assert!(sqlitegis::spatial::ewkb::ensure_ewkb_nesting_ok(&blob).is_ok());
    assert!(matches!(
        sqlitegis::spatial::ewkb::validate_ewkb_payload(&blob),
        Err(SqliteGisError::Geozero(_))
    ));
}

#[test]
fn curve_types_never_reach_the_decoder() {
    // A CircularString (type 8) with one point.
    let mut blob = vec![1u8];
    blob.extend_from_slice(&8u32.to_le_bytes());
    blob.extend_from_slice(&1u32.to_le_bytes());
    blob.extend_from_slice(&0.0f64.to_le_bytes());
    blob.extend_from_slice(&0.0f64.to_le_bytes());
    assert!(matches!(
        sqlitegis::spatial::ewkb::validate_ewkb_payload(&blob),
        Err(SqliteGisError::InvalidEwkb(_))
    ));
}
