use sqlitegis::spatial::ewkb::{
    ensure_matching_srid, extract_mbr, extract_srid, geom_type_name, is_empty_point_blob,
    parse_ewkb_header, patch_wkb_with_srid, set_srid, write_empty_point, EWKB_M_FLAG,
    EWKB_SRID_FLAG, EWKB_Z_FLAG, WKB_LINESTRING, WKB_POINT, WKB_POLYGON,
};
use sqlitegis::spatial::functions::io::{as_binary, geom_from_geojson, geom_from_text, geom_from_wkb};
use sqlitegis::SqliteGisError;

#[test]
fn set_srid_reads_back_and_keeps_the_payload() {
    let blob = geom_from_text("LINESTRING(0 0,1 1)", None).unwrap();
    let updated = set_srid(&blob, 3857).unwrap();
    let hdr = parse_ewkb_header(&updated).unwrap();
    assert_eq!(hdr.srid, Some(3857));
    assert_eq!(hdr.geom_type, WKB_LINESTRING);
    assert!(hdr.little_endian);
    assert_eq!(hdr.data_offset, 9);
    assert_eq!(&updated[9..], &blob[5..]);

    let again = set_srid(&updated, -1).unwrap();
    assert_eq!(extract_srid(&again), Some(-1));
    assert_eq!(&again[9..], &blob[5..]);
}

#[test]
fn patch_reads_back_and_keeps_the_payload() {
    let mut iso = vec![0x00];
    iso.extend_from_slice(&WKB_POINT.to_be_bytes());
    iso.extend_from_slice(&5.0f64.to_be_bytes());
    iso.extend_from_slice(&6.0f64.to_be_bytes());
    let ewkb = patch_wkb_with_srid(&iso, 2154).unwrap();
    let hdr = parse_ewkb_header(&ewkb).unwrap();
    assert_eq!(hdr.srid, Some(2154));
    assert_eq!(hdr.geom_type, WKB_POINT);
    assert!(!hdr.little_endian);
    assert_eq!(&ewkb[9..], &iso[5..]);
    assert_eq!(ewkb.len(), iso.len() + 4);
}

#[test]
fn matching_srid_is_symmetric() {
    let cases = [
        (None, None),
        (None, Some(0)),
        (Some(4326), Some(4326)),
        (Some(4326), None),
        (Some(1), Some(2)),
    ];
    for (l, r) in cases {
        let a = ensure_matching_srid(l, r);
        let b = ensure_matching_srid(r, l);
        assert_eq!(a.is_ok(), b.is_ok());
        if let (Ok(x), Ok(y)) = (a, b) {
            assert_eq!(x, y);
        }
    }
}

#[test]
fn mismatched_srids_name_both_values() {
    match ensure_matching_srid(Some(4326), None) {
        Err(SqliteGisError::InvalidInput(m)) => {
            assert_eq!(m, "operation on mixed SRID geometries (4326 != 0)")
        }
        other => panic!("unexpected {other:?}"),
    }
}

#[test]
fn type_name_ignores_flags() {
    for flags in [0, EWKB_SRID_FLAG, EWKB_Z_FLAG, EWKB_M_FLAG, EWKB_Z_FLAG | EWKB_M_FLAG | EWKB_SRID_FLAG] {
        assert_eq!(geom_type_name(WKB_POLYGON | flags), "ST_Polygon");
        assert_eq!(geom_type_name(99 | flags), "ST_Unknown");
    }
}

#[test]
fn empty_point_reads_back_with_its_srid() {
    for srid in [None, Some(0), Some(4326), Some(-7)] {
        let blob = write_empty_point(srid);
        assert!(is_empty_point_blob(&blob).unwrap());
        assert_eq!(extract_srid(&blob), srid);
        assert_eq!(parse_ewkb_header(&blob).unwrap().geom_type, WKB_POINT);
        assert_eq!(blob.len(), if srid.is_some() { 25 } else { 21 });
    }
}

#[test]
fn mbr_corners_are_ordered() {
    let blob = geom_from_text("LINESTRING(5 -1, -3 4, 0 -0)", None).unwrap();
    let (a, b, c, d) = extract_mbr(&blob).unwrap().unwrap();
    assert_eq!(f64::from_bits(a), -3.0);
    assert_eq!(f64::from_bits(b), -1.0);
    assert_eq!(f64::from_bits(c), 5.0);
    assert_eq!(f64::from_bits(d), 4.0);
}

#[test]
fn constructors_store_the_requested_srid() {
    for srid in [None, Some(0), Some(3857)] {
        let t = geom_from_text("POLYGON((0 0,1 0,1 1,0 0))", srid).unwrap();
        assert_eq!(extract_srid(&t), srid);
        let w = geom_from_wkb(&as_binary(&t).unwrap(), srid).unwrap();
        assert_eq!(extract_srid(&w), srid);
    }
    let j = geom_from_geojson(r#"{"type":"LineString","coordinates":[[0,0],[1,1]]}"#, None).unwrap();
    assert_eq!(extract_srid(&j), Some(4326));
}

#[test]
fn as_binary_output_has_no_srid_flag() {
    let blob = geom_from_text("MULTIPOINT((1 2),(3 4))", Some(4326)).unwrap();
    let wkb = as_binary(&blob).unwrap();
    assert_eq!(wkb[0], 0x01);
    assert_eq!(wkb[4] & 0x20, 0);
    assert_eq!(extract_srid(&wkb), None);
}

#[test]
fn error_messages_render_each_variant() {
    assert_eq!(SqliteGisError::InvalidEwkb("x".to_string()).message(), "invalid EWKB: x");
    assert_eq!(
        SqliteGisError::UnsupportedDimensions { dimensions: "ZM" }.message(),
        "unsupported coordinate dimensions: ZM (operation would drop coordinates)"
    );
    assert_eq!(
        SqliteGisError::OutOfBounds { index: -2, len: 3 }.message(),
        "index out of bounds: -2 (len 3)"
    );
    assert_eq!(SqliteGisError::InvalidInput("bad".to_string()).message(), "bad");
    let io = std::io::Error::new(std::io::ErrorKind::Other, "disk");
    assert_eq!(SqliteGisError::Io(io).message(), "io error: disk");
    let gz = geom_from_geojson("[1,2,3]", None).unwrap_err();
    assert!(gz.message().starts_with("geozero error: "));
}

#[test]
fn truncated_blobs_report_their_length() {
    match parse_ewkb_header(&[1, 2, 3]) {
        Err(SqliteGisError::InvalidEwkb(m)) => assert_eq!(m, "blob too short: got 3 bytes, need at least 5"),
        other => panic!("unexpected {other:?}"),
    }
    let mut blob = vec![0x01];
    blob.extend_from_slice(&WKB_POINT.to_le_bytes());
    blob.extend_from_slice(&1.0f64.to_le_bytes());
    match is_empty_point_blob(&blob) {
        Err(SqliteGisError::InvalidEwkb(m)) => assert_eq!(m, "point payload truncated: got 13 bytes"),
        other => panic!("unexpected {other:?}"),
    }
}

#[test]
fn setting_an_srid_twice_keeps_the_last() {
    let blob = sqlitegis::spatial::functions::io::geom_from_text("LINESTRING(0 0,1 1)", None).unwrap();
    let once = sqlitegis::spatial::ewkb::set_srid(&blob, 3857).unwrap();
    let twice = sqlitegis::spatial::ewkb::set_srid(&once, 4326).unwrap();
    assert_eq!(twice, sqlitegis::spatial::ewkb::set_srid(&blob, 4326).unwrap());
    assert_eq!(sqlitegis::spatial::ewkb::set_srid(&twice, 4326).unwrap(), twice);
}

#[test]
fn srid_texts_are_plain_decimals() {
    let err = ensure_matching_srid(Some(i32::MIN), Some(-7)).unwrap_err();
    assert_eq!(
        err.message(),
        "operation on mixed SRID geometries (-2147483648 != -7)"
    );
    let err = ensure_matching_srid(Some(10), Some(0x7fff_ffff)).unwrap_err();
    assert_eq!(err.message(), "operation on mixed SRID geometries (10 != 2147483647)");
}

#[test]
fn a_rewritten_blob_validates_and_decodes_alike() {
    let blob = geom_from_text("POLYGON((0 0,1 0,1 1,0 1,0 0))", None).unwrap();
    let out = set_srid(&blob, 3857).unwrap();
    assert!(sqlitegis::spatial::ewkb::validate_ewkb_payload(&out).is_ok());
    let (k0, _) = sqlitegis::spatial::ewkb::parse_ewkb(&blob).unwrap();
    assert_eq!(sqlitegis::spatial::ewkb::parse_ewkb(&out).unwrap(), (k0, Some(3857)));
}

#[test]
fn setting_the_present_srid_changes_nothing() {
    let blob = geom_from_text("POINT(1 2)", Some(4326)).unwrap();
    assert_eq!(set_srid(&blob, 4326).unwrap(), blob);
}
