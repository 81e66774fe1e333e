use sqlitegis::spatial::ewkb::{
    extract_srid, geom_type_name, is_empty_point_blob, parse_ewkb, parse_ewkb_header,
    EWKB_M_FLAG, EWKB_Z_FLAG, WKB_POINT,
};
use sqlitegis::spatial::functions::io::{
    as_binary, as_ewkb, as_ewkt, as_geojson, as_text, geom_from_ewkb, geom_from_geojson,
    geom_from_text, geom_from_wkb, EMPTY_POINT_GEOJSON,
};
use sqlitegis::SqliteGisError;

use geo::CoordsIter;
use geozero::ToGeo;

fn decode(blob: &[u8]) -> geo::Geometry<f64> {
    geozero::wkb::Ewkb(blob.to_vec()).to_geo().expect("decodes")
}

#[test]
fn geom_from_text_rejects_deeply_nested_wkt() {
    let mut wkt = String::new();
    for _ in 0..10_000 {
        wkt.push_str("GEOMETRYCOLLECTION(");
    }
    wkt.push_str("POINT(1 2)");
    for _ in 0..10_000 {
        wkt.push(')');
    }
    assert!(matches!(geom_from_text(&wkt, None), Err(SqliteGisError::InvalidInput(_))));

    let ok = geom_from_text("GEOMETRYCOLLECTION(POINT(1 2))", None);
    assert!(ok.is_ok());
}

#[test]
fn geom_from_wkb_rejects_iso_wkb_z_point() {
    let mut wkb = vec![0x01u8];
    wkb.extend_from_slice(&1001u32.to_le_bytes());
    wkb.extend_from_slice(&1.0f64.to_le_bytes());
    wkb.extend_from_slice(&2.0f64.to_le_bytes());
    wkb.extend_from_slice(&3.0f64.to_le_bytes());
    let err = geom_from_wkb(&wkb, None).unwrap_err();
    assert!(
        err.message().contains("unsupported"),
        "expected unsupported error, got: {}",
        err.message()
    );
}

#[test]
fn geom_from_wkb_rejects_iso_wkb_m_point() {
    let mut wkb = vec![0x01u8];
    wkb.extend_from_slice(&2001u32.to_le_bytes());
    wkb.extend_from_slice(&1.0f64.to_le_bytes());
    wkb.extend_from_slice(&2.0f64.to_le_bytes());
    wkb.extend_from_slice(&3.0f64.to_le_bytes());
    assert!(geom_from_wkb(&wkb, None).is_err());
}

#[test]
fn geom_from_wkb_rejects_iso_wkb_zm_point() {
    let mut wkb = vec![0x01u8];
    wkb.extend_from_slice(&3001u32.to_le_bytes());
    for _ in 0..4 {
        wkb.extend_from_slice(&1.0f64.to_le_bytes());
    }
    assert!(geom_from_wkb(&wkb, None).is_err());
}

#[test]
fn invalid_wkt_returns_err() {
    assert!(geom_from_text("NOT_VALID_WKT", None).is_err());
}

#[test]
fn invalid_wkb_returns_err() {
    assert!(geom_from_wkb(&[0xFF, 0x00], None).is_err());
}

#[test]
fn geom_from_wkb_rejects_z_and_m_dimensions() {
    let mut wkb = vec![0x01];
    let typ = WKB_POINT | EWKB_Z_FLAG | EWKB_M_FLAG;
    wkb.extend_from_slice(&typ.to_le_bytes());
    wkb.extend_from_slice(&1.0f64.to_le_bytes());
    wkb.extend_from_slice(&2.0f64.to_le_bytes());
    wkb.extend_from_slice(&3.0f64.to_le_bytes());
    wkb.extend_from_slice(&4.0f64.to_le_bytes());
    assert!(geom_from_wkb(&wkb, None).is_err());
}

#[test]
fn invalid_geojson_returns_err() {
    assert!(geom_from_geojson("{not json}", None).is_err());
}

#[test]
fn geojson_default_srid_4326() {
    let blob = geom_from_geojson(r#"{"type":"Point","coordinates":[1,2]}"#, None).unwrap();
    assert_eq!(extract_srid(&blob), Some(4326));
}

#[test]
fn geojson_custom_srid_overrides() {
    let blob = geom_from_geojson(r#"{"type":"Point","coordinates":[1,2]}"#, Some(3857)).unwrap();
    assert_eq!(extract_srid(&blob), Some(3857));
}

#[test]
fn as_ewkt_with_srid() {
    let blob = geom_from_text("POINT(1 2)", Some(4326)).unwrap();
    let ewkt = as_ewkt(&blob).unwrap();
    assert!(ewkt.starts_with("SRID=4326;"));
    assert!(ewkt.contains("POINT"));
}

#[test]
fn as_ewkt_without_srid() {
    let blob = geom_from_text("POINT(1 2)", None).unwrap();
    let ewkt = as_ewkt(&blob).unwrap();
    assert!(!ewkt.contains("SRID="));
}

#[test]
fn as_binary_strips_srid() {
    let blob = geom_from_text("POINT(1 2)", Some(4326)).unwrap();
    let wkb = as_binary(&blob).unwrap();
    assert_eq!(extract_srid(&wkb), None);
}

#[test]
fn as_binary_rejects_z_and_m_dimensions() {
    let mut ewkb = vec![0x01];
    let typ = WKB_POINT | EWKB_Z_FLAG | EWKB_M_FLAG;
    ewkb.extend_from_slice(&typ.to_le_bytes());
    ewkb.extend_from_slice(&1.0f64.to_le_bytes());
    ewkb.extend_from_slice(&2.0f64.to_le_bytes());
    ewkb.extend_from_slice(&3.0f64.to_le_bytes());
    ewkb.extend_from_slice(&4.0f64.to_le_bytes());
    assert!(as_binary(&ewkb).is_err());
}

#[test]
fn roundtrip_wkb() {
    let blob = geom_from_text("POINT(3 4)", Some(4326)).unwrap();
    let wkb = as_binary(&blob).unwrap();
    let restored = geom_from_wkb(&wkb, Some(4326)).unwrap();
    let (k1, _) = parse_ewkb(&blob).unwrap();
    let (k2, _) = parse_ewkb(&restored).unwrap();
    assert_eq!(k1, k2);
    assert_eq!(format!("{:?}", decode(&blob)), format!("{:?}", decode(&restored)));
}

#[test]
fn roundtrip_geojson() {
    let blob = geom_from_text("POINT(1 2)", None).unwrap();
    let json = as_geojson(&blob).unwrap();
    let restored = geom_from_geojson(&json, None).unwrap();
    let (k1, _) = parse_ewkb(&blob).unwrap();
    let (k2, _) = parse_ewkb(&restored).unwrap();
    assert_eq!(k1, k2);
    assert_eq!(format!("{:?}", decode(&blob)), format!("{:?}", decode(&restored)));
}

#[test]
fn point_empty_geojson_is_postgis_compatible() {
    let blob = geom_from_text("POINT EMPTY", Some(4326)).unwrap();
    let json = as_geojson(&blob).unwrap();
    assert_eq!(json, EMPTY_POINT_GEOJSON);

    let restored = geom_from_geojson(&json, None).unwrap();
    assert_eq!(as_text(&restored).unwrap(), "POINT EMPTY");
    assert_eq!(extract_srid(&restored), Some(4326));
}

#[test]
fn geom_from_geojson_accepts_point_empty_coordinates_array() {
    let blob = geom_from_geojson(EMPTY_POINT_GEOJSON, Some(3857)).unwrap();
    assert_eq!(as_text(&blob).unwrap(), "POINT EMPTY");
    assert_eq!(extract_srid(&blob), Some(3857));
}

#[test]
fn as_text_roundtrip() {
    let blob = geom_from_text("LINESTRING(0 0,1 1,2 2)", None).unwrap();
    let wkt = as_text(&blob).unwrap();
    assert!(wkt.contains("LINESTRING"));
}

#[test]
fn geom_from_ewkb_rejects_z_dimension_payload() {
    let mut blob = vec![0x01];
    let typ = EWKB_Z_FLAG | WKB_POINT;
    blob.extend_from_slice(&typ.to_le_bytes());
    blob.extend_from_slice(&1.0f64.to_le_bytes());
    blob.extend_from_slice(&2.0f64.to_le_bytes());
    blob.extend_from_slice(&3.0f64.to_le_bytes());
    let err = geom_from_ewkb(&blob).expect_err("Z payload must be rejected");
    assert!(err.message().contains("unsupported coordinate dimensions"));
}

#[test]
fn geom_from_ewkb_rejects_big_endian_zm_payload() {
    let mut blob = vec![0x00];
    let typ = EWKB_Z_FLAG | EWKB_M_FLAG | WKB_POINT;
    blob.extend_from_slice(&typ.to_be_bytes());
    blob.extend_from_slice(&1.0f64.to_be_bytes());
    blob.extend_from_slice(&2.0f64.to_be_bytes());
    blob.extend_from_slice(&3.0f64.to_be_bytes());
    blob.extend_from_slice(&4.0f64.to_be_bytes());

    let err = geom_from_ewkb(&blob).expect_err("ZM payload must be rejected");
    assert!(err.message().contains("unsupported coordinate dimensions"));
}

#[test]
fn geom_from_ewkb_and_as_ewkb_roundtrip() {
    let blob = geom_from_text("LINESTRING(0 0,1 1)", Some(4326)).unwrap();
    let normalized = geom_from_ewkb(&blob).unwrap();
    let copied = as_ewkb(&normalized).unwrap();

    let (k1, srid1) = parse_ewkb(&blob).unwrap();
    let (k2, srid2) = parse_ewkb(&copied).unwrap();
    assert_eq!(k1, k2);
    assert_eq!(format!("{:?}", decode(&blob)), format!("{:?}", decode(&copied)));
    assert_eq!(srid1, srid2);
}

#[test]
fn point_empty_is_supported_in_wkt_and_text_outputs() {
    let blob = geom_from_text("POINT EMPTY", Some(4326)).unwrap();
    assert_eq!(as_text(&blob).unwrap(), "POINT EMPTY");
    assert_eq!(as_ewkt(&blob).unwrap(), "SRID=4326;POINT EMPTY");
    assert!(is_empty_point_blob(&blob).unwrap());
    assert_eq!(geom_type_name(parse_ewkb_header(&blob).unwrap().geom_type), "ST_Point");
}

#[test]
fn point_empty_binary_roundtrip() {
    let blob = geom_from_text("POINT EMPTY", None).unwrap();
    let wkb = as_binary(&blob).unwrap();
    let restored = geom_from_wkb(&wkb, None).unwrap();
    assert_eq!(as_text(&restored).unwrap(), "POINT EMPTY");
}

#[test]
fn geom_from_text_accepts_geometrycollection_with_empty_point() {
    let blob = geom_from_text("GEOMETRYCOLLECTION(POINT EMPTY)", Some(4326)).unwrap();
    assert_eq!(extract_srid(&blob), Some(4326));
    match decode(&blob) {
        geo::Geometry::GeometryCollection(gc) => {
            assert_eq!(gc.0.len(), 0);
            assert_eq!(gc.coords_count(), 0);
        }
        other => panic!("expected an empty GeometryCollection, got {other:?}"),
    }
    assert_eq!(as_text(&blob).unwrap(), "GEOMETRYCOLLECTION EMPTY");
}

#[test]
fn geom_from_wkb_rejects_invalid_byte_order_marker() {
    let wkb = [0x02u8, 0, 0, 0, 0];
    let err = geom_from_wkb(&wkb, None).expect_err("must reject 0x02 byte order");
    assert!(matches!(err, SqliteGisError::InvalidEwkb(ref s) if s.contains("byte order marker")));
}

#[test]
fn geom_from_wkb_accepts_big_endian_input() {
    let mut wkb = vec![0x00u8];
    wkb.extend_from_slice(&WKB_POINT.to_be_bytes());
    wkb.extend_from_slice(&1.0f64.to_be_bytes());
    wkb.extend_from_slice(&2.0f64.to_be_bytes());
    let blob = geom_from_wkb(&wkb, Some(4326)).expect("BE POINT(1 2) must parse");
    assert_eq!(extract_srid(&blob), Some(4326));
    assert_eq!(as_text(&blob).unwrap(), "POINT(1 2)");
}

#[test]
fn geom_from_geojson_rejects_non_object_json() {
    let err = geom_from_geojson("[1,2,3]", None).expect_err("array json must error");
    assert!(matches!(err, SqliteGisError::Geozero(_)));
}

#[test]
fn as_ewkt_returns_plain_point_empty_for_no_srid_input() {
    let blob = geom_from_text("POINT EMPTY", None).unwrap();
    assert_eq!(as_ewkt(&blob).unwrap(), "POINT EMPTY");
}

#[test]
fn as_binary_emits_be_point_empty_for_be_input() {
    let mut blob = vec![0x00u8];
    blob.extend_from_slice(&WKB_POINT.to_be_bytes());
    blob.extend_from_slice(&f64::NAN.to_be_bytes());
    blob.extend_from_slice(&f64::NAN.to_be_bytes());

    let out = as_binary(&blob).expect("be POINT EMPTY round-trips");
    assert_eq!(out.len(), 21);
    assert_eq!(out[0], 0x00);
    assert_eq!(&out[1..5], &WKB_POINT.to_be_bytes());
    assert!(f64::from_be_bytes(out[5..13].try_into().unwrap()).is_nan());
    assert!(f64::from_be_bytes(out[13..21].try_into().unwrap()).is_nan());
}
