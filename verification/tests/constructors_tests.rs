use sqlitegis::spatial::ewkb::{extract_srid, geom_type_name, parse_ewkb_header};
use sqlitegis::spatial::functions::constructors::{st_collect, tile_grid_size};
use sqlitegis::spatial::functions::io::{as_text, geom_from_text};
use sqlitegis::SqliteGisError;

#[test]
fn st_tile_envelope_rejects_invalid_inputs() {
    assert!(tile_grid_size(32, 0, 0).is_err());
    assert!(tile_grid_size(1, 2, 0).is_err());
    assert!(tile_grid_size(1, 0, 2).is_err());
}

#[test]
fn tile_grid_size_counts_tiles_per_side() {
    assert_eq!(tile_grid_size(0, 0, 0).unwrap(), 1);
    assert_eq!(tile_grid_size(1, 1, 1).unwrap(), 2);
    assert_eq!(tile_grid_size(10, 1023, 0).unwrap(), 1024);
    assert_eq!(tile_grid_size(31, 0x7fff_ffff, 0x7fff_ffff).unwrap(), 0x8000_0000);
}

#[test]
fn tile_grid_size_error_texts() {
    match tile_grid_size(32, 0, 0) {
        Err(SqliteGisError::InvalidInput(m)) => {
            assert_eq!(m, "zoom level 32 exceeds maximum of 31")
        }
        other => panic!("unexpected {other:?}"),
    }
    match tile_grid_size(2, 4, 1) {
        Err(SqliteGisError::InvalidInput(m)) => {
            assert_eq!(m, "tile coordinates (4, 1) out of range for zoom 2 (max 3)")
        }
        other => panic!("unexpected {other:?}"),
    }
}

#[test]
fn st_collect_mixed_srid_errors() {
    let a = geom_from_text("POINT(0 0)", Some(4326)).unwrap();
    let b = geom_from_text("POINT(1 1)", None).unwrap();
    assert!(st_collect(&a, &b).is_err());
}

#[test]
fn st_collect_success() {
    let a = geom_from_text("POINT(0 0)", Some(4326)).unwrap();
    let b = geom_from_text("POINT(1 1)", Some(4326)).unwrap();
    let gc = st_collect(&a, &b).unwrap();
    assert_eq!(extract_srid(&gc), Some(4326));
    let header = parse_ewkb_header(&gc).unwrap();
    assert_eq!(geom_type_name(header.geom_type), "ST_GeometryCollection");
    let count = u32::from_le_bytes(gc[header.data_offset..header.data_offset + 4].try_into().unwrap());
    assert_eq!(count, 2);
}

#[test]
fn st_collect_keeps_both_parts_in_order() {
    let a = geom_from_text("LINESTRING(0 0,1 1)", None).unwrap();
    let b = geom_from_text("POINT(2 3)", None).unwrap();
    let gc = st_collect(&a, &b).unwrap();
    assert_eq!(as_text(&gc).unwrap(), "GEOMETRYCOLLECTION(LINESTRING(0 0,1 1),POINT(2 3))");
}

#[test]
fn st_collect_takes_an_empty_point_as_a_nan_point() {
    let a = geom_from_text("POINT EMPTY", Some(3857)).unwrap();
    let b = geom_from_text("POINT(1 1)", Some(3857)).unwrap();
    let gc = st_collect(&a, &b).unwrap();
    assert_eq!(extract_srid(&gc), Some(3857));
    let x = f64::from_le_bytes(gc[18..26].try_into().unwrap());
    let y = f64::from_le_bytes(gc[26..34].try_into().unwrap());
    assert!(x.is_nan() && y.is_nan());
}

#[test]
fn st_collect_rejects_a_truncated_operand() {
    let a = geom_from_text("POINT(0 0)", None).unwrap();
    let mut b = geom_from_text("LINESTRING(0 0,1 1)", None).unwrap();
    b.truncate(b.len() - 4);
    assert!(st_collect(&a, &b).is_err());
}
