//! I/O and serialization functions.
//!
//! ST_AsText, ST_AsEWKT, ST_AsBinary, ST_AsEWKB, ST_AsGeoJSON,
//! ST_GeomFromText, ST_GeomFromWKB, ST_GeomFromEWKB, ST_GeomFromGeoJSON

use vstd::prelude::*;
use vstd::string::*;

use crate::spatial::codec::{
    decimal_i64, empty_collection_wkb, ewkb_geojson, ewkb_iso_wkb, ewkb_wkt, geojson_iso_wkb,
    geozero_empty_collection_wkb, geozero_ewkb_to_geojson, geozero_ewkb_to_wkb,
    geozero_ewkb_to_wkt, geozero_geojson_to_wkb, geozero_wkt_to_wkb, int_text, json_object_members,
    serde_json_object_members, wkt_iso_wkb,
};
use crate::spatial::error::{view_outcome, ErrSpec, Result, SqliteGisError};
use crate::spatial::ewkb::{
    empty_point_blob_spec, empty_point_ewkb, ensure_xy_only, extract_srid, header_spec,
    is_empty_point_blob, marker_of, parse_ewkb_header, point_empty_spec, push_u32, push_u64,
    stored_form, store_with_srid, too_short_msg, u32_at, u32_at_exec, u32_bytes, u64_bytes,
    validate_xy_ewkb_payload, write_empty_point, xy_payload_spec, xy_spec, EWKB_M_FLAG,
    EWKB_Z_FLAG, NAN_BITS, WKB_POINT,
};
use crate::spatial::functions::text::{
    compact_upper, gc_single_empty_point_text, is_empty_point_wkt, is_empty_point_wkt_spec,
    is_geometrycollection_single_empty_point_wkt, parens_exceed,
};
use crate::spatial::laws::{
    law_empty_point_reads_back, lemma_iso_wkb_has_no_srid, lemma_stored_form_srid,
    lemma_u32_at_shift, lemma_u32_roundtrip,
};
use crate::spatial::decode_guard::{ensure_ewkb_nesting_ok, nesting_spec};
use crate::spatial::wkb_walk::MAX_NESTING_DEPTH;

verus! {

/// GeoJSON of `POINT EMPTY`, as PostGIS writes it.
pub const EMPTY_POINT_GEOJSON: &'static str = "{\"type\":\"Point\",\"coordinates\":[]}";

/// Message for WKT nested deeper than [`MAX_NESTING_DEPTH`].
pub open spec fn wkt_too_deep_msg() -> Seq<char> {
    "WKT nesting exceeds the maximum depth of 256"@
}

/// Reject WKT whose parenthesis nesting exceeds [`MAX_NESTING_DEPTH`]
/// (geozero's WKT reader recurses per nested collection without a bound).
pub fn ensure_wkt_nesting_ok(wkt: &str) -> (r: Result<()>)
    ensures
        r is Ok <==> !parens_exceed(wkt.spec_bytes(), 0, 0, MAX_NESTING_DEPTH as int),
        r matches Err(e) ==> (e matches SqliteGisError::InvalidInput(m) && m@
            == wkt_too_deep_msg()),
{
    let bytes = wkt.as_bytes();
    let mut depth: usize = 0;
    let mut i: usize = 0;
    while i < bytes.len()
        invariant
            bytes@ == wkt.spec_bytes(),
            0 <= i <= bytes@.len(),
            depth <= MAX_NESTING_DEPTH,
            parens_exceed(bytes@, 0, 0, MAX_NESTING_DEPTH as int) == parens_exceed(
                bytes@,
                i as int,
                depth as int,
                MAX_NESTING_DEPTH as int,
            ),
        decreases bytes@.len() - i,
    {
        let byte = bytes[i];
        if byte == 40u8 {
            depth = depth + 1;
            if depth > MAX_NESTING_DEPTH {
                return Err(
                    SqliteGisError::InvalidInput(
                        String::from_str("WKT nesting exceeds the maximum depth of 256"),
                    ),
                );
            }
        } else if byte == 41u8 {
            depth = if depth == 0 {
                0
            } else {
                depth - 1
            };
        }
        i = i + 1;
    }
    Ok(())
}

/// What `ST_GeomFromText` gives for a WKT text (chars and UTF-8 bytes).
pub open spec fn geom_from_text_spec(wkt: Seq<char>, bytes: Seq<u8>, srid: Option<i32>) -> std::result::Result<Seq<u8>, ErrSpec> {
    if is_empty_point_wkt_spec(wkt) {
        Ok(empty_point_ewkb(srid))
    } else if compact_upper(wkt) == gc_single_empty_point_text() {
        stored_form(empty_collection_wkb(), srid)
    } else if parens_exceed(bytes, 0, 0, MAX_NESTING_DEPTH as int) {
        Err(ErrSpec::Input(wkt_too_deep_msg()))
    } else {
        match wkt_iso_wkb(wkt) {
            None => Err(ErrSpec::Codec),
            Some(w) => stored_form(w, srid),
        }
    }
}

/// Parse WKT (optionally with an SRID) into an EWKB blob.
pub fn geom_from_text(wkt: &str, srid: Option<i32>) -> (r: Result<Vec<u8>>)
    ensures
        view_outcome(geom_from_text_spec(wkt@, wkt.spec_bytes(), srid), r),
        r matches Ok(b) ==> header_srid(b@) == srid,
{
    if is_empty_point_wkt(wkt) {
        proof {
            law_empty_point_reads_back(srid);
        }
        return Ok(write_empty_point(srid));
    }
    if is_geometrycollection_single_empty_point_wkt(wkt) {
        let w = match geozero_empty_collection_wkb() {
            Ok(w) => w,
            Err(e) => return Err(SqliteGisError::Geozero(e)),
        };
        proof {
            lemma_stored_form_srid(w@, srid);
        }
        return store_with_srid(w, srid);
    }
    ensure_wkt_nesting_ok(wkt)?;
    let w = match geozero_wkt_to_wkb(wkt) {
        Ok(w) => w,
        Err(e) => return Err(SqliteGisError::Geozero(e)),
    };
    proof {
        lemma_stored_form_srid(w@, srid);
    }
    store_with_srid(w, srid)
}

/// The raw type word of a WKB buffer, or the error for a short buffer or a
/// bad byte order marker.
pub open spec fn raw_type_spec(b: Seq<u8>) -> std::result::Result<u32, ErrSpec> {
    if b.len() < 5 {
        Err(ErrSpec::Ewkb(too_short_msg(b.len())))
    } else if !(b[0] == 1u8 || b[0] == 0u8) {
        Err(ErrSpec::Ewkb("invalid byte order marker"@))
    } else {
        Ok(u32_at(b, 1, b[0] == 1u8))
    }
}

fn read_raw_wkb_type(wkb: &[u8]) -> (r: Result<u32>)
    ensures
        crate::spatial::error::outcome(raw_type_spec(wkb@), r),
{
    if wkb.len() < 5 {
        let n = crate::spatial::codec::decimal_u64(wkb.len() as u64);
        let msg = String::from_str("blob too short: got ").concat(n.as_str()).concat(
            " bytes, need at least 5",
        );
        return Err(SqliteGisError::InvalidEwkb(msg));
    }
    let little_endian = if wkb[0] == 1u8 {
        true
    } else if wkb[0] == 0u8 {
        false
    } else {
        return Err(crate::spatial::ewkb::invalid_ewkb("invalid byte order marker"));
    };
    Ok(u32_at_exec(wkb, 1, little_endian))
}

/// Z and M of a type word: the EWKB flags when either is set, otherwise
/// the ISO WKB thousands (1000 Z, 2000 M, 3000 ZM).
pub open spec fn zm_of_raw(raw: u32) -> (bool, bool) {
    let z = raw & EWKB_Z_FLAG != 0;
    let m = raw & EWKB_M_FLAG != 0;
    if z || m {
        (z, m)
    } else {
        let dim = raw / 1000;
        if dim == 1 {
            (true, false)
        } else if dim == 2 {
            (false, true)
        } else if dim == 3 {
            (true, true)
        } else {
            (false, false)
        }
    }
}

fn wkb_has_z_or_m(raw_type: u32) -> (r: (bool, bool))
    ensures
        r == zm_of_raw(raw_type),
{
    let has_ewkb_z = (raw_type & EWKB_Z_FLAG) != 0;
    let has_ewkb_m = (raw_type & EWKB_M_FLAG) != 0;
    if has_ewkb_z || has_ewkb_m {
        return (has_ewkb_z, has_ewkb_m);
    }
    let dim_code = raw_type / 1000;
    if dim_code == 1 {
        (true, false)
    } else if dim_code == 2 {
        (false, true)
    } else if dim_code == 3 {
        (true, true)
    } else {
        (false, false)
    }
}

/// What `ST_GeomFromWKB` gives for a WKB buffer.
pub open spec fn geom_from_wkb_spec(b: Seq<u8>, srid: Option<i32>) -> std::result::Result<Seq<u8>, ErrSpec> {
    match raw_type_spec(b) {
        Err(e) => Err(e),
        Ok(raw) => match xy_spec(zm_of_raw(raw).0, zm_of_raw(raw).1) {
            Err(e) => Err(e),
            Ok(_) => match empty_point_blob_spec(b) {
                Err(e) => Err(e),
                Ok(true) => Ok(empty_point_ewkb(srid)),
                Ok(false) => match nesting_spec(b) {
                    Err(e) => Err(e),
                    Ok(_) => match ewkb_iso_wkb(b) {
                        None => Err(ErrSpec::Codec),
                        Some(w) => stored_form(w, srid),
                    },
                },
            },
        },
    }
}

/// Parse ISO WKB bytes (optionally override SRID) into an EWKB blob.
pub fn geom_from_wkb(wkb: &[u8], srid: Option<i32>) -> (r: Result<Vec<u8>>)
    ensures
        view_outcome(geom_from_wkb_spec(wkb@, srid), r),
        r matches Ok(b) ==> header_srid(b@) == srid,
{
    let raw_type = read_raw_wkb_type(wkb)?;
    let (has_z, has_m) = wkb_has_z_or_m(raw_type);
    ensure_xy_only(has_z, has_m)?;
    if is_empty_point_blob(wkb)? {
        proof {
            law_empty_point_reads_back(srid);
        }
        return Ok(write_empty_point(srid));
    }
    ensure_ewkb_nesting_ok(wkb)?;
    let w = match geozero_ewkb_to_wkb(wkb) {
        Ok(w) => w,
        Err(e) => return Err(SqliteGisError::Geozero(e)),
    };
    proof {
        lemma_stored_form_srid(w@, srid);
    }
    store_with_srid(w, srid)
}

/// A validated blob passes through unchanged.
pub open spec fn passthrough_spec(b: Seq<u8>) -> std::result::Result<Seq<u8>, ErrSpec> {
    match xy_payload_spec(b) {
        Err(e) => Err(e),
        Ok(_) => Ok(b),
    }
}

/// Validate and pass through an EWKB blob without rewriting bytes.
pub fn geom_from_ewkb(ewkb: &[u8]) -> (r: Result<Vec<u8>>)
    ensures
        view_outcome(passthrough_spec(ewkb@), r),
{
    let _ = validate_xy_ewkb_payload(ewkb)?;
    Ok(vstd::slice::slice_to_vec(ewkb))
}

/// Whether serde_json reads `json` as an object whose `type` is the string
/// `Point` and whose `coordinates` is an empty array.
pub open spec fn json_empty_point_spec(json: Seq<char>) -> bool {
    match json_object_members(json, "type"@, "coordinates"@) {
        Some((Some(t), Some(n))) => t == "Point"@ && n == 0,
        _ => false,
    }
}

fn is_empty_point_geojson(json: &str) -> (r: bool)
    ensures
        r == json_empty_point_spec(json@),
{
    match serde_json_object_members(json, "type", "coordinates") {
        Some((Some(t), Some(n))) => {
            let point = String::from_str("Point");
            t == point && n == 0
        },
        _ => false,
    }
}

/// The SRID GeoJSON input gets: the given one, else 4326.
pub open spec fn geojson_srid(srid: Option<i32>) -> Option<i32> {
    match srid {
        Some(s) => Some(s),
        None => Some(4326),
    }
}

/// What `ST_GeomFromGeoJSON` gives for a GeoJSON text.
pub open spec fn geom_from_geojson_spec(json: Seq<char>, srid: Option<i32>) -> std::result::Result<Seq<u8>, ErrSpec> {
    match geojson_iso_wkb(json) {
        Some(w) => stored_form(w, geojson_srid(srid)),
        None => if json_empty_point_spec(json) {
            Ok(empty_point_ewkb(geojson_srid(srid)))
        } else {
            Err(ErrSpec::Codec)
        },
    }
}

/// Parse a GeoJSON string into an EWKB blob (SRID = 4326 by default, per spec).
pub fn geom_from_geojson(json: &str, srid: Option<i32>) -> (r: Result<Vec<u8>>)
    ensures
        view_outcome(geom_from_geojson_spec(json@, srid), r),
        r matches Ok(b) ==> header_srid(b@) == geojson_srid(srid),
{
    let effective_srid = match srid {
        Some(s) => Some(s),
        None => Some(4326i32),
    };
    match geozero_geojson_to_wkb(json) {
        Ok(w) => {
            proof {
                lemma_stored_form_srid(w@, effective_srid);
            }
            store_with_srid(w, effective_srid)
        },
        Err(e) => if is_empty_point_geojson(json) {
            proof {
                law_empty_point_reads_back(effective_srid);
            }
            Ok(write_empty_point(effective_srid))
        } else {
            Err(SqliteGisError::Geozero(e))
        },
    }
}

/// What `ST_AsText` gives for a blob.
pub open spec fn as_text_spec(b: Seq<u8>) -> std::result::Result<Seq<char>, ErrSpec> {
    match empty_point_blob_spec(b) {
        Err(e) => Err(e),
        Ok(true) => Ok("POINT EMPTY"@),
        Ok(false) => match nesting_spec(b) {
            Err(e) => Err(e),
            Ok(_) => match ewkb_wkt(b) {
                None => Err(ErrSpec::Codec),
                Some(t) => Ok(t),
            },
        },
    }
}

/// Convert an EWKB blob to WKT text.
pub fn as_text(blob: &[u8]) -> (r: Result<String>)
    ensures
        view_outcome(as_text_spec(blob@), r),
{
    if is_empty_point_blob(blob)? {
        return Ok(String::from_str("POINT EMPTY"));
    }
    ensure_ewkb_nesting_ok(blob)?;
    match geozero_ewkb_to_wkt(blob) {
        Ok(t) => Ok(t),
        Err(e) => Err(SqliteGisError::Geozero(e)),
    }
}

/// The `SRID=n;` prefix of EWKT, empty without an SRID.
pub open spec fn srid_prefix(srid: Option<i32>) -> Seq<char> {
    match srid {
        Some(s) => "SRID="@ + int_text(s as int) + ";"@,
        None => Seq::empty(),
    }
}

/// The SRID in a blob's header (`None` for a malformed header).
pub open spec fn header_srid(b: Seq<u8>) -> Option<i32> {
    match header_spec(b) {
        Ok(h) => h.srid,
        Err(_) => None,
    }
}

/// What `ST_AsEWKT` gives for a blob.
pub open spec fn as_ewkt_spec(b: Seq<u8>) -> std::result::Result<Seq<char>, ErrSpec> {
    match as_text_spec(b) {
        Err(e) => Err(e),
        Ok(t) => Ok(srid_prefix(header_srid(b)) + t),
    }
}

/// Convert an EWKB blob to EWKT text (`SRID=n;WKT`).
pub fn as_ewkt(blob: &[u8]) -> (r: Result<String>)
    ensures
        view_outcome(as_ewkt_spec(blob@), r),
{
    let srid = extract_srid(blob);
    if is_empty_point_blob(blob)? {
        if let Some(s) = srid {
            let n = decimal_i64(s as i64);
            return Ok(
                String::from_str("SRID=").concat(n.as_str()).concat(";").concat("POINT EMPTY"),
            );
        }
        return Ok(String::from_str("POINT EMPTY"));
    }
    ensure_ewkb_nesting_ok(blob)?;
    let wkt = match geozero_ewkb_to_wkt(blob) {
        Ok(t) => t,
        Err(e) => return Err(SqliteGisError::Geozero(e)),
    };
    if let Some(s) = srid {
        let n = decimal_i64(s as i64);
        Ok(String::from_str("SRID=").concat(n.as_str()).concat(";").concat(wkt.as_str()))
    } else {
        Ok(wkt)
    }
}

/// ISO WKB of `POINT EMPTY` in the given byte order.
pub open spec fn empty_point_wkb(little_endian: bool) -> Seq<u8> {
    seq![marker_of(little_endian)] + u32_bytes(WKB_POINT, little_endian) + u64_bytes(
        NAN_BITS,
        little_endian,
    ) + u64_bytes(NAN_BITS, little_endian)
}

/// `POINT EMPTY` as plain WKB carries no SRID.
proof fn lemma_empty_point_wkb_header(le: bool)
    ensures
        header_spec(empty_point_wkb(le)) matches Ok(h) && h.srid is None,
{
    let w = empty_point_wkb(le);
    let tb = u32_bytes(WKB_POINT, le);
    assert(w[0] == marker_of(le));
    assert forall|i: int| 0 <= i < 4 implies #[trigger] w[1 + i] == tb[i] by {}
    lemma_u32_at_shift(w, 1, tb, le);
    lemma_u32_roundtrip(WKB_POINT, le);
    assert(1u32 & 0x20000000u32 == 0) by (bit_vector);
}

/// What `ST_AsBinary` gives for a blob.
pub open spec fn as_binary_spec(b: Seq<u8>) -> std::result::Result<Seq<u8>, ErrSpec> {
    match header_spec(b) {
        Err(e) => Err(e),
        Ok(h) => match xy_spec(h.has_z, h.has_m) {
            Err(e) => Err(e),
            Ok(_) => match point_empty_spec(b, h) {
                Err(e) => Err(e),
                Ok(true) => Ok(empty_point_wkb(h.little_endian)),
                Ok(false) => match nesting_spec(b) {
                    Err(e) => Err(e),
                    Ok(_) => match ewkb_iso_wkb(b) {
                        None => Err(ErrSpec::Codec),
                        Some(w) => Ok(w),
                    },
                },
            },
        },
    }
}

/// Convert an EWKB blob to ISO WKB bytes (strips SRID).
pub fn as_binary(blob: &[u8]) -> (r: Result<Vec<u8>>)
    ensures
        view_outcome(as_binary_spec(blob@), r),
        r matches Ok(w) ==> header_spec(w@) matches Ok(h) && h.srid is None,
{
    let header = parse_ewkb_header(blob)?;
    ensure_xy_only(header.has_z, header.has_m)?;
    if is_empty_point_blob(blob)? {
        let mut out: Vec<u8> = Vec::new();
        out.push(if header.little_endian {
            1u8
        } else {
            0u8
        });
        push_u32(&mut out, WKB_POINT, header.little_endian);
        push_u64(&mut out, NAN_BITS, header.little_endian);
        push_u64(&mut out, NAN_BITS, header.little_endian);
        proof {
            assert(out@ =~= empty_point_wkb(header.little_endian));
            lemma_empty_point_wkb_header(header.little_endian);
        }
        return Ok(out);
    }
    ensure_ewkb_nesting_ok(blob)?;
    match geozero_ewkb_to_wkb(blob) {
        Ok(w) => {
            proof {
                lemma_iso_wkb_has_no_srid(w@);
            }
            Ok(w)
        },
        Err(e) => Err(SqliteGisError::Geozero(e)),
    }
}

/// Return the EWKB blob as-is (identity for well-formed input).
pub fn as_ewkb(blob: &[u8]) -> (r: Result<Vec<u8>>)
    ensures
        view_outcome(passthrough_spec(blob@), r),
{
    geom_from_ewkb(blob)
}

/// What `ST_AsGeoJSON` gives for a blob.
pub open spec fn as_geojson_spec(b: Seq<u8>) -> std::result::Result<Seq<char>, ErrSpec> {
    match empty_point_blob_spec(b) {
        Err(e) => Err(e),
        Ok(true) => Ok(EMPTY_POINT_GEOJSON@),
        Ok(false) => match nesting_spec(b) {
            Err(e) => Err(e),
            Ok(_) => match ewkb_geojson(b) {
                None => Err(ErrSpec::Codec),
                Some(t) => Ok(t),
            },
        },
    }
}

/// Convert an EWKB blob to GeoJSON text.
pub fn as_geojson(blob: &[u8]) -> (r: Result<String>)
    ensures
        view_outcome(as_geojson_spec(blob@), r),
{
    if is_empty_point_blob(blob)? {
        return Ok(String::from_str(EMPTY_POINT_GEOJSON));
    }
    ensure_ewkb_nesting_ok(blob)?;
    match geozero_ewkb_to_geojson(blob) {
        Ok(t) => Ok(t),
        Err(e) => Err(SqliteGisError::Geozero(e)),
    }
}

} // verus!
