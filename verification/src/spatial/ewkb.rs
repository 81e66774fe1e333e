//! EWKB (Extended Well-Known Binary) header parsing and rewriting.
//!
//! Wire format:
//!   \[0x01|0x00\]: byte order marker (little-endian or big-endian)
//!   \[u32\]: geometry type with flags (in the declared byte order)
//!     Bit 29 (0x20000000): SRID present
//!     Bit 31 (0x80000000): Z dimension
//!     Bit 30 (0x40000000): M dimension
//!     Bits 0-28: geometry type (1=Point, 2=LineString, etc.)
//!   \[i32\]: SRID (only when SRID flag set, in declared byte order)
//!   \[rest\]: ISO WKB geometry payload

use vstd::prelude::*;
use vstd::string::*;

use crate::spatial::codec::{GeoKind, decimal_u64, ewkb_geo_kind, geozero_decode_ewkb, int_text};
use crate::spatial::error::{outcome, ErrSpec, SqliteGisError};

pub use crate::spatial::decode_guard::ensure_ewkb_nesting_ok;
use crate::spatial::decode_guard::{nesting_spec, srid_stripped};
pub use crate::spatial::wkb_walk::{extract_mbr, BboxBits, MAX_NESTING_DEPTH};

verus! {

/// EWKB type flag: SRID is present immediately after the type word.
pub const EWKB_SRID_FLAG: u32 = 0x20000000;

/// EWKB type flag: coordinates include a Z dimension.
pub const EWKB_Z_FLAG: u32 = 0x80000000;

/// EWKB type flag: coordinates include an M (measure) dimension.
pub const EWKB_M_FLAG: u32 = 0x40000000;

/// The bits of the type word that hold the geometry type code.
pub const WKB_TYPE_MASK: u32 = 0x1FFFFFFF;

/// ISO WKB geometry type code: Point.
pub const WKB_POINT: u32 = 1;

/// ISO WKB geometry type code: LineString.
pub const WKB_LINESTRING: u32 = 2;

/// ISO WKB geometry type code: Polygon.
pub const WKB_POLYGON: u32 = 3;

/// ISO WKB geometry type code: MultiPoint.
pub const WKB_MULTIPOINT: u32 = 4;

/// ISO WKB geometry type code: MultiLineString.
pub const WKB_MULTILINESTRING: u32 = 5;

/// ISO WKB geometry type code: MultiPolygon.
pub const WKB_MULTIPOLYGON: u32 = 6;

/// ISO WKB geometry type code: GeometryCollection.
pub const WKB_GEOMETRYCOLLECTION: u32 = 7;

// ---------------------------------------------------------------------
// Byte-level model
// ---------------------------------------------------------------------

/// The `u32` whose little-endian bytes are `b0 b1 b2 b3`.
pub open spec fn u32_of_le(b0: u8, b1: u8, b2: u8, b3: u8) -> u32 {
    (b0 as u32) | ((b1 as u32) << 8u32) | ((b2 as u32) << 16u32) | ((b3 as u32) << 24u32)
}

/// The `u32` stored at `off` in `b`, in the given byte order.
pub open spec fn u32_at(b: Seq<u8>, off: int, little_endian: bool) -> u32 {
    if little_endian {
        u32_of_le(b[off], b[off + 1], b[off + 2], b[off + 3])
    } else {
        u32_of_le(b[off + 3], b[off + 2], b[off + 1], b[off])
    }
}

/// The four bytes of `v` in the given byte order.
pub open spec fn u32_bytes(v: u32, little_endian: bool) -> Seq<u8> {
    let b0 = (v & 0xffu32) as u8;
    let b1 = ((v >> 8u32) & 0xffu32) as u8;
    let b2 = ((v >> 16u32) & 0xffu32) as u8;
    let b3 = ((v >> 24u32) & 0xffu32) as u8;
    if little_endian {
        seq![b0, b1, b2, b3]
    } else {
        seq![b3, b2, b1, b0]
    }
}

/// The `u64` whose little-endian bytes are `b[off..off + 8]`.
pub open spec fn u64_of_le(b: Seq<u8>, off: int) -> u64 {
    (b[off] as u64) | ((b[off + 1] as u64) << 8u64) | ((b[off + 2] as u64) << 16u64) | ((
    b[off + 3] as u64) << 24u64) | ((b[off + 4] as u64) << 32u64) | ((b[off + 5] as u64)
        << 40u64) | ((b[off + 6] as u64) << 48u64) | ((b[off + 7] as u64) << 56u64)
}

/// The `u64` whose big-endian bytes are `b[off..off + 8]`.
pub open spec fn u64_of_be(b: Seq<u8>, off: int) -> u64 {
    (b[off + 7] as u64) | ((b[off + 6] as u64) << 8u64) | ((b[off + 5] as u64) << 16u64) | ((
    b[off + 4] as u64) << 24u64) | ((b[off + 3] as u64) << 32u64) | ((b[off + 2] as u64)
        << 40u64) | ((b[off + 1] as u64) << 48u64) | ((b[off] as u64) << 56u64)
}

/// The 64-bit word (an IEEE-754 double's bit pattern) stored at `off`.
pub open spec fn u64_at(b: Seq<u8>, off: int, little_endian: bool) -> u64 {
    if little_endian {
        u64_of_le(b, off)
    } else {
        u64_of_be(b, off)
    }
}

/// The eight bytes of `v` in the given byte order.
pub open spec fn u64_bytes(v: u64, little_endian: bool) -> Seq<u8> {
    let le = seq![
        (v & 0xff) as u8,
        ((v >> 8u64) & 0xff) as u8,
        ((v >> 16u64) & 0xff) as u8,
        ((v >> 24u64) & 0xff) as u8,
        ((v >> 32u64) & 0xff) as u8,
        ((v >> 40u64) & 0xff) as u8,
        ((v >> 48u64) & 0xff) as u8,
        ((v >> 56u64) & 0xff) as u8,
    ];
    if little_endian {
        le
    } else {
        le.reverse()
    }
}

/// The byte order a marker byte declares: `0x01` little, `0x00` big.
pub open spec fn byte_order_of(marker: u8) -> Option<bool> {
    if marker == 1u8 {
        Some(true)
    } else if marker == 0u8 {
        Some(false)
    } else {
        None
    }
}

/// The marker byte of a byte order.
pub open spec fn marker_of(little_endian: bool) -> u8 {
    if little_endian {
        1u8
    } else {
        0u8
    }
}

/// The raw type word (code plus flags) of a blob with a valid marker.
pub open spec fn raw_type_of(b: Seq<u8>) -> u32 {
    u32_at(b, 1, b[0] == 1u8)
}

// ---------------------------------------------------------------------
// Header
// ---------------------------------------------------------------------

/// Parsed EWKB header metadata.
#[derive(Debug, Clone, Copy)]
pub struct EwkbHeader {
    /// Base geometry type code (1=Point, 2=LineString, up to 7=GeometryCollection).
    pub geom_type: u32,
    /// SRID embedded in the EWKB, if the SRID flag is set.
    pub srid: Option<i32>,
    /// Whether the geometry has Z coordinates.
    pub has_z: bool,
    /// Whether the geometry has M coordinates.
    pub has_m: bool,
    /// Byte offset where the geometry payload starts (after header + optional SRID).
    pub data_offset: usize,
    /// Whether numeric header fields are encoded in little-endian order.
    pub little_endian: bool,
}

/// Message for a blob shorter than the 5-byte minimal header.
pub open spec fn too_short_msg(len: nat) -> Seq<char> {
    "blob too short: got "@ + int_text(len as int) + " bytes, need at least 5"@
}

/// The header of `b`, or the text of the `InvalidEwkb` error it is rejected with.
pub open spec fn header_spec(b: Seq<u8>) -> std::result::Result<EwkbHeader, ErrSpec> {
    if b.len() < 5 {
        Err(ErrSpec::Ewkb(too_short_msg(b.len())))
    } else if byte_order_of(b[0]) is None {
        Err(ErrSpec::Ewkb("invalid byte order marker"@))
    } else {
        let le = b[0] == 1u8;
        let raw = u32_at(b, 1, le);
        let has_srid = raw & EWKB_SRID_FLAG != 0;
        if has_srid && b.len() < 9 {
            Err(ErrSpec::Ewkb("SRID flag set but blob too short"@))
        } else {
            Ok(
                EwkbHeader {
                    geom_type: raw & WKB_TYPE_MASK,
                    srid: if has_srid {
                        Some(u32_at(b, 5, le) as i32)
                    } else {
                        None
                    },
                    has_z: raw & EWKB_Z_FLAG != 0,
                    has_m: raw & EWKB_M_FLAG != 0,
                    data_offset: if has_srid {
                        9
                    } else {
                        5
                    },
                    little_endian: le,
                },
            )
        }
    }
}

/// Build an `InvalidEwkb` error from a static message.
pub(crate) fn invalid_ewkb(msg: &str) -> (e: SqliteGisError)
    ensures
        e matches SqliteGisError::InvalidEwkb(t) && t@ == msg@,
{
    SqliteGisError::InvalidEwkb(String::from_str(msg))
}

/// Read the `u32` at `offset` of `blob` in the given byte order.
pub(crate) fn u32_at_exec(blob: &[u8], offset: usize, little_endian: bool) -> (v: u32)
    requires
        offset + 4 <= blob@.len(),
    ensures
        v == u32_at(blob@, offset as int, little_endian),
{
    let _len = blob.len();
    let (b0, b1, b2, b3) = if little_endian {
        (blob[offset], blob[offset + 1], blob[offset + 2], blob[offset + 3])
    } else {
        (blob[offset + 3], blob[offset + 2], blob[offset + 1], blob[offset])
    };
    (b0 as u32) | ((b1 as u32) << 8u32) | ((b2 as u32) << 16u32) | ((b3 as u32) << 24u32)
}

/// Peek at the EWKB header without fully parsing the geometry.
pub fn parse_ewkb_header(blob: &[u8]) -> (r: crate::spatial::error::Result<EwkbHeader>)
    ensures
        outcome(header_spec(blob@), r),
{
    if blob.len() < 5 {
        let n = decimal_u64(blob.len() as u64);
        let msg = String::from_str("blob too short: got ").concat(n.as_str()).concat(
            " bytes, need at least 5",
        );
        return Err(SqliteGisError::InvalidEwkb(msg));
    }
    let little_endian = if blob[0] == 1u8 {
        true
    } else if blob[0] == 0u8 {
        false
    } else {
        return Err(invalid_ewkb("invalid byte order marker"));
    };
    let raw_type = u32_at_exec(blob, 1, little_endian);
    let has_srid = (raw_type & EWKB_SRID_FLAG) != 0;
    let has_z = (raw_type & EWKB_Z_FLAG) != 0;
    let has_m = (raw_type & EWKB_M_FLAG) != 0;
    let geom_type = raw_type & WKB_TYPE_MASK;

    let mut offset: usize = 5;
    let srid = if has_srid {
        if blob.len() < 9 {
            return Err(invalid_ewkb("SRID flag set but blob too short"));
        }
        let s = u32_at_exec(blob, 5, little_endian) as i32;
        offset = offset + 4;
        Some(s)
    } else {
        None
    };
    Ok(EwkbHeader { geom_type, srid, has_z, has_m, data_offset: offset, little_endian })
}

/// Extract only the SRID from an EWKB blob (cheap, no geometry parsing).
/// Malformed headers give `None`.
pub fn extract_srid(blob: &[u8]) -> (srid: Option<i32>)
    ensures
        srid == (match header_spec(blob@) {
            Ok(h) => h.srid,
            Err(_) => None,
        }),
{
    match parse_ewkb_header(blob) {
        Ok(h) => h.srid,
        Err(_) => None,
    }
}

// ---------------------------------------------------------------------
// Dimensions and SRIDs
// ---------------------------------------------------------------------

/// The label of a Z/M layout that cannot be processed as XY, if any.
pub open spec fn zm_label(has_z: bool, has_m: bool) -> Option<Seq<char>> {
    if has_z && has_m {
        Some("ZM"@)
    } else if has_z {
        Some("Z"@)
    } else if has_m {
        Some("M"@)
    } else {
        None
    }
}

/// XY layouts pass; any Z or M layout is rejected with its label.
pub open spec fn xy_spec(has_z: bool, has_m: bool) -> std::result::Result<(), ErrSpec> {
    match zm_label(has_z, has_m) {
        None => Ok(()),
        Some(l) => Err(ErrSpec::Dims(l)),
    }
}

/// Reject Z/M coordinate layouts when the operation can only process XY.
pub fn ensure_xy_only(has_z: bool, has_m: bool) -> (r: crate::spatial::error::Result<()>)
    ensures
        outcome(xy_spec(has_z, has_m), r),
{
    let dimensions = if has_z && has_m {
        "ZM"
    } else if has_z {
        "Z"
    } else if has_m {
        "M"
    } else {
        return Ok(());
    };
    Err(SqliteGisError::UnsupportedDimensions { dimensions })
}

/// SRID `None` (unknown) and `Some(0)` are the same SRID.
pub open spec fn srid_value(s: Option<i32>) -> i32 {
    match s {
        Some(v) => v,
        None => 0,
    }
}

/// Message for two SRIDs that differ.
pub open spec fn mixed_srid_msg(l: i32, r: i32) -> Seq<char> {
    "operation on mixed SRID geometries ("@ + int_text(l as int) + " != "@ + int_text(r as int)
        + ")"@
}

/// The SRID two operands share: `None` only when both are unknown.
pub open spec fn shared_srid(left: Option<i32>, right: Option<i32>) -> Option<i32> {
    if left is None && right is None {
        None
    } else {
        Some(srid_value(left))
    }
}

/// Equal SRID values give the shared SRID; different ones are rejected.
pub open spec fn matching_srid_spec(left: Option<i32>, right: Option<i32>) -> std::result::Result<
    Option<i32>,
    ErrSpec,
> {
    if srid_value(left) == srid_value(right) {
        Ok(shared_srid(left, right))
    } else {
        Err(ErrSpec::Input(mixed_srid_msg(srid_value(left), srid_value(right))))
    }
}

/// Enforce equal SRIDs for binary geometry operations.
///
/// Returns the shared SRID when both inputs are compatible.
pub fn ensure_matching_srid(left: Option<i32>, right: Option<i32>) -> (r:
    crate::spatial::error::Result<Option<i32>>)
    ensures
        outcome(matching_srid_spec(left, right), r),
{
    let l = match left {
        Some(v) => v,
        None => 0,
    };
    let r = match right {
        Some(v) => v,
        None => 0,
    };
    if l != r {
        let ls = crate::spatial::codec::decimal_i64(l as i64);
        let rs = crate::spatial::codec::decimal_i64(r as i64);
        let msg = String::from_str("operation on mixed SRID geometries (").concat(
            ls.as_str(),
        ).concat(" != ").concat(rs.as_str()).concat(")");
        return Err(SqliteGisError::InvalidInput(msg));
    }
    if left.is_none() && right.is_none() {
        Ok(None)
    } else {
        Ok(Some(l))
    }
}

// ---------------------------------------------------------------------
// Empty points and payload validation
// ---------------------------------------------------------------------

/// An IEEE-754 double bit pattern that is a NaN: all exponent bits set and
/// a non-zero fraction.
pub open spec fn f64_bits_nan(bits: u64) -> bool {
    &&& (bits >> 52u64) & 0x7ffu64 == 0x7ffu64
    &&& bits & 0xf_ffff_ffff_ffffu64 != 0
}

/// The bit pattern of `f64::NAN`, which the library writes for the
/// coordinates of `POINT EMPTY`.
pub const NAN_BITS: u64 = 0x7ff8_0000_0000_0000;

/// Read the 64-bit word at `offset` of `blob` in the given byte order.
pub(crate) fn u64_at_exec(blob: &[u8], offset: usize, little_endian: bool) -> (v: u64)
    requires
        offset + 8 <= blob@.len(),
    ensures
        v == u64_at(blob@, offset as int, little_endian),
{
    let _len = blob.len();
    if little_endian {
        (blob[offset] as u64) | ((blob[offset + 1] as u64) << 8u64) | ((blob[offset + 2] as u64)
            << 16u64) | ((blob[offset + 3] as u64) << 24u64) | ((blob[offset + 4] as u64)
            << 32u64) | ((blob[offset + 5] as u64) << 40u64) | ((blob[offset + 6] as u64)
            << 48u64) | ((blob[offset + 7] as u64) << 56u64)
    } else {
        (blob[offset + 7] as u64) | ((blob[offset + 6] as u64) << 8u64) | ((blob[offset + 5]
            as u64) << 16u64) | ((blob[offset + 4] as u64) << 24u64) | ((blob[offset + 3] as u64)
            << 32u64) | ((blob[offset + 2] as u64) << 40u64) | ((blob[offset + 1] as u64)
            << 48u64) | ((blob[offset] as u64) << 56u64)
    }
}

/// Whether a blob with header `h` is `POINT EMPTY` (a Point whose X and Y
/// are both NaN), or the text of the error for a truncated Point.
pub open spec fn point_empty_spec(b: Seq<u8>, h: EwkbHeader) -> std::result::Result<bool, ErrSpec> {
    if h.geom_type != WKB_POINT {
        Ok(false)
    } else {
        let dims: int = 2 + (if h.has_z {
            1int
        } else {
            0int
        }) + (if h.has_m {
            1int
        } else {
            0int
        });
        if b.len() < h.data_offset + 8 * dims {
            Err(
                ErrSpec::Ewkb(
                    "point payload truncated: got "@ + int_text(b.len() as int) + " bytes"@,
                ),
            )
        } else {
            Ok(
                f64_bits_nan(u64_at(b, h.data_offset as int, h.little_endian)) && f64_bits_nan(
                    u64_at(b, h.data_offset + 8, h.little_endian),
                ),
            )
        }
    }
}

/// Exec form of [`f64_bits_nan`].
pub(crate) fn bits_is_nan(bits: u64) -> (r: bool)
    ensures
        r == f64_bits_nan(bits),
{
    (bits >> 52u64) & 0x7ffu64 == 0x7ffu64 && bits & 0xf_ffff_ffff_ffffu64 != 0
}

fn point_is_empty_with_header(blob: &[u8], header: &EwkbHeader) -> (r:
    crate::spatial::error::Result<bool>)
    requires
        header_spec(blob@) == Ok::<EwkbHeader, ErrSpec>(*header),
    ensures
        outcome(point_empty_spec(blob@, *header), r),
{
    if header.geom_type != WKB_POINT {
        return Ok(false);
    }
    let dims: usize = 2 + (if header.has_z {
        1usize
    } else {
        0usize
    }) + (if header.has_m {
        1usize
    } else {
        0usize
    });
    let needed = header.data_offset + 8 * dims;
    if blob.len() < needed {
        let n = decimal_u64(blob.len() as u64);
        let msg = String::from_str("point payload truncated: got ").concat(n.as_str()).concat(
            " bytes",
        );
        return Err(SqliteGisError::InvalidEwkb(msg));
    }
    let x = u64_at_exec(blob, header.data_offset, header.little_endian);
    let y = u64_at_exec(blob, header.data_offset + 8, header.little_endian);
    Ok(bits_is_nan(x) && bits_is_nan(y))
}

/// Header first, then the empty-point test on it.
pub open spec fn empty_point_blob_spec(b: Seq<u8>) -> std::result::Result<bool, ErrSpec> {
    match header_spec(b) {
        Err(e) => Err(e),
        Ok(h) => point_empty_spec(b, h),
    }
}

/// Return true when the EWKB blob encodes `POINT EMPTY`.
pub fn is_empty_point_blob(blob: &[u8]) -> (r: crate::spatial::error::Result<bool>)
    ensures
        outcome(empty_point_blob_spec(blob@), r),
{
    let header = parse_ewkb_header(blob)?;
    point_is_empty_with_header(blob, &header)
}

/// The header of a blob whose payload geozero decodes (or that is
/// `POINT EMPTY`, which it does not need to decode).
pub open spec fn payload_spec(b: Seq<u8>) -> std::result::Result<EwkbHeader, ErrSpec> {
    match header_spec(b) {
        Err(e) => Err(e),
        Ok(h) => match point_empty_spec(b, h) {
            Err(e) => Err(e),
            Ok(true) => Ok(h),
            Ok(false) => match nesting_spec(b) {
                Err(e) => Err(e),
                Ok(_) => if ewkb_geo_kind(srid_stripped(b)) is Some {
                    Ok(h)
                } else {
                    Err(ErrSpec::Codec)
                },
            },
        },
    }
}

/// Validate EWKB header + payload without forcing XY-only dimensions.
pub fn validate_ewkb_payload(blob: &[u8]) -> (r: crate::spatial::error::Result<EwkbHeader>)
    ensures
        outcome(payload_spec(blob@), r),
{
    let header = parse_ewkb_header(blob)?;
    if !point_is_empty_with_header(blob, &header)? {
        ensure_ewkb_nesting_ok(blob)?;
        match geozero_decode_ewkb(blob) {
            Ok(_) => {},
            Err(e) => return Err(SqliteGisError::Geozero(e)),
        }
    }
    Ok(header)
}

/// [`payload_spec`], then the XY-only check on its header.
pub open spec fn xy_payload_spec(b: Seq<u8>) -> std::result::Result<EwkbHeader, ErrSpec> {
    match payload_spec(b) {
        Err(e) => Err(e),
        Ok(h) => match xy_spec(h.has_z, h.has_m) {
            Err(e) => Err(e),
            Ok(()) => Ok(h),
        },
    }
}

/// Validate EWKB header + payload and enforce XY-only coordinate dimensions.
pub fn validate_xy_ewkb_payload(blob: &[u8]) -> (r: crate::spatial::error::Result<EwkbHeader>)
    ensures
        outcome(xy_payload_spec(blob@), r),
{
    let header = validate_ewkb_payload(blob)?;
    ensure_xy_only(header.has_z, header.has_m)?;
    Ok(header)
}

// ---------------------------------------------------------------------
// Writing headers
// ---------------------------------------------------------------------

/// Append the four bytes of `v` in the given byte order.
pub(crate) fn push_u32(out: &mut Vec<u8>, v: u32, little_endian: bool)
    ensures
        final(out)@ == old(out)@ + u32_bytes(v, little_endian),
{
    let b0 = (v & 0xffu32) as u8;
    let b1 = ((v >> 8u32) & 0xffu32) as u8;
    let b2 = ((v >> 16u32) & 0xffu32) as u8;
    let b3 = ((v >> 24u32) & 0xffu32) as u8;
    if little_endian {
        out.push(b0);
        out.push(b1);
        out.push(b2);
        out.push(b3);
    } else {
        out.push(b3);
        out.push(b2);
        out.push(b1);
        out.push(b0);
    }
    proof {
        assert(final(out)@ =~= old(out)@ + u32_bytes(v, little_endian));
    }
}

/// Append `src[from..]`.
pub(crate) fn push_tail(out: &mut Vec<u8>, src: &[u8], from: usize)
    requires
        from <= src@.len(),
    ensures
        final(out)@ == old(out)@ + src@.subrange(from as int, src@.len() as int),
{
    let n = src.len();
    let mut i = from;
    while i < n
        invariant
            from <= i <= n,
            n == src@.len(),
            out@ == old(out)@ + src@.subrange(from as int, i as int),
        decreases n - i,
    {
        out.push(src[i]);
        i = i + 1;
        proof {
            assert(src@.subrange(from as int, i as int) =~= src@.subrange(
                from as int,
                i - 1,
            ).push(src@[i - 1]));
        }
    }
}

/// The bytes of `b` with an SRID inserted after its type word: same byte
/// order marker, type word with the SRID flag set, the SRID, then
/// everything from `payload_from` on.
pub open spec fn with_srid_bytes(b: Seq<u8>, payload_from: int, srid: i32) -> Seq<u8> {
    let le = b[0] == 1u8;
    seq![b[0]] + u32_bytes(raw_type_of(b) | EWKB_SRID_FLAG, le) + u32_bytes(srid as u32, le)
        + b.subrange(payload_from, b.len() as int)
}

/// What patching an SRID into an ISO WKB buffer gives.
pub open spec fn patch_spec(b: Seq<u8>, srid: i32) -> std::result::Result<Seq<u8>, ErrSpec> {
    if b.len() < 5 {
        Err(ErrSpec::Ewkb("WKB output too short"@))
    } else if byte_order_of(b[0]) is None {
        Err(ErrSpec::Ewkb("invalid byte order marker"@))
    } else {
        Ok(with_srid_bytes(b, 5, srid))
    }
}

/// Turn ISO WKB into EWKB by setting the SRID flag and inserting `srid_val`
/// after the type word, in the buffer's own byte order.
pub fn patch_wkb_with_srid(iso_wkb: &[u8], srid_val: i32) -> (r: crate::spatial::error::Result<
    Vec<u8>,
>)
    ensures
        match patch_spec(iso_wkb@, srid_val) {
            Ok(v) => r matches Ok(w) && w@ == v,
            Err(e) => r matches Err(x) && crate::spatial::error::error_matches(e, x),
        },
{
    if iso_wkb.len() < 5 {
        return Err(invalid_ewkb("WKB output too short"));
    }
    let little_endian = if iso_wkb[0] == 1u8 {
        true
    } else if iso_wkb[0] == 0u8 {
        false
    } else {
        return Err(invalid_ewkb("invalid byte order marker"));
    };
    let raw_type = u32_at_exec(iso_wkb, 1, little_endian);
    let ewkb_type = raw_type | EWKB_SRID_FLAG;
    let mut out: Vec<u8> = Vec::new();
    out.push(iso_wkb[0]);
    push_u32(&mut out, ewkb_type, little_endian);
    push_u32(&mut out, srid_val as u32, little_endian);
    push_tail(&mut out, iso_wkb, 5);
    proof {
        assert(out@ =~= with_srid_bytes(iso_wkb@, 5, srid_val));
    }
    Ok(out)
}

/// What rewriting the SRID of `b` gives: the payload is validated first,
/// then the header is rebuilt with the new SRID and the payload kept.
pub open spec fn set_srid_spec(b: Seq<u8>, srid: i32) -> std::result::Result<Seq<u8>, ErrSpec> {
    match payload_spec(b) {
        Err(e) => Err(e),
        Ok(h) => Ok(with_srid_bytes(b, h.data_offset as int, srid)),
    }
}

/// Rewrite the SRID in an existing EWKB blob without re-parsing the geometry.
pub fn set_srid(blob: &[u8], new_srid: i32) -> (r: crate::spatial::error::Result<Vec<u8>>)
    ensures
        match set_srid_spec(blob@, new_srid) {
            Ok(v) => r matches Ok(w) && w@ == v,
            Err(e) => r matches Err(x) && crate::spatial::error::error_matches(e, x),
        },
{
    // Validate full payload before rewriting header bytes so malformed EWKB
    // cannot be silently "fixed" by adding/replacing an SRID.
    let header = validate_ewkb_payload(blob)?;
    let mut out: Vec<u8> = Vec::new();
    out.push(if header.little_endian {
        1u8
    } else {
        0u8
    });
    let raw_type = u32_at_exec(blob, 1, header.little_endian);
    push_u32(&mut out, raw_type | EWKB_SRID_FLAG, header.little_endian);
    push_u32(&mut out, new_srid as u32, header.little_endian);
    push_tail(&mut out, blob, header.data_offset);
    proof {
        assert(out@ =~= with_srid_bytes(blob@, header.data_offset as int, new_srid));
    }
    Ok(out)
}

/// The bytes of `POINT EMPTY` as the library writes it: little-endian,
/// type Point (with the SRID flag and SRID when given), two NaN coordinates.
pub open spec fn empty_point_ewkb(srid: Option<i32>) -> Seq<u8> {
    let head = seq![1u8] + u32_bytes(
        if srid is Some {
            WKB_POINT | EWKB_SRID_FLAG
        } else {
            WKB_POINT
        },
        true,
    );
    let with_srid = match srid {
        Some(s) => head + u32_bytes(s as u32, true),
        None => head,
    };
    with_srid + u64_bytes(NAN_BITS, true) + u64_bytes(NAN_BITS, true)
}

/// Append the eight bytes of `v` in the given byte order.
pub(crate) fn push_u64(out: &mut Vec<u8>, v: u64, little_endian: bool)
    ensures
        final(out)@ == old(out)@ + u64_bytes(v, little_endian),
{
    let b0 = (v & 0xff) as u8;
    let b1 = ((v >> 8u64) & 0xff) as u8;
    let b2 = ((v >> 16u64) & 0xff) as u8;
    let b3 = ((v >> 24u64) & 0xff) as u8;
    let b4 = ((v >> 32u64) & 0xff) as u8;
    let b5 = ((v >> 40u64) & 0xff) as u8;
    let b6 = ((v >> 48u64) & 0xff) as u8;
    let b7 = ((v >> 56u64) & 0xff) as u8;
    if little_endian {
        out.push(b0);
        out.push(b1);
        out.push(b2);
        out.push(b3);
        out.push(b4);
        out.push(b5);
        out.push(b6);
        out.push(b7);
    } else {
        out.push(b7);
        out.push(b6);
        out.push(b5);
        out.push(b4);
        out.push(b3);
        out.push(b2);
        out.push(b1);
        out.push(b0);
    }
    proof {
        assert(final(out)@ =~= old(out)@ + u64_bytes(v, little_endian));
    }
}

/// Serialise `POINT EMPTY` with an optional SRID (the NaN-point branch of
/// the library's EWKB writer).
pub fn write_empty_point(srid: Option<i32>) -> (out: Vec<u8>)
    ensures
        out@ == empty_point_ewkb(srid),
{
    let mut out: Vec<u8> = Vec::new();
    out.push(1u8);
    let geom_type = if srid.is_some() {
        WKB_POINT | EWKB_SRID_FLAG
    } else {
        WKB_POINT
    };
    push_u32(&mut out, geom_type, true);
    match srid {
        Some(s) => push_u32(&mut out, s as u32, true),
        None => {},
    }
    push_u64(&mut out, NAN_BITS, true);
    push_u64(&mut out, NAN_BITS, true);
    out
}

/// Turn freshly written ISO WKB into the stored form: unchanged without an
/// SRID, patched with it otherwise.
pub open spec fn stored_form(wkb: Seq<u8>, srid: Option<i32>) -> std::result::Result<
    Seq<u8>,
    ErrSpec,
> {
    match srid {
        None => Ok(wkb),
        Some(s) => patch_spec(wkb, s),
    }
}

/// The SRID step of the library's EWKB writer, applied to ISO WKB produced
/// by geozero.
pub fn store_with_srid(iso_wkb: Vec<u8>, srid: Option<i32>) -> (r: crate::spatial::error::Result<
    Vec<u8>,
>)
    ensures
        match stored_form(iso_wkb@, srid) {
            Ok(v) => r matches Ok(w) && w@ == v,
            Err(e) => r matches Err(x) && crate::spatial::error::error_matches(e, x),
        },
{
    match srid {
        Some(s) => patch_wkb_with_srid(&iso_wkb, s),
        None => Ok(iso_wkb),
    }
}

// ---------------------------------------------------------------------
// Type names
// ---------------------------------------------------------------------

/// PostGIS-style name of a type code (flags masked off).
pub open spec fn st_type_name(code: u32) -> Seq<char> {
    if code == WKB_POINT {
        "ST_Point"@
    } else if code == WKB_LINESTRING {
        "ST_LineString"@
    } else if code == WKB_POLYGON {
        "ST_Polygon"@
    } else if code == WKB_MULTIPOINT {
        "ST_MultiPoint"@
    } else if code == WKB_MULTILINESTRING {
        "ST_MultiLineString"@
    } else if code == WKB_MULTIPOLYGON {
        "ST_MultiPolygon"@
    } else if code == WKB_GEOMETRYCOLLECTION {
        "ST_GeometryCollection"@
    } else {
        "ST_Unknown"@
    }
}

/// Return a human-readable geometry type name (PostGIS convention).
pub fn geom_type_name(raw_type: u32) -> (name: &'static str)
    ensures
        name@ == st_type_name(raw_type & WKB_TYPE_MASK),
{
    let code = raw_type & WKB_TYPE_MASK;
    if code == WKB_POINT {
        "ST_Point"
    } else if code == WKB_LINESTRING {
        "ST_LineString"
    } else if code == WKB_POLYGON {
        "ST_Polygon"
    } else if code == WKB_MULTIPOINT {
        "ST_MultiPoint"
    } else if code == WKB_MULTILINESTRING {
        "ST_MultiLineString"
    } else if code == WKB_MULTIPOLYGON {
        "ST_MultiPolygon"
    } else if code == WKB_GEOMETRYCOLLECTION {
        "ST_GeometryCollection"
    } else {
        "ST_Unknown"
    }
}

/// The name `geometry_type_name` gives to a `geo` geometry variant.
pub open spec fn kind_name(k: GeoKind) -> Seq<char> {
    match k {
        GeoKind::Point => "Point"@,
        GeoKind::Line => "Line"@,
        GeoKind::LineString => "LineString"@,
        GeoKind::Polygon => "Polygon"@,
        GeoKind::MultiPoint => "MultiPoint"@,
        GeoKind::MultiLineString => "MultiLineString"@,
        GeoKind::MultiPolygon => "MultiPolygon"@,
        GeoKind::GeometryCollection => "GeometryCollection"@,
        GeoKind::Rect => "Rect"@,
        GeoKind::Triangle => "Triangle"@,
    }
}

/// Return a static string naming a `geo::Geometry` variant (for diagnostics).
pub fn geometry_type_name(kind: GeoKind) -> (name: &'static str)
    ensures
        name@ == kind_name(kind),
{
    match kind {
        GeoKind::Point => "Point",
        GeoKind::Line => "Line",
        GeoKind::LineString => "LineString",
        GeoKind::Polygon => "Polygon",
        GeoKind::MultiPoint => "MultiPoint",
        GeoKind::MultiLineString => "MultiLineString",
        GeoKind::MultiPolygon => "MultiPolygon",
        GeoKind::GeometryCollection => "GeometryCollection",
        GeoKind::Rect => "Rect",
        GeoKind::Triangle => "Triangle",
    }
}

// ---------------------------------------------------------------------
// Decoding
// ---------------------------------------------------------------------

/// What decoding a blob gives: the variant of the geometry and the SRID.
/// `POINT EMPTY` is not handed to the decoder and comes back as a Point.
pub open spec fn parse_spec(b: Seq<u8>) -> std::result::Result<(GeoKind, Option<i32>), ErrSpec> {
    match header_spec(b) {
        Err(e) => Err(e),
        Ok(h) => match xy_spec(h.has_z, h.has_m) {
            Err(e) => Err(e),
            Ok(_) => match point_empty_spec(b, h) {
                Err(e) => Err(e),
                Ok(true) => Ok((GeoKind::Point, h.srid)),
                Ok(false) => match nesting_spec(b) {
                    Err(e) => Err(e),
                    Ok(_) => match ewkb_geo_kind(srid_stripped(b)) {
                        None => Err(ErrSpec::Codec),
                        Some(k) => Ok((k, h.srid)),
                    },
                },
            },
        },
    }
}

/// Decode an EWKB blob (XY only): the variant of the `geo` geometry it
/// decodes into, and its SRID.
pub fn parse_ewkb(blob: &[u8]) -> (r: crate::spatial::error::Result<(GeoKind, Option<i32>)>)
    ensures
        outcome(parse_spec(blob@), r),
{
    let header = parse_ewkb_header(blob)?;
    ensure_xy_only(header.has_z, header.has_m)?;
    if point_is_empty_with_header(blob, &header)? {
        return Ok((GeoKind::Point, header.srid));
    }
    ensure_ewkb_nesting_ok(blob)?;
    match geozero_decode_ewkb(blob) {
        Ok(kind) => Ok((kind, header.srid)),
        Err(e) => Err(SqliteGisError::Geozero(e)),
    }
}

/// Decode both blobs, then require a shared SRID.
pub open spec fn parse_pair_spec(a: Seq<u8>, b: Seq<u8>) -> std::result::Result<
    (GeoKind, GeoKind, Option<i32>),
    ErrSpec,
> {
    match parse_spec(a) {
        Err(e) => Err(e),
        Ok((ka, sa)) => match parse_spec(b) {
            Err(e) => Err(e),
            Ok((kb, sb)) => match matching_srid_spec(sa, sb) {
                Err(e) => Err(e),
                Ok(s) => Ok((ka, kb, s)),
            },
        },
    }
}

/// Parse two EWKB blobs and enforce matching SRID.
pub fn parse_ewkb_pair(a: &[u8], b: &[u8]) -> (r: crate::spatial::error::Result<
    (GeoKind, GeoKind, Option<i32>),
>)
    ensures
        outcome(parse_pair_spec(a@, b@), r),
{
    let (ka, srid_a) = parse_ewkb(a)?;
    let (kb, srid_b) = parse_ewkb(b)?;
    let srid = ensure_matching_srid(srid_a, srid_b)?;
    Ok((ka, kb, srid))
}

} // verus!
