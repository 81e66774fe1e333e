//! A walk over the WKB payload of an EWKB blob that reads only the X/Y
//! coordinates, without building a geometry.
//!
//! The walk backs the planar minimum bounding rectangle ([`extract_mbr`]).
//!
//! Coordinates are IEEE-754 doubles and are carried as their raw bit
//! patterns (`u64`). Among non-NaN doubles, `<` orders them by sign and
//! magnitude, which [`f64_key`] states over integers.

use vstd::prelude::*;
use vstd::string::*;

use crate::spatial::codec::{decimal_u64, int_text};
use crate::spatial::error::{outcome, ErrSpec, SqliteGisError};
use crate::spatial::ewkb::{
    byte_order_of, f64_bits_nan, header_spec, parse_ewkb_header, u32_at, u32_at_exec, u64_at,
    u64_at_exec, EWKB_M_FLAG, EWKB_Z_FLAG, WKB_GEOMETRYCOLLECTION, WKB_LINESTRING,
    WKB_MULTIPOINT, WKB_POINT, WKB_POLYGON, WKB_TYPE_MASK,
};

verus! {

/// Deepest collection nesting the text and binary readers are handed.
pub const MAX_NESTING_DEPTH: usize = 256;

/// Running `(min_x, min_y, max_x, max_y)` over the bit patterns of the
/// coordinates seen so far; `None` until a non-NaN coordinate is seen.
pub type BboxBits = Option<(u64, u64, u64, u64)>;

/// The position of a non-NaN double on the number line: its magnitude bits,
/// negated when the sign bit is set (so `-0.0` and `0.0` coincide).
pub open spec fn f64_key(bits: u64) -> int {
    let mag = (bits & 0x7fff_ffff_ffff_ffffu64) as int;
    if bits & 0x8000_0000_0000_0000u64 != 0 {
        -mag
    } else {
        mag
    }
}

/// `a < b` on non-NaN doubles given by their bit patterns.
pub open spec fn f64_lt(a: u64, b: u64) -> bool {
    f64_key(a) < f64_key(b)
}

/// Fold one coordinate into the running box, skipping NaN coordinates
/// (PostGIS-style empty points).
pub open spec fn bbox_add(acc: BboxBits, x: u64, y: u64) -> BboxBits {
    if f64_bits_nan(x) || f64_bits_nan(y) {
        acc
    } else {
        match acc {
            None => Some((x, y, x, y)),
            Some((mnx, mny, mxx, mxy)) => Some(
                (
                    if f64_lt(x, mnx) {
                        x
                    } else {
                        mnx
                    },
                    if f64_lt(y, mny) {
                        y
                    } else {
                        mny
                    },
                    if f64_lt(mxx, x) {
                        x
                    } else {
                        mxx
                    },
                    if f64_lt(mxy, y) {
                        y
                    } else {
                        mxy
                    },
                ),
            ),
        }
    }
}

/// Exec form of [`f64_lt`].
pub(crate) fn f64_bits_lt(a: u64, b: u64) -> (r: bool)
    ensures
        r == f64_lt(a, b),
{
    let ma = a & 0x7fff_ffff_ffff_ffffu64;
    let mb = b & 0x7fff_ffff_ffff_ffffu64;
    assert(ma <= 0x7fff_ffff_ffff_ffffu64) by (bit_vector)
        requires
            ma == a & 0x7fff_ffff_ffff_ffffu64,
    ;
    assert(mb <= 0x7fff_ffff_ffff_ffffu64) by (bit_vector)
        requires
            mb == b & 0x7fff_ffff_ffff_ffffu64,
    ;
    let ka: i64 = if a & 0x8000_0000_0000_0000u64 != 0 {
        -(ma as i64)
    } else {
        ma as i64
    };
    let kb: i64 = if b & 0x8000_0000_0000_0000u64 != 0 {
        -(mb as i64)
    } else {
        mb as i64
    };
    ka < kb
}

/// Fold one coordinate into the running box.
fn update_bbox(acc: &mut BboxBits, x: u64, y: u64)
    ensures
        *final(acc) == bbox_add(*old(acc), x, y),
{
    if crate::spatial::ewkb::bits_is_nan(x) || crate::spatial::ewkb::bits_is_nan(y) {
        return ;
    }
    match *acc {
        Some((mnx, mny, mxx, mxy)) => {
            let a = if f64_bits_lt(x, mnx) {
                x
            } else {
                mnx
            };
            let b = if f64_bits_lt(y, mny) {
                y
            } else {
                mny
            };
            let c = if f64_bits_lt(mxx, x) {
                x
            } else {
                mxx
            };
            let d = if f64_bits_lt(mxy, y) {
                y
            } else {
                mxy
            };
            *acc = Some((a, b, c, d));
        },
        None => {
            *acc = Some((x, y, x, y));
        },
    }
}

/// How a walk over a payload ends.
pub enum Walk {
    /// The payload is malformed; `InvalidEwkb` with this text.
    Bad(Seq<char>),
    /// The payload ends at this offset; the box after its coordinates.
    Done(int, BboxBits),
}

/// Message for a truncated coordinate read.
pub open spec fn f64_trunc_msg(off: int) -> Seq<char> {
    "blob truncated reading f64 at offset "@ + int_text(off)
}

/// Message for a truncated count read.
pub open spec fn u32_trunc_msg(off: int) -> Seq<char> {
    "blob truncated reading u32 at offset "@ + int_text(off)
}

/// Message for a truncated nested header.
pub open spec fn nested_trunc_msg(off: int) -> Seq<char> {
    "nested WKB header truncated at offset "@ + int_text(off)
}

/// Message for a nested header with a bad byte order marker.
pub open spec fn nested_marker_msg(marker: u8, off: int) -> Seq<char> {
    "invalid nested byte-order marker "@ + int_text(marker as int) + " at offset "@ + int_text(
        off,
    )
}

/// Message for a type code the walk does not know.
pub open spec fn unsupported_code_msg(code: u32) -> Seq<char> {
    "unsupported geometry type code "@ + int_text(code as int) + " during MBR extraction"@
}

/// Message for a collection nested beyond [`MAX_NESTING_DEPTH`].
pub open spec fn too_deep_msg() -> Seq<char> {
    "EWKB nesting exceeds the maximum depth of 256"@
}

/// Bytes per coordinate: X and Y, plus Z and M when present.
pub open spec fn coord_size(has_z: bool, has_m: bool) -> int {
    16 + (if has_z {
        8int
    } else {
        0int
    }) + (if has_m {
        8int
    } else {
        0int
    })
}

/// `n` coordinates from `off`, `cs` bytes apart.
pub open spec fn walk_points(b: Seq<u8>, off: int, n: nat, cs: int, le: bool, acc: BboxBits) -> Walk
    decreases n,
{
    if n == 0 {
        Walk::Done(off, acc)
    } else if b.len() < off + 8 {
        Walk::Bad(f64_trunc_msg(off))
    } else if b.len() < off + 16 {
        Walk::Bad(f64_trunc_msg(off + 8))
    } else {
        walk_points(
            b,
            off + cs,
            (n - 1) as nat,
            cs,
            le,
            bbox_add(acc, u64_at(b, off, le), u64_at(b, off + 8, le)),
        )
    }
}

/// `n` rings from `off`, each a point count followed by its points.
pub open spec fn walk_rings(b: Seq<u8>, off: int, n: nat, cs: int, le: bool, acc: BboxBits) -> Walk
    decreases n,
{
    if n == 0 {
        Walk::Done(off, acc)
    } else if b.len() < off + 4 {
        Walk::Bad(u32_trunc_msg(off))
    } else {
        match walk_points(b, off + 4, u32_at(b, off, le) as nat, cs, le, acc) {
            Walk::Done(e, a) => walk_rings(b, e, (n - 1) as nat, cs, le, a),
            other => other,
        }
    }
}

/// A geometry of type `code` whose body starts at `off`. `fuel` bounds the
/// recursion (each nested geometry
/// consumes at least one byte, so the blob length plus one suffices).
pub open spec fn walk_geom(
    b: Seq<u8>,
    off: int,
    code: u32,
    has_z: bool,
    has_m: bool,
    le: bool,
    acc: BboxBits,
    fuel: nat,
) -> Walk
    decreases fuel, 0nat,
{
    let cs = coord_size(has_z, has_m);
    if code == WKB_POINT {
        if b.len() < off + 8 {
            Walk::Bad(f64_trunc_msg(off))
        } else if b.len() < off + 16 {
            Walk::Bad(f64_trunc_msg(off + 8))
        } else {
            Walk::Done(off + cs, bbox_add(acc, u64_at(b, off, le), u64_at(b, off + 8, le)))
        }
    } else if code == WKB_LINESTRING || code == WKB_POLYGON || (WKB_MULTIPOINT <= code
        <= WKB_GEOMETRYCOLLECTION) {
        if b.len() < off + 4 {
            Walk::Bad(u32_trunc_msg(off))
        } else {
            let count = u32_at(b, off, le) as nat;
            if code == WKB_LINESTRING {
                walk_points(b, off + 4, count, cs, le, acc)
            } else if code == WKB_POLYGON {
                walk_rings(b, off + 4, count, cs, le, acc)
            } else if fuel == 0 {
                Walk::Bad(Seq::empty())
            } else {
                walk_elems(b, off + 4, count, acc, (fuel - 1) as nat)
            }
        }
    } else {
        Walk::Bad(unsupported_code_msg(code))
    }
}

/// `n` nested geometries from `off`, each with its own plain WKB header
/// (byte order marker and type word; no SRID).
pub open spec fn walk_elems(
    b: Seq<u8>,
    off: int,
    n: nat,
    acc: BboxBits,
    fuel: nat,
) -> Walk
    decreases fuel, n,
{
    if n == 0 {
        Walk::Done(off, acc)
    } else if b.len() < off + 5 {
        Walk::Bad(nested_trunc_msg(off))
    } else if byte_order_of(b[off]) is None {
        Walk::Bad(nested_marker_msg(b[off], off))
    } else {
        let le = b[off] == 1u8;
        let raw = u32_at(b, off + 1, le);
        match walk_geom(
            b,
            off + 5,
            raw & WKB_TYPE_MASK,
            raw & EWKB_Z_FLAG != 0,
            raw & EWKB_M_FLAG != 0,
            le,
            acc,
            fuel,
        ) {
            Walk::Done(e, a) => walk_elems(b, e, (n - 1) as nat, a, fuel),
            other => other,
        }
    }
}

/// `blob.len() >= offset + k`, computed without overflow.
fn fits(len: usize, offset: usize, k: usize) -> (r: bool)
    ensures
        r == (len as int >= offset as int + k as int),
{
    offset <= len && len - offset >= k
}

/// The exec outcome `r` (with the box left in `acc`) is the walk `w`.
pub open spec fn walk_matches(w: Walk, r: std::result::Result<usize, SqliteGisError>, acc: BboxBits) -> bool {
    match w {
        Walk::Done(e, a) => r matches Ok(v) && v as int == e && acc == a,
        Walk::Bad(m) => r matches Err(SqliteGisError::InvalidEwkb(t)) && t@ == m,
    }
}

fn truncation_error(what: &str, offset: usize) -> (e: SqliteGisError)
    ensures
        e matches SqliteGisError::InvalidEwkb(t) && t@ == what@ + int_text(offset as int),
{
    let n = decimal_u64(offset as u64);
    SqliteGisError::InvalidEwkb(String::from_str(what).concat(n.as_str()))
}

/// Walk `npoints` coordinates from `offset`.
fn walk_point_run(
    blob: &[u8],
    offset: usize,
    npoints: u32,
    cs: usize,
    little_endian: bool,
    acc: &mut BboxBits,
) -> (r: std::result::Result<usize, SqliteGisError>)
    requires
        blob@.len() + 64 <= usize::MAX,
        offset <= blob@.len() + 32,
        16 <= cs <= 32,
    ensures
        walk_matches(
            walk_points(blob@, offset as int, npoints as nat, cs as int, little_endian, *old(acc)),
            r,
            *final(acc),
        ),
        r matches Ok(e) ==> offset <= e <= blob@.len() + 32,
{
    let len = blob.len();
    let mut off = offset;
    let mut i: u32 = 0;
    while i < npoints
        invariant
            len == blob@.len(),
            len + 64 <= usize::MAX,
            offset <= off <= len + 32,
            16 <= cs <= 32,
            0 <= i <= npoints,
            walk_points(blob@, offset as int, npoints as nat, cs as int, little_endian, *old(acc))
                == walk_points(blob@, off as int, (npoints - i) as nat, cs as int, little_endian, *acc),
        decreases npoints - i,
    {
        if !fits(len, off, 8) {
            return Err(truncation_error("blob truncated reading f64 at offset ", off));
        }
        if !fits(len, off, 16) {
            return Err(truncation_error("blob truncated reading f64 at offset ", off + 8));
        }
        let x = u64_at_exec(blob, off, little_endian);
        let y = u64_at_exec(blob, off + 8, little_endian);
        update_bbox(acc, x, y);
        off = off + cs;
        i = i + 1;
    }
    Ok(off)
}

/// Walk the geometry of type `geom_type` whose body starts at `offset`.
/// Returns the offset just past it.
fn walk_for_mbr(
    blob: &[u8],
    offset: usize,
    geom_type: u32,
    has_z: bool,
    has_m: bool,
    little_endian: bool,
    acc: &mut BboxBits,
    Ghost(fuel): Ghost<nat>,
) -> (r: std::result::Result<usize, SqliteGisError>)
    requires
        blob@.len() + 64 <= usize::MAX,
        offset <= blob@.len() + 32,
        fuel > blob@.len() - offset,
    ensures
        walk_matches(
            walk_geom(
                blob@,
                offset as int,
                geom_type,
                has_z,
                has_m,
                little_endian,
                *old(acc),
                fuel,
            ),
            r,
            *final(acc),
        ),
        r matches Ok(e) ==> offset <= e <= blob@.len() + 32,
    decreases fuel,
{
    let len = blob.len();
    let cs: usize = 16 + (if has_z {
        8usize
    } else {
        0usize
    }) + (if has_m {
        8usize
    } else {
        0usize
    });
    if geom_type == WKB_POINT {
        if !fits(len, offset, 8) {
            return Err(truncation_error("blob truncated reading f64 at offset ", offset));
        }
        if !fits(len, offset, 16) {
            return Err(truncation_error("blob truncated reading f64 at offset ", offset + 8));
        }
        let x = u64_at_exec(blob, offset, little_endian);
        let y = u64_at_exec(blob, offset + 8, little_endian);
        update_bbox(acc, x, y);
        return Ok(offset + cs);
    }
    if !(geom_type == WKB_LINESTRING || geom_type == WKB_POLYGON || (WKB_MULTIPOINT <= geom_type
        && geom_type <= WKB_GEOMETRYCOLLECTION)) {
        let n = decimal_u64(geom_type as u64);
        let msg = String::from_str("unsupported geometry type code ").concat(n.as_str()).concat(
            " during MBR extraction",
        );
        return Err(SqliteGisError::InvalidEwkb(msg));
    }
    if !fits(len, offset, 4) {
        return Err(truncation_error("blob truncated reading u32 at offset ", offset));
    }
    let count = u32_at_exec(blob, offset, little_endian);
    let mut off = offset + 4;
    if geom_type == WKB_LINESTRING {
        return walk_point_run(blob, off, count, cs, little_endian, acc);
    }
    if geom_type == WKB_POLYGON {
        let mut ring: u32 = 0;
        while ring < count
            invariant
                len == blob@.len(),
                len + 64 <= usize::MAX,
                offset + 4 <= off <= len + 32,
                16 <= cs <= 32,
                cs == coord_size(has_z, has_m),
                0 <= ring <= count,
                walk_geom(blob@, offset as int, geom_type, has_z, has_m, little_endian, *old(acc), fuel)
                    == walk_rings(blob@, off as int, (count - ring) as nat, cs as int, little_endian, *acc),
            decreases count - ring,
        {
            if !fits(len, off, 4) {
                return Err(truncation_error("blob truncated reading u32 at offset ", off));
            }
            let npoints = u32_at_exec(blob, off, little_endian);
            match walk_point_run(blob, off + 4, npoints, cs, little_endian, acc) {
                Ok(e) => {
                    off = e;
                },
                Err(e) => {
                    return Err(e);
                },
            }
            ring = ring + 1;
        }
        return Ok(off);
    }
    // Collections: each element carries its own plain WKB header.
    let mut k: u32 = 0;
    while k < count
        invariant
            len == blob@.len(),
            len + 64 <= usize::MAX,
            offset + 4 <= off <= len + 32,
            fuel > len - offset,
            fuel >= 5,
            0 <= k <= count,
            walk_geom(blob@, offset as int, geom_type, has_z, has_m, little_endian, *old(acc), fuel)
                == walk_elems(blob@, off as int, (count - k) as nat, *acc, (fuel - 1) as nat),
        decreases count - k,
    {
        if !fits(len, off, 5) {
            return Err(truncation_error("nested WKB header truncated at offset ", off));
        }
        let nested_le = if blob[off] == 1u8 {
            true
        } else if blob[off] == 0u8 {
            false
        } else {
            let m = decimal_u64(blob[off] as u64);
            let o = decimal_u64(off as u64);
            let msg = String::from_str("invalid nested byte-order marker ").concat(
                m.as_str(),
            ).concat(" at offset ").concat(o.as_str());
            return Err(SqliteGisError::InvalidEwkb(msg));
        };
        let nested_type = u32_at_exec(blob, off + 1, nested_le);
        match walk_for_mbr(
            blob,
            off + 5,
            nested_type & WKB_TYPE_MASK,
            (nested_type & EWKB_Z_FLAG) != 0,
            (nested_type & EWKB_M_FLAG) != 0,
            nested_le,
            acc,
            Ghost((fuel - 1) as nat),
        ) {
            Ok(e) => {
                off = e;
            },
            Err(e) => {
                return Err(e);
            },
        }
        k = k + 1;
    }
    Ok(off)
}

/// Where a blob's payload ends and the planar box of its coordinates, or
/// the error for a malformed blob.
pub open spec fn payload_walk_spec(b: Seq<u8>) -> std::result::Result<(usize, BboxBits), ErrSpec> {
    match header_spec(b) {
        Err(e) => Err(e),
        Ok(h) => if b.len() + 64 > usize::MAX {
            Err(ErrSpec::Ewkb("blob too large"@))
        } else {
            match walk_geom(
                b,
                h.data_offset as int,
                h.geom_type,
                h.has_z,
                h.has_m,
                h.little_endian,
                None,
                b.len() + 1,
            ) {
                Walk::Done(e, a) => Ok((e as usize, a)),
                Walk::Bad(m) => Err(ErrSpec::Ewkb(m)),
            }
        },
    }
}

/// Walk the whole payload of an EWKB blob: the offset just past it and the
/// planar box of its coordinates.
pub fn walk_payload(blob: &[u8]) -> (r: crate::spatial::error::Result<(usize, BboxBits)>)
    ensures
        outcome(payload_walk_spec(blob@), r),
        r matches Ok((e, _)) ==> e <= blob@.len() + 32,
{
    let header = parse_ewkb_header(blob)?;
    if blob.len() > usize::MAX - 64 {
        return Err(crate::spatial::ewkb::invalid_ewkb("blob too large"));
    }
    let mut acc: BboxBits = None;
    let end = walk_for_mbr(
        blob,
        header.data_offset,
        header.geom_type,
        header.has_z,
        header.has_m,
        header.little_endian,
        &mut acc,
        Ghost((blob@.len() + 1) as nat),
    )?;
    Ok((end, acc))
}

/// The planar box of a blob's coordinates, or the error for a malformed one.
pub open spec fn mbr_spec(b: Seq<u8>) -> std::result::Result<BboxBits, ErrSpec> {
    match payload_walk_spec(b) {
        Err(e) => Err(e),
        Ok((_, a)) => Ok(a),
    }
}

/// Compute the planar minimum bounding rectangle of an EWKB blob without
/// decoding it into a geometry: walks the payload, reads only X and Y, and
/// returns `(min_x, min_y, max_x, max_y)` as double bit patterns, or `None`
/// when the geometry has no non-NaN coordinate.
pub fn extract_mbr(blob: &[u8]) -> (r: crate::spatial::error::Result<BboxBits>)
    ensures
        outcome(mbr_spec(blob@), r),
{
    let (_, acc) = walk_payload(blob)?;
    Ok(acc)
}

} // verus!
