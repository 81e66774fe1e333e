//! The geometry constructors that do no floating-point work: collecting two
//! geometries into a `GeometryCollection`, and the Web Mercator tile grid
//! that `ST_TileEnvelope` addresses.

use vstd::prelude::*;
use vstd::string::*;

use crate::spatial::codec::{decimal_u64, ewkb_iso_wkb, geozero_ewkb_to_wkb, int_text, is_le_iso_wkb};
use crate::spatial::decode_guard::ensure_ewkb_nesting_ok;
use crate::spatial::error::{outcome, view_outcome, ErrSpec, Result, SqliteGisError};
use crate::spatial::ewkb::{
    empty_point_blob_spec, empty_point_ewkb, is_empty_point_blob, parse_ewkb_pair, parse_pair_spec,
    parse_spec, store_with_srid, stored_form, write_empty_point,
};
use crate::spatial::functions::io::header_srid;
use crate::spatial::functions::operations::operands_srid;
use crate::spatial::laws::lemma_stored_form_srid;

verus! {

// ---------------------------------------------------------------------
// ST_Collect
// ---------------------------------------------------------------------

/// An operand as a member of the collection, in ISO WKB: geozero's
/// re-encoding of the geometry it decodes, or, for `POINT EMPTY` (which is
/// not handed to geozero), the little-endian point with NaN coordinates
/// that geozero writes for a NaN point.
pub open spec fn member_wkb(b: Seq<u8>) -> Option<Seq<u8>> {
    if empty_point_blob_spec(b) == Ok::<bool, ErrSpec>(true) {
        Some(empty_point_ewkb(None))
    } else {
        ewkb_iso_wkb(b)
    }
}

/// The ISO WKB header of a little-endian `GeometryCollection` of two parts.
pub open spec fn pair_collection_header() -> Seq<u8> {
    seq![1u8, 7u8, 0u8, 0u8, 0u8, 2u8, 0u8, 0u8, 0u8]
}

/// What `ST_Collect` gives: decode both operands and require a shared SRID,
/// then the two-part collection of their members, stored with that SRID.
pub open spec fn collect_spec(a: Seq<u8>, b: Seq<u8>) -> std::result::Result<Seq<u8>, ErrSpec> {
    match parse_pair_spec(a, b) {
        Err(e) => Err(e),
        Ok((_, _, srid)) => match member_wkb(a) {
            None => Err(ErrSpec::Codec),
            Some(wa) => match member_wkb(b) {
                None => Err(ErrSpec::Codec),
                Some(wb) => stored_form(pair_collection_header() + wa + wb, srid),
            },
        },
    }
}

fn member(blob: &[u8]) -> (r: Result<Vec<u8>>)
    requires
        parse_spec(blob@) is Ok,
    ensures
        match member_wkb(blob@) {
            None => r matches Err(e) && e is Geozero,
            Some(w) => r matches Ok(v) && v@ == w,
        },
{
    if is_empty_point_blob(blob)? {
        return Ok(write_empty_point(None));
    }
    ensure_ewkb_nesting_ok(blob)?;
    match geozero_ewkb_to_wkb(blob) {
        Ok(w) => Ok(w),
        Err(e) => Err(SqliteGisError::Geozero(e)),
    }
}

/// ST_Collect: a `GeometryCollection` of the two geometries, with the SRID
/// they share.
pub fn st_collect(a: &[u8], b: &[u8]) -> (r: Result<Vec<u8>>)
    ensures
        view_outcome(collect_spec(a@, b@), r),
        r matches Ok(v) ==> header_srid(v@) == operands_srid(a@, b@),
{
    let (_, _, srid) = parse_ewkb_pair(a, b)?;
    let wa = member(a)?;
    let wb = member(b)?;
    let mut out: Vec<u8> = vec![1u8, 7u8, 0u8, 0u8, 0u8, 2u8, 0u8, 0u8, 0u8];
    let ghost head = out@;
    let mut wa = wa;
    let mut wb = wb;
    let ghost (va, vb) = (wa@, wb@);
    out.append(&mut wa);
    out.append(&mut wb);
    proof {
        assert(head =~= pair_collection_header());
        assert(out@ =~= pair_collection_header() + va + vb);
        assert(is_le_iso_wkb(out@));
        lemma_stored_form_srid(out@, srid);
    }
    store_with_srid(out, srid)
}

/// The deepest zoom level of the tile grid.
pub const MAX_TILE_ZOOM: u32 = 31;

/// The number of tiles along each side of the grid at `zoom`: `2^zoom`.
pub open spec fn tiles_per_side(zoom: nat) -> nat
    decreases zoom,
{
    if zoom == 0 {
        1
    } else {
        2 * tiles_per_side((zoom - 1) as nat)
    }
}

/// The error text for a zoom level past the grid.
pub open spec fn zoom_msg(zoom: nat) -> Seq<char> {
    "zoom level "@ + int_text(zoom as int) + " exceeds maximum of 31"@
}

/// The error text for a tile outside the grid of its zoom level.
pub open spec fn tile_range_msg(x: nat, y: nat, zoom: nat, n: nat) -> Seq<char> {
    "tile coordinates ("@ + int_text(x as int) + ", "@ + int_text(y as int)
        + ") out of range for zoom "@ + int_text(zoom as int) + " (max "@ + int_text(n - 1)
        + ")"@
}

/// The grid size that addresses tile `(x, y)` at `zoom`, or why the tile
/// does not exist.
pub open spec fn tile_grid_spec(zoom: u32, x: u32, y: u32) -> std::result::Result<u32, ErrSpec> {
    let n = tiles_per_side(zoom as nat);
    if zoom > 31 {
        Err(ErrSpec::Input(zoom_msg(zoom as nat)))
    } else if x >= n || y >= n {
        Err(ErrSpec::Input(tile_range_msg(x as nat, y as nat, zoom as nat, n)))
    } else {
        Ok(n as u32)
    }
}

/// The grid grows with the zoom level.
pub proof fn lemma_tiles_monotone(i: nat, j: nat)
    requires
        i <= j,
    ensures
        1 <= tiles_per_side(i) <= tiles_per_side(j),
    decreases j,
{
    if i < j {
        lemma_tiles_monotone(i, (j - 1) as nat);
    } else if i > 0 {
        lemma_tiles_monotone((i - 1) as nat, (i - 1) as nat);
    }
}

/// Check that tile `(tile_x, tile_y)` exists at `zoom` and return the
/// number of tiles along each side of that zoom level's grid.
pub fn tile_grid_size(zoom: u32, tile_x: u32, tile_y: u32) -> (r: Result<u32>)
    ensures
        outcome(tile_grid_spec(zoom, tile_x, tile_y), r),
{
    if zoom > MAX_TILE_ZOOM {
        let z = decimal_u64(zoom as u64);
        return Err(
            SqliteGisError::InvalidInput(
                String::from_str("zoom level ").concat(z.as_str()).concat(" exceeds maximum of 31"),
            ),
        );
    }
    proof {
        assert(tiles_per_side(31) == 0x8000_0000) by {
            reveal_with_fuel(tiles_per_side, 32);
        }
    }
    let mut n: u32 = 1;
    let mut i: u32 = 0;
    while i < zoom
        invariant
            i <= zoom <= 31,
            n == tiles_per_side(i as nat),
            tiles_per_side(31) == 0x8000_0000,
        decreases zoom - i,
    {
        proof {
            lemma_tiles_monotone((i + 1) as nat, 31);
        }
        n = n * 2;
        i = i + 1;
    }
    proof {
        lemma_tiles_monotone(zoom as nat, zoom as nat);
    }
    if tile_x >= n || tile_y >= n {
        let xs = decimal_u64(tile_x as u64);
        let ys = decimal_u64(tile_y as u64);
        let zs = decimal_u64(zoom as u64);
        let ms = decimal_u64((n - 1) as u64);
        let msg = String::from_str("tile coordinates (").concat(xs.as_str()).concat(", ").concat(
            ys.as_str(),
        ).concat(") out of range for zoom ").concat(zs.as_str()).concat(" (max ").concat(
            ms.as_str(),
        ).concat(")");
        return Err(SqliteGisError::InvalidInput(msg));
    }
    Ok(n)
}

} // verus!
