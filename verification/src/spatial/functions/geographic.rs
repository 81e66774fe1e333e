//! The SRID checks of the geodesic (sphere and spheroid) functions, which
//! work on WGS84 longitude and latitude only.

use vstd::prelude::*;
use vstd::string::*;

use crate::spatial::codec::{decimal_i64, int_text};
use crate::spatial::error::{outcome, ErrSpec, Result, SqliteGisError};
use crate::spatial::ewkb::{ensure_matching_srid, matching_srid_spec};

verus! {

/// The SRID of WGS84 longitude/latitude.
pub const WGS84_SRID: i32 = 4326;

/// Why a geodesic function refuses an SRID.
pub open spec fn geographic_srid_msg(fn_name: Seq<char>, srid: Option<i32>) -> Seq<char> {
    match srid {
        Some(s) => fn_name + " requires SRID 4326 (got "@ + int_text(s as int) + ")"@,
        None => fn_name + " requires SRID 4326 (got unknown/unspecified SRID)"@,
    }
}

/// SRID 4326 passes; any other SRID, or none, is refused.
pub open spec fn geographic_spec(srid: Option<i32>, fn_name: Seq<char>) -> std::result::Result<(), ErrSpec> {
    if srid == Some(4326i32) {
        Ok(())
    } else {
        Err(ErrSpec::Input(geographic_srid_msg(fn_name, srid)))
    }
}

/// Require SRID 4326 for the geodesic function `fn_name`.
pub fn ensure_geographic_srid(srid: Option<i32>, fn_name: &str) -> (r: Result<()>)
    ensures
        outcome(geographic_spec(srid, fn_name@), r),
{
    match srid {
        Some(s) => if s == WGS84_SRID {
            Ok(())
        } else {
            let n = decimal_i64(s as i64);
            Err(
                SqliteGisError::InvalidInput(
                    String::from_str(fn_name).concat(" requires SRID 4326 (got ").concat(
                        n.as_str(),
                    ).concat(")"),
                ),
            )
        },
        None => Err(
            SqliteGisError::InvalidInput(
                String::from_str(fn_name).concat(
                    " requires SRID 4326 (got unknown/unspecified SRID)",
                ),
            ),
        ),
    }
}

/// Two operands share an SRID, and it is 4326.
pub open spec fn matching_geographic_spec(
    left: Option<i32>,
    right: Option<i32>,
    fn_name: Seq<char>,
) -> std::result::Result<Option<i32>, ErrSpec> {
    match matching_srid_spec(left, right) {
        Err(e) => Err(e),
        Ok(s) => match geographic_spec(s, fn_name) {
            Err(e) => Err(e),
            Ok(()) => Ok(s),
        },
    }
}

/// Require two operands of one SRID, and that SRID to be 4326.
pub fn ensure_matching_geographic_srid(left: Option<i32>, right: Option<i32>, fn_name: &str) -> (r:
    Result<Option<i32>>)
    ensures
        outcome(matching_geographic_spec(left, right, fn_name@), r),
{
    let srid = ensure_matching_srid(left, right)?;
    ensure_geographic_srid(srid, fn_name)?;
    Ok(srid)
}

/// A pair of operands passes the geodesic check exactly when both carry
/// SRID 4326 (an unknown SRID never passes, even against SRID 0).
pub proof fn law_geographic_pairs_are_wgs84(left: Option<i32>, right: Option<i32>, fn_name: Seq<char>)
    ensures
        matching_geographic_spec(left, right, fn_name) is Ok <==> (left == Some(4326i32) && right
            == Some(4326i32)),
{
}

} // verus!
