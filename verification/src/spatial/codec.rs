//! The calls into `geozero`, `geo`, `serde_json` and std's `String`, and the
//! decimal text of integers.
//!
//! Every function here but the decimal formatting of integers (proved on
//! top of `String::push`) is trusted: Verus reads its contract and not its
//! body. Each body is the one outside call (plus the conversions of its
//! arguments and result); each doc comment says what the contract claims
//! of the outside code. Where an outside result takes pages to state, the
//! contract names it with an uninterpreted spec function of the arguments.

use vstd::prelude::*;
use vstd::string::*;

use geo::Geometry;
use geozero::error::GeozeroError;
use geozero::wkb::Ewkb;
use geozero::{CoordDimensions, ToGeo, ToJson, ToWkb, ToWkt};

use crate::spatial::decode_guard::{gz_safe, srid_stripped};
use crate::spatial::functions::text::parens_exceed;
use crate::spatial::wkb_walk::MAX_NESTING_DEPTH;


verus! {

/// The ASCII digit for `d` in `0..10`.
pub open spec fn digit_char(d: int) -> char {
    (d + 48) as char
}

/// Decimal text of a natural number, most significant digit first.
pub open spec fn nat_text(n: nat) -> Seq<char>
    decreases n,
{
    if n < 10 {
        seq![digit_char(n as int)]
    } else {
        nat_text(n / 10) + seq![digit_char((n % 10) as int)]
    }
}

/// Decimal text of an integer, with a leading `-` when negative.
pub open spec fn int_text(i: int) -> Seq<char> {
    if i < 0 {
        seq!['-'] + nat_text((-i) as nat)
    } else {
        nat_text(i as nat)
    }
}

/// `String::push`: std documents that it appends the given `char` to the
/// end of the string; the contract says exactly that.
#[verifier::external_body]
pub(crate) fn push_char(s: &mut String, c: char)
    ensures
        final(s)@ == old(s)@.push(c),
{
    s.push(c);
}

/// Append the decimal digits of `n`, most significant first.
fn push_decimal(s: &mut String, n: u64)
    ensures
        final(s)@ == old(s)@ + nat_text(n as nat),
    decreases n,
{
    if n >= 10 {
        push_decimal(s, n / 10);
    }
    let d: u8 = (n % 10) as u8;
    let c: char = (d + 48u8) as char;
    proof {
        assert(c == digit_char((n % 10) as int));
    }
    let ghost before = s@;
    push_char(s, c);
    proof {
        if n >= 10 {
            assert(nat_text(n as nat) == nat_text((n / 10) as nat) + seq![digit_char((n % 10) as int)]);
        }
        assert(s@ =~= old(s)@ + nat_text(n as nat));
    }
}

/// The decimal text of `n`, as `u64`'s `Display` writes it.
pub(crate) fn decimal_u64(n: u64) -> (text: String)
    ensures
        text@ == int_text(n as int),
{
    let mut s = String::new();
    push_decimal(&mut s, n);
    proof {
        assert(s@ =~= nat_text(n as nat));
    }
    s
}

/// The decimal text of `n`, with a leading `-` when negative, as `i64`'s
/// `Display` writes it.
pub(crate) fn decimal_i64(n: i64) -> (text: String)
    ensures
        text@ == int_text(n as int),
{
    let mut s = String::new();
    if n < 0 {
        push_char(&mut s, '-');
        let m: u64 = if n == i64::MIN {
            9223372036854775808u64
        } else {
            (-n) as u64
        };
        push_decimal(&mut s, m);
        proof {
            assert(m as int == -(n as int));
            assert(s@ =~= seq!['-'] + nat_text((-(n as int)) as nat));
        }
    } else {
        push_decimal(&mut s, n as u64);
        proof {
            assert(s@ =~= nat_text(n as nat));
        }
    }
    s
}

/// `GeozeroError`'s `Display` (derived by `thiserror` in geozero). Nothing
/// is stated of the text: the error value is opaque here.
#[verifier::external_body]
pub(crate) fn geozero_error_text(e: &GeozeroError) -> String {
    e.to_string()
}

/// `std::io::Error`'s `Display`. Nothing is stated of the text: the error
/// value is opaque here.
#[verifier::external_body]
pub(crate) fn io_error_text(e: &std::io::Error) -> String {
    e.to_string()
}

/// The variant of `geo::Geometry` a decoded blob is.
#[derive(PartialEq, Eq, Structural, Clone, Copy, Debug)]
pub enum GeoKind {
    /// `Geometry::Point`
    Point,
    /// `Geometry::Line`
    Line,
    /// `Geometry::LineString`
    LineString,
    /// `Geometry::Polygon`
    Polygon,
    /// `Geometry::MultiPoint`
    MultiPoint,
    /// `Geometry::MultiLineString`
    MultiLineString,
    /// `Geometry::MultiPolygon`
    MultiPolygon,
    /// `Geometry::GeometryCollection`
    GeometryCollection,
    /// `Geometry::Rect`
    Rect,
    /// `Geometry::Triangle`
    Triangle,
}

/// The variant of the geometry geozero's EWKB reader builds from a blob
/// without a top-level SRID (`Ewkb(blob).to_geo()`), or `None` when it fails.
pub uninterp spec fn ewkb_geo_kind(blob: Seq<u8>) -> Option<GeoKind>;

/// `Ewkb(blob).to_geo()`, keeping only which variant it built. Called only
/// on blobs on which geozero's reader returns within bounded stack and
/// memory ([`gz_safe`]): on others it recurses without bound or sizes
/// vectors from counts no bytes back, and the process can abort. Claims
/// that the outcome is a function of the bytes once the top-level SRID is
/// taken out ([`srid_stripped`]): geozero's `read_ewkb_header` reads that
/// SRID and passes it to `GeoWriter::srid`, which is the default no-op of
/// `GeomProcessor`, and reads everything else alike. Which `GeozeroError`
/// comes back on failure is not stated.
#[verifier::external_body]
pub(crate) fn geozero_decode_ewkb(blob: &[u8]) -> (r: std::result::Result<GeoKind, GeozeroError>)
    requires
        gz_safe(blob@),
    ensures
        r is Ok <==> ewkb_geo_kind(srid_stripped(blob@)) is Some,
        r matches Ok(k) ==> ewkb_geo_kind(srid_stripped(blob@)) == Some(k),
{
    Ok(match Ewkb(blob).to_geo()? {
        Geometry::Point(_) => GeoKind::Point,
        Geometry::Line(_) => GeoKind::Line,
        Geometry::LineString(_) => GeoKind::LineString,
        Geometry::Polygon(_) => GeoKind::Polygon,
        Geometry::MultiPoint(_) => GeoKind::MultiPoint,
        Geometry::MultiLineString(_) => GeoKind::MultiLineString,
        Geometry::MultiPolygon(_) => GeoKind::MultiPolygon,
        Geometry::GeometryCollection(_) => GeoKind::GeometryCollection,
        Geometry::Rect(_) => GeoKind::Rect,
        Geometry::Triangle(_) => GeoKind::Triangle,
    })
}

/// A blob geozero decodes into a `Polygon` or a `MultiPolygon`.
pub open spec fn decodes_polygonal(blob: Seq<u8>) -> bool {
    ewkb_geo_kind(blob) == Some(GeoKind::Polygon) || ewkb_geo_kind(blob) == Some(
        GeoKind::MultiPolygon,
    )
}

/// The ISO WKB (little-endian, XY) that geozero writes for the geometry it
/// reads from the EWKB `blob`, or `None` when reading or writing fails.
pub uninterp spec fn ewkb_iso_wkb(blob: Seq<u8>) -> Option<Seq<u8>>;

/// The ISO WKB (little-endian, XY) that geozero writes for the geometry it
/// parses from the WKT `wkt`, or `None` when it fails.
pub uninterp spec fn wkt_iso_wkb(wkt: Seq<char>) -> Option<Seq<u8>>;

/// The ISO WKB (little-endian, XY) that geozero writes for the geometry it
/// parses from the GeoJSON `json`, or `None` when it fails.
pub uninterp spec fn geojson_iso_wkb(json: Seq<char>) -> Option<Seq<u8>>;

/// What geozero's WKB writer guarantees of every buffer it produces in the
/// OGC dialect with XY dimensions: a little-endian byte order marker
/// (`0x01`) followed by the 4-byte type word, whose high byte is zero
/// (the type code is a small integer and no Z, M or SRID flag is set).
pub open spec fn is_le_iso_wkb(w: Seq<u8>) -> bool {
    &&& w.len() >= 5
    &&& w[0] == 1u8
    &&& w[4] == 0u8
}

/// `Ewkb(blob).to_geo()` followed by `to_wkb(CoordDimensions::xy())` on the
/// decoded geometry, on blobs within [`gz_safe`]: re-encodes the EWKB
/// as plain ISO WKB. Claims the result
/// is a function of the bytes, and (from geozero's `WkbWriter`, which starts
/// every buffer with `scroll::LE` and the bare type code) that a produced
/// buffer starts with `0x01` and a type word whose high byte is zero.
#[verifier::external_body]
pub(crate) fn geozero_ewkb_to_wkb(blob: &[u8]) -> (r: std::result::Result<Vec<u8>, GeozeroError>)
    requires
        gz_safe(blob@),
    ensures
        r is Ok <==> ewkb_iso_wkb(blob@) is Some,
        r matches Ok(w) ==> w@ == ewkb_iso_wkb(blob@)->0 && is_le_iso_wkb(w@),
{
    Ewkb(blob).to_geo()?.to_wkb(CoordDimensions::xy())
}

/// `geozero::wkt::Wkt(wkt.as_bytes()).to_geo()` followed by
/// `to_wkb(CoordDimensions::xy())`: parses WKT and encodes it as ISO WKB.
/// The `wkt` parser recurses once per nested collection without a limit,
/// so it is called only on text whose parentheses stay within
/// [`MAX_NESTING_DEPTH`]. Same claims as [`geozero_ewkb_to_wkb`].
#[verifier::external_body]
pub(crate) fn geozero_wkt_to_wkb(wkt: &str) -> (r: std::result::Result<Vec<u8>, GeozeroError>)
    requires
        !parens_exceed(wkt.spec_bytes(), 0, 0, MAX_NESTING_DEPTH as int),
    ensures
        r is Ok <==> wkt_iso_wkb(wkt@) is Some,
        r matches Ok(w) ==> w@ == wkt_iso_wkb(wkt@)->0 && is_le_iso_wkb(w@),
{
    geozero::wkt::Wkt(wkt.as_bytes()).to_geo()?.to_wkb(CoordDimensions::xy())
}

/// `geozero::geojson::GeoJson(json).to_geo()` followed by
/// `to_wkb(CoordDimensions::xy())`: parses GeoJSON and encodes it as ISO WKB.
/// Same claims as [`geozero_ewkb_to_wkb`].
#[verifier::external_body]
pub(crate) fn geozero_geojson_to_wkb(json: &str) -> (r: std::result::Result<Vec<u8>, GeozeroError>)
    ensures
        r is Ok <==> geojson_iso_wkb(json@) is Some,
        r matches Ok(w) ==> w@ == geojson_iso_wkb(json@)->0 && is_le_iso_wkb(w@),
{
    geozero::geojson::GeoJson(json).to_geo()?.to_wkb(CoordDimensions::xy())
}

/// geozero's encoding of an empty `GeometryCollection` as ISO WKB: the
/// little-endian marker, type 7 and a zero part count.
pub open spec fn empty_collection_wkb() -> Seq<u8> {
    seq![1u8, 7u8, 0u8, 0u8, 0u8, 0u8, 0u8, 0u8, 0u8]
}

/// `Geometry::GeometryCollection(GeometryCollection::new_from(vec![]))
/// .to_wkb(CoordDimensions::xy())`. geozero's `WkbWriter` writes the
/// little-endian marker, the type code 7 and the part count 0, into a `Vec`
/// whose writes cannot fail; the contract states exactly those 9 bytes.
#[verifier::external_body]
pub(crate) fn geozero_empty_collection_wkb() -> (r: std::result::Result<Vec<u8>, GeozeroError>)
    ensures
        r is Ok,
        r matches Ok(w) ==> w@ == empty_collection_wkb(),
{
    Geometry::GeometryCollection(geo::GeometryCollection::new_from(vec![])).to_wkb(
        CoordDimensions::xy(),
    )
}

/// The WKT text geozero writes for the EWKB `blob`, or `None` on failure.
pub uninterp spec fn ewkb_wkt(blob: Seq<u8>) -> Option<Seq<char>>;

/// `Ewkb(blob).to_wkt()`, on blobs within [`gz_safe`]. Claims the result is a function of the bytes.
#[verifier::external_body]
pub(crate) fn geozero_ewkb_to_wkt(blob: &[u8]) -> (r: std::result::Result<String, GeozeroError>)
    requires
        gz_safe(blob@),
    ensures
        r is Ok <==> ewkb_wkt(blob@) is Some,
        r matches Ok(t) ==> t@ == ewkb_wkt(blob@)->0,
{
    Ewkb(blob).to_wkt()
}

/// The GeoJSON text geozero writes for the EWKB `blob`, or `None` on failure.
pub uninterp spec fn ewkb_geojson(blob: Seq<u8>) -> Option<Seq<char>>;

/// `Ewkb(blob).to_json()`, on blobs within [`gz_safe`]. Claims the result is a function of the bytes.
#[verifier::external_body]
pub(crate) fn geozero_ewkb_to_geojson(blob: &[u8]) -> (r: std::result::Result<String, GeozeroError>)
    requires
        gz_safe(blob@),
    ensures
        r is Ok <==> ewkb_geojson(blob@) is Some,
        r matches Ok(t) ==> t@ == ewkb_geojson(blob@)->0,
{
    Ewkb(blob).to_json()
}

/// What `serde_json` makes of `json` as a top-level object: `None` when the
/// text is not JSON or not an object; otherwise the string value of the
/// member `type_key` (if that member is a string) and the length of the
/// member `coords_key` (if that member is an array).
pub uninterp spec fn json_object_members(
    json: Seq<char>,
    type_key: Seq<char>,
    coords_key: Seq<char>,
) -> Option<(Option<Seq<char>>, Option<nat>)>;

/// `serde_json::from_str::<Value>(json)`, then `as_object`, `get` of the two
/// keys, `as_str` and `as_array().len()`. Claims the answer is a function of
/// the three texts.
#[verifier::external_body]
pub(crate) fn serde_json_object_members(json: &str, type_key: &str, coords_key: &str) -> (r: Option<
    (Option<String>, Option<usize>),
>)
    ensures
        r is Some <==> json_object_members(json@, type_key@, coords_key@) is Some,
        r matches Some((t, c)) ==> ({
            let (st, sc) = json_object_members(json@, type_key@, coords_key@)->0;
            &&& (t is Some <==> st is Some)
            &&& (t matches Some(ts) ==> ts@ == st->0)
            &&& (c is Some <==> sc is Some)
            &&& (c matches Some(cn) ==> cn as nat == sc->0)
        }),
{
    let value = serde_json::from_str::<serde_json::Value>(json).ok()?;
    let obj = value.as_object()?;
    let t = obj.get(type_key).and_then(serde_json::Value::as_str).map(String::from);
    let c = obj.get(coords_key).and_then(serde_json::Value::as_array).map(Vec::len);
    Some((t, c))
}

} // verus!
