//! Spatial set operations on polygonal geometries.
//!
//! ST_Union, ST_Difference, ST_SymDifference

use vstd::prelude::*;
use vstd::string::*;

use geozero::error::GeozeroError;

use crate::spatial::codec::{is_le_iso_wkb, GeoKind};
use crate::spatial::error::{outcome, view_outcome, ErrSpec, Result, SqliteGisError};
use crate::spatial::ewkb::{
    geometry_type_name, header_spec, kind_name, matching_srid_spec, parse_ewkb_header,
    parse_ewkb_pair, parse_pair_spec, push_u32, shared_srid, srid_value, stored_form,
    store_with_srid, u32_at, u32_at_exec, u32_bytes, EwkbHeader, EWKB_SRID_FLAG, WKB_MULTIPOLYGON,
    WKB_POLYGON,
};
use crate::spatial::functions::io::header_srid;
use crate::spatial::laws::{law_splice_header, lemma_stored_form_srid};
use crate::spatial::wkb_walk::{f64_key, payload_walk_spec, walk_payload, BboxBits};

verus! {

/// The polygon set operation to run.
#[derive(PartialEq, Eq, Structural, Clone, Copy, Debug)]
pub enum PolygonOp {
    /// `ST_Union`
    Union,
    /// `ST_Difference` (first minus second)
    Difference,
    /// `ST_SymDifference`
    SymDifference,
}

/// A `Polygon` or a `MultiPolygon`.
pub open spec fn is_polygonal(k: GeoKind) -> bool {
    k == GeoKind::Polygon || k == GeoKind::MultiPolygon
}

/// The expected-type label of the polygon operations.
pub open spec fn polygonal_label() -> Seq<char> {
    "Polygon or MultiPolygon"@
}

fn require_polygonal(kind: GeoKind) -> (r: Result<()>)
    ensures
        is_polygonal(kind) ==> r is Ok,
        !is_polygonal(kind) ==> (r matches Err(SqliteGisError::WrongType { expected, actual })
            && expected@ == polygonal_label() && actual@ == kind_name(kind)),
{
    match kind {
        GeoKind::Polygon | GeoKind::MultiPolygon => Ok(()),
        other => Err(
            SqliteGisError::WrongType {
                expected: "Polygon or MultiPolygon",
                actual: geometry_type_name(other),
            },
        ),
    }
}

/// The SRID two operands share (`None` only when both have none).
pub open spec fn operands_srid(a: Seq<u8>, b: Seq<u8>) -> Option<i32> {
    shared_srid(header_srid(a), header_srid(b))
}

/// Two boxes (of non-NaN coordinates) share a point.
pub open spec fn boxes_intersect(r: (u64, u64, u64, u64), s: (u64, u64, u64, u64)) -> bool {
    &&& !(f64_key(r.2) < f64_key(s.0))
    &&& !(f64_key(r.3) < f64_key(s.1))
    &&& !(f64_key(r.0) > f64_key(s.2))
    &&& !(f64_key(r.1) > f64_key(s.3))
}

/// The polygon parts of a polygonal blob as nested WKB elements: a Polygon
/// becomes one element (its own byte order marker and type word, then its
/// body); a MultiPolygon's elements are taken as they are.
pub open spec fn polygon_parts(b: Seq<u8>, h: EwkbHeader, end: int) -> Seq<u8> {
    if h.geom_type == WKB_POLYGON {
        seq![b[0]] + u32_bytes(WKB_POLYGON, h.little_endian) + b.subrange(
            h.data_offset as int,
            end,
        )
    } else {
        b.subrange(h.data_offset + 4, end)
    }
}

/// The number of polygon parts of a polygonal blob.
pub open spec fn polygon_count(b: Seq<u8>, h: EwkbHeader) -> int {
    if h.geom_type == WKB_POLYGON {
        1
    } else {
        u32_at(b, h.data_offset as int, h.little_endian) as int
    }
}

/// The header of a MultiPolygon EWKB written little-endian with `srid`.
pub open spec fn multipolygon_header(srid: Option<i32>, count: u32) -> Seq<u8> {
    match srid {
        Some(s) => seq![1u8] + u32_bytes(WKB_MULTIPOLYGON | EWKB_SRID_FLAG, true) + u32_bytes(
            s as u32,
            true,
        ) + u32_bytes(count, true),
        None => seq![1u8] + u32_bytes(WKB_MULTIPOLYGON, true) + u32_bytes(count, true),
    }
}

/// A blob that can be spliced: an XY Polygon or MultiPolygon whose payload
/// walks to `end`.
pub open spec fn spliceable(b: Seq<u8>, h: EwkbHeader, end: int) -> bool {
    &&& !h.has_z
    &&& !h.has_m
    &&& (h.geom_type == WKB_POLYGON || h.geom_type == WKB_MULTIPOLYGON)
    &&& h.data_offset + 4 <= end <= b.len()
}

/// The headers and payload ends of two blobs that can be spliced: both
/// spliceable, boxes that do not meet, a shared SRID, and a part count that
/// fits the count word.
pub open spec fn splice_inputs(a: Seq<u8>, b: Seq<u8>) -> Option<(EwkbHeader, EwkbHeader, int, int)> {
    match (header_spec(a), header_spec(b), payload_walk_spec(a), payload_walk_spec(b)) {
        (Ok(ha), Ok(hb), Ok((ea, Some(ra))), Ok((eb, Some(rb)))) => {
            if !boxes_intersect(ra, rb) && spliceable(a, ha, ea as int) && spliceable(
                b,
                hb,
                eb as int,
            ) && srid_value(ha.srid) == srid_value(hb.srid) && polygon_count(a, ha)
                + polygon_count(b, hb) <= u32::MAX {
                Some((ha, hb, ea as int, eb as int))
            } else {
                None
            }
        },
        _ => None,
    }
}

/// The MultiPolygon that holds the parts of `a` and then those of `b`.
pub open spec fn splice_bytes(
    a: Seq<u8>,
    b: Seq<u8>,
    ha: EwkbHeader,
    hb: EwkbHeader,
    ea: int,
    eb: int,
) -> Seq<u8> {
    multipolygon_header(
        shared_srid(ha.srid, hb.srid),
        (polygon_count(a, ha) + polygon_count(b, hb)) as u32,
    ) + polygon_parts(a, ha, ea) + polygon_parts(b, hb, eb)
}

/// When both blobs are spliceable polygonal blobs with a shared SRID whose
/// boxes do not meet, the MultiPolygon that holds the parts of both, in
/// order; otherwise `None`.
pub open spec fn disjoint_concat_spec(a: Seq<u8>, b: Seq<u8>) -> Option<Seq<u8>> {
    match splice_inputs(a, b) {
        Some((ha, hb, ea, eb)) => Some(splice_bytes(a, b, ha, hb, ea, eb)),
        None => None,
    }
}

pub(crate) fn push_range(out: &mut Vec<u8>, src: &[u8], from: usize, to: usize)
    requires
        from <= to <= src@.len(),
    ensures
        final(out)@ == old(out)@ + src@.subrange(from as int, to as int),
{
    let mut i = from;
    while i < to
        invariant
            from <= i <= to <= src@.len(),
            out@ == old(out)@ + src@.subrange(from as int, i as int),
        decreases to - i,
    {
        out.push(src[i]);
        i = i + 1;
        proof {
            assert(src@.subrange(from as int, i as int) =~= src@.subrange(
                from as int,
                i - 1,
            ).push(src@[i - 1]));
        }
    }
}

fn boxes_meet(r: (u64, u64, u64, u64), s: (u64, u64, u64, u64)) -> (m: bool)
    ensures
        m == boxes_intersect(r, s),
{
    let lt = |p: u64, q: u64| -> (t: bool)
        ensures
            t == (f64_key(p) < f64_key(q)),
        { crate::spatial::wkb_walk::f64_bits_lt(p, q) };
    !lt(r.2, s.0) && !lt(r.3, s.1) && !lt(s.2, r.0) && !lt(s.3, r.1)
}

fn splice_checks(a: &[u8], b: &[u8]) -> (r: Option<(EwkbHeader, EwkbHeader, usize, usize)>)
    ensures
        r matches Some((ha, hb, ea, eb)) ==> splice_inputs(a@, b@) == Some(
            (ha, hb, ea as int, eb as int),
        ),
        r is None ==> splice_inputs(a@, b@) is None,
{
    let ha = match parse_ewkb_header(a) {
        Ok(h) => h,
        Err(_) => return None,
    };
    let hb = match parse_ewkb_header(b) {
        Ok(h) => h,
        Err(_) => return None,
    };
    let (ea, ra) = match walk_payload(a) {
        Ok((e, Some(r))) => (e, r),
        _ => return None,
    };
    let (eb, rb) = match walk_payload(b) {
        Ok((e, Some(r))) => (e, r),
        _ => return None,
    };
    if boxes_meet(ra, rb) {
        return None;
    }
    let a_ok = !ha.has_z && !ha.has_m && (ha.geom_type == WKB_POLYGON || ha.geom_type
        == WKB_MULTIPOLYGON) && ha.data_offset + 4 <= ea && ea <= a.len();
    let b_ok = !hb.has_z && !hb.has_m && (hb.geom_type == WKB_POLYGON || hb.geom_type
        == WKB_MULTIPOLYGON) && hb.data_offset + 4 <= eb && eb <= b.len();
    if !a_ok || !b_ok {
        return None;
    }
    let sa = match ha.srid {
        Some(v) => v,
        None => 0,
    };
    let sb = match hb.srid {
        Some(v) => v,
        None => 0,
    };
    if sa != sb {
        return None;
    }
    let na: u32 = if ha.geom_type == WKB_POLYGON {
        1
    } else {
        u32_at_exec(a, ha.data_offset, ha.little_endian)
    };
    let nb: u32 = if hb.geom_type == WKB_POLYGON {
        1
    } else {
        u32_at_exec(b, hb.data_offset, hb.little_endian)
    };
    if na > u32::MAX - nb {
        return None;
    }
    Some((ha, hb, ea, eb))
}

fn push_multipolygon_header(out: &mut Vec<u8>, srid: Option<i32>, count: u32)
    ensures
        final(out)@ == old(out)@ + multipolygon_header(srid, count),
{
    let ghost start = out@;
    out.push(1u8);
    match srid {
        Some(s) => {
            push_u32(out, WKB_MULTIPOLYGON | EWKB_SRID_FLAG, true);
            push_u32(out, s as u32, true);
        },
        None => {
            push_u32(out, WKB_MULTIPOLYGON, true);
        },
    }
    push_u32(out, count, true);
    proof {
        assert(out@ =~= start + multipolygon_header(srid, count));
    }
}

fn push_polygon_parts(out: &mut Vec<u8>, b: &[u8], h: EwkbHeader, end: usize)
    requires
        spliceable(b@, h, end as int),
        h.data_offset >= 1,
    ensures
        final(out)@ == old(out)@ + polygon_parts(b@, h, end as int),
{
    let ghost start = out@;
    if h.geom_type == WKB_POLYGON {
        out.push(b[0]);
        push_u32(out, WKB_POLYGON, h.little_endian);
        push_range(out, b, h.data_offset, end);
    } else {
        push_range(out, b, h.data_offset + 4, end);
    }
    proof {
        assert(out@ =~= start + polygon_parts(b@, h, end as int));
    }
}

fn part_count(b: &[u8], h: EwkbHeader, end: usize) -> (n: u32)
    requires
        spliceable(b@, h, end as int),
    ensures
        n == polygon_count(b@, h),
{
    if h.geom_type == WKB_POLYGON {
        1
    } else {
        u32_at_exec(b, h.data_offset, h.little_endian)
    }
}

fn splice(a: &[u8], b: &[u8], ha: EwkbHeader, hb: EwkbHeader, ea: usize, eb: usize) -> (out: Vec<
    u8,
>)
    requires
        splice_inputs(a@, b@) == Some((ha, hb, ea as int, eb as int)),
    ensures
        out@ == splice_bytes(a@, b@, ha, hb, ea as int, eb as int),
{
    let na = part_count(a, ha, ea);
    let nb = part_count(b, hb, eb);
    let srid = if ha.srid.is_none() && hb.srid.is_none() {
        None
    } else {
        match ha.srid {
            Some(v) => Some(v),
            None => Some(0i32),
        }
    };
    let mut out: Vec<u8> = Vec::new();
    push_multipolygon_header(&mut out, srid, na + nb);
    push_polygon_parts(&mut out, a, ha, ea);
    push_polygon_parts(&mut out, b, hb, eb);
    out
}

/// Splice the polygon parts of two polygonal blobs whose boxes do not meet
/// into one MultiPolygon, without decoding either (`None` when the fast
/// path does not apply).
pub fn concat_multipolygon_bodies(a: &[u8], b: &[u8]) -> (r: Option<Vec<u8>>)
    ensures
        r matches Some(v) ==> disjoint_concat_spec(a@, b@) == Some(v@),
        r is None ==> disjoint_concat_spec(a@, b@) is None,
        r matches Some(v) ==> header_srid(v@) == operands_srid(a@, b@),
{
    match splice_checks(a, b) {
        Some((ha, hb, ea, eb)) => {
            proof {
                law_splice_header(a@, b@);
            }
            Some(splice(a, b, ha, hb, ea, eb))
        },
        None => None,
    }
}

/// What a polygon set operation does next.
pub enum PolygonStep {
    /// The result, reached without `geo`'s overlay: the spliced parts of two
    /// operands whose boxes do not meet.
    Done(Vec<u8>),
    /// Both operands decode to polygonal geometries that share this SRID:
    /// `geo`'s overlay runs on them next, and [`finish_polygon_op`] stores
    /// what it gave.
    Overlay(Option<i32>),
}

/// The spec form of a [`PolygonStep`].
pub enum StepView {
    /// See [`PolygonStep::Done`].
    Done(Seq<u8>),
    /// See [`PolygonStep::Overlay`].
    Overlay(Option<i32>),
}

impl View for PolygonStep {
    type V = StepView;

    open spec fn view(&self) -> StepView {
        match self {
            PolygonStep::Done(v) => StepView::Done(v@),
            PolygonStep::Overlay(s) => StepView::Overlay(*s),
        }
    }
}

/// Whether `op` takes the splice when the operands' boxes do not meet: the
/// union and the symmetric difference of disjoint sets are both their
/// concatenation; the difference is not.
pub open spec fn splices(op: PolygonOp) -> bool {
    op != PolygonOp::Difference
}

/// The step `op` takes on two blobs: the splice where it applies, otherwise
/// decode both, require a shared SRID and polygonal operands, and hand them
/// to the overlay.
pub open spec fn plan_spec(op: PolygonOp, a: Seq<u8>, b: Seq<u8>) -> std::result::Result<
    StepView,
    ErrSpec,
> {
    if splices(op) && disjoint_concat_spec(a, b) is Some {
        Ok(StepView::Done(disjoint_concat_spec(a, b)->0))
    } else {
        match parse_pair_spec(a, b) {
            Err(e) => Err(e),
            Ok((ka, kb, srid)) => if !is_polygonal(ka) {
                Err(ErrSpec::Wrong(polygonal_label(), kind_name(ka)))
            } else if !is_polygonal(kb) {
                Err(ErrSpec::Wrong(polygonal_label(), kind_name(kb)))
            } else {
                Ok(StepView::Overlay(srid))
            },
        }
    }
}

/// Everything `op` decides on two EWKB blobs before `geo`'s overlay: the
/// spliced result, an error, or the SRID the overlay's result is stored with.
pub fn plan_polygon_op(op: PolygonOp, a: &[u8], b: &[u8]) -> (r: Result<PolygonStep>)
    ensures
        view_outcome(plan_spec(op, a@, b@), r),
        r matches Ok(PolygonStep::Done(v)) ==> header_srid(v@) == operands_srid(a@, b@),
        r matches Ok(PolygonStep::Overlay(s)) ==> s == operands_srid(a@, b@),
{
    if op != PolygonOp::Difference {
        if let Some(v) = concat_multipolygon_bodies(a, b) {
            return Ok(PolygonStep::Done(v));
        }
    }
    let (ka, kb, srid) = parse_ewkb_pair(a, b)?;
    require_polygonal(ka)?;
    require_polygonal(kb)?;
    Ok(PolygonStep::Overlay(srid))
}

/// ST_Union up to `geo`'s overlay: the splice when the boxes do not meet.
pub fn st_union(a: &[u8], b: &[u8]) -> (r: Result<PolygonStep>)
    ensures
        view_outcome(plan_spec(PolygonOp::Union, a@, b@), r),
        r matches Ok(PolygonStep::Done(v)) ==> header_srid(v@) == operands_srid(a@, b@),
        r matches Ok(PolygonStep::Overlay(s)) ==> s == operands_srid(a@, b@),
{
    plan_polygon_op(PolygonOp::Union, a, b)
}

/// ST_Difference (first minus second) up to `geo`'s overlay.
pub fn st_difference(a: &[u8], b: &[u8]) -> (r: Result<PolygonStep>)
    ensures
        view_outcome(plan_spec(PolygonOp::Difference, a@, b@), r),
        r matches Ok(PolygonStep::Overlay(s)) ==> s == operands_srid(a@, b@),
        !(r matches Ok(PolygonStep::Done(_))),
{
    plan_polygon_op(PolygonOp::Difference, a, b)
}

/// ST_SymDifference up to `geo`'s overlay: the splice when the boxes do not
/// meet (the symmetric difference of disjoint sets is their union).
pub fn st_sym_difference(a: &[u8], b: &[u8]) -> (r: Result<PolygonStep>)
    ensures
        view_outcome(plan_spec(PolygonOp::SymDifference, a@, b@), r),
        r matches Ok(PolygonStep::Done(v)) ==> header_srid(v@) == operands_srid(a@, b@),
        r matches Ok(PolygonStep::Overlay(s)) ==> s == operands_srid(a@, b@),
{
    plan_polygon_op(PolygonOp::SymDifference, a, b)
}

/// What running `geo`'s overlay on the two operands gave.
pub enum OverlayReply {
    /// geozero's ISO WKB encoding of the overlay's MultiPolygon.
    Wkb(Vec<u8>),
    /// geozero failed to decode an operand or to encode the result.
    Failed(GeozeroError),
    /// `geo` or `i_overlay` panicked on degenerate geometry.
    Panicked,
}

/// The function name an operation's errors carry.
pub open spec fn op_label(op: PolygonOp) -> Seq<char> {
    match op {
        PolygonOp::Union => "ST_Union"@,
        PolygonOp::Difference => "ST_Difference"@,
        PolygonOp::SymDifference => "ST_SymDifference"@,
    }
}

/// Text of the error for an overlay that panicked.
pub open spec fn overlay_failed_msg(op: PolygonOp) -> Seq<char> {
    op_label(op) + ": operation failed on degenerate or invalid geometry"@
}

/// The result of `op` from what the overlay gave: its ISO WKB stored with
/// the operands' SRID, geozero's error, or the error for a panic.
pub fn finish_polygon_op(op: PolygonOp, srid: Option<i32>, reply: OverlayReply) -> (r: Result<
    Vec<u8>,
>)
    ensures
        reply matches OverlayReply::Wkb(w) ==> view_outcome(stored_form(w@, srid), r),
        reply matches OverlayReply::Wkb(w) && is_le_iso_wkb(w@) ==> (r matches Ok(v)
            ==> header_srid(v@) == srid),
        reply matches OverlayReply::Failed(e) ==> (r matches Err(SqliteGisError::Geozero(x))
            && x == e),
        reply is Panicked ==> (r matches Err(SqliteGisError::InvalidInput(m)) && m@
            == overlay_failed_msg(op)),
{
    match reply {
        OverlayReply::Wkb(w) => {
            proof {
                if is_le_iso_wkb(w@) {
                    lemma_stored_form_srid(w@, srid);
                }
            }
            store_with_srid(w, srid)
        },
        OverlayReply::Failed(e) => Err(SqliteGisError::Geozero(e)),
        OverlayReply::Panicked => {
            let label: &str = match op {
                PolygonOp::Union => "ST_Union",
                PolygonOp::Difference => "ST_Difference",
                PolygonOp::SymDifference => "ST_SymDifference",
            };
            Err(
                SqliteGisError::InvalidInput(
                    String::from_str(label).concat(
                        ": operation failed on degenerate or invalid geometry",
                    ),
                ),
            )
        },
    }
}

// ---------------------------------------------------------------------
// Decomposing the operands of an intersection
// ---------------------------------------------------------------------

/// Where the pieces of one operand of an intersection go.
#[derive(PartialEq, Eq, Structural, Clone, Copy, Debug)]
pub enum Piece {
    /// The non-empty points (of a Point or MultiPoint) join the points.
    Points,
    /// The non-empty line strings (of a LineString or MultiLineString)
    /// join the lines.
    Lines,
    /// The polygons with a non-empty shell (of a Polygon or MultiPolygon)
    /// join the polygons.
    Polygons,
    /// Each member of a GeometryCollection is decomposed in turn.
    Members,
}

/// The expected-type label of the intersection's operands.
pub open spec fn decomposable_label() -> Seq<char> {
    "Point, LineString, Polygon, or a Multi/Collection of these"@
}

/// Where a geometry of `kind` goes, or the error for a kind the
/// intersection does not take.
pub open spec fn piece_spec(kind: GeoKind) -> std::result::Result<Piece, ErrSpec> {
    match kind {
        GeoKind::Point | GeoKind::MultiPoint => Ok(Piece::Points),
        GeoKind::LineString | GeoKind::MultiLineString => Ok(Piece::Lines),
        GeoKind::Polygon | GeoKind::MultiPolygon => Ok(Piece::Polygons),
        GeoKind::GeometryCollection => Ok(Piece::Members),
        _ => Err(ErrSpec::Wrong(decomposable_label(), kind_name(kind))),
    }
}

/// The variant choice of decomposing an intersection operand.
pub fn piece_of(kind: GeoKind) -> (r: Result<Piece>)
    ensures
        outcome(piece_spec(kind), r),
{
    match kind {
        GeoKind::Point | GeoKind::MultiPoint => Ok(Piece::Points),
        GeoKind::LineString | GeoKind::MultiLineString => Ok(Piece::Lines),
        GeoKind::Polygon | GeoKind::MultiPolygon => Ok(Piece::Polygons),
        GeoKind::GeometryCollection => Ok(Piece::Members),
        other => Err(
            SqliteGisError::WrongType {
                expected: "Point, LineString, Polygon, or a Multi/Collection of these",
                actual: geometry_type_name(other),
            },
        ),
    }
}

// ---------------------------------------------------------------------
// Packing the pieces of an intersection
// ---------------------------------------------------------------------

/// How many pieces of one kind an intersection holds, as the packing sees it.
#[derive(PartialEq, Eq, Structural, Clone, Copy, Debug)]
pub enum Part {
    /// No piece of this kind.
    Absent,
    /// Exactly one piece: kept as the single geometry.
    Single,
    /// Several pieces: gathered into the kind's Multi geometry.
    Multi,
}

/// The part a count of pieces makes.
pub open spec fn part_spec(n: nat) -> Part {
    if n == 0 {
        Part::Absent
    } else if n == 1 {
        Part::Single
    } else {
        Part::Multi
    }
}

/// The smallest geometry that holds the points, line strings and polygons
/// of an intersection: each kind as its part, wrapped in a
/// GeometryCollection unless exactly one kind is present (no kind at all
/// gives the empty GeometryCollection).
#[derive(PartialEq, Eq, Structural, Clone, Copy, Debug)]
pub struct Packing {
    /// The part the points make.
    pub points: Part,
    /// The part the line strings make.
    pub lines: Part,
    /// The part the polygons make.
    pub polygons: Part,
    /// Whether the parts are wrapped in a GeometryCollection.
    pub collection: bool,
}

/// The number of kinds present among the three counts.
pub open spec fn kinds_present(points: nat, lines: nat, polygons: nat) -> nat {
    (if points > 0 {
        1nat
    } else {
        0nat
    }) + (if lines > 0 {
        1nat
    } else {
        0nat
    }) + (if polygons > 0 {
        1nat
    } else {
        0nat
    })
}

fn part_of(n: usize) -> (p: Part)
    ensures
        p == part_spec(n as nat),
{
    if n == 0 {
        Part::Absent
    } else if n == 1 {
        Part::Single
    } else {
        Part::Multi
    }
}

/// How an intersection with `points` (distinct) points, `lines` line
/// strings and `polygons` polygons is packed.
pub fn pack_shape(points: usize, lines: usize, polygons: usize) -> (p: Packing)
    ensures
        p.points == part_spec(points as nat),
        p.lines == part_spec(lines as nat),
        p.polygons == part_spec(polygons as nat),
        p.collection == (kinds_present(points as nat, lines as nat, polygons as nat) != 1),
{
    let kinds: u8 = (if points > 0 {
        1u8
    } else {
        0u8
    }) + (if lines > 0 {
        1u8
    } else {
        0u8
    }) + (if polygons > 0 {
        1u8
    } else {
        0u8
    });
    Packing {
        points: part_of(points),
        lines: part_of(lines),
        polygons: part_of(polygons),
        collection: kinds != 1,
    }
}

} // verus!
