//! Properties that span the functions of the EWKB core, proved over the
//! specifications those functions are verified against.

use vstd::prelude::*;

use crate::spatial::codec::is_le_iso_wkb;
use crate::spatial::functions::operations::{
    boxes_intersect, disjoint_concat_spec, is_polygonal, multipolygon_header, piece_spec, Piece, polygon_count, splice_bytes, splice_inputs,
    plan_spec, PolygonOp, StepView,
};
use crate::spatial::wkb_walk::{
    bbox_add, f64_key, mbr_spec, walk_elems, walk_geom, walk_points, walk_rings, BboxBits, Walk,
};
use crate::spatial::error::ErrSpec;
use crate::spatial::ewkb::{
    empty_point_blob_spec, empty_point_ewkb, f64_bits_nan, header_spec, matching_srid_spec,
    patch_spec, raw_type_of, set_srid_spec, srid_value, st_type_name, stored_form, u32_at,
    u32_bytes, u32_of_le, u64_at, u64_bytes, with_srid_bytes, EwkbHeader, EWKB_M_FLAG,
    EWKB_SRID_FLAG, EWKB_Z_FLAG, NAN_BITS, WKB_MULTIPOLYGON, WKB_POINT, WKB_TYPE_MASK,
};
use crate::spatial::ewkb::{parse_spec, payload_spec, point_empty_spec, shared_srid};
use crate::spatial::decode_guard::{srid_stripped, without_srid_flag};
use crate::spatial::codec::GeoKind;
use crate::spatial::functions::text::parens_exceed;

verus! {

// ---------------------------------------------------------------------
// Bytes
// ---------------------------------------------------------------------

/// Reading back the four bytes written for `v` gives `v`.
pub proof fn lemma_u32_roundtrip(v: u32, le: bool)
    ensures
        u32_at(u32_bytes(v, le), 0, le) == v,
{
    let b0 = (v & 0xffu32) as u8;
    let b1 = ((v >> 8u32) & 0xffu32) as u8;
    let b2 = ((v >> 16u32) & 0xffu32) as u8;
    let b3 = ((v >> 24u32) & 0xffu32) as u8;
    assert(u32_of_le(b0, b1, b2, b3) == v) by (bit_vector)
        requires
            b0 == (v & 0xffu32) as u8,
            b1 == ((v >> 8u32) & 0xffu32) as u8,
            b2 == ((v >> 16u32) & 0xffu32) as u8,
            b3 == ((v >> 24u32) & 0xffu32) as u8,
    ;
}

/// Reading back the eight bytes written for `v` gives `v`.
pub proof fn lemma_u64_roundtrip(v: u64, le: bool)
    ensures
        u64_at(u64_bytes(v, le), 0, le) == v,
{
    let s = u64_bytes(v, le);
    let b0 = (v & 0xff) as u8;
    let b1 = ((v >> 8u64) & 0xff) as u8;
    let b2 = ((v >> 16u64) & 0xff) as u8;
    let b3 = ((v >> 24u64) & 0xff) as u8;
    let b4 = ((v >> 32u64) & 0xff) as u8;
    let b5 = ((v >> 40u64) & 0xff) as u8;
    let b6 = ((v >> 48u64) & 0xff) as u8;
    let b7 = ((v >> 56u64) & 0xff) as u8;
    let w = (b0 as u64) | ((b1 as u64) << 8u64) | ((b2 as u64) << 16u64) | ((b3 as u64) << 24u64)
        | ((b4 as u64) << 32u64) | ((b5 as u64) << 40u64) | ((b6 as u64) << 48u64) | ((
    b7 as u64) << 56u64);
    assert(w == v) by (bit_vector)
        requires
            b0 == (v & 0xff) as u8,
            b1 == ((v >> 8u64) & 0xff) as u8,
            b2 == ((v >> 16u64) & 0xff) as u8,
            b3 == ((v >> 24u64) & 0xff) as u8,
            b4 == ((v >> 32u64) & 0xff) as u8,
            b5 == ((v >> 40u64) & 0xff) as u8,
            b6 == ((v >> 48u64) & 0xff) as u8,
            b7 == ((v >> 56u64) & 0xff) as u8,
            w == (b0 as u64) | ((b1 as u64) << 8u64) | ((b2 as u64) << 16u64) | ((b3 as u64)
                << 24u64) | ((b4 as u64) << 32u64) | ((b5 as u64) << 40u64) | ((b6 as u64)
                << 48u64) | ((b7 as u64) << 56u64),
    ;
    if !le {
        let f = seq![b0, b1, b2, b3, b4, b5, b6, b7];
        assert(s =~= f.reverse());
        assert(s[0] == b7 && s[1] == b6 && s[2] == b5 && s[3] == b4 && s[4] == b3 && s[5] == b2
            && s[6] == b1 && s[7] == b0);
    }
}

/// The `u32` at `off` of `w` is read from the same four bytes as the one at
/// `0` of `s`.
pub proof fn lemma_u32_at_shift(w: Seq<u8>, off: int, s: Seq<u8>, le: bool)
    requires
        0 <= off,
        off + 4 <= w.len(),
        4 <= s.len(),
        forall|i: int| 0 <= i < 4 ==> #[trigger] w[off + i] == s[i],
    ensures
        u32_at(w, off, le) == u32_at(s, 0, le),
{
    assert(w[off + 0] == s[0]);
    assert(w[off + 1] == s[1]);
    assert(w[off + 2] == s[2]);
    assert(w[off + 3] == s[3]);
}

/// The `u64` at `off` of `w` is read from the same eight bytes as the one at
/// `0` of `s`.
pub proof fn lemma_u64_at_shift(w: Seq<u8>, off: int, s: Seq<u8>, le: bool)
    requires
        0 <= off,
        off + 8 <= w.len(),
        8 <= s.len(),
        forall|i: int| 0 <= i < 8 ==> #[trigger] w[off + i] == s[i],
    ensures
        u64_at(w, off, le) == u64_at(s, 0, le),
{
    assert(w[off + 0] == s[0]);
    assert(w[off + 1] == s[1]);
    assert(w[off + 2] == s[2]);
    assert(w[off + 3] == s[3]);
    assert(w[off + 4] == s[4]);
    assert(w[off + 5] == s[5]);
    assert(w[off + 6] == s[6]);
    assert(w[off + 7] == s[7]);
}

/// An SRID survives the trip through its unsigned bit pattern.
proof fn lemma_srid_bits(s: i32)
    ensures
        (s as u32) as i32 == s,
{
    assert((s as u32) as i32 == s) by (bit_vector);
}

/// Setting the SRID flag keeps the type code and the Z and M flags.
proof fn lemma_srid_flag(raw: u32)
    ensures
        (raw | EWKB_SRID_FLAG) & EWKB_SRID_FLAG != 0,
        (raw | EWKB_SRID_FLAG) & WKB_TYPE_MASK == raw & WKB_TYPE_MASK,
        ((raw | EWKB_SRID_FLAG) & EWKB_Z_FLAG != 0) == (raw & EWKB_Z_FLAG != 0),
        ((raw | EWKB_SRID_FLAG) & EWKB_M_FLAG != 0) == (raw & EWKB_M_FLAG != 0),
{
    assert((raw | 0x20000000u32) & 0x20000000u32 != 0) by (bit_vector);
    assert((raw | 0x20000000u32) & 0x1FFFFFFFu32 == raw & 0x1FFFFFFFu32) by (bit_vector);
    assert(((raw | 0x20000000u32) & 0x80000000u32 != 0) == (raw & 0x80000000u32 != 0))
        by (bit_vector);
    assert(((raw | 0x20000000u32) & 0x40000000u32 != 0) == (raw & 0x40000000u32 != 0))
        by (bit_vector);
}

// ---------------------------------------------------------------------
// Headers written with an SRID
// ---------------------------------------------------------------------

/// The header of `b` rebuilt with `srid` (payload from `from` on) reads
/// back as `b`'s type and flags with that SRID, and keeps the payload.
pub proof fn lemma_with_srid_header(b: Seq<u8>, from: int, srid: i32)
    requires
        b.len() >= 5,
        b[0] == 1u8 || b[0] == 0u8,
        5 <= from <= b.len(),
    ensures
        ({
            let w = with_srid_bytes(b, from, srid);
            let raw = raw_type_of(b);
            &&& header_spec(w) == Ok::<EwkbHeader, ErrSpec>(
                EwkbHeader {
                    geom_type: raw & WKB_TYPE_MASK,
                    srid: Some(srid),
                    has_z: raw & EWKB_Z_FLAG != 0,
                    has_m: raw & EWKB_M_FLAG != 0,
                    data_offset: 9,
                    little_endian: b[0] == 1u8,
                },
            )
            &&& w.subrange(9, w.len() as int) == b.subrange(from, b.len() as int)
        }),
{
    let le = b[0] == 1u8;
    let raw = raw_type_of(b);
    let tb = u32_bytes(raw | EWKB_SRID_FLAG, le);
    let sb = u32_bytes(srid as u32, le);
    let tail = b.subrange(from, b.len() as int);
    let w = with_srid_bytes(b, from, srid);
    assert(w =~= seq![b[0]] + tb + sb + tail);
    assert(w.len() == 9 + tail.len());
    assert forall|i: int| 0 <= i < 4 implies #[trigger] w[1 + i] == tb[i] by {}
    assert forall|i: int| 0 <= i < 4 implies #[trigger] w[5 + i] == sb[i] by {}
    lemma_u32_at_shift(w, 1, tb, le);
    lemma_u32_at_shift(w, 5, sb, le);
    lemma_u32_roundtrip(raw | EWKB_SRID_FLAG, le);
    lemma_u32_roundtrip(srid as u32, le);
    lemma_srid_bits(srid);
    lemma_srid_flag(raw);
    assert(w.subrange(9, w.len() as int) =~= tail);
}

/// ISO WKB as geozero writes it carries no SRID.
pub proof fn lemma_iso_wkb_has_no_srid(w: Seq<u8>)
    requires
        is_le_iso_wkb(w),
    ensures
        header_spec(w) matches Ok(h) && h.srid is None && h.data_offset == 5 && h.little_endian,
{
    let (b1, b2, b3) = (w[1], w[2], w[3]);
    assert(u32_of_le(b1, b2, b3, 0u8) & 0x20000000u32 == 0) by (bit_vector);
}

/// The SRID the stored form of freshly written ISO WKB carries is the one
/// it was stored with.
pub proof fn lemma_stored_form_srid(w: Seq<u8>, srid: Option<i32>)
    requires
        is_le_iso_wkb(w),
    ensures
        stored_form(w, srid) matches Ok(v) && header_spec(v) matches Ok(h) && h.srid == srid,
{
    lemma_iso_wkb_has_no_srid(w);
    match srid {
        None => {},
        Some(s) => {
            lemma_with_srid_header(w, 5, s);
        },
    }
}

/// Setting an SRID and reading it back gives that SRID; the byte order,
/// type and flags of the blob and its payload bytes are kept.
pub proof fn law_set_srid_reads_back(b: Seq<u8>, srid: i32)
    requires
        set_srid_spec(b, srid) is Ok,
    ensures
        ({
            let w = set_srid_spec(b, srid)->Ok_0;
            let h = header_spec(b)->Ok_0;
            &&& header_spec(w) == Ok::<EwkbHeader, ErrSpec>(
                EwkbHeader { srid: Some(srid), data_offset: 9, ..h },
            )
            &&& w.subrange(9, w.len() as int) == b.subrange(h.data_offset as int, b.len() as int)
        }),
{
    let h = header_spec(b)->Ok_0;
    lemma_with_srid_header(b, h.data_offset as int, srid);
}

/// Writing back the four bytes of a `u32` read from `b` gives those bytes.
pub proof fn lemma_u32_bytes_of_read(b: Seq<u8>, off: int, le: bool)
    requires
        0 <= off,
        off + 4 <= b.len(),
    ensures
        u32_bytes(u32_at(b, off, le), le) =~= b.subrange(off, off + 4),
{
    let (a0, a1, a2, a3) = if le {
        (b[off], b[off + 1], b[off + 2], b[off + 3])
    } else {
        (b[off + 3], b[off + 2], b[off + 1], b[off])
    };
    let v = u32_of_le(a0, a1, a2, a3);
    assert(v == u32_at(b, off, le));
    assert((v & 0xffu32) as u8 == a0 && ((v >> 8u32) & 0xffu32) as u8 == a1 && ((v >> 16u32)
        & 0xffu32) as u8 == a2 && ((v >> 24u32) & 0xffu32) as u8 == a3) by (bit_vector)
        requires
            v == u32_of_le(a0, a1, a2, a3),
    ;
}

/// The parts of a blob geozero's reader looks at (everything but a
/// top-level SRID) are the same before and after an SRID is set.
proof fn lemma_set_srid_keeps_stripped(b: Seq<u8>, s: i32)
    requires
        header_spec(b) is Ok,
    ensures
        srid_stripped(with_srid_bytes(b, header_spec(b)->Ok_0.data_offset as int, s))
            =~= srid_stripped(b),
{
    let h = header_spec(b)->Ok_0;
    let le = b[0] == 1u8;
    let raw = raw_type_of(b);
    let off = h.data_offset as int;
    let w = with_srid_bytes(b, off, s);
    let tb = u32_bytes(raw | EWKB_SRID_FLAG, le);
    let tail = b.subrange(off, b.len() as int);
    assert(w =~= seq![b[0]] + tb + u32_bytes(s as u32, le) + tail);
    assert forall|i: int| 0 <= i < 4 implies #[trigger] w[1 + i] == tb[i] by {}
    lemma_u32_at_shift(w, 1, tb, le);
    lemma_u32_roundtrip(raw | EWKB_SRID_FLAG, le);
    assert((b[0] != 0u8) == le);
    assert(u32_at(w, 1, le) == raw | EWKB_SRID_FLAG);
    assert((raw | EWKB_SRID_FLAG) & EWKB_SRID_FLAG != 0) by (bit_vector);
    assert(w.subrange(9, w.len() as int) =~= tail);
    if raw & EWKB_SRID_FLAG != 0 {
        assert(without_srid_flag(raw | EWKB_SRID_FLAG) == without_srid_flag(raw)) by (bit_vector);
    } else {
        assert(without_srid_flag(raw | EWKB_SRID_FLAG) == raw) by (bit_vector)
            requires
                raw & EWKB_SRID_FLAG == 0,
        ;
        lemma_u32_bytes_of_read(b, 1, le);
        assert(b =~= seq![b[0]] + b.subrange(1, 5) + tail);
    }
}

/// A blob whose SRID was set validates again, carries that SRID, and
/// decodes to the same kind of geometry as before.
pub proof fn law_set_srid_revalidates(b: Seq<u8>, s: i32)
    requires
        payload_spec(b) is Ok,
    ensures
        set_srid_spec(b, s) is Ok,
        payload_spec(set_srid_spec(b, s)->Ok_0) matches Ok(h) && h.srid == Some(s),
        parse_spec(b) matches Ok((k, _)) ==> parse_spec(set_srid_spec(b, s)->Ok_0) == Ok::<
            (GeoKind, Option<i32>),
            ErrSpec,
        >((k, Some(s))),
{
    let h = header_spec(b)->Ok_0;
    let off = h.data_offset as int;
    let w = set_srid_spec(b, s)->Ok_0;
    law_set_srid_reads_back(b, s);
    lemma_set_srid_keeps_stripped(b, s);
    let hw = header_spec(w)->Ok_0;
    assert(w.subrange(9, w.len() as int) =~= b.subrange(off, b.len() as int));
    if h.geom_type == WKB_POINT && b.len() >= off + 16 {
        let tail = b.subrange(off, b.len() as int);
        assert forall|i: int| 0 <= i < 8 implies #[trigger] w[9 + i] == tail[i] by {
            assert(w[9 + i] == w.subrange(9, w.len() as int)[i]);
        }
        assert forall|i: int| 0 <= i < 8 implies #[trigger] b[off + i] == tail[i] by {}
        lemma_u64_at_shift(w, 9, tail, hw.little_endian);
        lemma_u64_at_shift(b, off, tail, h.little_endian);
        let t8 = tail.subrange(8, tail.len() as int);
        assert forall|i: int| 0 <= i < 8 implies #[trigger] w[17 + i] == t8[i] by {
            assert(w[17 + i] == w.subrange(9, w.len() as int)[8 + i]);
        }
        assert forall|i: int| 0 <= i < 8 implies #[trigger] b[off + 8 + i] == t8[i] by {}
        lemma_u64_at_shift(w, 17, t8, hw.little_endian);
        lemma_u64_at_shift(b, off + 8, t8, h.little_endian);
    }
    assert(point_empty_spec(w, hw) == point_empty_spec(b, h));
}

/// Setting an SRID twice is setting the last one.
pub proof fn law_set_srid_last_wins(b: Seq<u8>, s1: i32, s2: i32)
    requires
        payload_spec(b) is Ok,
    ensures
        set_srid_spec(set_srid_spec(b, s1)->Ok_0, s2) == set_srid_spec(b, s2),
{
    law_set_srid_revalidates(b, s1);
    let h = header_spec(b)->Ok_0;
    let w1 = set_srid_spec(b, s1)->Ok_0;
    let le = b[0] == 1u8;
    let raw = raw_type_of(b);
    lemma_with_srid_header(b, h.data_offset as int, s1);
    let h1 = header_spec(w1)->Ok_0;
    assert(h1.data_offset == 9);
    let tb = u32_bytes(raw | EWKB_SRID_FLAG, le);
    assert(w1 =~= seq![b[0]] + tb + u32_bytes(s1 as u32, le) + b.subrange(
        h.data_offset as int,
        b.len() as int,
    ));
    assert forall|i: int| 0 <= i < 4 implies #[trigger] w1[1 + i] == tb[i] by {}
    lemma_u32_at_shift(w1, 1, tb, le);
    lemma_u32_roundtrip(raw | EWKB_SRID_FLAG, le);
    assert(w1[0] == b[0]);
    assert(raw_type_of(w1) == raw | EWKB_SRID_FLAG);
    assert((raw | EWKB_SRID_FLAG) | EWKB_SRID_FLAG == raw | EWKB_SRID_FLAG) by (bit_vector);
    assert(w1.subrange(9, w1.len() as int) =~= b.subrange(h.data_offset as int, b.len() as int));
    assert(with_srid_bytes(w1, 9, s2) =~= with_srid_bytes(b, h.data_offset as int, s2));
}

/// Setting the SRID a blob already carries gives the blob back unchanged.
pub proof fn law_set_srid_present_is_identity(b: Seq<u8>, s: i32)
    requires
        payload_spec(b) is Ok,
        header_spec(b)->Ok_0.srid == Some(s),
    ensures
        set_srid_spec(b, s) == Ok::<Seq<u8>, ErrSpec>(b),
{
    let h = header_spec(b)->Ok_0;
    let le = b[0] == 1u8;
    let raw = raw_type_of(b);
    assert(raw & EWKB_SRID_FLAG != 0);
    assert(raw | EWKB_SRID_FLAG == raw) by (bit_vector)
        requires
            raw & EWKB_SRID_FLAG != 0,
    ;
    let v = u32_at(b, 5, le);
    assert(s == v as i32);
    assert((v as i32) as u32 == v) by (bit_vector);
    lemma_u32_bytes_of_read(b, 1, le);
    lemma_u32_bytes_of_read(b, 5, le);
    assert(b =~= seq![b[0]] + b.subrange(1, 5) + b.subrange(5, 9) + b.subrange(9, b.len() as int));
    assert(with_srid_bytes(b, 9, s) =~= b);
}

/// Patching an SRID into ISO WKB gives EWKB that reads back with that SRID,
/// the buffer's byte order, type and flags, and the same payload bytes.
pub proof fn law_patch_reads_back(b: Seq<u8>, srid: i32)
    requires
        patch_spec(b, srid) is Ok,
    ensures
        ({
            let w = patch_spec(b, srid)->Ok_0;
            let raw = raw_type_of(b);
            &&& header_spec(w) == Ok::<EwkbHeader, ErrSpec>(
                EwkbHeader {
                    geom_type: raw & WKB_TYPE_MASK,
                    srid: Some(srid),
                    has_z: raw & EWKB_Z_FLAG != 0,
                    has_m: raw & EWKB_M_FLAG != 0,
                    data_offset: 9,
                    little_endian: b[0] == 1u8,
                },
            )
            &&& w.subrange(9, w.len() as int) == b.subrange(5, b.len() as int)
        }),
{
    lemma_with_srid_header(b, 5, srid);
}

/// SRID compatibility does not depend on the order of the operands, and two
/// compatible operands share one SRID value.
pub proof fn law_matching_srid_symmetric(left: Option<i32>, right: Option<i32>)
    ensures
        matching_srid_spec(left, right) is Ok <==> matching_srid_spec(right, left) is Ok,
        matching_srid_spec(left, right) is Ok ==> matching_srid_spec(left, right)
            == matching_srid_spec(right, left),
        matching_srid_spec(left, right) matches Ok(s) ==> srid_value(s) == srid_value(left)
            && srid_value(s) == srid_value(right),
{
}

/// The type name reads only the type code: flag bits outside the code
/// (SRID, Z, M) do not change it.
pub proof fn law_type_name_ignores_flags(raw: u32, flags: u32)
    requires
        flags & WKB_TYPE_MASK == 0,
    ensures
        st_type_name((raw | flags) & WKB_TYPE_MASK) == st_type_name(raw & WKB_TYPE_MASK),
{
    assert((raw | flags) & 0x1FFFFFFFu32 == raw & 0x1FFFFFFFu32) by (bit_vector)
        requires
            flags & 0x1FFFFFFFu32 == 0,
    ;
}

/// `POINT EMPTY` as the library writes it reads back as an empty Point with
/// the SRID it was written with.
pub proof fn law_empty_point_reads_back(srid: Option<i32>)
    ensures
        empty_point_blob_spec(empty_point_ewkb(srid)) == Ok::<bool, ErrSpec>(true),
        header_spec(empty_point_ewkb(srid)) matches Ok(h) && h.srid == srid && h.geom_type
            == WKB_POINT && !h.has_z && !h.has_m,
{
    let w = empty_point_ewkb(srid);
    let nb = u64_bytes(NAN_BITS, true);
    lemma_u64_roundtrip(NAN_BITS, true);
    assert(f64_bits_nan(NAN_BITS)) by (bit_vector);
    match srid {
        Some(s) => {
            let tb = u32_bytes(WKB_POINT | EWKB_SRID_FLAG, true);
            let sb = u32_bytes(s as u32, true);
            assert(w =~= seq![1u8] + tb + sb + nb + nb);
            assert forall|i: int| 0 <= i < 4 implies #[trigger] w[1 + i] == tb[i] by {}
            assert forall|i: int| 0 <= i < 4 implies #[trigger] w[5 + i] == sb[i] by {}
            assert forall|i: int| 0 <= i < 8 implies #[trigger] w[9 + i] == nb[i] by {}
            assert forall|i: int| 0 <= i < 8 implies #[trigger] w[17 + i] == nb[i] by {}
            lemma_u32_at_shift(w, 1, tb, true);
            lemma_u32_at_shift(w, 5, sb, true);
            lemma_u64_at_shift(w, 9, nb, true);
            lemma_u64_at_shift(w, 17, nb, true);
            lemma_u32_roundtrip(WKB_POINT | EWKB_SRID_FLAG, true);
            lemma_u32_roundtrip(s as u32, true);
            lemma_srid_bits(s);
            assert((1u32 | 0x20000000u32) & 0x20000000u32 != 0) by (bit_vector);
            assert((1u32 | 0x20000000u32) & 0x1FFFFFFFu32 == 1) by (bit_vector);
            assert((1u32 | 0x20000000u32) & 0x80000000u32 == 0) by (bit_vector);
            assert((1u32 | 0x20000000u32) & 0x40000000u32 == 0) by (bit_vector);
        },
        None => {
            let tb = u32_bytes(WKB_POINT, true);
            assert(w =~= seq![1u8] + tb + nb + nb);
            assert forall|i: int| 0 <= i < 4 implies #[trigger] w[1 + i] == tb[i] by {}
            assert forall|i: int| 0 <= i < 8 implies #[trigger] w[5 + i] == nb[i] by {}
            assert forall|i: int| 0 <= i < 8 implies #[trigger] w[13 + i] == nb[i] by {}
            lemma_u32_at_shift(w, 1, tb, true);
            lemma_u64_at_shift(w, 5, nb, true);
            lemma_u64_at_shift(w, 13, nb, true);
            lemma_u32_roundtrip(WKB_POINT, true);
            assert(1u32 & 0x20000000u32 == 0) by (bit_vector);
            assert(1u32 & 0x1FFFFFFFu32 == 1) by (bit_vector);
            assert(1u32 & 0x80000000u32 == 0) by (bit_vector);
            assert(1u32 & 0x40000000u32 == 0) by (bit_vector);
        },
    }
}

// ---------------------------------------------------------------------
// Bounding boxes
// ---------------------------------------------------------------------

/// A box whose corners are non-NaN and ordered: `min_x <= max_x` and
/// `min_y <= max_y`.
pub open spec fn box_ordered(acc: BboxBits) -> bool {
    acc matches Some((a, b, c, d)) ==> {
        &&& !f64_bits_nan(a)
        &&& !f64_bits_nan(b)
        &&& !f64_bits_nan(c)
        &&& !f64_bits_nan(d)
        &&& f64_key(a) <= f64_key(c)
        &&& f64_key(b) <= f64_key(d)
    }
}

/// A walk that finishes leaves an ordered box.
pub open spec fn walk_ordered(w: Walk) -> bool {
    w matches Walk::Done(_, a) ==> box_ordered(a)
}

proof fn lemma_bbox_add_ordered(acc: BboxBits, x: u64, y: u64)
    requires
        box_ordered(acc),
    ensures
        box_ordered(bbox_add(acc, x, y)),
{
}

proof fn lemma_points_ordered(b: Seq<u8>, off: int, n: nat, cs: int, le: bool, acc: BboxBits)
    requires
        box_ordered(acc),
    ensures
        walk_ordered(walk_points(b, off, n, cs, le, acc)),
    decreases n,
{
    if n > 0 && b.len() >= off + 16 {
        let x = u64_at(b, off, le);
        let y = u64_at(b, off + 8, le);
        lemma_bbox_add_ordered(acc, x, y);
        lemma_points_ordered(b, off + cs, (n - 1) as nat, cs, le, bbox_add(acc, x, y));
    }
}

proof fn lemma_rings_ordered(b: Seq<u8>, off: int, n: nat, cs: int, le: bool, acc: BboxBits)
    requires
        box_ordered(acc),
    ensures
        walk_ordered(walk_rings(b, off, n, cs, le, acc)),
    decreases n,
{
    if n > 0 && b.len() >= off + 4 {
        let count = u32_at(b, off, le) as nat;
        lemma_points_ordered(b, off + 4, count, cs, le, acc);
        match walk_points(b, off + 4, count, cs, le, acc) {
            Walk::Done(e, a) => lemma_rings_ordered(b, e, (n - 1) as nat, cs, le, a),
            _ => {},
        }
    }
}

proof fn lemma_geom_ordered(
    b: Seq<u8>,
    off: int,
    code: u32,
    has_z: bool,
    has_m: bool,
    le: bool,
    acc: BboxBits,
    fuel: nat,
)
    requires
        box_ordered(acc),
    ensures
        walk_ordered(walk_geom(b, off, code, has_z, has_m, le, acc, fuel)),
    decreases fuel, 0nat,
{
    if code == WKB_POINT {
        if b.len() >= off + 16 {
            lemma_bbox_add_ordered(acc, u64_at(b, off, le), u64_at(b, off + 8, le));
        }
    } else if b.len() >= off + 4 {
        let count = u32_at(b, off, le) as nat;
        let cs = crate::spatial::wkb_walk::coord_size(has_z, has_m);
        lemma_points_ordered(b, off + 4, count, cs, le, acc);
        lemma_rings_ordered(b, off + 4, count, cs, le, acc);
        if fuel > 0 {
            lemma_elems_ordered(b, off + 4, count, acc, (fuel - 1) as nat);
        }
    }
}

proof fn lemma_elems_ordered(
    b: Seq<u8>,
    off: int,
    n: nat,
    acc: BboxBits,
    fuel: nat,
)
    requires
        box_ordered(acc),
    ensures
        walk_ordered(walk_elems(b, off, n, acc, fuel)),
    decreases fuel, n,
{
    if n > 0 && b.len() >= off + 5 && (b[off] == 1u8 || b[off] == 0u8) {
        let le = b[off] == 1u8;
        let raw = u32_at(b, off + 1, le);
        lemma_geom_ordered(
            b,
            off + 5,
            raw & WKB_TYPE_MASK,
            raw & EWKB_Z_FLAG != 0,
            raw & EWKB_M_FLAG != 0,
            le,
            acc,
            fuel,
        );
        match walk_geom(
            b,
            off + 5,
            raw & WKB_TYPE_MASK,
            raw & EWKB_Z_FLAG != 0,
            raw & EWKB_M_FLAG != 0,
            le,
            acc,
            fuel,
        ) {
            Walk::Done(e, a) => lemma_elems_ordered(b, e, (n - 1) as nat, a, fuel),
            _ => {},
        }
    }
}

/// The bounding box of a blob, when it has one, is a real box: its corners
/// are numbers (never NaN) and each minimum is at most its maximum.
pub proof fn law_mbr_ordered(b: Seq<u8>)
    ensures
        mbr_spec(b) matches Ok(a) ==> box_ordered(a),
{
    match header_spec(b) {
        Ok(h) => {
            lemma_geom_ordered(
                b,
                h.data_offset as int,
                h.geom_type,
                h.has_z,
                h.has_m,
                h.little_endian,
                None,
                (b.len() + 1) as nat,
            );
        },
        Err(_) => {},
    }
}

// ---------------------------------------------------------------------
// Polygon set operations
// ---------------------------------------------------------------------

/// Union and symmetric difference decide alike on every pair of blobs:
/// the same error, the same spliced result when the boxes do not meet (the
/// symmetric difference of disjoint sets is their union), or the same
/// operands and SRID handed to the overlay.
pub proof fn law_union_and_sym_difference_plan_alike(a: Seq<u8>, b: Seq<u8>)
    ensures
        plan_spec(PolygonOp::Union, a, b) == plan_spec(PolygonOp::SymDifference, a, b),
        disjoint_concat_spec(a, b) is Some ==> plan_spec(PolygonOp::Union, a, b) == Ok::<
            StepView,
            ErrSpec,
        >(StepView::Done(disjoint_concat_spec(a, b)->0)),
{
}

/// The point at number-line positions `(x, y)` lies in the box `r` of
/// double bit patterns `(min_x, min_y, max_x, max_y)`.
pub open spec fn box_holds(r: (u64, u64, u64, u64), x: int, y: int) -> bool {
    &&& f64_key(r.0) <= x <= f64_key(r.2)
    &&& f64_key(r.1) <= y <= f64_key(r.3)
}

/// Whether two boxes meet does not depend on the order they are given in.
pub proof fn law_boxes_intersect_symmetric(r: (u64, u64, u64, u64), s: (u64, u64, u64, u64))
    ensures
        boxes_intersect(r, s) == boxes_intersect(s, r),
{
}

/// Two boxes (each minimum at most its maximum) meet exactly when some
/// point lies in both.
pub proof fn law_boxes_intersect_iff_common_point(
    r: (u64, u64, u64, u64),
    s: (u64, u64, u64, u64),
)
    requires
        f64_key(r.0) <= f64_key(r.2),
        f64_key(r.1) <= f64_key(r.3),
        f64_key(s.0) <= f64_key(s.2),
        f64_key(s.1) <= f64_key(s.3),
    ensures
        boxes_intersect(r, s) <==> exists|x: int, y: int| box_holds(r, x, y) && box_holds(s, x, y),
{
    if boxes_intersect(r, s) {
        let x = if f64_key(r.0) < f64_key(s.0) {
            f64_key(s.0)
        } else {
            f64_key(r.0)
        };
        let y = if f64_key(r.1) < f64_key(s.1) {
            f64_key(s.1)
        } else {
            f64_key(r.1)
        };
        assert(box_holds(r, x, y) && box_holds(s, x, y));
    }
}

/// The splice is taken only for operands whose bounding boxes share no
/// point: the union (or symmetric difference) of overlapping shapes always
/// goes through the overlay.
pub proof fn law_splice_only_for_disjoint_boxes(a: Seq<u8>, b: Seq<u8>)
    requires
        disjoint_concat_spec(a, b) is Some,
    ensures
        mbr_spec(a) matches Ok(Some(ra)) && mbr_spec(b) matches Ok(Some(rb)) && forall|
            x: int,
            y: int,
        | !(#[trigger] box_holds(ra, x, y) && #[trigger] box_holds(rb, x, y)),
{
    law_mbr_ordered(a);
    law_mbr_ordered(b);
    let ra = mbr_spec(a)->Ok_0->Some_0;
    let rb = mbr_spec(b)->Ok_0->Some_0;
    law_boxes_intersect_iff_common_point(ra, rb);
}

/// The operands of an intersection are sorted by dimension: a single
/// geometry goes where its Multi form goes; the polygonal kinds (exactly
/// those the polygon set operations take) join the polygons; only the kinds
/// the intersection has no place for are refused.
pub proof fn law_pieces_follow_dimension(k: GeoKind)
    ensures
        piece_spec(GeoKind::Point) == piece_spec(GeoKind::MultiPoint),
        piece_spec(GeoKind::LineString) == piece_spec(GeoKind::MultiLineString),
        piece_spec(GeoKind::Polygon) == piece_spec(GeoKind::MultiPolygon),
        (piece_spec(k) == Ok::<Piece, ErrSpec>(Piece::Polygons)) <==> is_polygonal(k),
        (piece_spec(k) == Ok::<Piece, ErrSpec>(Piece::Points)) <==> (k == GeoKind::Point || k
            == GeoKind::MultiPoint),
        (piece_spec(k) == Ok::<Piece, ErrSpec>(Piece::Lines)) <==> (k == GeoKind::LineString || k
            == GeoKind::MultiLineString),
        (piece_spec(k) == Ok::<Piece, ErrSpec>(Piece::Members)) <==> k == GeoKind::GeometryCollection,
        piece_spec(k) is Err <==> (k == GeoKind::Line || k == GeoKind::Rect || k == GeoKind::Triangle),
{
}

/// `(` characters minus `)` characters in `b[j..i]`.
pub open spec fn net_parens(b: Seq<u8>, j: int, i: int) -> int
    decreases i - j,
{
    if i <= j {
        0
    } else {
        net_parens(b, j, i - 1) + if b[i - 1] == 40u8 {
            1int
        } else if b[i - 1] == 41u8 {
            -1int
        } else {
            0int
        }
    }
}

proof fn lemma_depth_is_a_segment(b: Seq<u8>, i: int, j: int, d: int, max: int)
    requires
        0 <= j <= i <= b.len(),
        net_parens(b, j, i) == d,
        0 <= d,
        forall|p: int, q: int| 0 <= p <= q <= b.len() ==> #[trigger] net_parens(b, p, q) <= max,
    ensures
        !parens_exceed(b, i, d, max),
    decreases b.len() - i,
{
    if i < b.len() {
        assert(net_parens(b, j, i + 1) == d + if b[i] == 40u8 {
            1int
        } else if b[i] == 41u8 {
            -1int
        } else {
            0int
        });
        if b[i] == 40u8 {
            lemma_depth_is_a_segment(b, i + 1, j, d + 1, max);
        } else if b[i] == 41u8 {
            if d == 0 {
                lemma_depth_is_a_segment(b, i + 1, i + 1, 0, max);
            } else {
                lemma_depth_is_a_segment(b, i + 1, j, d - 1, max);
            }
        } else {
            lemma_depth_is_a_segment(b, i + 1, j, d, max);
        }
    }
}

proof fn lemma_prefix_reaches(b: Seq<u8>, i: int, k: int, d: int, max: int)
    requires
        0 <= i <= k <= b.len(),
        net_parens(b, 0, k) > max,
        net_parens(b, 0, i) <= d <= max,
        0 <= d,
    ensures
        parens_exceed(b, i, d, max),
    decreases b.len() - i,
{
    if i < k {
        assert(net_parens(b, 0, i + 1) == net_parens(b, 0, i) + if b[i] == 40u8 {
            1int
        } else if b[i] == 41u8 {
            -1int
        } else {
            0int
        });
        if b[i] == 40u8 {
            if d + 1 <= max {
                lemma_prefix_reaches(b, i + 1, k, d + 1, max);
            }
        } else if b[i] == 41u8 {
            lemma_prefix_reaches(b, i + 1, k, if d == 0 {
                0
            } else {
                d - 1
            }, max);
        } else {
            lemma_prefix_reaches(b, i + 1, k, d, max);
        }
    }
}

/// The WKT nesting check bounds depth, not count: a text in which no
/// stretch holds more than `max` unmatched `(` is never refused, however
/// many groups it has; a text with a prefix holding more than `max`
/// unclosed `(` always is.
pub proof fn law_wkt_nesting_bounds_depth(b: Seq<u8>, max: int)
    requires
        0 <= max,
    ensures
        (forall|p: int, q: int| 0 <= p <= q <= b.len() ==> #[trigger] net_parens(b, p, q) <= max)
            ==> !parens_exceed(b, 0, 0, max),
        (exists|k: int| 0 <= k <= b.len() && #[trigger] net_parens(b, 0, k) > max) ==> parens_exceed(
            b,
            0,
            0,
            max,
        ),
{
    if forall|p: int, q: int| 0 <= p <= q <= b.len() ==> #[trigger] net_parens(b, p, q) <= max {
        lemma_depth_is_a_segment(b, 0, 0, 0, max);
    }
    if exists|k: int| 0 <= k <= b.len() && #[trigger] net_parens(b, 0, k) > max {
        let k = choose|k: int| 0 <= k <= b.len() && #[trigger] net_parens(b, 0, k) > max;
        lemma_prefix_reaches(b, 0, k, 0, max);
    }
}

/// The header of a written MultiPolygon reads back as a little-endian XY
/// MultiPolygon with the SRID and part count it was written with.
proof fn lemma_multipolygon_header(srid: Option<i32>, count: u32, rest: Seq<u8>)
    ensures
        ({
            let v = multipolygon_header(srid, count) + rest;
            &&& header_spec(v) matches Ok(h) && {
                &&& h.geom_type == WKB_MULTIPOLYGON
                &&& h.srid == srid
                &&& !h.has_z
                &&& !h.has_m
                &&& h.little_endian
                &&& h.data_offset + 4 <= v.len()
                &&& u32_at(v, h.data_offset as int, true) == count
            }
        }),
{
    let v = multipolygon_header(srid, count) + rest;
    let cb = u32_bytes(count, true);
    lemma_u32_roundtrip(count, true);
    match srid {
        Some(s) => {
            let tb = u32_bytes(WKB_MULTIPOLYGON | EWKB_SRID_FLAG, true);
            let sb = u32_bytes(s as u32, true);
            assert(v =~= seq![1u8] + tb + sb + cb + rest);
            assert forall|i: int| 0 <= i < 4 implies #[trigger] v[1 + i] == tb[i] by {}
            assert forall|i: int| 0 <= i < 4 implies #[trigger] v[5 + i] == sb[i] by {}
            assert forall|i: int| 0 <= i < 4 implies #[trigger] v[9 + i] == cb[i] by {}
            lemma_u32_at_shift(v, 1, tb, true);
            lemma_u32_at_shift(v, 5, sb, true);
            lemma_u32_at_shift(v, 9, cb, true);
            lemma_u32_roundtrip(WKB_MULTIPOLYGON | EWKB_SRID_FLAG, true);
            lemma_u32_roundtrip(s as u32, true);
            lemma_srid_bits(s);
            assert((6u32 | 0x20000000u32) & 0x20000000u32 != 0) by (bit_vector);
            assert((6u32 | 0x20000000u32) & 0x1FFFFFFFu32 == 6) by (bit_vector);
            assert((6u32 | 0x20000000u32) & 0x80000000u32 == 0) by (bit_vector);
            assert((6u32 | 0x20000000u32) & 0x40000000u32 == 0) by (bit_vector);
        },
        None => {
            let tb = u32_bytes(WKB_MULTIPOLYGON, true);
            assert(v =~= seq![1u8] + tb + cb + rest);
            assert forall|i: int| 0 <= i < 4 implies #[trigger] v[1 + i] == tb[i] by {}
            assert forall|i: int| 0 <= i < 4 implies #[trigger] v[5 + i] == cb[i] by {}
            lemma_u32_at_shift(v, 1, tb, true);
            lemma_u32_at_shift(v, 5, cb, true);
            lemma_u32_roundtrip(WKB_MULTIPOLYGON, true);
            assert(6u32 & 0x20000000u32 == 0) by (bit_vector);
            assert(6u32 & 0x1FFFFFFFu32 == 6) by (bit_vector);
            assert(6u32 & 0x80000000u32 == 0) by (bit_vector);
            assert(6u32 & 0x40000000u32 == 0) by (bit_vector);
        },
    }
}

/// Splicing two polygonal blobs whose boxes do not meet gives a
/// little-endian XY MultiPolygon with the operands' shared SRID, whose part
/// count is the sum of the operands' polygon counts.
pub proof fn law_splice_header(a: Seq<u8>, b: Seq<u8>)
    requires
        splice_inputs(a, b) is Some,
    ensures
        ({
            let (ha, hb, ea, eb) = splice_inputs(a, b)->0;
            let v = disjoint_concat_spec(a, b)->0;
            &&& disjoint_concat_spec(a, b) is Some
            &&& header_spec(v) matches Ok(h) && {
                &&& h.geom_type == WKB_MULTIPOLYGON
                &&& h.srid == shared_srid(ha.srid, hb.srid)
                &&& !h.has_z
                &&& !h.has_m
                &&& h.little_endian
                &&& u32_at(v, h.data_offset as int, true) == polygon_count(a, ha) + polygon_count(
                    b,
                    hb,
                )
            }
        }),
{
    let (ha, hb, ea, eb) = splice_inputs(a, b)->0;
    let count = (polygon_count(a, ha) + polygon_count(b, hb)) as u32;
    let rest = crate::spatial::functions::operations::polygon_parts(a, ha, ea)
        + crate::spatial::functions::operations::polygon_parts(b, hb, eb);
    lemma_multipolygon_header(shared_srid(ha.srid, hb.srid), count, rest);
    assert(splice_bytes(a, b, ha, hb, ea, eb) =~= multipolygon_header(
        shared_srid(ha.srid, hb.srid),
        count,
    ) + rest);
}

} // verus!
