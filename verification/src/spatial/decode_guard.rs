//! The reach of geozero's EWKB reader, walked ahead of it.
//!
//! geozero reads an EWKB blob recursively, one stack frame per nested
//! `GeometryCollection`, and sizes its vectors from the counts in the blob
//! before it reads their elements. A blob is handed to it only after a walk
//! that reads the headers exactly as geozero does has shown that geozero
//! either reads a whole geometry or stops with an error on its own, without
//! meeting a count larger than the blob (so no vector is sized beyond a
//! multiple of the blob's length), a collection nested deeper than
//! [`MAX_NESTING_DEPTH`], or a curve or surface type, which the walk does
//! not follow.
//!
//! geozero hands the top-level SRID to its geometry builder, which ignores
//! it; the walk therefore reads the blob with that SRID taken out
//! ([`srid_stripped`]).
//!
//! geozero's header rules, which the walk follows: any non-zero byte-order
//! marker reads little-endian; the type is the low byte of the type word;
//! the Z, M and SRID flags sit in its top bits, and a flagged SRID word is
//! skipped in nested headers too; the parts of a `MultiPoint`,
//! `MultiLineString` or `MultiPolygon` are read as points, line strings or
//! polygons whatever their own type word says. Type codes geozero does not
//! know (0, `Curve`, `Surface`, 18 and up) make it stop with an error.

use vstd::prelude::*;
use vstd::string::*;

use crate::spatial::error::{outcome, ErrSpec, SqliteGisError};
use crate::spatial::ewkb::{
    push_u32, u32_at, u32_at_exec, u32_bytes, EWKB_M_FLAG, EWKB_SRID_FLAG, EWKB_Z_FLAG,
};
use crate::spatial::functions::operations::push_range;
use crate::spatial::wkb_walk::{coord_size, too_deep_msg, MAX_NESTING_DEPTH};

verus! {

/// How geozero's reader fares on a blob.
pub enum Reach {
    /// It reads a whole geometry that ends at this offset.
    Ends(int),
    /// It runs out of bytes or meets a type code it does not know, and
    /// returns its error.
    Fails,
    /// It meets a collection nested deeper than [`MAX_NESTING_DEPTH`].
    TooDeep,
    /// It meets a count larger than the blob, or a curve or surface type.
    Unsafe,
}

/// The exec form of [`Reach`].
pub enum Reached {
    /// See [`Reach::Ends`].
    Ends(usize),
    /// See [`Reach::Fails`].
    Fails,
    /// See [`Reach::TooDeep`].
    TooDeep,
    /// See [`Reach::Unsafe`].
    Unsafe,
}

/// The [`Reach`] an exec [`Reached`] stands for.
pub open spec fn reach_of(r: Reached) -> Reach {
    match r {
        Reached::Ends(e) => Reach::Ends(e as int),
        Reached::Fails => Reach::Fails,
        Reached::TooDeep => Reach::TooDeep,
        Reached::Unsafe => Reach::Unsafe,
    }
}

/// The SRID flag cleared out of a type word.
pub open spec fn without_srid_flag(t: u32) -> u32 {
    t & 0xDFFF_FFFFu32
}

/// The blob as geozero's geometry builder sees it: a top-level SRID (which
/// the builder ignores) taken out, with its flag, and everything else kept.
pub open spec fn srid_stripped(b: Seq<u8>) -> Seq<u8> {
    if b.len() < 5 {
        b
    } else {
        let le = b[0] != 0u8;
        let t = u32_at(b, 1, le);
        if t & EWKB_SRID_FLAG == 0 {
            b
        } else {
            seq![b[0]] + u32_bytes(without_srid_flag(t), le) + (if b.len() >= 9 {
                b.subrange(9, b.len() as int)
            } else {
                Seq::empty()
            })
        }
    }
}

/// A type code geozero reads with its curve and surface readers.
pub open spec fn curved_code(code: u32) -> bool {
    (8 <= code <= 12) || (15 <= code <= 17)
}

/// A header at `off` as geozero reads it: where its body starts, the type
/// (low byte of the type word), the Z and M flags and the byte order.
pub open spec fn gz_header(b: Seq<u8>, off: int) -> Option<(int, u32, bool, bool, bool)> {
    if b.len() < off + 5 {
        None
    } else {
        let le = b[off] != 0u8;
        let t = u32_at(b, off + 1, le);
        let body = if t & EWKB_SRID_FLAG != 0 {
            off + 9
        } else {
            off + 5
        };
        if b.len() < body {
            None
        } else {
            Some((body, t & 0xFFu32, t & EWKB_Z_FLAG != 0, t & EWKB_M_FLAG != 0, le))
        }
    }
}

/// `n` coordinates of `cs` bytes from `off`.
pub open spec fn gz_coords(b: Seq<u8>, off: int, n: nat, cs: int) -> Reach
    decreases n,
{
    if n == 0 {
        Reach::Ends(off)
    } else if b.len() < off + cs {
        Reach::Fails
    } else {
        gz_coords(b, off + cs, (n - 1) as nat, cs)
    }
}

/// `n` rings from `off`, each a point count and its coordinates.
pub open spec fn gz_rings(b: Seq<u8>, off: int, n: nat, cs: int, le: bool) -> Reach
    decreases n,
{
    if n == 0 {
        Reach::Ends(off)
    } else if b.len() < off + 4 {
        Reach::Fails
    } else if u32_at(b, off, le) > b.len() {
        Reach::Unsafe
    } else {
        match gz_coords(b, off + 4, u32_at(b, off, le) as nat, cs) {
            Reach::Ends(e) => gz_rings(b, e, (n - 1) as nat, cs, le),
            other => other,
        }
    }
}

/// The body of a geometry of type `code` at `off`, inside `depth` enclosing
/// collections. `fuel` bounds the recursion: every nested part takes at
/// least one byte, so the blob length plus one suffices.
pub open spec fn gz_body(
    b: Seq<u8>,
    off: int,
    code: u32,
    has_z: bool,
    has_m: bool,
    le: bool,
    depth: nat,
    fuel: nat,
) -> Reach
    decreases fuel, 0nat,
{
    let cs = coord_size(has_z, has_m);
    if code == 1 {
        if b.len() < off + cs {
            Reach::Fails
        } else {
            Reach::Ends(off + cs)
        }
    } else if 2 <= code <= 7 {
        if b.len() < off + 4 {
            Reach::Fails
        } else {
            let n = u32_at(b, off, le) as nat;
            if n > b.len() {
                Reach::Unsafe
            } else if code == 2 {
                gz_coords(b, off + 4, n, cs)
            } else if code == 3 {
                gz_rings(b, off + 4, n, cs, le)
            } else if code == 7 && depth + 1 > MAX_NESTING_DEPTH {
                Reach::TooDeep
            } else if fuel == 0 {
                Reach::Fails
            } else {
                gz_parts(
                    b,
                    off + 4,
                    n,
                    code,
                    if code == 7 {
                        depth + 1
                    } else {
                        depth
                    },
                    (fuel - 1) as nat,
                )
            }
        }
    } else if curved_code(code) {
        Reach::Unsafe
    } else {
        Reach::Fails
    }
}

/// The type a part of a `parent` collection is read as.
pub open spec fn part_kind(parent: u32, own: u32) -> u32 {
    if parent == 4 {
        1
    } else if parent == 5 {
        2
    } else if parent == 6 {
        3
    } else {
        own
    }
}

/// `n` parts of a `parent` collection from `off`, each with its own header.
pub open spec fn gz_parts(b: Seq<u8>, off: int, n: nat, parent: u32, depth: nat, fuel: nat) -> Reach
    decreases fuel, n,
{
    if n == 0 {
        Reach::Ends(off)
    } else {
        match gz_header(b, off) {
            None => Reach::Fails,
            Some((body, c, z, m, le)) => match gz_body(
                b,
                body,
                part_kind(parent, c),
                z,
                m,
                le,
                depth,
                fuel,
            ) {
                Reach::Ends(e) => gz_parts(b, e, (n - 1) as nat, parent, depth, fuel),
                other => other,
            },
        }
    }
}

/// How geozero's reader fares on the whole blob (read without its
/// top-level SRID, which changes nothing of what it builds).
pub open spec fn gz_reach(b: Seq<u8>) -> Reach {
    let s = srid_stripped(b);
    match gz_header(s, 0) {
        None => Reach::Fails,
        Some((body, c, z, m, le)) => gz_body(s, body, c, z, m, le, 0, s.len() + 1),
    }
}

/// geozero's EWKB reader returns on `b`, a geometry or its own error,
/// within bounded stack and memory: the condition under which the library
/// hands `b` to it.
pub open spec fn gz_safe(b: Seq<u8>) -> bool {
    &&& srid_stripped(b).len() + 64 <= usize::MAX
    &&& (gz_reach(b) is Ends || gz_reach(b) is Fails)
}

/// Text of the error for a blob the library does not hand to geozero.
pub open spec fn unsafe_msg() -> Seq<char> {
    "geometry payload announces more parts than it holds or uses a curve type"@
}

/// The outcome of [`ensure_ewkb_nesting_ok`].
pub open spec fn nesting_spec(b: Seq<u8>) -> std::result::Result<(), ErrSpec> {
    if srid_stripped(b).len() + 64 > usize::MAX {
        Err(ErrSpec::Ewkb("blob too large"@))
    } else {
        match gz_reach(b) {
            Reach::Ends(_) | Reach::Fails => Ok(()),
            Reach::TooDeep => Err(ErrSpec::Input(too_deep_msg())),
            Reach::Unsafe => Err(ErrSpec::Ewkb(unsafe_msg())),
        }
    }
}

/// `blob.len() >= offset + k`, computed without overflow.
fn fits_in(len: usize, offset: usize, k: usize) -> (r: bool)
    ensures
        r == (len as int >= offset as int + k as int),
{
    offset <= len && len - offset >= k
}

fn read_header(blob: &[u8], off: usize) -> (r: Option<(usize, u32, bool, bool, bool)>)
    requires
        blob@.len() + 64 <= usize::MAX,
        off <= blob@.len(),
    ensures
        match gz_header(blob@, off as int) {
            None => r is None,
            Some((body, c, z, m, le)) => r matches Some((rb, rc, rz, rm, rle)) && rb as int
                == body && rc == c && rz == z && rm == m && rle == le,
        },
        r matches Some((rb, _, _, _, _)) ==> off + 5 <= rb <= blob@.len(),
{
    if !fits_in(blob.len(), off, 5) {
        return None;
    }
    let le = blob[off] != 0u8;
    let t = u32_at_exec(blob, off + 1, le);
    let body = if t & EWKB_SRID_FLAG != 0 {
        off + 9
    } else {
        off + 5
    };
    if body > blob.len() {
        return None;
    }
    Some((body, t & 0xFFu32, t & EWKB_Z_FLAG != 0, t & EWKB_M_FLAG != 0, le))
}

fn walk_coords(blob: &[u8], offset: usize, n: u32, cs: usize) -> (r: Reached)
    requires
        blob@.len() + 64 <= usize::MAX,
        offset <= blob@.len(),
        16 <= cs <= 32,
    ensures
        reach_of(r) == gz_coords(blob@, offset as int, n as nat, cs as int),
        r matches Reached::Ends(e) ==> offset <= e <= blob@.len(),
{
    let len = blob.len();
    let mut off = offset;
    let mut i: u32 = 0;
    while i < n
        invariant
            len == blob@.len(),
            len + 64 <= usize::MAX,
            offset <= off <= len,
            16 <= cs <= 32,
            0 <= i <= n,
            gz_coords(blob@, offset as int, n as nat, cs as int) == gz_coords(
                blob@,
                off as int,
                (n - i) as nat,
                cs as int,
            ),
        decreases n - i,
    {
        if !fits_in(len, off, cs) {
            return Reached::Fails;
        }
        off = off + cs;
        i = i + 1;
    }
    Reached::Ends(off)
}

fn walk_body(
    blob: &[u8],
    offset: usize,
    code: u32,
    has_z: bool,
    has_m: bool,
    le: bool,
    depth: usize,
    Ghost(fuel): Ghost<nat>,
) -> (r: Reached)
    requires
        blob@.len() + 64 <= usize::MAX,
        offset <= blob@.len(),
        fuel > blob@.len() - offset,
        depth <= MAX_NESTING_DEPTH,
    ensures
        reach_of(r) == gz_body(blob@, offset as int, code, has_z, has_m, le, depth as nat, fuel),
        r matches Reached::Ends(e) ==> offset <= e <= blob@.len(),
    decreases fuel, 0nat,
{
    let len = blob.len();
    let cs: usize = 16 + (if has_z {
        8usize
    } else {
        0usize
    }) + (if has_m {
        8usize
    } else {
        0usize
    });
    if code == 1 {
        if !fits_in(len, offset, cs) {
            return Reached::Fails;
        }
        return Reached::Ends(offset + cs);
    }
    if !(2 <= code && code <= 7) {
        if (8 <= code && code <= 12) || (15 <= code && code <= 17) {
            return Reached::Unsafe;
        }
        return Reached::Fails;
    }
    if !fits_in(len, offset, 4) {
        return Reached::Fails;
    }
    let n = u32_at_exec(blob, offset, le);
    if n as usize > len {
        return Reached::Unsafe;
    }
    if code == 2 {
        return walk_coords(blob, offset + 4, n, cs);
    }
    if code == 3 {
        let mut off = offset + 4;
        let mut ring: u32 = 0;
        while ring < n
            invariant
                len == blob@.len(),
                len + 64 <= usize::MAX,
                offset + 4 <= off <= len,
                16 <= cs <= 32,
                cs == coord_size(has_z, has_m),
                0 <= ring <= n,
                gz_body(blob@, offset as int, code, has_z, has_m, le, depth as nat, fuel)
                    == gz_rings(blob@, off as int, (n - ring) as nat, cs as int, le),
            decreases n - ring,
        {
            if !fits_in(len, off, 4) {
                return Reached::Fails;
            }
            let npoints = u32_at_exec(blob, off, le);
            if npoints as usize > len {
                return Reached::Unsafe;
            }
            match walk_coords(blob, off + 4, npoints, cs) {
                Reached::Ends(e) => {
                    off = e;
                },
                other => {
                    return other;
                },
            }
            ring = ring + 1;
        }
        return Reached::Ends(off);
    }
    if code == 7 && depth + 1 > MAX_NESTING_DEPTH {
        return Reached::TooDeep;
    }
    let inner: usize = if code == 7 {
        depth + 1
    } else {
        depth
    };
    let mut off = offset + 4;
    let mut k: u32 = 0;
    while k < n
        invariant
            len == blob@.len(),
            len + 64 <= usize::MAX,
            offset + 4 <= off <= len,
            fuel > len - offset,
            fuel >= 5,
            inner <= MAX_NESTING_DEPTH,
            inner as nat == (if code == 7 {
                depth + 1
            } else {
                depth as int
            }),
            4 <= code <= 7,
            0 <= k <= n,
            gz_body(blob@, offset as int, code, has_z, has_m, le, depth as nat, fuel) == gz_parts(
                blob@,
                off as int,
                (n - k) as nat,
                code,
                inner as nat,
                (fuel - 1) as nat,
            ),
        decreases n - k,
    {
        match read_header(blob, off) {
            None => {
                return Reached::Fails;
            },
            Some((body, c, z, m, part_le)) => {
                let kind: u32 = if code == 4 {
                    1
                } else if code == 5 {
                    2
                } else if code == 6 {
                    3
                } else {
                    c
                };
                match walk_body(blob, body, kind, z, m, part_le, inner, Ghost((fuel - 1) as nat)) {
                    Reached::Ends(e) => {
                        off = e;
                    },
                    other => {
                        return other;
                    },
                }
            },
        }
        k = k + 1;
    }
    Reached::Ends(off)
}

/// [`srid_stripped`], computed.
fn strip_srid(blob: &[u8]) -> (v: Vec<u8>)
    ensures
        v@ == srid_stripped(blob@),
{
    let mut v: Vec<u8> = Vec::new();
    if blob.len() < 5 {
        push_range(&mut v, blob, 0, blob.len());
        proof {
            assert(v@ =~= blob@);
        }
        return v;
    }
    let le = blob[0] != 0u8;
    let t = u32_at_exec(blob, 1, le);
    if t & EWKB_SRID_FLAG == 0 {
        push_range(&mut v, blob, 0, blob.len());
        proof {
            assert(v@ =~= blob@);
        }
        return v;
    }
    v.push(blob[0]);
    push_u32(&mut v, t & 0xDFFF_FFFFu32, le);
    if blob.len() >= 9 {
        push_range(&mut v, blob, 9, blob.len());
    }
    proof {
        assert(v@ =~= srid_stripped(blob@));
    }
    v
}

/// Refuse a blob before it reaches geozero's EWKB reader unless that
/// reader, following its own header rules, either reads a whole geometry or
/// stops with its own error, without meeting a count larger than the blob,
/// a curve or surface type, or a collection nested deeper than
/// [`MAX_NESTING_DEPTH`].
pub fn ensure_ewkb_nesting_ok(blob: &[u8]) -> (r: Result<(), SqliteGisError>)
    ensures
        outcome(nesting_spec(blob@), r),
        r is Ok <==> gz_safe(blob@),
{
    let s = strip_srid(blob);
    if s.len() > usize::MAX - 64 {
        return Err(SqliteGisError::InvalidEwkb(String::from_str("blob too large")));
    }
    let reached = match read_header(&s, 0) {
        None => Reached::Fails,
        Some((body, c, z, m, le)) => walk_body(
            &s,
            body,
            c,
            z,
            m,
            le,
            0,
            Ghost((s@.len() + 1) as nat),
        ),
    };
    match reached {
        Reached::Ends(_) | Reached::Fails => Ok(()),
        Reached::TooDeep => Err(
            SqliteGisError::InvalidInput(
                String::from_str("EWKB nesting exceeds the maximum depth of 256"),
            ),
        ),
        Reached::Unsafe => Err(
            SqliteGisError::InvalidEwkb(
                String::from_str(
                    "geometry payload announces more parts than it holds or uses a curve type",
                ),
            ),
        ),
    }
}

} // verus!
