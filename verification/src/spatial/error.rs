//! The crate's error type and the text each error renders to.

use vstd::prelude::*;
use vstd::string::*;

use crate::spatial::codec::{
    decimal_i64, decimal_u64, geozero_error_text, int_text, io_error_text,
};

verus! {

/// `geozero`'s error type, carried as-is inside [`SqliteGisError::Geozero`].
#[verifier::external_type_specification]
#[verifier::external_body]
pub struct ExGeozeroError(geozero::error::GeozeroError);

/// `std::io::Error`, carried as-is inside [`SqliteGisError::Io`].
#[verifier::external_type_specification]
#[verifier::external_body]
pub struct ExIoError(std::io::Error);

/// Errors returned by the geometry core.
#[derive(Debug)]
pub enum SqliteGisError {
    /// The supplied bytes did not parse as a valid EWKB BLOB.
    InvalidEwkb(String),
    /// A nested geozero codec error bubbled up from WKT, GeoJSON, or WKB I/O.
    Geozero(geozero::error::GeozeroError),
    /// The geometry's concrete type did not match what the operation needed.
    WrongType {
        /// Human readable name of the geometry type the caller expected.
        expected: &'static str,
        /// Human readable name of the geometry type that was supplied.
        actual: &'static str,
    },
    /// The operation cannot run on a geometry with the given coordinate
    /// dimensionality without silently dropping coordinates.
    UnsupportedDimensions {
        /// Label of the unsupported dimensional layout (e.g. `"ZM"`).
        dimensions: &'static str,
    },
    /// A 1-based index argument was outside the addressable range.
    OutOfBounds {
        /// The offending index as provided by the caller.
        index: i32,
        /// Length of the collection the index was checked against.
        len: usize,
    },
    /// The argument was syntactically valid but semantically rejected.
    InvalidInput(String),
    /// An underlying `std::io::Error` from a reader or writer.
    Io(std::io::Error),
}

/// Result alias used by every fallible function of the core.
pub type Result<T> = std::result::Result<T, SqliteGisError>;

/// What a contract says of an error: its variant and, where the library
/// fixes it, its text. `Codec` stands for any `Geozero` error.
pub enum ErrSpec {
    /// `InvalidEwkb` with this text.
    Ewkb(Seq<char>),
    /// `Geozero`, with whatever error geozero returned.
    Codec,
    /// `InvalidInput` with this text.
    Input(Seq<char>),
    /// `UnsupportedDimensions` with this label.
    Dims(Seq<char>),
    /// `WrongType` with these expected and actual names.
    Wrong(Seq<char>, Seq<char>),
}

/// `e` is an error that `s` describes.
pub open spec fn error_matches(s: ErrSpec, e: SqliteGisError) -> bool {
    match s {
        ErrSpec::Ewkb(m) => e matches SqliteGisError::InvalidEwkb(t) && t@ == m,
        ErrSpec::Codec => e is Geozero,
        ErrSpec::Input(m) => e matches SqliteGisError::InvalidInput(t) && t@ == m,
        ErrSpec::Dims(m) => e matches SqliteGisError::UnsupportedDimensions { dimensions }
            && dimensions@ == m,
        ErrSpec::Wrong(x, y) => e matches SqliteGisError::WrongType { expected, actual }
            && expected@ == x && actual@ == y,
    }
}

/// `r` is the outcome `s` describes: the same `Ok` value, or an error that
/// the described error matches.
pub open spec fn outcome<T>(s: std::result::Result<T, ErrSpec>, r: Result<T>) -> bool {
    match s {
        Ok(v) => r == Ok::<T, SqliteGisError>(v),
        Err(es) => r matches Err(e) && error_matches(es, e),
    }
}

/// `r` is the outcome `s` describes, comparing `Ok` values by their views.
pub open spec fn view_outcome<T: View>(s: std::result::Result<T::V, ErrSpec>, r: Result<T>) -> bool {
    match s {
        Ok(v) => r matches Ok(w) && w@ == v,
        Err(es) => r matches Err(e) && error_matches(es, e),
    }
}

/// The text of an error whose text is fixed by the library (every variant
/// but the two that wrap an outside error, whose text comes from that error).
pub open spec fn error_text(e: SqliteGisError) -> Option<Seq<char>> {
    match e {
        SqliteGisError::InvalidEwkb(m) => Some("invalid EWKB: "@ + m@),
        SqliteGisError::WrongType { expected, actual } => Some(
            "geometry is not a "@ + expected@ + "; got "@ + actual@,
        ),
        SqliteGisError::UnsupportedDimensions { dimensions } => Some(
            "unsupported coordinate dimensions: "@ + dimensions@
                + " (operation would drop coordinates)"@,
        ),
        SqliteGisError::OutOfBounds { index, len } => Some(
            "index out of bounds: "@ + int_text(index as int) + " (len "@ + int_text(len as int)
                + ")"@,
        ),
        SqliteGisError::InvalidInput(m) => Some(m@),
        SqliteGisError::Geozero(_) => None,
        SqliteGisError::Io(_) => None,
    }
}

impl SqliteGisError {
    /// The human readable text of the error (what `Display` shows in the
    /// `thiserror` copy of this type).
    pub fn message(&self) -> (text: String)
        ensures
            error_text(*self) matches Some(t) ==> text@ == t,
            self is Geozero ==> text@.len() >= 15 && text@.subrange(0, 15) == "geozero error: "@,
            self is Io ==> text@.len() >= 10 && text@.subrange(0, 10) == "io error: "@,
    {
        match self {
            SqliteGisError::InvalidEwkb(m) => String::from_str("invalid EWKB: ").concat(m.as_str()),
            SqliteGisError::Geozero(e) => {
                let detail = geozero_error_text(e);
                let out = String::from_str("geozero error: ").concat(detail.as_str());
                proof {
                    assert("geozero error: "@.len() == 15) by {
                        reveal_strlit("geozero error: ");
                    }
                    assert(out@.subrange(0, 15) =~= "geozero error: "@);
                }
                out
            },
            SqliteGisError::WrongType { expected, actual } => String::from_str(
                "geometry is not a ",
            ).concat(expected).concat("; got ").concat(actual),
            SqliteGisError::UnsupportedDimensions { dimensions } => String::from_str(
                "unsupported coordinate dimensions: ",
            ).concat(dimensions).concat(" (operation would drop coordinates)"),
            SqliteGisError::OutOfBounds { index, len } => {
                let i = decimal_i64(*index as i64);
                let l = decimal_u64(*len as u64);
                String::from_str("index out of bounds: ").concat(i.as_str()).concat(
                    " (len ",
                ).concat(l.as_str()).concat(")")
            },
            SqliteGisError::InvalidInput(m) => String::from_str(m.as_str()),
            SqliteGisError::Io(e) => {
                let detail = io_error_text(e);
                let out = String::from_str("io error: ").concat(detail.as_str());
                proof {
                    assert("io error: "@.len() == 10) by {
                        reveal_strlit("io error: ");
                    }
                    assert(out@.subrange(0, 10) =~= "io error: "@);
                }
                out
            },
        }
    }
}

} // verus!
