//! PostGIS-style spatial functions over EWKB blobs.
//!
//! The verified core lives under [`spatial`]: the EWKB/WKB wire format
//! (header, SRID, byte order, coordinate walk), the I/O conversions that
//! hand geometry text and bytes to `geozero`, and the polygon set
//! operations that hand the decoded shapes to `geo`.
//! [`spatial_index`] checks the names the spatial index functions splice
//! into SQL; [`surfaces`] reads the Diesel declaration template and renders
//! the function surfaces from the SQL function catalog; [`tasks`] reads the
//! command line of the maintenance tasks.

pub mod spatial;
pub mod spatial_index;
pub mod surfaces;
pub mod tasks;

pub use crate::spatial::error::{Result, SqliteGisError};
