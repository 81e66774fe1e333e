//! Spatial functions over EWKB blobs, partitioned by intent.

pub mod constructors;
pub mod geographic;
pub mod io;
pub mod operations;
pub mod text;
