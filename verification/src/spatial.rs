//! Geometry core: errors, the EWKB wire format, and the spatial functions.

pub mod codec;
pub mod decode_guard;
pub mod error;
pub mod ewkb;
pub mod functions;
pub mod laws;
pub mod wkb_walk;
