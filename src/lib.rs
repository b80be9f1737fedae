//! A safe layer over a native image codec: the geometry, path handling,
//! buffer adoption and failure mapping that surround each native decode,
//! encode and resize call, with their contracts.

pub mod common;
pub mod image;
pub mod image_resize;
pub mod image_write;
