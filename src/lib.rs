//! Attribute interleaving, geometry building and shader-pipeline bookkeeping
//! for an OpenGL-style backend.
//!
//! The library decides; the caller talks to the graphics driver. Every backend
//! object is an opaque numeric handle, every float component travels as its
//! IEEE-754 bit pattern, and every answer the driver gives (a compile status, a
//! queried slot) is handed back to the library as a plain value.
pub mod attribute;
pub mod error;
pub mod interleave;
pub mod model;
pub mod primitives;
pub mod program;
pub mod shader;
pub mod text;
pub mod usage;
