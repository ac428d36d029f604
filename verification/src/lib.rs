//! A thin, verified marshaling layer for a native ray-tracing kernel.
//!
//! The kernel itself (acceleration-structure construction and ray/primitive
//! intersection) is an external native library and is not reimplemented here.
//! What this crate owns, and what is verified, is everything the wrapper layer
//! computes on its own: packing caller-supplied vertex, index and sphere data
//! into the flat buffers the kernel expects, tracking which geometries have
//! been attached to a scene, initializing a single-ray query record, and
//! interpreting the kernel's sentinel-based "no hit" answer as an explicit
//! optional result.
//!
//! Single-precision values never take part in arithmetic in this layer: they
//! are opaque payloads that are copied verbatim. They are therefore carried as
//! their IEEE-754 bit patterns (`u32`), which makes the copy contracts exact
//! down to the last bit.

#![allow(non_snake_case)]

pub mod geometry;
pub mod ray;
pub mod scene;
