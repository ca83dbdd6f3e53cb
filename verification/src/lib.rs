//! Multi-backend src-over alpha compositing.
//!
//! A single mathematical contract — premultiplied src-over blending of an
//! RGBA foreground onto an RGBA background — realized by several execution
//! strategies: an exact integer reference, a fixed-point approximation with
//! a precomputed unmultiply table, an opaque-background fast path, and two
//! batched lane-parallel variants of that fast path. Every backend's
//! per-pixel output is pinned to a spec-level formula, and the
//! cross-backend agreement bounds are proved as lemmas in `laws`.

pub mod arith;
pub mod backend;
pub mod fixed;
pub mod formula;
pub mod harness;
pub mod laws;
pub mod opaque;
pub mod pixel;
pub mod raster;
pub mod reference;
pub mod table;
pub mod vector;
