//! Core of a 2D sprite renderer: a sprite atlas builder that packs images of
//! arbitrary size into uniform cells of a layered texture, and a batching
//! engine that collects draw requests and compiles them into one vertex/index
//! stream per flush. Scalar parameters that the GPU backend consumes as
//! floating-point values (positions, angles, tints, depths) travel through the
//! core untouched, held as their raw 32-bit patterns; everything the core
//! actually computes on — pixel buffers, atlas cells, layer indices, source
//! rectangles, vertex corners and index patterns — is integer data and is
//! verified here.

pub mod atlas;
pub mod batch;
pub mod color;
pub mod rectangle;
pub mod scalar;
pub mod sprite;
pub mod vector2;
