//! A software 3D rendering pipeline on a character-grid frame buffer.
//!
//! Meshes of triangles are transformed to world space, projected through a
//! perspective camera, backface-culled, and scanline-rasterized into a grid
//! of glyphs. All geometry is carried in `Fx`, a signed fixed-point
//! number with sixteen fractional bits, so every stage computes with exact integer arithmetic and every
//! contract pins the result down to the bit.

pub mod camera;
pub mod error;
pub mod fixed;
pub mod laws;
pub mod linalg;
pub mod model;
pub mod pipeline;
pub mod rasterizer;
pub mod scene;
pub mod trig;

pub use fixed::Fx;
