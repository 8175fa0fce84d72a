//! CPU-side scene preparation and transform core of a minimal real-time 3D
//! renderer: camera orientation tracking, hand-rolled 4x4 matrix
//! construction, texture caching, mesh assembly and draw-call planning.
//!
//! Scalars are IEEE 754 binary32 values carried as bit patterns (see `math`),
//! so every piece of scene logic is verified while the rounding arithmetic is
//! delegated to outside IEEE implementations. Window and graphics-context
//! handling, file reading and the GPU calls themselves live with the
//! embedding program, which exchanges plain values with this crate.

pub mod camera;
pub mod errors;
pub mod math;
pub mod mesh;
pub mod model;
pub mod settings;
pub mod shader_program;
pub mod texture;
