//! A small 3D rendering core: a 4x4 matrix codec, geometry providers
//! (axis-aligned boxes and indexed triangle meshes), and a render context
//! that turns its registered objects into an ordered stream of drawing
//! commands for a GPU-facing host layer to perform.
//!
//! Scalar coordinates and matrix elements are IEEE-754 single-precision
//! values carried as their `u32` bit patterns. The core never does
//! floating-point arithmetic — it only moves scalars between layouts — so
//! holding bit patterns keeps every step loss-free and lets the contracts
//! speak of exact values.

pub mod convert;
pub mod mesh;
pub mod webgl;
