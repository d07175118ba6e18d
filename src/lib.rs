//! The interaction and frame-planning core of an explorable fractal viewer.
//!
//! The camera is kept as an exact integer model (a zoom level, key nudges and the
//! surface size); the host turns it into the floating-point uniform that the
//! shading stage reads, and carries out the GPU work that the planning functions
//! describe.
pub mod view;
pub mod laws;
pub mod geometry;
pub mod frame;
