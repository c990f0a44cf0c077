//! Input handling and static scene geometry for a free-fly viewer.
//!
//! The floating-point camera and the GPU resources live outside the
//! verified part; this library decides what held keys and overlay toggles
//! mean, and lays out the skybox mesh.

pub mod controls;
pub mod input;
pub mod skybox;
