//! A Shoemake arcball camera over fixed-point coordinates.
//!
//! The camera keeps three composable transforms -- a zoom (dolly) translation,
//! a unit-range rotation, and a pan (focus recentering) translation -- and
//! combines them after every update into a view matrix and its closed-form
//! inverse. All coordinates are fixed-point numbers with 16 fractional bits,
//! so every operation has an exact integer meaning that the contracts pin down.

pub mod camera;
pub mod fixed;
pub mod laws;
pub mod model;
pub mod types;

pub use camera::ArcballCamera;
pub use types::{Mat4, Quat, Vec2, Vec3};
