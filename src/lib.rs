//! Decision core of a recursive ray tracer: saturating colours, where rays
//! meet spheres and planes, the nearest-hit query of a scene, and the steps
//! of shading a hit (sky, budget spent, shadows, reflection depth). Real
//! quantities reach these functions as order keys (see `key`).

pub mod camera;
pub mod color;
pub mod config;
pub mod key;
pub mod shading;
pub mod shape;
pub mod trace;

pub use crate::color::Color;
pub use crate::config::Config;
