//! The discrete core of an offline Monte-Carlo path tracer: exact scene
//! descriptions, the path state machine of the integrator, nearest-hit
//! selection, texture lookup and the output raster.

pub mod camera;
pub mod decimal;
pub mod film;
pub mod interval;
pub mod material;
pub mod nearest;
pub mod picture;
pub mod random_scenes;
pub mod scenes;
pub mod shapes;
pub mod texture;
pub mod tracer;
pub mod triple;
