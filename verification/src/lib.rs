//! A verified model of a small Lambert-shaded scene.
//!
//! The library models the state a host rendering engine owns for this
//! scene — mesh and material tables and the live entities — and the two
//! pieces of behaviour layered on top of it: the one-time scene
//! bootstrap and the per-frame rule that copies the tagged light
//! entity's position into every Lambert material's uniform record.

pub mod material;
pub mod scene;
pub mod vec3;
