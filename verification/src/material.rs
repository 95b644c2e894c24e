use vstd::prelude::*;
use crate::vec3::Vec3Bits;

verus! {

/// Uniform record backing the Lambert shader: the object's albedo and
/// the world-space position of the light, bound at uniform slots 0
/// and 1. One instance exists per cube; the sync rule rewrites
/// `light_pos` on every live instance each frame.
#[derive(Clone, Copy, PartialEq, Eq, Debug)]
pub struct LambertMaterial {
    pub color: Vec3Bits,
    pub light_pos: Vec3Bits,
}

/// Uniform record backing the unlit marker shader drawn over the light
/// source. It carries no uniform fields: it exists only to select a
/// distinct shader program for the light-visualization mesh.
#[derive(Clone, Copy, PartialEq, Eq, Debug)]
pub struct LightMaterial {}

/// Externally configured settings, owned by the UI boundary and read
/// exactly once while the scene is built.
#[derive(Clone, Copy, PartialEq, Eq, Debug)]
pub struct MaterialSettings {
    pub color: Vec3Bits,
}

impl LambertMaterial {
    /// Path of the shader program whose fragment stage consumes this record.
    pub fn fragment_shader() -> (r: &'static str)
        ensures
            r@ == "shaders/lambert_material.wgsl"@,
    {
        "shaders/lambert_material.wgsl"
    }

    /// Path of the shader program whose vertex stage consumes this record.
    pub fn vertex_shader() -> (r: &'static str)
        ensures
            r@ == "shaders/lambert_material.wgsl"@,
    {
        "shaders/lambert_material.wgsl"
    }
}

impl LightMaterial {
    /// Path of the shader program whose fragment stage draws the marker.
    pub fn fragment_shader() -> (r: &'static str)
        ensures
            r@ == "shaders/light.wgsl"@,
    {
        "shaders/light.wgsl"
    }
}

} // verus!
