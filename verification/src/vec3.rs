use vstd::prelude::*;

verus! {

/// A three-component vector whose components are stored as the raw
/// IEEE-754 single-precision bit patterns of the rendered values.
///
/// The scene logic never performs arithmetic on vector components: it
/// only stores them, copies them between tables and compares them for
/// exact equality. Holding the bit patterns keeps each of those
/// operations exact, including the bit-for-bit pass-through of the
/// externally configured colour into the cube's material.
#[derive(Clone, Copy, PartialEq, Eq, Debug)]
pub struct Vec3Bits {
    pub x: u32,
    pub y: u32,
    pub z: u32,
}

impl Vec3Bits {
    /// Builds a vector from three component bit patterns.
    pub fn new(x: u32, y: u32, z: u32) -> (r: Vec3Bits)
        ensures
            r == (Vec3Bits { x, y, z }),
    {
        Vec3Bits { x, y, z }
    }
}

} // verus!
