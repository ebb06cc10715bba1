use vstd::prelude::*;

verus! {

/// A point in game space.
///
/// The three coordinates are IEEE 754 single-precision numbers, each carried
/// as its 32-bit pattern: the library moves positions around and never does
/// arithmetic on them.
#[derive(Clone, Copy, Debug, PartialEq, Eq, Structural)]
pub struct Vec3 {
    pub x: u32,
    pub y: u32,
    pub z: u32,
}

impl Vec3 {
    /// The point with the given coordinate bit patterns.
    pub fn new(x: u32, y: u32, z: u32) -> (r: Vec3)
        ensures
            r == (Vec3 { x, y, z }),
    {
        Vec3 { x, y, z }
    }
}

} // verus!
