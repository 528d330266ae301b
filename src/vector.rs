use vstd::prelude::*;

verus! {

/// A three-component vector. Each component is the IEEE-754 bit pattern of a
/// single-precision number, so equality and hashing are exact over bits.
#[derive(Debug, Clone, Copy, PartialEq, Eq, Hash, Default, Structural)]
pub struct Vec3 {
    pub x: u32,
    pub y: u32,
    pub z: u32,
}

/// A two-component vector of single-precision bit patterns.
#[derive(Debug, Clone, Copy, PartialEq, Eq, Hash, Default, Structural)]
pub struct Vec2 {
    pub x: u32,
    pub y: u32,
}

/// A 4x4 matrix of single-precision bit patterns, column after column.
#[derive(Debug, Clone, Copy, PartialEq, Eq, Hash)]
pub struct Mat4 {
    pub cols: [u32; 16],
}

/// The identity matrix: ones (bit pattern of 1.0) on the diagonal.
pub open spec fn identity_bits() -> Mat4 {
    Mat4 { cols: [0x3f80_0000u32, 0, 0, 0, 0, 0x3f80_0000, 0, 0, 0, 0, 0x3f80_0000, 0, 0, 0, 0, 0x3f80_0000] }
}

impl Mat4 {
    pub fn identity() -> (r: Mat4)
        ensures
            r == identity_bits(),
    {
        Mat4 { cols: [0x3f80_0000u32, 0, 0, 0, 0, 0x3f80_0000, 0, 0, 0, 0, 0x3f80_0000, 0, 0, 0, 0, 0x3f80_0000] }
    }
}

} // verus!
