//! The parameters of the perspective projection.

use vstd::prelude::*;

verus! {

/// Bit pattern of the 32-bit float `70.0`: the vertical field of view, in
/// degrees.
pub const FOV_DEGREES_BITS: u32 = 0x428c_0000;

/// Bit pattern of the 32-bit float `0.001`: the distance of the near plane.
pub const NEAR_BITS: u32 = 0x3a83_126f;

/// Bit pattern of the 32-bit float `1000.0`: the distance of the far plane.
pub const FAR_BITS: u32 = 0x447a_0000;

/// What the projection matrix is computed from. The field of view and the
/// two planes hold the bit patterns of 32-bit floats; the aspect ratio is
/// the width of the viewport over its height.
#[derive(Clone, Copy, Debug, PartialEq, Eq, Structural)]
pub struct Projection {
    pub fov_degrees: u32,
    pub width: u32,
    pub height: u32,
    pub near: u32,
    pub far: u32,
}

impl Projection {
    /// The projection for a viewport of the given size.
    pub fn new(width: u32, height: u32) -> (p: Projection)
        ensures
            p == (Projection {
                fov_degrees: FOV_DEGREES_BITS,
                width,
                height,
                near: NEAR_BITS,
                far: FAR_BITS,
            }),
    {
        Projection { fov_degrees: FOV_DEGREES_BITS, width, height, near: NEAR_BITS, far: FAR_BITS }
    }

    /// The projection after the viewport was resized: the aspect ratio
    /// follows the new size, the field of view and the planes stay.
    pub fn resized(self, width: u32, height: u32) -> (p: Projection)
        ensures
            p == (Projection { width, height, ..self }),
    {
        Projection { width, height, ..self }
    }
}

} // verus!
