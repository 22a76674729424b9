//! Placement of an object in the world.

use crate::vertex::ONE_BITS;
use vstd::prelude::*;

verus! {

/// Position, rotation and scale of an object. Every component holds the
/// IEEE-754 bit pattern of a 32-bit float. The rotation is a quaternion,
/// scalar part first.
#[derive(Clone, Copy, Debug)]
pub struct Transform {
    pub position: [u32; 3],
    pub rotation: [u32; 4],
    pub scale: [u32; 3],
}

impl Default for Transform {
    /// At the origin, not rotated, not scaled.
    fn default() -> (t: Transform)
        ensures
            t.position@ == seq![0u32, 0u32, 0u32],
            t.rotation@ == seq![ONE_BITS, 0u32, 0u32, 0u32],
            t.scale@ == seq![ONE_BITS, ONE_BITS, ONE_BITS],
    {
        let t = Transform {
            position: [0, 0, 0],
            rotation: [ONE_BITS, 0, 0, 0],
            scale: [ONE_BITS, ONE_BITS, ONE_BITS],
        };
        assert(t.position@ =~= seq![0u32, 0u32, 0u32]);
        assert(t.rotation@ =~= seq![ONE_BITS, 0u32, 0u32, 0u32]);
        assert(t.scale@ =~= seq![ONE_BITS, ONE_BITS, ONE_BITS]);
        t
    }
}

} // verus!
