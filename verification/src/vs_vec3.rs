use vstd::prelude::*;
use crate::mathx::spec_half_tz;
use crate::mathx::half_tz;

verus! {

/// Voxel-space vector, the integer coordinate form used by persisted scene
/// records.  It mirrors [`crate::ivec3::IVec3`] but is kept as its own type
/// so persisted data does not depend on the in-memory math type.
#[derive(Debug, Default, Clone, Copy, PartialEq, Eq, Structural)]
pub struct VSVec3 {
    pub x: i32,
    pub y: i32,
    pub z: i32,
}

impl VSVec3 {
    pub fn new(x: i32, y: i32, z: i32) -> (r: VSVec3)
        ensures
            r.x == x,
            r.y == y,
            r.z == z,
    {
        VSVec3 { x, y, z }
    }

    /// Midpoint of two points, each component rounded toward zero.
    pub fn midpoint(a: &VSVec3, b: &VSVec3) -> (r: VSVec3)
        requires
            i32::MIN <= a.x + b.x <= i32::MAX,
            i32::MIN <= a.y + b.y <= i32::MAX,
            i32::MIN <= a.z + b.z <= i32::MAX,
        ensures
            r.x == spec_half_tz(a.x + b.x),
            r.y == spec_half_tz(a.y + b.y),
            r.z == spec_half_tz(a.z + b.z),
    {
        VSVec3::new(half_tz(a.x + b.x), half_tz(a.y + b.y), half_tz(a.z + b.z))
    }
}

impl From<(i32, i32, i32)> for VSVec3 {
    fn from(v: (i32, i32, i32)) -> (r: VSVec3) {
        VSVec3::new(v.0, v.1, v.2)
    }
}

impl vstd::std_specs::convert::FromSpecImpl<(i32, i32, i32)> for VSVec3 {
    open spec fn obeys_from_spec() -> bool {
        true
    }

    open spec fn from_spec(v: (i32, i32, i32)) -> VSVec3 {
        VSVec3 { x: v.0, y: v.1, z: v.2 }
    }
}

} // verus!
