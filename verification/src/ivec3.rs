use vstd::prelude::*;

verus! {

/// Integer 3-component vector used for voxel coordinates throughout the
/// engine.  Coordinates are voxel-space positions; one unit is one voxel.
#[derive(Debug, Clone, Copy, PartialEq, Eq, Structural)]
pub struct IVec3 {
    pub x: i32,
    pub y: i32,
    pub z: i32,
}


impl IVec3 {
    pub open spec fn spec_min(&self, o: IVec3) -> IVec3 {
        IVec3 {
            x: if self.x <= o.x { self.x } else { o.x },
            y: if self.y <= o.y { self.y } else { o.y },
            z: if self.z <= o.z { self.z } else { o.z },
        }
    }

    pub open spec fn spec_max(&self, o: IVec3) -> IVec3 {
        IVec3 {
            x: if self.x >= o.x { self.x } else { o.x },
            y: if self.y >= o.y { self.y } else { o.y },
            z: if self.z >= o.z { self.z } else { o.z },
        }
    }

    pub open spec fn spec_plus(&self, o: IVec3) -> IVec3 {
        IVec3 { x: (self.x + o.x) as i32, y: (self.y + o.y) as i32, z: (self.z + o.z) as i32 }
    }

    pub fn new(x: i32, y: i32, z: i32) -> (r: IVec3)
        ensures
            r.x == x,
            r.y == y,
            r.z == z,
    {
        IVec3 { x, y, z }
    }

    /// Component-wise minimum.
    #[verifier::when_used_as_spec(spec_min)]
    pub fn min(&self, o: IVec3) -> (r: IVec3)
        ensures
            r.x == if self.x <= o.x { self.x } else { o.x },
            r.y == if self.y <= o.y { self.y } else { o.y },
            r.z == if self.z <= o.z { self.z } else { o.z },
    {
        IVec3 {
            x: if self.x <= o.x { self.x } else { o.x },
            y: if self.y <= o.y { self.y } else { o.y },
            z: if self.z <= o.z { self.z } else { o.z },
        }
    }

    /// Component-wise maximum.
    #[verifier::when_used_as_spec(spec_max)]
    pub fn max(&self, o: IVec3) -> (r: IVec3)
        ensures
            r.x == if self.x >= o.x { self.x } else { o.x },
            r.y == if self.y >= o.y { self.y } else { o.y },
            r.z == if self.z >= o.z { self.z } else { o.z },
    {
        IVec3 {
            x: if self.x >= o.x { self.x } else { o.x },
            y: if self.y >= o.y { self.y } else { o.y },
            z: if self.z >= o.z { self.z } else { o.z },
        }
    }

    /// Component-wise translation.
    #[verifier::when_used_as_spec(spec_plus)]
    pub fn plus(&self, o: IVec3) -> (r: IVec3)
        requires
            i32::MIN <= self.x + o.x <= i32::MAX,
            i32::MIN <= self.y + o.y <= i32::MAX,
            i32::MIN <= self.z + o.z <= i32::MAX,
        ensures
            r.x == self.x + o.x,
            r.y == self.y + o.y,
            r.z == self.z + o.z,
    {
        IVec3 { x: self.x + o.x, y: self.y + o.y, z: self.z + o.z }
    }

    /// Squared planar (x, y) distance to another point.
    pub fn dist2_2d(&self, o: IVec3) -> (r: i128)
        ensures
            r == (self.x - o.x) * (self.x - o.x) + (self.y - o.y) * (self.y - o.y),
            r >= 0,
    {
        let dx: i128 = self.x as i128 - o.x as i128;
        let dy: i128 = self.y as i128 - o.y as i128;
        proof {
            assert(dx * dx >= 0 && dy * dy >= 0) by (nonlinear_arith);
            assert(dx * dx < 0x1_0000_0000_0000_0000 && dy * dy < 0x1_0000_0000_0000_0000)
                by (nonlinear_arith)
                requires
                    -0x1_0000_0000 < dx < 0x1_0000_0000,
                    -0x1_0000_0000 < dy < 0x1_0000_0000,
            ;
        }
        dx * dx + dy * dy
    }

    /// Squared Euclidean distance to another point.
    pub fn dist2(&self, o: IVec3) -> (r: i128)
        ensures
            r == (self.x - o.x) * (self.x - o.x) + (self.y - o.y) * (self.y - o.y) + (self.z
                - o.z) * (self.z - o.z),
            r >= 0,
    {
        let dx: i128 = self.x as i128 - o.x as i128;
        let dy: i128 = self.y as i128 - o.y as i128;
        let dz: i128 = self.z as i128 - o.z as i128;
        proof {
            assert(dx * dx >= 0 && dy * dy >= 0 && dz * dz >= 0) by (nonlinear_arith);
            assert(dx * dx < 0x1_0000_0000_0000_0000 && dy * dy < 0x1_0000_0000_0000_0000
                && dz * dz < 0x1_0000_0000_0000_0000) by (nonlinear_arith)
                requires
                    -0x1_0000_0000 < dx < 0x1_0000_0000,
                    -0x1_0000_0000 < dy < 0x1_0000_0000,
                    -0x1_0000_0000 < dz < 0x1_0000_0000,
            ;
        }
        dx * dx + dy * dy + dz * dz
    }
}

} // verus!
