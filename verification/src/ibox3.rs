use vstd::prelude::*;
use crate::ivec3::IVec3;
use crate::mathx::spec_half_tz;
use crate::mathx::half_tz;

verus! {

/// Integer axis-aligned bounding box; `min` and `max` are inclusive.
///
/// A freshly created box is the empty sentinel (`min` at `i32::MAX`,
/// `max` at `i32::MIN`) so that adding the first point snaps both
/// corners onto it.
#[derive(Debug, Clone, Copy, PartialEq, Eq, Structural)]
pub struct IBox3 {
    pub min: IVec3,
    pub max: IVec3,
}

impl IBox3 {
    /// True when at least one point has been added.
    pub open spec fn spec_nonempty(self) -> bool {
        self.min.x <= self.max.x && self.min.y <= self.max.y && self.min.z <= self.max.z
    }

    /// True when `p` lies inside the box (inclusive on both corners).
    pub open spec fn spec_contains(self, x: int, y: int, z: int) -> bool {
        self.min.x <= x <= self.max.x && self.min.y <= y <= self.max.y && self.min.z <= z
            <= self.max.z
    }

    /// Creates the empty sentinel box.
    pub fn new() -> (r: IBox3)
        ensures
            r.min.x == i32::MAX && r.min.y == i32::MAX && r.min.z == i32::MAX,
            r.max.x == i32::MIN && r.max.y == i32::MIN && r.max.z == i32::MIN,
            !r.spec_nonempty(),
    {
        IBox3 {
            min: IVec3::new(i32::MAX, i32::MAX, i32::MAX),
            max: IVec3::new(i32::MIN, i32::MIN, i32::MIN),
        }
    }

    pub fn length_x(&self) -> (r: i32)
        requires
            self.spec_nonempty(),
            self.max.x - self.min.x + 1 <= i32::MAX,
        ensures
            r == self.max.x - self.min.x + 1,
    {
        self.max.x - self.min.x + 1
    }

    pub fn length_y(&self) -> (r: i32)
        requires
            self.spec_nonempty(),
            self.max.y - self.min.y + 1 <= i32::MAX,
        ensures
            r == self.max.y - self.min.y + 1,
    {
        self.max.y - self.min.y + 1
    }

    pub fn length_z(&self) -> (r: i32)
        requires
            self.spec_nonempty(),
            self.max.z - self.min.z + 1 <= i32::MAX,
        ensures
            r == self.max.z - self.min.z + 1,
    {
        self.max.z - self.min.z + 1
    }

    /// Number of voxel cells the box covers.
    pub fn volume(&self) -> (r: i32)
        requires
            self.spec_nonempty(),
            self.max.x - self.min.x + 1 <= i32::MAX,
            self.max.y - self.min.y + 1 <= i32::MAX,
            self.max.z - self.min.z + 1 <= i32::MAX,
            (self.max.x - self.min.x + 1) * (self.max.y - self.min.y + 1) <= i32::MAX,
            (self.max.x - self.min.x + 1) * (self.max.y - self.min.y + 1) * (self.max.z
                - self.min.z + 1) <= i32::MAX,
        ensures
            r == (self.max.x - self.min.x + 1) * (self.max.y - self.min.y + 1) * (self.max.z
                - self.min.z + 1),
    {
        let lx = self.length_x();
        let ly = self.length_y();
        let lz = self.length_z();
        let vol: i64 = lx as i64 * ly as i64 * lz as i64;
        proof {
            assert(lx * ly >= 0 && lx * ly * lz >= 0) by (nonlinear_arith)
                requires
                    lx >= 1,
                    ly >= 1,
                    lz >= 1,
            ;
            assert(vol == lx * ly * lz);
        }
        vol as i32
    }

    /// Center of the box, components rounded toward zero.
    pub fn center(&self) -> (r: IVec3)
        requires
            i32::MIN <= self.min.x + self.max.x <= i32::MAX,
            i32::MIN <= self.min.y + self.max.y <= i32::MAX,
            i32::MIN <= self.min.z + self.max.z <= i32::MAX,
        ensures
            r.x == spec_half_tz(self.min.x + self.max.x),
            r.y == spec_half_tz(self.min.y + self.max.y),
            r.z == spec_half_tz(self.min.z + self.max.z),
    {
        IVec3::new(
            half_tz(self.min.x + self.max.x),
            half_tz(self.min.y + self.max.y),
            half_tz(self.min.z + self.max.z),
        )
    }

    /// Grows the box to cover `p`.
    pub fn add(&mut self, p: IVec3)
        ensures
            final(self).min == old(self).min.min(p),
            final(self).max == old(self).max.max(p),
            final(self).spec_contains(p.x as int, p.y as int, p.z as int),
            forall|x: int, y: int, z: int|
                old(self).spec_contains(x, y, z) ==> final(self).spec_contains(x, y, z),
    {
        self.min = self.min.min(p);
        self.max = self.max.max(p);
    }

    /// Grows the box to cover everything `other` covers.
    pub fn merge(&mut self, other: &IBox3)
        ensures
            final(self).min == old(self).min.min(other.min),
            final(self).max == old(self).max.max(other.max),
            forall|x: int, y: int, z: int|
                old(self).spec_contains(x, y, z) || other.spec_contains(x, y, z)
                    ==> final(self).spec_contains(x, y, z),
    {
        self.min = self.min.min(other.min);
        self.max = self.max.max(other.max);
    }

    /// Moves the box by `v`.
    pub fn translate(&mut self, v: IVec3)
        requires
            i32::MIN <= old(self).min.x + v.x <= i32::MAX,
            i32::MIN <= old(self).min.y + v.y <= i32::MAX,
            i32::MIN <= old(self).min.z + v.z <= i32::MAX,
            i32::MIN <= old(self).max.x + v.x <= i32::MAX,
            i32::MIN <= old(self).max.y + v.y <= i32::MAX,
            i32::MIN <= old(self).max.z + v.z <= i32::MAX,
        ensures
            final(self).min == old(self).min.plus(v),
            final(self).max == old(self).max.plus(v),
    {
        self.min = self.min.plus(v);
        self.max = self.max.plus(v);
    }
}

} // verus!
