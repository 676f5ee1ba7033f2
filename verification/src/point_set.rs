use vstd::prelude::*;
use crate::ivec3::IVec3;

verus! {

/// The squared planar distance between two points, as specifications
/// speak of it.
pub open spec fn sq_dist_2d(a: IVec3, b: IVec3) -> int {
    (a.x - b.x) * (a.x - b.x) + (a.y - b.y) * (a.y - b.y)
}

/// The squared Euclidean distance between two points.
pub open spec fn sq_dist(a: IVec3, b: IVec3) -> int {
    (a.x - b.x) * (a.x - b.x) + (a.y - b.y) * (a.y - b.y) + (a.z - b.z) * (a.z - b.z)
}

/// Squared planar distance is symmetric.
pub proof fn lemma_sq_dist_2d_sym(a: IVec3, b: IVec3)
    ensures
        sq_dist_2d(a, b) == sq_dist_2d(b, a),
{
    assert((a.x - b.x) * (a.x - b.x) == (b.x - a.x) * (b.x - a.x) && (a.y - b.y) * (a.y - b.y)
        == (b.y - a.y) * (b.y - a.y)) by (nonlinear_arith);
}

/// An append-only set of already placed points, queried for the nearest
/// squared distance during rejection-sampling placement.  Distances are
/// kept squared so every comparison stays in integers.
#[derive(Debug)]
pub struct PointSet {
    pub points: Vec<IVec3>,
}

impl PointSet {
    pub fn new() -> (r: PointSet)
        ensures
            r.points@.len() == 0,
    {
        PointSet { points: Vec::new() }
    }

    pub fn add(&mut self, point: IVec3)
        ensures
            final(self).points@ == old(self).points@.push(point),
    {
        self.points.push(point);
    }

    /// The stored point with the smallest planar distance to `point`.
    pub fn nearest_2d(&self, point: &IVec3) -> (r: Option<IVec3>)
        ensures
            r matches Some(p) ==> self.points@.contains(p) && forall|i: int|
                0 <= i < self.points@.len() ==> sq_dist_2d(p, *point) <= sq_dist_2d(
                    #[trigger] self.points@[i],
                    *point,
                ),
            r is None ==> self.points@.len() == 0,
    {
        let n = self.points.len();
        if n == 0 {
            return None;
        }
        let mut best: IVec3 = self.points[0];
        let mut best_d: i128 = self.points[0].dist2_2d(*point);
        let mut i: usize = 1;
        while i < n
            invariant
                n == self.points@.len(),
                1 <= i <= n,
                self.points@.contains(best),
                best_d == sq_dist_2d(best, *point),
                forall|j: int|
                    0 <= j < i ==> best_d <= sq_dist_2d(#[trigger] self.points@[j], *point),
            decreases n - i,
        {
            let d = self.points[i].dist2_2d(*point);
            if d < best_d {
                best = self.points[i];
                best_d = d;
            }
            i += 1;
        }
        Some(best)
    }

    /// The smallest squared planar distance from `point` to a stored
    /// point, or `None` when nothing was placed yet.
    pub fn nearest_distance_2d(&self, point: &IVec3) -> (r: Option<i128>)
        ensures
            r matches Some(d) ==> (exists|i: int|
                0 <= i < self.points@.len() && d == sq_dist_2d(#[trigger] self.points@[i], *point))
                && forall|i: int|
                0 <= i < self.points@.len() ==> d <= sq_dist_2d(#[trigger] self.points@[i], *point),
            r is None ==> self.points@.len() == 0,
    {
        match self.nearest_2d(point) {
            Some(p) => {
                proof {
                    let i = choose|i: int| 0 <= i < self.points@.len() && self.points@[i] == p;
                    assert(sq_dist_2d(self.points@[i], *point) == sq_dist_2d(p, *point));
                }
                Some(p.dist2_2d(*point))
            },
            None => None,
        }
    }

    /// The stored point with the smallest Euclidean distance to `point`.
    pub fn nearest(&self, point: &IVec3) -> (r: Option<IVec3>)
        ensures
            r matches Some(p) ==> self.points@.contains(p) && forall|i: int|
                0 <= i < self.points@.len() ==> sq_dist(p, *point) <= sq_dist(
                    #[trigger] self.points@[i],
                    *point,
                ),
            r is None ==> self.points@.len() == 0,
    {
        let n = self.points.len();
        if n == 0 {
            return None;
        }
        let mut best: IVec3 = self.points[0];
        let mut best_d: i128 = self.points[0].dist2(*point);
        let mut i: usize = 1;
        while i < n
            invariant
                n == self.points@.len(),
                1 <= i <= n,
                self.points@.contains(best),
                best_d == sq_dist(best, *point),
                forall|j: int| 0 <= j < i ==> best_d <= sq_dist(#[trigger] self.points@[j], *point),
            decreases n - i,
        {
            let d = self.points[i].dist2(*point);
            if d < best_d {
                best = self.points[i];
                best_d = d;
            }
            i += 1;
        }
        Some(best)
    }

    /// The smallest squared Euclidean distance from `point` to a stored
    /// point, or `None` when nothing was placed yet.
    pub fn nearest_distance(&self, point: &IVec3) -> (r: Option<i128>)
        ensures
            r matches Some(d) ==> (exists|i: int|
                0 <= i < self.points@.len() && d == sq_dist(#[trigger] self.points@[i], *point))
                && forall|i: int|
                0 <= i < self.points@.len() ==> d <= sq_dist(#[trigger] self.points@[i], *point),
            r is None ==> self.points@.len() == 0,
    {
        match self.nearest(point) {
            Some(p) => {
                proof {
                    let i = choose|i: int| 0 <= i < self.points@.len() && self.points@[i] == p;
                    assert(sq_dist(self.points@[i], *point) == sq_dist(p, *point));
                }
                Some(p.dist2(*point))
            },
            None => None,
        }
    }
}

} // verus!
