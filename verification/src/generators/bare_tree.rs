use vstd::prelude::*;
use crate::block::Block;
use crate::ivec3::IVec3;
use crate::paint::GenContext;
use crate::paint::bresenham3d;
use crate::scene2::Scene2;
use crate::voxel_set::VoxelSet;

verus! {

/// A leafless tree: branch segments grown breadth-first from the base,
/// each drawn as a voxel line, splitting more as the tree rises.
pub fn bare_tree(ctx: &GenContext, _scene: &Scene2) -> (r: VoxelSet)
    ensures
        r.wf(),
{
    let mut rng = ctx.make_rng();
    let mut trunk = VoxelSet::new();
    trunk.register_block(Block::color("brown1", 60, 40, 20));
    trunk.register_block(Block::color("brown2", 30, 20, 5));
    trunk.register_block(Block::color("brown3", 22, 15, 4));

    let mut base_points: Vec<(IVec3, i64)> = Vec::new();
    base_points.push((IVec3::new(0, 0, 0), 10));

    let mut segment: i64 = 0;
    while segment < 8 && base_points.len() > 0
        invariant
            trunk.wf(),
            0 <= segment <= 8,
            forall|k: int|
                0 <= k < base_points@.len() ==> {
                    let p = (#[trigger] base_points@[k]).0;
                    &&& -200 <= p.x <= 200
                    &&& -200 <= p.y <= 200
                    &&& 0 <= p.z <= 200
                    &&& 0 <= base_points@[k].1 <= 10
                },
        decreases 8 - segment,
    {
        let mut next: Vec<(IVec3, i64)> = Vec::new();
        let mut bi: usize = 0;
        while bi < base_points.len()
            invariant
                trunk.wf(),
                0 <= segment <= 7,
                forall|k: int|
                    0 <= k < base_points@.len() ==> {
                        let p = (#[trigger] base_points@[k]).0;
                        &&& -200 <= p.x <= 200
                        &&& -200 <= p.y <= 200
                        &&& 0 <= p.z <= 200
                        &&& 0 <= base_points@[k].1 <= 10
                    },
                forall|k: int|
                    0 <= k < next@.len() ==> {
                        let p = (#[trigger] next@[k]).0;
                        &&& -200 <= p.x <= 200
                        &&& -200 <= p.y <= 200
                        &&& 0 <= p.z <= 200
                        &&& 0 <= next@[k].1 <= 10
                    },
            decreases base_points@.len() - bi,
        {
            let (p, h) = base_points[bi];
            let len = h - rng.range(1, 3);
            if len > 2 {
                let bcount: i64 = if segment == 0 {
                    1
                } else if segment == 1 {
                    2
                } else {
                    rng.range(1, 1 + segment + 1)
                };
                let skip = segment >= 2 && rng.range(0, 100) < 10;
                if !skip {
                    let mut b: i64 = 0;
                    while b < bcount
                        invariant
                            trunk.wf(),
                            0 <= segment <= 7,
                            0 <= b <= bcount <= 8,
                            3 <= len <= 10,
                            -200 <= p.x <= 200,
                            -200 <= p.y <= 200,
                            0 <= p.z <= 200,
                            forall|k: int|
                                0 <= k < next@.len() ==> {
                                    let q = (#[trigger] next@[k]).0;
                                    &&& -200 <= q.x <= 200
                                    &&& -200 <= q.y <= 200
                                    &&& 0 <= q.z <= 200
                                    &&& 0 <= next@[k].1 <= 10
                                },
                        decreases bcount - b,
                    {
                        let dir = rng.range_u(0, 3);
                        let (mut dx, mut dy): (i64, i64) = if dir == 0 {
                            (1, 0)
                        } else if dir == 1 {
                            (0, 1)
                        } else {
                            (1, 1)
                        };
                        let sign: i64 = if rng.bool() {
                            1
                        } else {
                            -1
                        };
                        let hi = if segment * 2 + 1 < len + 1 {
                            segment * 2 + 1
                        } else {
                            len + 1
                        };
                        let scale = rng.range(1, hi + 1);
                        proof {
                            assert(-16 <= dx * scale <= 16 && -16 <= dx * scale * sign <= 16
                                && -16 <= dy * scale <= 16 && -16 <= dy * scale * sign
                                <= 16) by (nonlinear_arith)
                                requires
                                    -1 <= dx <= 1,
                                    -1 <= dy <= 1,
                                    1 <= scale <= 16,
                                    sign == 1 || sign == -1,
                            ;
                        }
                        dx = dx * scale * sign;
                        dy = dy * scale * sign;
                        let qx = clampc(p.x as i64 + dx);
                        let qy = clampc(p.y as i64 + dy);
                        let qz = clampc(p.z as i64 + len);
                        let q = IVec3::new(qx, qy, qz);
                        let line = bresenham3d(p, q);
                        let mut li: usize = 0;
                        while li < line.len()
                            invariant
                                trunk.wf(),
                            decreases line@.len() - li,
                        {
                            let v = line[li];
                            let c = rng.range_u(0, 4);
                            let name = if c == 0 {
                                "brown1"
                            } else if c == 3 {
                                "brown3"
                            } else {
                                "brown2"
                            };
                            trunk.set_voxel(v, name);
                            li += 1;
                        }
                        if 0 <= qz {
                            next.push((q, len));
                        }
                        b += 1;
                    }
                }
            }
            bi += 1;
        }
        base_points = next;
        segment += 1;
    }
    trunk
}

/// Clamps a branch coordinate into the tree's working extent.
fn clampc(v: i64) -> (r: i32)
    ensures
        -200 <= r <= 200,
        0 <= v <= 200 ==> r == v,
        -200 <= v <= 200 ==> r == v,
{
    if v > 200 {
        200
    } else if v < -200 {
        -200
    } else {
        v as i32
    }
}

} // verus!
