use vstd::prelude::*;
use crate::block::Block;
use crate::ivec3::IVec3;
use crate::mathx::cos_milli;
use crate::mathx::sin_milli;
use crate::paint::GenContext;
use crate::paint::bresenham3d;
use crate::scene2::Scene2;
use crate::voxel_set::VoxelSet;

verus! {

/// A rough ring fence around the center: posts every few voxels along a
/// jittered circle, snapped to the terrain, joined by two beam rails.
#[verifier::rlimit(80)]
pub fn fence(ctx: &GenContext, scene: &Scene2) -> (r: VoxelSet)
    requires
        scene.terrain.wf(),
    ensures
        r.wf(),
{
    let mut rng = ctx.make_rng();
    let mut model = VoxelSet::new();
    model.register_block(Block::color("wood", 30, 12, 5));
    model.register_block(Block::color("wood2", 22, 11, 8));
    model.register_block(Block::color("wood3", 31, 8, 3));

    let offset = rng.range(0, 180);

    // ring base points, one per 30 degrees, closed at the end
    let mut base_pts: Vec<IVec3> = Vec::new();
    let mut step: i64 = 0;
    while step < 12
        invariant
            scene.terrain.wf(),
            0 <= offset < 180,
            0 <= step <= 12,
            base_pts@.len() == step,
            forall|k: int|
                0 <= k < base_pts@.len() ==> -100 <= (#[trigger] base_pts@[k]).x <= 100 && -100
                    <= base_pts@[k].y <= 100 && -0x1000_0000 <= base_pts@[k].z <= 0x1000_0000,
        decreases 12 - step,
    {
        let angle = offset + step * 30;
        let radius = rng.range(40, 70);
        let x = fence_coord(radius, cos_milli(angle));
        let y = fence_coord(radius, sin_milli(angle));
        let z = match scene.terrain.height_at(x, y) {
            Some(h) => {
                if -0x1000_0000 <= h && h <= 0x1000_0000 {
                    h
                } else {
                    0
                }
            },
            None => 0,
        };
        base_pts.push(IVec3::new(x, y, z));
        step += 1;
    }
    if base_pts.len() == 0 {
        return model;
    }
    base_pts.push(base_pts[0]);

    // posts along the ring segments
    let mut posts: Vec<IVec3> = Vec::new();
    let nseg = base_pts.len();
    let mut si: usize = 0;
    while si < nseg - 1
        invariant
            scene.terrain.wf(),
            model.wf(),
            nseg == base_pts@.len(),
            1 <= nseg <= 13,
            si <= nseg,
            forall|k: int|
                0 <= k < base_pts@.len() ==> -100 <= (#[trigger] base_pts@[k]).x <= 100 && -100
                    <= base_pts@[k].y <= 100 && -0x1000_0000 <= base_pts@[k].z <= 0x1000_0000,
            forall|k: int|
                0 <= k < posts@.len() ==> -100 <= (#[trigger] posts@[k]).x <= 100 && -100
                    <= posts@[k].y <= 100 && -0x1000_0000 <= posts@[k].z <= 0x0FFF_FFF0,
        decreases nseg - si,
    {
        let p = base_pts[si];
        let q = base_pts[si + 1];
        let line = bresenham3d(p, q);
        let mut li: usize = 0;
        while li < line.len()
            invariant
                scene.terrain.wf(),
                model.wf(),
                forall|k: int|
                    0 <= k < line@.len() ==> -100 <= (#[trigger] line@[k]).x <= 100 && -100
                        <= line@[k].y <= 100,
                forall|k: int|
                    0 <= k < posts@.len() ==> -100 <= (#[trigger] posts@[k]).x <= 100 && -100
                        <= posts@[k].y <= 100 && -0x1000_0000 <= posts@[k].z <= 0x0FFF_FFF0,
            decreases line@.len() - li,
        {
            if li % 5 == 0 && li + 3 < line.len() {
                let v = line[li];
                let gz = match scene.terrain.height_at(v.x, v.y) {
                    Some(h) => {
                        if -0x1000_0000 <= h && h <= 0x0FFF_FFF0 {
                            h
                        } else {
                            0
                        }
                    },
                    None => 0,
                };
                let w = rng.range_u(0, 3);
                let block = if w == 0 {
                    "wood"
                } else if w == 1 {
                    "wood2"
                } else {
                    "wood3"
                };
                let mut dz: i32 = 0;
                while dz < 6
                    invariant
                        model.wf(),
                        -100 <= v.x <= 100,
                        -100 <= v.y <= 100,
                        -0x1000_0000 <= gz <= 0x0FFF_FFF0,
                        0 <= dz <= 6,
                    decreases 6 - dz,
                {
                    model.set_voxel(IVec3::new(v.x, v.y, gz + dz), block);
                    dz += 1;
                }
                posts.push(IVec3::new(v.x, v.y, gz));
            }
            li += 1;
        }
        si += 1;
    }
    if posts.len() == 0 {
        return model;
    }
    posts.push(posts[0]);

    // two beam rails between consecutive posts
    let nposts = posts.len();
    let mut pi: usize = 0;
    while pi < nposts - 1
        invariant
            model.wf(),
            nposts == posts@.len(),
            1 <= nposts,
            pi <= nposts,
            forall|k: int|
                0 <= k < posts@.len() ==> -100 <= (#[trigger] posts@[k]).x <= 100 && -100
                    <= posts@[k].y <= 100 && -0x1000_0000 <= posts@[k].z <= 0x0FFF_FFF0,
        decreases nposts - pi,
    {
        let p = posts[pi];
        let q = posts[pi + 1];
        let line = bresenham3d(p, q);
        let w = rng.range_u(0, 3);
        let block_top = if w == 0 {
            "wood"
        } else if w == 1 {
            "wood2"
        } else {
            "wood3"
        };
        let w2 = rng.range_u(0, 3);
        let block_bottom = if w2 == 0 {
            "wood"
        } else if w2 == 1 {
            "wood2"
        } else {
            "wood3"
        };
        let nline = line.len();
        let mut li: usize = 1;
        while li < nline - 1
            invariant
                model.wf(),
                nline == line@.len(),
                1 <= nline,
                1 <= li <= nline,
                forall|k: int|
                    0 <= k < line@.len() ==> -100 <= (#[trigger] line@[k]).x <= 100 && -100
                        <= line@[k].y <= 100 && -0x1000_0010 <= line@[k].z <= 0x0FFF_FFF8,
            decreases nline - li,
        {
            let v = line[li];
            model.set_voxel(IVec3::new(v.x, v.y, v.z + 4), block_top);
            model.set_voxel(IVec3::new(v.x, v.y, v.z + 2), block_bottom);
            li += 1;
        }
        pi += 1;
    }
    model
}

/// One ring coordinate: the radius scaled by a sine or cosine given in
/// thousandths.
fn fence_coord(radius: i64, trig_milli: i64) -> (r: i32)
    requires
        0 <= radius <= 100,
        -1000 <= trig_milli <= 1000,
    ensures
        -100 <= r <= 100,
{
    proof {
        assert(-100_000 <= radius * trig_milli <= 100_000) by (nonlinear_arith)
            requires
                0 <= radius <= 100,
                -1000 <= trig_milli <= 1000,
        ;
    }
    ((radius * trig_milli) / 1000) as i32
}

} // verus!
