use vstd::prelude::*;
use crate::block::Block;
use crate::mathx::sq;
use crate::ivec3::IVec3;
use crate::paint::GenContext;
use crate::scene2::Scene2;
use crate::voxel_set::VoxelSet;

verus! {

/// Rolling hills built from two noise octaves with a jittered sampling
/// point, grass on top and dirt patches where a second field dips.
pub fn hill2(ctx: &GenContext, scene: &Scene2) -> (r: VoxelSet)
    requires
        scene.terrain.wf(),
    ensures
        r.wf(),
{
    let mut rng = ctx.make_rng();
    let mut model = VoxelSet::new();
    model.register_block(Block::color("dirt", 25, 20, 10));
    model.register_block(Block::color("dirt2", 20, 15, 10));
    model.register_block(Block::color("grass1", 5, 60, 10));
    model.register_block(Block::color("grass2", 3, 45, 2));

    let noise4 = rng.noise_field().scale_milli(64000).build();
    let noise3 = rng.noise_field().scale_milli(85000).build();
    let noise12 = rng.noise_field().scale_milli(4000).build();
    let noise20 = rng.noise_field().scale_milli(127000).build();
    let mut dirt_rng = rng.fork();
    let mut grass_rng = rng.fork();

    let mut y: i32 = -127;
    while y <= 127
        invariant
            scene.terrain.wf(),
            model.wf(),
            noise4.scale_milli >= 1,
            noise3.scale_milli >= 1,
            noise12.scale_milli >= 1,
            noise20.scale_milli >= 1,
            -127 <= y <= 128,
        decreases 128 - y,
    {
        let mut x: i32 = -127;
        while x <= 127
            invariant
                scene.terrain.wf(),
                model.wf(),
                noise4.scale_milli >= 1,
                noise3.scale_milli >= 1,
                noise12.scale_milli >= 1,
                noise20.scale_milli >= 1,
                -127 <= y <= 127,
                -127 <= x <= 128,
            decreases 128 - x,
    {
            let n4 = noise4.gen_2d(x, y) as i64;
            let n3 = noise3.gen_2d(x, y) as i64;
            // two octaves: a broad low one and a sharpened tall one
            let h0 = (16 * n4) / 4096;
            let n3sq = sq(n3) / 4096;
            proof {
                assert(0 <= (n3 * n3) / 4096 < 4096) by (nonlinear_arith)
                    requires
                        0 <= n3 < 4096,
                ;
            }
            let n3quad = sq(n3sq) / 4096;
            let h1 = (32 * n3quad) / 4096;
            let mut h = (h0 + h1) as i32;
            // fade the tile out toward its edges
            let ax = if x >= 0 { x } else { -x };
            let ay = if y >= 0 { y } else { -y };
            let edge = if ax >= ay { ax } else { ay };
            if edge > 119 && edge <= 127 && 0 <= h && h <= 48 {
                proof {
                    assert(0 <= h * (127 - edge) <= 48 * 8) by (nonlinear_arith)
                        requires
                            0 <= h <= 48,
                            0 <= 127 - edge <= 8,
                    ;
                }
                h = (h * (127 - edge)) / 8;
            } else if edge > 127 {
                h = 0;
            }
            if h < 0 {
                h = 0;
            }
            if h > 48 {
                h = 48;
            }
            let dirt_patch = noise12.gen_2d(x, y) < (noise20.gen_2d(x, y) * 9) / 10;
            let base_z = match scene.terrain.height_at(x, y) {
                Some(bz) => {
                    if -0x1000_0000 <= bz && bz <= 0x1000_0000 {
                        bz
                    } else {
                        0
                    }
                },
                None => 0,
            };
            let mut z: i32 = 0;
            while z <= h
                invariant
                    model.wf(),
                    -0x1000_0000 <= base_z <= 0x1000_0000,
                    -127 <= x <= 127,
                    -127 <= y <= 127,
                    0 <= h <= 48,
                    0 <= z <= h + 1,
                decreases h + 1 - z,
            {
                let block = if z >= h && !dirt_patch {
                    if grass_rng.bool() {
                        "grass1"
                    } else {
                        "grass2"
                    }
                } else {
                    if dirt_rng.bool() {
                        "dirt"
                    } else {
                        "dirt2"
                    }
                };
                model.set_voxel(IVec3::new(x, y, base_z + z), block);
                z += 1;
            }
            x += 1;
        }
        y += 1;
    }
    model
}

} // verus!
