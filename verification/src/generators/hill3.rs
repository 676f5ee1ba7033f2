use vstd::prelude::*;
use crate::block::Block;
use crate::ivec3::IVec3;
use crate::mathx::cos_milli;
use crate::paint::GenContext;
use crate::scene2::Scene2;
use crate::voxel_set::VoxelSet;

verus! {

/// Grass-covered ridge terrain: a noise-driven radius swung through a
/// noise-driven angle gives long rounded crests.
pub fn hill3(ctx: &GenContext, scene: &Scene2) -> (r: VoxelSet)
    requires
        scene.terrain.wf(),
    ensures
        r.wf(),
{
    let mut rng = ctx.make_rng();
    let mut model = VoxelSet::new();
    model.register_block(Block::color("grass1", 5, 60, 10));
    model.register_block(Block::color("grass2", 3, 45, 2));

    let noise4 = rng.noise_field().scale_milli(128000).build();
    let noise3 = rng.noise_field().scale_milli(96000).build();
    let mut grass_rng = rng.fork();

    let mut y: i32 = -128;
    while y <= 128
        invariant
            scene.terrain.wf(),
            model.wf(),
            noise4.scale_milli >= 1,
            noise3.scale_milli >= 1,
            -128 <= y <= 129,
        decreases 129 - y,
    {
        let mut x: i32 = -128;
        while x <= 128
            invariant
                scene.terrain.wf(),
                model.wf(),
                noise4.scale_milli >= 1,
                noise3.scale_milli >= 1,
                -128 <= y <= 128,
                -128 <= x <= 129,
            decreases 129 - x,
        {
            let jr = (1500 * noise4.gen_2d(x, y) as i64) / 4096;
            let ang_deg = (360 * noise3.gen_2d(x, y) as i64) / 4096;
            let c = 500 + cos_milli(ang_deg) / 2;
            proof {
                assert(0 <= 64 * jr * c <= 64 * 1500 * 1000) by (nonlinear_arith)
                    requires
                        0 <= jr <= 1500,
                        0 <= c <= 1000,
                ;
            }
            let h3 = (64 * jr * c) / 1_000_000;
            let h = if h3 > 64 {
                64
            } else {
                h3 as i32
            };
            let base_z = match scene.terrain.height_at(x, y) {
                Some(bz) => {
                    if -0x1000_0000 <= bz && bz <= 0x1000_0000 {
                        bz
                    } else {
                        0
                    }
                },
                None => 0,
            };
            let mut z: i32 = 0;
            while z <= h
                invariant
                    model.wf(),
                    -0x1000_0000 <= base_z <= 0x1000_0000,
                    -128 <= x <= 128,
                    -128 <= y <= 128,
                    0 <= h <= 64,
                    0 <= z <= h + 1,
                decreases h + 1 - z,
            {
                let block = if grass_rng.bool() {
                    "grass1"
                } else {
                    "grass2"
                };
                model.set_voxel(IVec3::new(x, y, base_z + z), block);
                z += 1;
            }
            x += 1;
        }
        y += 1;
    }
    model
}

} // verus!
