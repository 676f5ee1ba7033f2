use vstd::prelude::*;
use crate::block::Block;
use crate::ivec3::IVec3;
use crate::mathx::cos_milli;
use crate::paint::GenContext;
use crate::scene2::Scene2;
use crate::voxel_set::VoxelSet;

verus! {

/// The broad terrain pass: gentle noise-driven relief from height 1 up,
/// in dirt or grass variants as the parameters ask.
pub fn hill4(ctx: &GenContext, scene: &Scene2) -> (r: VoxelSet)
    requires
        scene.terrain.wf(),
    ensures
        r.wf(),
{
    let mut rng = ctx.make_rng();
    let mut model = VoxelSet::new();
    model.register_block(Block::color("dirt1", 10, 8, 4));
    model.register_block(Block::color("dirt2", 16, 12, 7));
    model.register_block(Block::color("grass1", 5, 60, 10));
    model.register_block(Block::color("grass2", 3, 45, 2));

    let dirt = match &ctx.params.ground_type {
        Some(g) => is_dirt_type(g.as_str()),
        None => false,
    };
    let noise4 = rng.noise_field().scale_milli(96000).build();
    let noise3 = rng.noise_field().scale_milli(48000).build();
    let mut pick_rng = rng.fork();

    let mut y: i32 = -128;
    while y <= 128
        invariant
            scene.terrain.wf(),
            model.wf(),
            noise4.scale_milli >= 1,
            noise3.scale_milli >= 1,
            -128 <= y <= 129,
        decreases 129 - y,
    {
        let mut x: i32 = -128;
        while x <= 128
            invariant
                scene.terrain.wf(),
                model.wf(),
                noise4.scale_milli >= 1,
                noise3.scale_milli >= 1,
                -128 <= y <= 128,
                -128 <= x <= 129,
            decreases 129 - x,
        {
            let jr = (1500 * noise4.gen_2d(x, y) as i64) / 4096;
            let ang_deg = (360 * noise3.gen_2d(x, y) as i64) / 4096;
            let c = 500 + cos_milli(ang_deg) / 2;
            proof {
                assert(0 <= 64 * jr * c <= 64 * 1500 * 1000) by (nonlinear_arith)
                    requires
                        0 <= jr <= 1500,
                        0 <= c <= 1000,
                ;
            }
            let h3 = (64 * jr * c) / 1_000_000;
            let mut h = if h3 > 48 {
                48
            } else {
                h3 as i32
            };
            if h < 1 {
                h = 1;
            }
            let mut z: i32 = 1;
            while z <= h
                invariant
                    model.wf(),
                    -128 <= x <= 128,
                    -128 <= y <= 128,
                    1 <= h <= 48,
                    1 <= z <= h + 1,
                decreases h + 1 - z,
            {
                let pick = pick_rng.bool();
                let block = if dirt {
                    if pick {
                        "dirt1"
                    } else {
                        "dirt2"
                    }
                } else {
                    if pick {
                        "grass1"
                    } else {
                        "grass2"
                    }
                };
                model.set_voxel(IVec3::new(x, y, z), block);
                z += 1;
            }
            x += 1;
        }
        y += 1;
    }
    model
}

/// True when a ground-type parameter asks for dirt.
fn is_dirt_type(g: &str) -> (r: bool)
    ensures
        r == (g@ == "dirt"@),
{
    let d: String = "dirt".to_owned();
    let gs: String = g.to_owned();
    gs == d
}

} // verus!
