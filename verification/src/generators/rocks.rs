use vstd::prelude::*;
use crate::block::Block;
use crate::ivec3::IVec3;
use crate::paint::GenContext;
use crate::scene2::Scene2;
use crate::voxel_model::VoxelModel;
use crate::voxel_set::VoxelSet;

verus! {

/// Scatters rocky outcrops directly into the scene's terrain where a
/// pair of noise fields overlap, marking the stone as occupied so later
/// placement passes avoid it.
pub fn rocks(ctx: &GenContext, scene: &mut Scene2) -> (r: VoxelModel)
    requires
        old(scene).terrain.wf(),
    ensures
        final(scene).terrain.wf(),
        r is Empty,
{
    if scene.terrain.palette.blocks.len() >= 0xFF00 {
        return VoxelModel::Empty;
    }
    let mut stone1 = Block::color("stone1", 10, 10, 11);
    stone1.occupied = true;
    let mut stone2 = Block::color("stone2", 5, 6, 5);
    stone2.occupied = true;
    scene.terrain.register_block(stone1);
    scene.terrain.register_block(stone2);

    let mut rng = ctx.make_rng();
    let noise0 = rng.noise_field().scale_milli(16000).build();
    let noise1 = rng.noise_field().scale_milli(36000).build();
    let noise2 = rng.noise_field().scale_milli(80000).build();

    let mut y: i32 = -128;
    while y <= 128
        invariant
            scene.terrain.wf(),
            noise0.scale_milli >= 1,
            noise1.scale_milli >= 1,
            noise2.scale_milli >= 1,
            -128 <= y <= 129,
        decreases 129 - y,
    {
        let mut x: i32 = -128;
        while x <= 128
            invariant
                scene.terrain.wf(),
                noise0.scale_milli >= 1,
                noise1.scale_milli >= 1,
                noise2.scale_milli >= 1,
                -128 <= y <= 128,
                -128 <= x <= 129,
            decreases 129 - x,
        {
            let n1 = noise1.gen_2d(x, y);
            let n2 = noise2.gen_2d(x, y);
            let base = if n2 >= n1 {
                n2
            } else {
                n1
            };
            let gate = noise0.gen_2d(x, y);
            let n = if gate > 1843 {
                0
            } else {
                base
            };
            if n >= 2662 {
                // outcrop height grows with how far the field exceeds
                // the threshold
                let h = (1 + (60 * (n - 2662)) / 4096) as i32;
                let base_z = match scene.terrain.height_at(x, y) {
                    Some(bz) => {
                        if -0x1000_0000 <= bz && bz <= 0x1000_0000 {
                            bz
                        } else {
                            1
                        }
                    },
                    None => 1,
                };
                let mut z: i32 = 1;
                while z <= h
                    invariant
                        scene.terrain.wf(),
                        -0x1000_0000 <= base_z <= 0x1000_0000,
                        -128 <= x <= 128,
                        -128 <= y <= 128,
                        1 <= z <= h + 1 <= 62,
                    decreases h + 1 - z,
                {
                    let block = if rng.bool() {
                        "stone1"
                    } else {
                        "stone2"
                    };
                    scene.terrain.set_voxel(IVec3::new(x, y, base_z + z), block);
                    z += 1;
                }
            }
            x += 1;
        }
        y += 1;
    }
    VoxelModel::Empty
}

} // verus!
