use vstd::prelude::*;
use crate::block::Block;
use crate::ivec3::IVec3;
use crate::mathx::sq;
use crate::paint::GenContext;
use crate::scene2::Scene2;
use crate::voxel_set::VoxelSet;

verus! {

/// A rounded broadleaf tree: a trunk of standard or birch wood under a
/// noise-thinned sphere of leaves.
pub fn tree2(ctx: &GenContext, scene: &Scene2) -> (r: VoxelSet)
    requires
        scene.terrain.wf(),
    ensures
        r.wf(),
{
    let mut rng = ctx.make_rng();
    let mut model = VoxelSet::new();
    model.register_block(Block::color("leaves", 40, 180, 30));
    model.register_block(Block::color("leaves2", 30, 150, 30));
    model.register_block(Block::color("leaves3", 230, 150, 30));
    model.register_block(Block::color("sand", 180, 200, 20));
    model.register_block(Block::color("wood", 46, 38, 38));
    model.register_block(Block::color("birch_wood0", 200, 205, 203));
    model.register_block(Block::color("birch_wood1", 180, 185, 173));
    model.register_block(Block::color("birch_wood2", 30, 35, 33));

    let birch = rng.bool();
    let mut wood_rng = rng.fork();
    let mut leaf_rng = rng.fork();

    let height = rng.range(12, 21) as i32;
    let noise = rng.noise_field().scale_milli(3000).build();
    let base_z = match scene.terrain.height_at(0, 0) {
        Some(h) => {
            if -0x1000_0000 <= h && h <= 0x1000_0000 {
                h
            } else {
                0
            }
        },
        None => 0,
    };

    let mut z: i32 = 0;
    while z <= height
        invariant
            model.wf(),
            -0x1000_0000 <= base_z <= 0x1000_0000,
            0 <= z <= height + 1 <= 21,
        decreases height + 1 - z,
    {
        let block_name = if birch {
            let w = wood_rng.range_u(0, 100);
            if w < 40 {
                "birch_wood0"
            } else if w < 80 {
                "birch_wood1"
            } else {
                "birch_wood2"
            }
        } else {
            "wood"
        };
        model.set_voxel(IVec3::new(0, 0, base_z + z), block_name);
        z += 1;
    }

    let mut z: i32 = -8;
    while z <= 8
        invariant
            model.wf(),
            noise.scale_milli >= 1,
            -0x1000_0000 <= base_z <= 0x1000_0000,
            12 <= height <= 20,
            -8 <= z <= 9,
        decreases 9 - z,
    {
        let mut y: i32 = -8;
        while y <= 8
            invariant
                model.wf(),
                noise.scale_milli >= 1,
                -0x1000_0000 <= base_z <= 0x1000_0000,
                12 <= height <= 20,
                -8 <= z <= 8,
                -8 <= y <= 9,
            decreases 9 - y,
        {
            let mut x: i32 = -8;
            while x <= 8
                invariant
                    model.wf(),
                    noise.scale_milli >= 1,
                    -0x1000_0000 <= base_z <= 0x1000_0000,
                    12 <= height <= 20,
                    -8 <= z <= 8,
                    -8 <= y <= 8,
                    -8 <= x <= 9,
                decreases 9 - x,
            {
                let d = sq(x as i64) + sq(y as i64) + sq(z as i64);
                let ax = if x >= 0 { x } else { -x };
                let ay = if y >= 0 { y } else { -y };
                let az = if z >= 0 { z } else { -z };
                if d <= 64 && (ax % 2 + ay % 2) % 2 != az % 2 {
                    let v = noise.gen_3d(x, y, z);
                    if v >= 1638 {
                        let name = if birch {
                            if leaf_rng.bool() {
                                "leaves"
                            } else {
                                "leaves2"
                            }
                        } else {
                            let l = leaf_rng.range_u(0, 3);
                            if l == 0 {
                                "leaves"
                            } else if l == 1 {
                                "leaves2"
                            } else {
                                "leaves3"
                            }
                        };
                        model.set_voxel(IVec3::new(x, y, base_z + z + 4 + height), name);
                    }
                }
                x += 1;
            }
            y += 1;
        }
        z += 1;
    }
    model
}

} // verus!
