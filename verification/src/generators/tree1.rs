use vstd::prelude::*;
use crate::block::Block;
use crate::ivec3::IVec3;
use crate::paint::GenContext;
use crate::scene2::Scene2;
use crate::voxel_set::VoxelSet;
use crate::voxel_palette::lemma_exists_first_id;
use crate::voxel_palette::has_id;

verus! {

/// The simplest tree: a fixed trunk under a checkered sphere of leaves.
pub fn tree1(ctx: &GenContext, _scene: &Scene2) -> (r: VoxelSet)
    ensures
        r.wf(),
        r.vox(0, 0, 0) != 0,
{
    let mut model = VoxelSet::new();
    proof {
        reveal_strlit("wood");
        reveal_strlit("empty");
        assert("wood"@ != "empty"@) by {
            assert("wood"@.len() != "empty"@.len());
        }
    }
    model.register_block(Block::color("grass", 50, 200, 50));
    model.register_block(Block::color("sand", 180, 200, 20));
    model.register_block(Block::color("wood", 46, 38, 38));

    let mut z: i32 = 0;
    while z <= 20
        invariant
            model.wf(),
            model.palette.blocks@.len() < 0x100,
            has_id(model.palette.blocks@, "wood"@),
            model.palette.blocks@[0].id@ == "empty"@,
            "wood"@ != "empty"@,
            0 <= z <= 21,
            z > 0 ==> model.vox(0, 0, 0) != 0,
        decreases 21 - z,
    {
        model.set_voxel(IVec3::new(0, 0, z), "wood");
        proof {
            let s = model.palette.blocks@;
            let k = choose|k: int| 0 <= k < s.len() && s[k].id@ == "wood"@;
            lemma_exists_first_id(s, "wood"@, k);
        }
        z += 1;
    }

    let mut z: i32 = -8;
    while z <= 8
        invariant
            model.wf(),
            model.vox(0, 0, 0) != 0,
            -8 <= z <= 9,
        decreases 9 - z,
    {
        let mut y: i32 = -8;
        while y <= 8
            invariant
                model.wf(),
                model.vox(0, 0, 0) != 0,
                -8 <= z <= 8,
                -8 <= y <= 9,
            decreases 9 - y,
        {
            let mut x: i32 = -8;
            while x <= 8
                invariant
                    model.wf(),
                    model.vox(0, 0, 0) != 0,
                    -8 <= z <= 8,
                    -8 <= y <= 8,
                    -8 <= x <= 9,
                decreases 9 - x,
            {
                let d = crate::mathx::sq(x as i64) + crate::mathx::sq(y as i64)
                    + crate::mathx::sq(z as i64);
                let ax = if x >= 0 {
                    x
                } else {
                    -x
                };
                let ay = if y >= 0 {
                    y
                } else {
                    -y
                };
                let az = if z >= 0 {
                    z
                } else {
                    -z
                };
                if d <= 64 && (ax % 2 + ay % 2) % 2 != az % 2 {
                    let name = if ay % 2 == 0 {
                        "grass"
                    } else {
                        "sand"
                    };
                    // the canopy sits well above the trunk base
                    model.set_voxel(IVec3::new(x, y, z + 4 + 20), name);
                }
                x += 1;
            }
            y += 1;
        }
        z += 1;
    }
    model
}

} // verus!
