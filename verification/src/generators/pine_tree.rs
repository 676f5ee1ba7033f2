use vstd::prelude::*;
use crate::block::Block;
use crate::ivec3::IVec3;
use crate::mathx::isqrt;
use crate::mathx::sq;
use crate::paint::GenContext;
use crate::scene2::Scene2;
use crate::voxel_set::VoxelSet;
use crate::voxel_palette::lemma_exists_first_id;
use crate::voxel_palette::has_id;

verus! {

/// A conifer: a short trunk under a cone of checkered leaf rings whose
/// radius narrows with height at a randomly drawn girth.
pub fn pine_tree(ctx: &GenContext, _scene: &Scene2) -> (r: VoxelSet)
    ensures
        r.wf(),
        r.vox(0, 0, 0) != 0,
{
    let mut rng = ctx.make_rng();
    let mut model = VoxelSet::new();
    proof {
        reveal_strlit("wood");
        reveal_strlit("empty");
        assert("wood"@ != "empty"@) by {
            assert("wood"@.len() != "empty"@.len());
        }
    }
    model.register_block(Block::color("leaves", 10, 140, 30));
    model.register_block(Block::color("leaves2", 30, 90, 30));
    model.register_block(Block::color("leaves3", 30, 70, 30));
    model.register_block(Block::color("wood2", 26, 28, 28));
    model.register_block(Block::color("wood3", 36, 38, 31));
    model.register_block(Block::color("wood", 46, 38, 38));

    let base_height = rng.range(8, 13) as i32;
    let cone_height = base_height + rng.range(4, 17) as i32;
    // girth scale of the cone profile, in quarters
    let girth = rng.range_u(2, 5);
    let mut wood_rng = rng.fork();
    let mut leaf_rng = rng.fork();

    let mut z: i32 = 0;
    while z <= base_height
        invariant
            model.wf(),
            model.palette.blocks@.len() < 0x100,
            has_id(model.palette.blocks@, "wood"@),
            model.palette.blocks@[0].id@ == "empty"@,
            "wood"@ != "empty"@,
            0 <= z <= base_height + 1 <= 13,
            z > 0 ==> model.vox(0, 0, 0) != 0,
        decreases base_height + 1 - z,
    {
        let w = wood_rng.range_u(0, 3);
        let name = if z == 0 {
            "wood"
        } else if w == 0 {
            "wood"
        } else if w == 1 {
            "wood2"
        } else {
            "wood3"
        };
        model.set_voxel(IVec3::new(0, 0, z), name);
        proof {
            let s = model.palette.blocks@;
            let k = choose|k: int| 0 <= k < s.len() && s[k].id@ == "wood"@;
            lemma_exists_first_id(s, "wood"@, k);
        }
        z += 1;
    }

    let mut z: i32 = 0;
    while z <= cone_height
        invariant
            model.wf(),
            model.vox(0, 0, 0) != 0,
            8 <= base_height <= 12,
            12 <= cone_height <= 29,
            2 <= girth <= 4,
            0 <= z <= cone_height + 1,
        decreases cone_height + 1 - z,
    {
        // the ring radius narrows as a scaled square root of the height left
        let left = (cone_height - z + 1) as u64;
        proof {
            assert(left * girth <= 150) by (nonlinear_arith)
                requires
                    left <= 30,
                    girth <= 4,
            ;
        }
        let root = isqrt(left * girth);
        proof {
            assert(root <= 150) by (nonlinear_arith)
                requires
                    (root as int) * (root as int) <= 150,
            ;
        }
        let radius = root as i32;
        let rr = if radius > 12 {
            12
        } else {
            radius
        };
        let mut y: i32 = -rr;
        while y <= rr
            invariant
                model.wf(),
                model.vox(0, 0, 0) != 0,
                8 <= base_height <= 12,
                0 <= z <= 29,
                0 <= rr <= 12,
                -rr <= y <= rr + 1,
            decreases rr + 1 - y,
        {
            let mut x: i32 = -rr;
            while x <= rr
                invariant
                    model.wf(),
                    model.vox(0, 0, 0) != 0,
                    8 <= base_height <= 12,
                    0 <= z <= 29,
                    0 <= rr <= 12,
                    -rr <= y <= rr,
                    -rr <= x <= rr + 1,
                decreases rr + 1 - x,
            {
                let d = sq(x as i64) + sq(y as i64);
                let ax = if x >= 0 { x } else { -x };
                let ay = if y >= 0 { y } else { -y };
                let az = if z >= 0 { z } else { -z };
                if d <= sq(rr as i64) && ((ax % 2 + ay % 2 == 1) != (az % 2 == 1)) {
                    let l = leaf_rng.range_u(0, 3);
                    let name = if l == 0 {
                        "leaves"
                    } else if l == 1 {
                        "leaves2"
                    } else {
                        "leaves3"
                    };
                    model.set_voxel(IVec3::new(x, y, z + base_height), name);
                }
                x += 1;
            }
            y += 1;
        }
        z += 1;
    }
    model
}

} // verus!
