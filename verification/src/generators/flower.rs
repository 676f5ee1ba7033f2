use vstd::prelude::*;
use crate::block::Block;
use crate::ivec3::IVec3;
use crate::mathx::hsl_to_rgb;
use crate::paint::GenContext;
use crate::scene2::Scene2;
use crate::voxel_set::VoxelSet;
use crate::voxel_palette::lemma_exists_first_id;
use crate::voxel_palette::has_id;

verus! {

/// A single flower: a green stem cross under one blossom voxel whose
/// color is a jittered pick from a fixed hue list.
pub fn flower(ctx: &GenContext, _scene: &Scene2) -> (r: VoxelSet)
    ensures
        r.wf(),
        r.vox(0, 0, 0) != 0,
{
    let mut rng = ctx.make_rng();
    let mut model = VoxelSet::new();
    proof {
        reveal_strlit("green");
        reveal_strlit("empty");
        assert("green"@ != "empty"@) by {
            assert("green"@[0] != "empty"@[0]);
        }
    }

    let hue_pick = rng.range_u(0, 7);
    let hue: i64 = if hue_pick == 0 {
        9
    } else if hue_pick == 1 {
        347
    } else if hue_pick == 2 {
        326
    } else if hue_pick == 3 {
        266
    } else if hue_pick == 4 {
        47
    } else if hue_pick == 5 {
        55
    } else {
        60
    };
    let hue_j = rng.range(-10, 11);
    let light_j = rng.range(-100, 101);
    let sat_j = rng.range(-100, 101);
    let (fr, fg, fb) = hsl_to_rgb(hue + hue_j, 810 + sat_j, 200 + light_j);
    model.register_block(Block::color("flower", fr, fg, fb));

    let ghue_j = rng.range(-10, 11);
    let glight_j = rng.range(-100, 101);
    let gsat_j = rng.range(-100, 101);
    let (gr, gg, gb) = hsl_to_rgb(106 + ghue_j, 670 + gsat_j, 170 + glight_j);
    model.register_block(Block::color("green", gr, gg, gb));

    model.set_voxel(IVec3::new(0, 0, 0), "green");
    proof {
        let s = model.palette.blocks@;
        let k = choose|k: int| 0 <= k < s.len() && s[k].id@ == "green"@;
        lemma_exists_first_id(s, "green"@, k);
    }
    model.set_voxel(IVec3::new(1, 0, 1), "green");
    model.set_voxel(IVec3::new(0, 1, 1), "green");
    model.set_voxel(IVec3::new(-1, 0, 1), "green");
    model.set_voxel(IVec3::new(0, -1, 1), "green");
    model.set_voxel(IVec3::new(0, 0, 1), "flower");
    model
}

} // verus!
