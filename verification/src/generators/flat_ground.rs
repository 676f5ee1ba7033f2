use vstd::prelude::*;
use crate::block::Block;
use crate::ivec3::IVec3;
use crate::paint::GenContext;
use crate::scene2::Scene2;
use crate::voxel_set::VoxelSet;

verus! {

/// A flat square of ground at height 1, painted with one of two dirt or
/// grass block variants per column.
pub fn flat_ground(ctx: &GenContext, _scene: &Scene2) -> (r: VoxelSet)
    ensures
        r.wf(),
{
    let mut rng = ctx.make_rng();
    let mut model = VoxelSet::new();
    model.register_block(Block::color("dirt1", 10, 8, 4));
    model.register_block(Block::color("dirt2", 16, 12, 7));
    model.register_block(Block::color("grass1", 5, 60, 10));
    model.register_block(Block::color("grass2", 3, 45, 2));

    let dirt = match &ctx.params.ground_type {
        Some(g) => is_dirt(g.as_str()),
        None => false,
    };

    let mut y: i32 = -64;
    while y <= 64
        invariant
            model.wf(),
            -64 <= y <= 65,
        decreases 65 - y,
    {
        let mut x: i32 = -64;
        while x <= 64
            invariant
                model.wf(),
                -64 <= y <= 64,
                -64 <= x <= 65,
            decreases 65 - x,
        {
            let pick = rng.bool();
            let block = if dirt {
                if pick {
                    "dirt1"
                } else {
                    "dirt2"
                }
            } else {
                if pick {
                    "grass1"
                } else {
                    "grass2"
                }
            };
            model.set_voxel(IVec3::new(x, y, 1), block);
            x += 1;
        }
        y += 1;
    }
    model
}

/// True when a ground-type parameter asks for dirt.
fn is_dirt(g: &str) -> (r: bool)
    ensures
        r == (g@ == "dirt"@),
{
    let d: String = "dirt".to_owned();
    let gs: String = g.to_owned();
    gs == d
}

} // verus!
