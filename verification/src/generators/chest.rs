use vstd::prelude::*;
use crate::block::Block;
use crate::ivec3::IVec3;
use crate::paint::GenContext;
use crate::scene2::Scene2;
use crate::voxel_set::VoxelSet;

verus! {

/// A wooden chest: a banded box of two wood shades with trim at the
/// rims and lid seam, and a handle on the front face.
pub fn chest(ctx: &GenContext, _scene: &Scene2) -> (r: VoxelSet)
    ensures
        r.wf(),
{
    let mut rng = ctx.make_rng();
    let width = rng.range(3, 6) as i32;

    let wood_pick = rng.range_u(0, 3);
    let (w1, w2): ((u8, u8, u8), (u8, u8, u8)) = if wood_pick == 0 {
        ((60, 50, 20), (53, 43, 16))
    } else if wood_pick == 1 {
        ((40, 30, 10), (35, 28, 14))
    } else {
        ((25, 21, 10), (21, 16, 8))
    };

    let mut model = VoxelSet::new();
    model.register_block(Block::color("wood1", w1.0, w1.1, w1.2));
    model.register_block(Block::color("wood2", w2.0, w2.1, w2.2));
    let trim_base = if rng.bool() {
        w1
    } else {
        w2
    };
    // the trim is a darkened take on the chest wood
    let scale = rng.range_u(250, 651);
    model.register_block(
        Block::color(
            "trim",
            scale_channel(trim_base.0, scale),
            scale_channel(trim_base.1, scale),
            scale_channel(trim_base.2, scale),
        ),
    );
    let handle_pick = rng.range_u(0, 4);
    let handle: (u8, u8, u8) = if handle_pick == 0 {
        (5, 5, 4)
    } else if handle_pick == 1 {
        (123, 123, 30)
    } else if handle_pick == 2 {
        (50, 50, 50)
    } else {
        (70, 66, 30)
    };
    model.register_block(Block::color("handle", handle.0, handle.1, handle.2));

    let mut dx: i32 = -width;
    while dx <= width
        invariant
            model.wf(),
            3 <= width <= 5,
            -width <= dx <= width + 1,
        decreases width + 1 - dx,
    {
        let mut dy: i32 = -3;
        while dy <= 3
            invariant
                model.wf(),
                3 <= width <= 5,
                -width <= dx <= width,
                -3 <= dy <= 4,
            decreases 4 - dy,
        {
            let mut dz: i32 = 0;
            while dz < 6
                invariant
                    model.wf(),
                    3 <= width <= 5,
                    -width <= dx <= width,
                    -3 <= dy <= 3,
                    0 <= dz <= 6,
                decreases 6 - dz,
            {
                let k = 6 - dz;
                let ax = if dx >= 0 {
                    dx
                } else {
                    -dx
                };
                let ay = if dy >= 0 {
                    dy
                } else {
                    -dy
                };
                if ay <= k {
                    let mut block = if rng.bool() {
                        "wood1"
                    } else {
                        "wood2"
                    };
                    if ax == width && (ay == 3 || ay == k || dz == 5) {
                        block = "trim";
                    }
                    if dz == 0 || dz == 3 {
                        block = "trim";
                    }
                    model.set_voxel(IVec3::new(dx, dy, dz), block);
                }
                dz += 1;
            }
            dy += 1;
        }
        dx += 1;
    }

    // the handle plate on the front face
    let mut hx: i32 = -1;
    while hx <= 1
        invariant
            model.wf(),
            -1 <= hx <= 2,
        decreases 2 - hx,
    {
        model.set_voxel(IVec3::new(hx, -3, 2), "handle");
        model.set_voxel(IVec3::new(hx, -3, 3), "handle");
        hx += 1;
    }
    model
}

/// Scales an 8-bit channel by a factor in thousandths.
fn scale_channel(v: u8, scale_milli: u64) -> (r: u8)
    requires
        scale_milli <= 1000,
{
    proof {
        assert((v as u64) * scale_milli <= 255_000) by (nonlinear_arith)
            requires
                v <= 255,
                scale_milli <= 1000,
        ;
    }
    ((v as u64 * scale_milli) / 1000) as u8
}

} // verus!
