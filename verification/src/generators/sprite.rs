use vstd::prelude::*;
use crate::block::Block;
use crate::ivec3::IVec3;
use crate::paint::GenContext;
use crate::voxel_set::VoxelSet;

verus! {

/// Derives a thin voxel sheet from a 2D sprite: one voxel per pixel
/// whose alpha reaches `alpha_min`, pixel rows mapped top-down onto
/// rising z, optionally recolored to a single fixed color.  The pixel
/// data arrives as plain RGBA tuples in row-major order.
pub fn sprite_to_voxels(
    ctx: &GenContext,
    pixels: &Vec<(u8, u8, u8, u8)>,
    width: u32,
    height: u32,
    alpha_min: u8,
) -> (r: VoxelSet)
    requires
        width >= 1,
        height >= 1,
        width <= 4096,
        height <= 4096,
        pixels@.len() == width * height,
    ensures
        r.wf(),
{
    let recolor = ctx.params.color;
    let mut model = VoxelSet::new();
    let mut y: u32 = 0;
    while y < height
        invariant
            model.wf(),
            width >= 1 && width <= 4096,
            height >= 1 && height <= 4096,
            pixels@.len() == width * height,
            y <= height,
        decreases height - y,
    {
        let mut x: u32 = 0;
        while x < width
            invariant
                model.wf(),
                width >= 1 && width <= 4096,
                height >= 1 && height <= 4096,
                pixels@.len() == width * height,
                y < height,
                x <= width,
            decreases width - x,
        {
            proof {
                assert(y * width + x < width * height && width * height <= 0x100_0000)
                    by (nonlinear_arith)
                    requires
                        y < height,
                        x < width,
                        width >= 1,
                        width <= 4096,
                        height <= 4096,
                ;
            }
            let (pr, pg, pb, pa) = pixels[(y * width + x) as usize];
            if pa >= alpha_min {
                let (cr, cg, cb) = match recolor {
                    Some(c) => c,
                    None => (pr, pg, pb),
                };
                let idx = if model.palette.blocks.len() < 0xFF00 {
                    model.ensure_block(Block::color("pixel", cr, cg, cb))
                } else {
                    crate::voxel_palette::PaletteIndex(0)
                };
                let vx = (x as i64 - (width / 2) as i64 - 1) as i32;
                let vz = (height - y - 1) as i32;
                model.set(IVec3::new(vx, 0, vz), idx);
            }
            x += 1;
        }
        y += 1;
    }
    model
}

} // verus!
