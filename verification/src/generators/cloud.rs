use vstd::prelude::*;
use crate::block::Block;
use crate::ivec3::IVec3;
use crate::mathx::sq;
use crate::paint::GenContext;
use crate::scene2::Scene2;
use crate::scene2::Group;
use crate::voxel_set::VoxelSet;

verus! {

/// A puffy cloud: several overlapping noise-trimmed ellipsoids of two
/// cloud shades.
pub fn cloud(ctx: &GenContext, _scene: &Scene2) -> (r: VoxelSet)
    ensures
        r.wf(),
{
    let mut rng = ctx.make_rng();
    let mut model = VoxelSet::new();
    model.register_block(Block::color("cloud1", 132, 137, 144));
    model.register_block(Block::color("cloud2", 227, 227, 227));

    let count = rng.range(6, 17);
    let mut i: i64 = 0;
    while i < count
        invariant
            model.wf(),
            6 <= count <= 16,
            0 <= i <= count,
        decreases count - i,
    {
        let noise = rng.noise_field().scale_milli(4000).build();
        let noise2 = rng.noise_field().scale_milli(6000).build();
        let range_x = rng.range(14, 29) as i32;
        let range_y = rng.range(14, 57) as i32;
        let range_z = rng.range(4, 18) as i32;
        let offset_x = rng.range(-8, 9) as i32;
        let offset_y = rng.range(-8, 9) as i32;
        let offset_z = rng.range(-4, 5) as i32;

        let mut dz: i32 = -17;
        while dz <= 17
            invariant
                model.wf(),
                noise.scale_milli >= 1,
                noise2.scale_milli >= 1,
                14 <= range_x <= 28,
                14 <= range_y <= 56,
                4 <= range_z <= 17,
                -8 <= offset_x <= 8,
                -8 <= offset_y <= 8,
                -4 <= offset_z <= 4,
                -17 <= dz <= 18,
            decreases 18 - dz,
        {
            let mut dy: i32 = -56;
            while dy <= 56
                invariant
                    model.wf(),
                    noise.scale_milli >= 1,
                    noise2.scale_milli >= 1,
                    14 <= range_x <= 28,
                    14 <= range_y <= 56,
                    4 <= range_z <= 17,
                    -8 <= offset_x <= 8,
                    -8 <= offset_y <= 8,
                    -4 <= offset_z <= 4,
                    -17 <= dz <= 17,
                    -56 <= dy <= 57,
                decreases 57 - dy,
            {
                let mut dx: i32 = -28;
                while dx <= 28
                    invariant
                        model.wf(),
                        noise.scale_milli >= 1,
                        noise2.scale_milli >= 1,
                        14 <= range_x <= 28,
                        14 <= range_y <= 56,
                        4 <= range_z <= 17,
                        -8 <= offset_x <= 8,
                        -8 <= offset_y <= 8,
                        -4 <= offset_z <= 4,
                        -17 <= dz <= 17,
                        -56 <= dy <= 56,
                        -28 <= dx <= 29,
                    decreases 29 - dx,
                {
                    // normalized squared radius in units of 1/4096
                    let nx = norm64((dx as i64) * 64, range_x as i64);
                    let ny = norm64((dy as i64) * 64, range_y as i64);
                    let nz = norm64((dz as i64) * 64, range_z as i64);
                    let d2 = sq(nx) + sq(ny) + sq(nz);
                    let nv = noise.gen_3d(dx, dy, dz);
                    // radius shrinks and grows with the noise field
                    let rad = 1024 + (3 * nv) / 4;
                    let rad2 = sq(rad as i64);
                    if d2 <= rad2 {
                        let n2 = noise2.gen_3d(dx, dy, dz);
                        let block = if n2 < 1434 {
                            "cloud1"
                        } else if n2 < 2540 {
                            "cloud2"
                        } else {
                            "empty"
                        };
                        model.set_voxel(
                            IVec3::new(dx + offset_x, dy + offset_y, dz + offset_z),
                            block,
                        );
                    }
                    dx += 1;
                }
                dy += 1;
            }
            dz += 1;
        }
        i += 1;
    }
    model
}

/// A coordinate normalized by an ellipsoid radius, clamped to the unit
/// band the density test works in.
fn norm64(v: i64, range: i64) -> (r: i64)
    requires
        1 <= range,
        -10_000 <= v <= 10_000,
    ensures
        -192 <= r <= 192,
{
    let q = v / range;
    if q > 192 {
        192
    } else if q < -192 {
        -192
    } else {
        q
    }
}

/// A loose batch of clouds scattered high above the center.
pub fn cloud_cluster(ctx: &GenContext, scene: &Scene2) -> (r: Group)
    ensures
        r.objects@.len() <= 14,
{
    let mut rng = ctx.make_rng();
    let mut group = Group::new();
    let mut i: u32 = 0;
    while i < 14
        invariant
            i <= 14,
            group.objects@.len() <= i,
        decreases 14 - i,
    {
        let seed = rng.seed8();
        let cx = rng.range(-200, 201) as i32;
        let cy = rng.range(-200, 201) as i32;
        let cz = rng.range(96, 163) as i32;
        let sub = ctx.fork("cloud", seed).with_center(IVec3::new(cx, cy, cz));
        let set = cloud(&sub, scene);
        group.push_set(&sub, set);
        i += 1;
    }
    group
}

} // verus!
