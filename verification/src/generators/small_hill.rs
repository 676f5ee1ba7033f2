use vstd::prelude::*;
use crate::block::Block;
use crate::ivec3::IVec3;
use crate::mathx::cos_milli;
use crate::mathx::isqrt;
use crate::paint::GenContext;
use crate::scene2::Scene2;
use crate::voxel_set::VoxelSet;

verus! {

/// A single rounded hill: a cosine dome stretched by random extents and
/// swung through a random angle, dirt inside and noise-mixed grass on
/// the crown.
pub fn small_hill(ctx: &GenContext, scene: &Scene2) -> (r: VoxelSet)
    requires
        scene.terrain.wf(),
    ensures
        r.wf(),
{
    let mut rng = ctx.make_rng();
    let mut model = VoxelSet::new();
    model.register_block(Block::color("dirt", 25, 20, 10));
    model.register_block(Block::color("dirt2", 20, 15, 10));
    model.register_block(Block::color("grass1", 5, 60, 10));
    model.register_block(Block::color("grass2", 3, 45, 2));

    let size_x = rng.range(48, 81) as i32;
    let size_y = rng.range(48, 81) as i32;
    let angle = rng.range(0, 360);
    let noise = rng.noise_field().scale_milli(12000).build();
    let mut dirt_rng = rng.fork();
    let mut grass_rng = rng.fork();
    let ca = cos_milli(angle);
    let sa = cos_milli(angle + 270);

    let mut y: i32 = -80;
    while y <= 80
        invariant
            scene.terrain.wf(),
            model.wf(),
            noise.scale_milli >= 1,
            48 <= size_x <= 80,
            48 <= size_y <= 80,
            -1000 <= ca <= 1000,
            -1000 <= sa <= 1000,
            -80 <= y <= 81,
        decreases 81 - y,
    {
        let mut x: i32 = -80;
        while x <= 80
            invariant
                scene.terrain.wf(),
                model.wf(),
                noise.scale_milli >= 1,
                48 <= size_x <= 80,
                48 <= size_y <= 80,
                -1000 <= ca <= 1000,
                -1000 <= sa <= 1000,
                -80 <= y <= 80,
                -80 <= x <= 81,
            decreases 81 - x,
        {
            // rotate the sample point and widen it to the dome period
            let u0 = clamp2000(((x as i64) * 1000) / (size_x as i64));
            let v0 = clamp2000(((y as i64) * 1000) / (size_y as i64));
            proof {
                assert((-2_000_000 <= u0 * ca <= 2_000_000) && (-2_000_000 <= v0 * sa
                    <= 2_000_000) && (-2_000_000 <= u0 * sa <= 2_000_000) && (-2_000_000 <= v0
                    * ca <= 2_000_000)) by (nonlinear_arith)
                    requires
                        -2000 <= u0 <= 2000,
                        -2000 <= v0 <= 2000,
                        -1000 <= ca <= 1000,
                        -1000 <= sa <= 1000,
                ;
            }
            let u = (u0 * ca - v0 * sa) / 1000;
            let v = (u0 * sa + v0 * ca) / 1000;
            // cosine dome in both axes; heights in thousandths
            let cu = (cos_milli((u * 360) / 2000) + 1000) / 2;
            let cv = (cos_milli((v * 360) / 2000) + 1000) / 2;
            proof {
                assert(0 <= cu * cv <= 1_000_000) by (nonlinear_arith)
                    requires
                        0 <= cu <= 1000,
                        0 <= cv <= 1000,
                ;
            }
            let dome = isqrt((cu * cv) as u64);
            proof {
                assert(dome <= 1000) by (nonlinear_arith)
                    requires
                        (dome as int) * (dome as int) <= 1_000_000,
                ;
            }
            let hv = (48 * dome as i64) / 1000 - 24;
            let h = if hv < -1 {
                -1
            } else {
                hv as i32
            };
            let base_z = match scene.terrain.height_at(x, y) {
                Some(bz) => {
                    if -0x1000_0000 <= bz && bz <= 0x1000_0000 {
                        bz
                    } else {
                        0
                    }
                },
                None => 0,
            };
            let mut z: i32 = 0;
            while z <= h
                invariant
                    model.wf(),
                    noise.scale_milli >= 1,
                    -0x1000_0000 <= base_z <= 0x1000_0000,
                    -80 <= x <= 80,
                    -80 <= y <= 80,
                    -1 <= h <= 24,
                    0 <= z <= h + 1,
                decreases h + 1 - z,
            {
                let block = if z < h {
                    "dirt"
                } else {
                    let nv = noise.gen_3d(x, y, z);
                    if nv < 1679 {
                        if dirt_rng.bool() {
                            "dirt"
                        } else {
                            "dirt2"
                        }
                    } else {
                        if grass_rng.bool() {
                            "grass1"
                        } else {
                            "grass2"
                        }
                    }
                };
                model.set_voxel(IVec3::new(x, y, base_z + z), block);
                z += 1;
            }
            x += 1;
        }
        y += 1;
    }
    model
}

/// Clamps a normalized sample coordinate into the dome's working band.
fn clamp2000(v: i64) -> (r: i64)
    ensures
        -2000 <= r <= 2000,
{
    if v > 2000 {
        2000
    } else if v < -2000 {
        -2000
    } else {
        v
    }
}

} // verus!
