use vstd::prelude::*;
use crate::ivec3::IVec3;
use crate::mathx::hsl_to_rgb;
use crate::paint::GenContext;
use crate::paint::GenParams;
use crate::scene2::Group;
use crate::scene2::Scene2;
use crate::voxel_model::VoxelModel;
use crate::generators::DEFAULT_FUEL;
use crate::generators::generate_model_fuel;
use crate::generators::sprite::sprite_to_voxels;

verus! {

/// A scattered-keys scene: dirt ground with rocky outcrops, a ring of
/// sprite-derived keys recolored to random hues (the first of them the
/// sprite in its own colors), bare-tree clusters, and a chest pass.
/// The sprite arrives as plain RGBA pixels; loading it is the caller's
/// business.
pub fn chest_and_key(
    ctx: &GenContext,
    scene: &mut Scene2,
    key_pixels: &Vec<(u8, u8, u8, u8)>,
    key_width: u32,
    key_height: u32,
) -> (r: Group)
    requires
        old(scene).terrain.wf(),
        key_width >= 1 && key_width <= 4096,
        key_height >= 1 && key_height <= 4096,
        key_pixels@.len() == key_width * key_height,
    ensures
        final(scene).terrain.wf(),
{
    chest_and_key_fuel(ctx, scene, key_pixels, key_width, key_height, DEFAULT_FUEL)
}

/// `chest_and_key` with an explicit recursion budget.
pub fn chest_and_key_fuel(
    ctx: &GenContext,
    scene: &mut Scene2,
    key_pixels: &Vec<(u8, u8, u8, u8)>,
    key_width: u32,
    key_height: u32,
    fuel: u64,
) -> (r: Group)
    requires
        old(scene).terrain.wf(),
        key_width >= 1 && key_width <= 4096,
        key_height >= 1 && key_height <= 4096,
        key_pixels@.len() == key_width * key_height,
    ensures
        final(scene).terrain.wf(),
    decreases fuel, 0nat,
{
    let mut rng = ctx.make_rng();
    let mut model = Group::new();

    let mut gparams = GenParams::none();
    gparams.ground_type = Some("dirt".to_owned());
    let ground_ctx = ctx.fork("flat_ground", rng.seed8()).with_params(gparams);
    scene.terrain = super::flat_ground::flat_ground(&ground_ctx, scene);

    let rocks_ctx = ctx.fork("rocks", rng.seed8());
    super::rocks::rocks(&rocks_ctx, scene);

    // a ring of keys, each in a random hue; the first keeps the
    // sprite's own colors
    let mut i: u32 = 0;
    while i < 8
        invariant
            scene.terrain.wf(),
            key_width >= 1 && key_width <= 4096,
            key_height >= 1 && key_height <= 4096,
            key_pixels@.len() == key_width * key_height,
            i <= 8,
        decreases 8 - i,
    {
        let hue = rng.range(0, 360);
        let (sat, lit) = if rng.bool() {
            (rng.range(250, 800), rng.range(500, 800))
        } else {
            (100, rng.range(250, 400))
        };
        let rgb = hsl_to_rgb(hue, sat, lit);

        let px = rng.range(-72, 73) as i32;
        let py = rng.range(-72, 73) as i32;
        let z = match scene.terrain.height_at(px, py) {
            Some(h) => {
                if -0x1000_0000 <= h && h <= 0x1000_0000 {
                    h + 1
                } else {
                    1
                }
            },
            None => 1,
        };

        // skip spots whose surroundings are already occupied
        let mut occupied = false;
        let mut dx: i32 = -2;
        while dx <= 2
            invariant
                scene.terrain.wf(),
                -72 <= px <= 72,
                -72 <= py <= 72,
                -2 <= dx <= 3,
            decreases 3 - dx,
        {
            let mut dy: i32 = -2;
            while dy <= 2
                invariant
                    scene.terrain.wf(),
                    -72 <= px <= 72,
                    -72 <= py <= 72,
                    -2 <= dx <= 2,
                    -2 <= dy <= 3,
                decreases 3 - dy,
            {
                match scene.terrain.top_block_at(px + dx, py + dy) {
                    Some(b) => {
                        if b.occupied {
                            occupied = true;
                        }
                    },
                    None => {},
                }
                dy += 1;
            }
            dx += 1;
        }
        if !occupied {
            let seed = rng.seed8();
            let mut kparams = GenParams::none();
            if i != 0 {
                kparams.color = Some(rgb);
            }
            let sub = ctx.fork("key", seed).with_center(IVec3::new(px, py, z)).with_params(
                kparams,
            );
            let voxels = sprite_to_voxels(&sub, key_pixels, key_width, key_height, 1);
            model.push_set(&sub, voxels);
        }
        i += 1;
    }

    // bare-tree clusters across the plain
    let mut i: u32 = 0;
    while i < 20
        invariant
            scene.terrain.wf(),
        decreases 20 - i,
    {
        let seed = rng.seed8();
        let cx = rng.range(-223, 224) as i32;
        let cy = rng.range(-223, 224) as i32;
        let mut cparams = GenParams::none();
        cparams.count = Some((3, 6));
        cparams.range = Some(32);
        cparams.generators = Some(vec![(10u32, "bare_tree".to_owned())]);
        let sub = ctx.fork("cluster2", seed).with_center(IVec3::new(cx, cy, 0)).with_params(
            cparams,
        );
        if fuel >= 1 {
            let g = generate_model_fuel(&sub, scene, fuel - 1);
            match g {
                VoxelModel::Group(_) => {
                    model.merge(g);
                },
                _ => {},
            }
        }
        i += 1;
    }

    // and a handful of chests
    let mut cparams = GenParams::none();
    cparams.count = Some((4, 5));
    cparams.range = Some(60);
    cparams.closest_distance2 = Some(144);
    cparams.generators = Some(vec![(10u32, "chest".to_owned())]);
    let sub = ctx.fork("cluster2", rng.seed8()).with_params(cparams);
    if fuel >= 1 {
        let g = generate_model_fuel(&sub, scene, fuel - 1);
        match g {
            VoxelModel::Group(_) => {
                model.merge(g);
            },
            _ => {},
        }
    }
    model
}

} // verus!
