use vstd::prelude::*;
use crate::ivec3::IVec3;
use crate::paint::GenContext;
use crate::paint::GenParams;
use crate::point_set::PointSet;
use crate::rng::RNG;
use crate::voxel_scene::Object;
use crate::voxel_scene::VoxelScene;

verus! {

/// The record-producing placement pass: like the scene-mutating cluster
/// pass, but emitting placed-object records for later regeneration
/// instead of generating the models in place.
pub fn cluster(seed: u64, ctx: &GenContext) -> (r: VoxelScene)
    ensures
        r.layers@.len() <= 1,
{
    let mut rng = RNG::new(seed);
    let (count_lo, count_hi) = match ctx.params.count {
        Some(p) => p,
        None => (12, 24),
    };
    let count_hi = if count_hi > 128 {
        128
    } else {
        count_hi
    };
    let count_lo = if count_lo > count_hi {
        count_hi
    } else {
        count_lo
    };
    let r_ext = match ctx.params.range {
        Some(v) => {
            if v < 1 {
                1
            } else if v > 1_000_000 {
                1_000_000
            } else {
                v
            }
        },
        None => 48,
    };
    let mut count = rng.range_u(count_lo as u64, count_hi as u64 + 1);
    let mut scene = VoxelScene::new();
    let mut point_set = PointSet::new();

    let mut done = false;
    let mut attempt: u32 = 0;
    while attempt < 128 && !done
        invariant
            scene.layers@.len() <= 1,
            1 <= r_ext <= 1_000_000,
        decreases 128 - attempt,
    {
        attempt += 1;
        let w = rng.range_u(0, 100);
        let model_id: &str = if w < 10 {
            "tree1"
        } else if w < 20 {
            "tree2"
        } else {
            "pine_tree"
        };
        let sub_seed = rng.range_u(1, 8192);
        let px = rng.range(-(r_ext as i64), r_ext as i64 + 1);
        let py = rng.range(-(r_ext as i64), r_ext as i64 + 1);
        let position = IVec3::new(clamp_record(px), clamp_record(py), 0);

        let close = match point_set.nearest_distance(&position) {
            Some(d) => d < 144,
            None => false,
        };
        if !close {
            point_set.add(position);
            scene.add_object(
                0,
                Object {
                    model_id: model_id.to_owned(),
                    seed: sub_seed,
                    position,
                    params: GenParams::none(),
                },
            );
            if count > 0 {
                count = count - 1;
            }
            if count == 0 {
                done = true;
            }
        }
    }
    scene
}

/// Clamps a drawn record coordinate into the voxel coordinate range.
fn clamp_record(v: i64) -> (r: i32)
{
    if v > 0x7FFF_FFFF {
        0x7FFF_FFFF
    } else if v < -0x7FFF_FFFF {
        -0x7FFF_FFFF
    } else {
        v as i32
    }
}

} // verus!
