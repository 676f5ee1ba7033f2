use vstd::prelude::*;
use crate::ivec3::IVec3;
use crate::paint::GenParams;
use crate::point_set::PointSet;
use crate::rng::RNG;
use crate::voxel_scene::Object;
use crate::voxel_scene::VoxelScene;

verus! {

/// A scene of tree placement records: positions drawn around the origin
/// and thinned by a minimum spacing, each carrying a weighted-chosen
/// tree kind and a fresh narrow seed for later regeneration.
pub fn tree_cluster(seed: u64) -> (r: VoxelScene)
    ensures
        r.layers@.len() <= 1,
{
    let mut rng = RNG::new(seed);
    let mut count = rng.range(12, 25);
    let mut scene = VoxelScene::new();
    let mut point_set = PointSet::new();

    let mut done = false;
    let mut attempt: u32 = 0;
    while attempt < 128 && !done
        invariant
            scene.layers@.len() <= 1,
            0 <= count,
        decreases 128 - attempt,
    {
        attempt += 1;
        let w = rng.range_u(0, 100);
        let model_id: &str = if w < 10 {
            "tree1"
        } else if w < 20 {
            "tree2"
        } else {
            "pine_tree"
        };
        let sub_seed = rng.range_u(1, 8192);
        let px = rng.range(-48, 49) as i32;
        let py = rng.range(-48, 49) as i32;
        let position = IVec3::new(px, py, 0);

        let close = match point_set.nearest_distance(&position) {
            Some(d) => d < 144,
            None => false,
        };
        if !close {
            point_set.add(position);
            scene.add_object(
                0,
                Object {
                    model_id: model_id.to_owned(),
                    seed: sub_seed,
                    position,
                    params: GenParams::none(),
                },
            );
            if count > 0 {
                count = count - 1;
            }
            if count == 0 {
                done = true;
            }
        }
    }
    scene
}

} // verus!
