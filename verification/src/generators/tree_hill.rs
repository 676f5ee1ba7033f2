use vstd::prelude::*;
use crate::ivec3::IVec3;
use crate::paint::GenContext;
use crate::paint::GenParams;
use crate::rng::RNG;
use crate::scene2::Scene2;
use crate::voxel_scene::Object;
use crate::voxel_scene::VoxelScene;

verus! {

/// A hill with trees: a hill record plus one record per tree of a
/// placement pass, each tree snapped to the freshly generated hill's
/// surface.
pub fn tree_hill(seed: u64, scene: &Scene2) -> (r: VoxelScene)
    requires
        scene.terrain.wf(),
    ensures
        r.layers@.len() <= 2,
{
    let mut rng = RNG::new(seed);
    let hill_seed = rng.range_u(1, 8192);
    let tree_cluster_seed = rng.range_u(1, 8192);

    let ctx = GenContext::new("small_hill", hill_seed);
    let hill = super::small_hill::small_hill(&ctx, scene);
    let mut out = VoxelScene::new();
    out.add_object(
        0,
        Object {
            model_id: "small_hill".to_owned(),
            seed: hill_seed,
            position: IVec3::new(0, 0, 0),
            params: GenParams::none(),
        },
    );

    let records = super::tree_cluster::tree_cluster(tree_cluster_seed);
    if records.layers.len() >= 1 {
        let layer = &records.layers[0];
        let n = layer.objects.len();
        let mut i: usize = 0;
        while i < n
            invariant
                hill.wf(),
                records.layers@.len() >= 1,
                layer == &records.layers@[0],
                n == layer.objects@.len(),
                i <= n,
                out.layers@.len() <= 2,
            decreases n - i,
        {
            let o = &layer.objects[i];
            let z = match hill.height_at(o.position.x, o.position.y) {
                Some(h) => {
                    if -0x1000_0000 <= h && h <= 0x1000_0000 {
                        h + 1
                    } else {
                        1
                    }
                },
                None => 1,
            };
            out.add_object(
                1,
                Object {
                    model_id: o.model_id.clone(),
                    seed: o.seed,
                    position: IVec3::new(o.position.x, o.position.y, z),
                    params: GenParams::none(),
                },
            );
            i += 1;
        }
    }
    out
}

} // verus!
