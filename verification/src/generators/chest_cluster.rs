use vstd::prelude::*;
use crate::ivec3::IVec3;
use crate::mathx::cos_milli;
use crate::mathx::sin_milli;
use crate::paint::GenContext;
use crate::paint::GenParams;
use crate::scene2::Group;
use crate::scene2::Scene2;
use crate::voxel_model::VoxelModel;
use crate::generators::DEFAULT_FUEL;
use crate::generators::generate_model_fuel;

verus! {

/// A treasure glade: flat ground as the scene terrain, a dense pass of
/// chests in the middle, and a jittered ring of pines around it.
pub fn chest_cluster(ctx: &GenContext, scene: &mut Scene2) -> (r: Group)
    requires
        old(scene).terrain.wf(),
    ensures
        final(scene).terrain.wf(),
{
    chest_cluster_fuel(ctx, scene, DEFAULT_FUEL)
}

/// `chest_cluster` with an explicit recursion budget.
pub fn chest_cluster_fuel(ctx: &GenContext, scene: &mut Scene2, fuel: u64) -> (r: Group)
    requires
        old(scene).terrain.wf(),
    ensures
        final(scene).terrain.wf(),
    decreases fuel, 0nat,
{
    let mut rng = ctx.make_rng();
    let ground_ctx = ctx.fork("flat_ground", rng.seed8());
    scene.terrain = super::flat_ground::flat_ground(&ground_ctx, scene);

    let mut group = Group::new();
    let mut cparams = GenParams::none();
    cparams.count = Some((40, 50));
    cparams.range = Some(40);
    cparams.closest_distance2 = Some(144);
    cparams.generators = Some(vec![(10u32, "chest".to_owned())]);
    let sub = ctx.fork("cluster2", rng.seed8()).with_params(cparams);
    if fuel >= 1 {
        let g = generate_model_fuel(&sub, scene, fuel - 1);
        match g {
            VoxelModel::Group(_) => {
                group.merge(g);
            },
            _ => {},
        }
    }

    // a ring of pines around the glade
    let mut i: u32 = 0;
    while i < 64
        invariant
            scene.terrain.wf(),
        decreases 64 - i,
    {
        let angle = (i as i64 * 360) / 64 + rng.range(-3, 4);
        let radius = rng.range(70, 120);
        let ca = cos_milli(angle);
        let sa = sin_milli(angle);
        proof {
            assert(-120_000 <= radius * ca <= 120_000 && -120_000 <= radius * sa <= 120_000)
                by (nonlinear_arith)
                requires
                    0 <= radius <= 120,
                    -1000 <= ca <= 1000,
                    -1000 <= sa <= 1000,
            ;
        }
        let x = ((radius * ca) / 1000) as i32;
        let y = ((radius * sa) / 1000) as i32;
        let seed = rng.seed8();
        let sub = ctx.fork("pine_tree", seed).with_center(IVec3::new(x, y, 1));
        let set = super::pine_tree::pine_tree(&sub, scene);
        group.push_set(&sub, set);
        i += 1;
    }
    group
}

} // verus!
