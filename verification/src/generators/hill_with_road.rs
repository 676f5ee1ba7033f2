use vstd::prelude::*;
use crate::paint::GenContext;
use crate::paint::GenParams;
use crate::scene2::Group;
use crate::scene2::Scene2;
use crate::voxel_model::VoxelModel;
use crate::generators::DEFAULT_FUEL;
use crate::generators::generate_model_fuel;

verus! {

/// The flagship terrain pass: grassy relief as the scene terrain, four
/// roads carved through it, then four broad placement passes scattering
/// vegetation everywhere the roads left free.
pub fn hill_with_road(ctx: &GenContext, scene: &mut Scene2) -> (r: Group)
    requires
        old(scene).terrain.wf(),
    ensures
        final(scene).terrain.wf(),
{
    hill_with_road_fuel(ctx, scene, DEFAULT_FUEL)
}

/// `hill_with_road` with an explicit recursion budget.
pub fn hill_with_road_fuel(ctx: &GenContext, scene: &mut Scene2, fuel: u64) -> (r: Group)
    requires
        old(scene).terrain.wf(),
    ensures
        final(scene).terrain.wf(),
    decreases fuel, 0nat,
{
    let mut rng = ctx.make_rng();
    let hill_ctx = ctx.fork("hill", rng.seed8());
    scene.terrain = super::hill4::hill4(&hill_ctx, scene);

    let mut i: u32 = 0;
    while i < 4
        invariant
            scene.terrain.wf(),
        decreases 4 - i,
    {
        let road_ctx = ctx.fork("road", rng.seed8());
        super::road::road(&road_ctx, scene);
        i += 1;
    }

    let mut group = Group::new();
    let mut i: u32 = 0;
    while i < 4
        invariant
            scene.terrain.wf(),
        decreases 4 - i,
    {
        let seed = rng.seed8();
        let mut cparams = GenParams::none();
        cparams.count = Some((320, 400));
        cparams.range = Some(248);
        let sub = ctx.fork("cluster2", seed).with_params(cparams);
        if fuel >= 1 {
            let g = generate_model_fuel(&sub, scene, fuel - 1);
            match g {
                VoxelModel::Group(_) => {
                    group.merge(g);
                },
                _ => {},
            }
        }
        i += 1;
    }
    group
}

} // verus!
