use vstd::prelude::*;
use crate::ivec3::IVec3;
use crate::paint::GenContext;
use crate::paint::GenParams;
use crate::scene2::Group;
use crate::scene2::Scene2;
use crate::voxel_model::VoxelModel;
use crate::generators::DEFAULT_FUEL;
use crate::generators::generate_model_fuel;

verus! {

/// A bleak dirt landscape: dirt relief as the scene terrain, rocky
/// outcrops, two roads, and scattered clusters of bare trees.
pub fn desolate_hill(ctx: &GenContext, scene: &mut Scene2) -> (r: Group)
    requires
        old(scene).terrain.wf(),
    ensures
        final(scene).terrain.wf(),
{
    desolate_hill_fuel(ctx, scene, DEFAULT_FUEL)
}

/// `desolate_hill` with an explicit recursion budget.
pub fn desolate_hill_fuel(ctx: &GenContext, scene: &mut Scene2, fuel: u64) -> (r: Group)
    requires
        old(scene).terrain.wf(),
    ensures
        final(scene).terrain.wf(),
    decreases fuel, 0nat,
{
    let mut rng = ctx.make_rng();
    let mut params = GenParams::none();
    params.ground_type = Some("dirt".to_owned());
    let hill_ctx = ctx.fork("hill4", rng.seed8()).with_params(params);
    scene.terrain = super::hill4::hill4(&hill_ctx, scene);

    let rocks_ctx = hill_ctx.fork("rocks", rng.seed8());
    super::rocks::rocks(&rocks_ctx, scene);

    let mut i: u32 = 0;
    while i < 2
        invariant
            scene.terrain.wf(),
        decreases 2 - i,
    {
        let road_ctx = hill_ctx.fork("road", rng.seed8());
        super::road::road(&road_ctx, scene);
        i += 1;
    }

    let mut group = Group::new();
    let mut i: u32 = 0;
    while i < 32
        invariant
            scene.terrain.wf(),
        decreases 32 - i,
    {
        let seed = rng.seed8();
        let cx = rng.range(-223, 224) as i32;
        let cy = rng.range(-223, 224) as i32;
        let mut cparams = GenParams::none();
        cparams.count = Some((3, 8));
        cparams.range = Some(32);
        cparams.generators = Some(vec![(10u32, "bare_tree".to_owned())]);
        let sub = ctx.fork("cluster2", seed).with_center(IVec3::new(cx, cy, 0)).with_params(
            cparams,
        );
        if fuel >= 1 {
            let g = generate_model_fuel(&sub, scene, fuel - 1);
            match g {
                VoxelModel::Group(_) => {
                    group.merge(g);
                },
                _ => {},
            }
        }
        i += 1;
    }
    group
}

} // verus!
