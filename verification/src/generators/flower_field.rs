use vstd::prelude::*;
use crate::paint::GenContext;
use crate::paint::GenParams;
use crate::scene2::Group;
use crate::scene2::Scene2;
use crate::voxel_model::VoxelModel;
use crate::generators::DEFAULT_FUEL;
use crate::generators::generate_model_fuel;

verus! {

/// A field of flower patches: a wide placement pass whose sub-generator
/// is itself a small flower placement pass.
pub fn flower_field(ctx: &GenContext, scene: &mut Scene2) -> (r: Group)
    requires
        old(scene).terrain.wf(),
    ensures
        final(scene).terrain.wf(),
{
    flower_field_fuel(ctx, scene, DEFAULT_FUEL)
}

/// `flower_field` with an explicit recursion budget.
pub fn flower_field_fuel(ctx: &GenContext, scene: &mut Scene2, fuel: u64) -> (r: Group)
    requires
        old(scene).terrain.wf(),
    ensures
        final(scene).terrain.wf(),
    decreases fuel, 0nat,
{
    let mut rng = ctx.make_rng();
    let mut cparams = GenParams::none();
    cparams.count = Some((30, 40));
    cparams.range = Some(100);
    cparams.closest_distance2 = Some(256);
    cparams.generators = Some(vec![(10u32, "flower_cluster".to_owned())]);
    let sub = ctx.fork("cluster2", rng.seed8()).with_params(cparams);
    let mut group = Group::new();
    if fuel >= 1 {
        let g = generate_model_fuel(&sub, scene, fuel - 1);
        match g {
            VoxelModel::Group(_) => {
                group.merge(g);
            },
            _ => {},
        }
    }
    group
}

/// One flower patch: a tight placement pass of single flowers.
pub fn flower_cluster(ctx: &GenContext, scene: &mut Scene2) -> (r: Group)
    requires
        old(scene).terrain.wf(),
    ensures
        final(scene).terrain.wf(),
{
    flower_cluster_fuel(ctx, scene, DEFAULT_FUEL)
}

/// `flower_cluster` with an explicit recursion budget.
pub fn flower_cluster_fuel(ctx: &GenContext, scene: &mut Scene2, fuel: u64) -> (r: Group)
    requires
        old(scene).terrain.wf(),
    ensures
        final(scene).terrain.wf(),
    decreases fuel, 0nat,
{
    let mut rng = ctx.make_rng();
    let mut cparams = GenParams::none();
    cparams.count = Some((6, 12));
    cparams.range = Some(12);
    cparams.closest_distance2 = Some(16);
    cparams.generators = Some(vec![(10u32, "flower".to_owned())]);
    let sub = ctx.fork("cluster2", rng.seed8()).with_params(cparams);
    let mut group = Group::new();
    if fuel >= 1 {
        let g = generate_model_fuel(&sub, scene, fuel - 1);
        match g {
            VoxelModel::Group(_) => {
                group.merge(g);
            },
            _ => {},
        }
    }
    group
}

} // verus!
