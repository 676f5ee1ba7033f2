//! The generator pipeline: a closed dispatch table from generator ids to
//! the functions that fill a scene, plus the generators themselves.

pub mod bare_tree;
pub mod chest;
pub mod chest_and_key;
pub mod chest_cluster;
pub mod cloud;
pub mod cluster;
pub mod cluster2;
pub mod desolate_hill;
pub mod fence;
pub mod flat_ground;
pub mod flower;
pub mod flower_field;
pub mod hill2;
pub mod hill3;
pub mod hill4;
pub mod hill_with_road;
pub mod maple;
pub mod pine_tree;
pub mod road;
pub mod rocks;
pub mod small_hill;
pub mod sprite;
pub mod tree1;
pub mod tree2;
pub mod tree_cluster;
pub mod tree_hill;

use vstd::prelude::*;
use crate::paint::GenContext;
use crate::scene2::Scene2;
use crate::voxel_model::VoxelModel;

verus! {

/// Default recursion budget for nested placement passes; deeper nests
/// than the stock generator configurations use are cut off with empty
/// results.
pub const DEFAULT_FUEL: u64 = 8;

/// The generator ids the dispatch table knows.
pub open spec fn spec_known_generator(id: Seq<char>) -> bool {
    ||| id == "bare_tree"@
    ||| id == "chest"@
    ||| id == "chest_cluster"@
    ||| id == "cloud"@
    ||| id == "cloud_cluster"@
    ||| id == "cluster"@
    ||| id == "cluster2"@
    ||| id == "desolate_hill"@
    ||| id == "fence"@
    ||| id == "flat_ground"@
    ||| id == "flower"@
    ||| id == "flower_cluster"@
    ||| id == "flower_field"@
    ||| id == "hill_with_road"@
    ||| id == "hill2"@
    ||| id == "hill3"@
    ||| id == "hill4"@
    ||| id == "maple"@
    ||| id == "pine_tree"@
    ||| id == "road"@
    ||| id == "rocks"@
    ||| id == "small_hill"@
    ||| id == "tree_cluster"@
    ||| id == "tree_hill"@
    ||| id == "tree1"@
    ||| id == "tree2"@
}

/// The result variant each generator id produces, in dispatch order:
/// 0 a single voxel set, 1 a group of placed objects, 2 a scene of
/// placed-object records, 3 nothing (the generator works on the shared
/// terrain alone).
pub open spec fn spec_model_kind(id: Seq<char>) -> int {
    if id == "bare_tree"@ {
        0
    } else if id == "chest"@ {
        0
    } else if id == "chest_cluster"@ {
        1
    } else if id == "cloud"@ {
        0
    } else if id == "cloud_cluster"@ {
        1
    } else if id == "cluster"@ {
        2
    } else if id == "cluster2"@ {
        1
    } else if id == "desolate_hill"@ {
        1
    } else if id == "fence"@ {
        0
    } else if id == "flat_ground"@ {
        0
    } else if id == "flower"@ {
        0
    } else if id == "flower_cluster"@ {
        1
    } else if id == "flower_field"@ {
        1
    } else if id == "hill_with_road"@ {
        1
    } else if id == "hill2"@ {
        0
    } else if id == "hill3"@ {
        0
    } else if id == "hill4"@ {
        0
    } else if id == "maple"@ {
        1
    } else if id == "pine_tree"@ {
        0
    } else if id == "road"@ {
        3
    } else if id == "rocks"@ {
        3
    } else if id == "small_hill"@ {
        0
    } else if id == "tree_cluster"@ {
        2
    } else if id == "tree_hill"@ {
        2
    } else if id == "tree1"@ {
        0
    } else {
        0
    }
}

/// String equality by content.
fn eq_str(a: &str, b: &str) -> (r: bool)
    ensures
        r == (a@ == b@),
{
    let sa: String = a.to_owned();
    let sb: String = b.to_owned();
    sa == sb
}

/// True when the dispatch table knows the generator id.
pub fn is_known_generator(id: &str) -> (r: bool)
    ensures
        r == spec_known_generator(id@),
{
    eq_str(id, "bare_tree") || eq_str(id, "chest") || eq_str(id, "chest_cluster") || eq_str(
        id,
        "cloud",
    ) || eq_str(id, "cloud_cluster") || eq_str(id, "cluster") || eq_str(id, "cluster2") || eq_str(
        id,
        "desolate_hill",
    ) || eq_str(id, "fence") || eq_str(id, "flat_ground") || eq_str(id, "flower") || eq_str(
        id,
        "flower_cluster",
    ) || eq_str(id, "flower_field") || eq_str(id, "hill_with_road") || eq_str(id, "hill2")
        || eq_str(id, "hill3") || eq_str(id, "hill4") || eq_str(id, "maple") || eq_str(
        id,
        "pine_tree",
    ) || eq_str(id, "road") || eq_str(id, "rocks") || eq_str(id, "small_hill") || eq_str(
        id,
        "tree_cluster",
    ) || eq_str(id, "tree_hill") || eq_str(id, "tree1") || eq_str(id, "tree2")
}

/// Dispatches a generation context to the generator its id names.  An
/// unknown id signals a caller or configuration defect and is rejected
/// by contract; use [`is_known_generator`] at the boundary.
pub fn generate_model(ctx: &GenContext, scene: &mut Scene2) -> (r: VoxelModel)
    requires
        old(scene).terrain.wf(),
        spec_known_generator(ctx.generator@),
    ensures
        final(scene).terrain.wf(),
        // which variant the id maps to
        spec_model_kind(ctx.generator@) == 0 ==> r is VoxelSet,
        spec_model_kind(ctx.generator@) == 1 ==> r is Group,
        spec_model_kind(ctx.generator@) == 2 ==> r is VoxelScene,
        spec_model_kind(ctx.generator@) == 3 ==> r is Empty,
{
    generate_model_fuel(ctx, scene, DEFAULT_FUEL)
}

/// The dispatch table itself, with an explicit recursion budget shared
/// by the composite generators.
#[verifier::rlimit(100)]
#[verifier::spinoff_prover]
pub fn generate_model_fuel(ctx: &GenContext, scene: &mut Scene2, fuel: u64) -> (r: VoxelModel)
    requires
        old(scene).terrain.wf(),
        spec_known_generator(ctx.generator@),
    ensures
        final(scene).terrain.wf(),
        // which variant the id maps to
        spec_model_kind(ctx.generator@) == 0 ==> r is VoxelSet,
        spec_model_kind(ctx.generator@) == 1 ==> r is Group,
        spec_model_kind(ctx.generator@) == 2 ==> r is VoxelScene,
        spec_model_kind(ctx.generator@) == 3 ==> r is Empty,
    decreases fuel, 1nat,
{
    proof {
        reveal_strlit("bare_tree");
        reveal_strlit("chest");
        reveal_strlit("chest_cluster");
        reveal_strlit("cloud");
        reveal_strlit("cloud_cluster");
        reveal_strlit("cluster");
        reveal_strlit("cluster2");
        reveal_strlit("desolate_hill");
        reveal_strlit("fence");
        reveal_strlit("flat_ground");
        reveal_strlit("flower");
        reveal_strlit("flower_cluster");
        reveal_strlit("flower_field");
        reveal_strlit("hill_with_road");
        reveal_strlit("hill2");
        reveal_strlit("hill3");
        reveal_strlit("hill4");
        reveal_strlit("maple");
        reveal_strlit("pine_tree");
        reveal_strlit("road");
        reveal_strlit("rocks");
        reveal_strlit("small_hill");
        reveal_strlit("tree_cluster");
        reveal_strlit("tree_hill");
        reveal_strlit("tree1");
        reveal_strlit("tree2");
    }
    let id = ctx.generator.as_str();
    if eq_str(id, "bare_tree") {
        VoxelModel::VoxelSet(Box::new(bare_tree::bare_tree(ctx, scene)))
    } else if eq_str(id, "chest") {
        VoxelModel::VoxelSet(Box::new(chest::chest(ctx, scene)))
    } else if eq_str(id, "chest_cluster") {
        VoxelModel::Group(Box::new(chest_cluster::chest_cluster_fuel(ctx, scene, fuel)))
    } else if eq_str(id, "cloud") {
        VoxelModel::VoxelSet(Box::new(cloud::cloud(ctx, scene)))
    } else if eq_str(id, "cloud_cluster") {
        VoxelModel::Group(Box::new(cloud::cloud_cluster(ctx, scene)))
    } else if eq_str(id, "cluster") {
        VoxelModel::VoxelScene(Box::new(cluster::cluster(ctx.seed, ctx)))
    } else if eq_str(id, "cluster2") {
        VoxelModel::Group(Box::new(cluster2::cluster2_fuel(ctx, scene, fuel)))
    } else if eq_str(id, "desolate_hill") {
        VoxelModel::Group(Box::new(desolate_hill::desolate_hill_fuel(ctx, scene, fuel)))
    } else if eq_str(id, "fence") {
        VoxelModel::VoxelSet(Box::new(fence::fence(ctx, scene)))
    } else if eq_str(id, "flat_ground") {
        VoxelModel::VoxelSet(Box::new(flat_ground::flat_ground(ctx, scene)))
    } else if eq_str(id, "flower") {
        VoxelModel::VoxelSet(Box::new(flower::flower(ctx, scene)))
    } else if eq_str(id, "flower_cluster") {
        VoxelModel::Group(Box::new(flower_field::flower_cluster_fuel(ctx, scene, fuel)))
    } else if eq_str(id, "flower_field") {
        VoxelModel::Group(Box::new(flower_field::flower_field_fuel(ctx, scene, fuel)))
    } else if eq_str(id, "hill_with_road") {
        VoxelModel::Group(Box::new(hill_with_road::hill_with_road_fuel(ctx, scene, fuel)))
    } else if eq_str(id, "hill2") {
        VoxelModel::VoxelSet(Box::new(hill2::hill2(ctx, scene)))
    } else if eq_str(id, "hill3") {
        VoxelModel::VoxelSet(Box::new(hill3::hill3(ctx, scene)))
    } else if eq_str(id, "hill4") {
        VoxelModel::VoxelSet(Box::new(hill4::hill4(ctx, scene)))
    } else if eq_str(id, "maple") {
        VoxelModel::Group(Box::new(maple::maple(ctx, scene)))
    } else if eq_str(id, "pine_tree") {
        VoxelModel::VoxelSet(Box::new(pine_tree::pine_tree(ctx, scene)))
    } else if eq_str(id, "road") {
        road::road(ctx, scene);
        VoxelModel::Empty
    } else if eq_str(id, "rocks") {
        rocks::rocks(ctx, scene)
    } else if eq_str(id, "small_hill") {
        VoxelModel::VoxelSet(Box::new(small_hill::small_hill(ctx, scene)))
    } else if eq_str(id, "tree_cluster") {
        VoxelModel::VoxelScene(Box::new(tree_cluster::tree_cluster(ctx.seed)))
    } else if eq_str(id, "tree_hill") {
        VoxelModel::VoxelScene(Box::new(tree_hill::tree_hill(ctx.seed, scene)))
    } else if eq_str(id, "tree1") {
        VoxelModel::VoxelSet(Box::new(tree1::tree1(ctx, scene)))
    } else {
        VoxelModel::VoxelSet(Box::new(tree2::tree2(ctx, scene)))
    }
}

} // verus!
