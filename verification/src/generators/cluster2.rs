use vstd::prelude::*;
use crate::ivec3::IVec3;
use crate::paint::GenContext;
use crate::paint::GenParams;
use crate::point_set::PointSet;
use crate::point_set::sq_dist_2d;
use crate::point_set::lemma_sq_dist_2d_sym;
use crate::rng::weights_total;
use crate::scene2::Group;
use crate::scene2::Object;
use crate::scene2::ObjectImp;
use crate::scene2::Scene2;
use crate::voxel_model::VoxelModel;
use crate::generators::DEFAULT_FUEL;
use crate::generators::generate_model_fuel;
use crate::generators::is_known_generator;

verus! {

/// The minimum squared planar spacing a cluster pass enforces between
/// the objects it accepts.
pub open spec fn spec_min_spacing2(params: GenParams) -> int {
    match params.closest_distance2 {
        Some(v) => v as int,
        None => 144,
    }
}

/// The rejection-sampling placement pass: draw candidate positions
/// around the center, reject any too close to an accepted point or
/// standing on occupied ground, and hand each accepted position to a
/// weighted-chosen sub-generator through a forked context.  The loop
/// stops when the drawn count is satisfied or the attempt budget runs
/// out; partial results are expected.
///
/// Every pair of placed objects ends at least the minimum squared
/// planar spacing apart.
pub fn cluster2(ctx: &GenContext, scene: &mut Scene2) -> (r: Group)
    requires
        old(scene).terrain.wf(),
    ensures
        final(scene).terrain.wf(),
        forall|i: int, j: int|
            0 <= i < j < r.objects@.len() ==> sq_dist_2d(
                (#[trigger] r.objects@[i]).position,
                (#[trigger] r.objects@[j]).position,
            ) >= spec_min_spacing2(ctx.params),
        r.objects@.len() <= 128,
{
    cluster2_fuel(ctx, scene, DEFAULT_FUEL)
}

/// `cluster2` with an explicit recursion budget for nested clusters.
#[verifier::rlimit(80)]
pub fn cluster2_fuel(ctx: &GenContext, scene: &mut Scene2, fuel: u64) -> (r: Group)
    requires
        old(scene).terrain.wf(),
    ensures
        final(scene).terrain.wf(),
        forall|i: int, j: int|
            0 <= i < j < r.objects@.len() ==> sq_dist_2d(
                (#[trigger] r.objects@[i]).position,
                (#[trigger] r.objects@[j]).position,
            ) >= spec_min_spacing2(ctx.params),
        r.objects@.len() <= 128,
    decreases fuel, 0nat,
{
    let mut rng = ctx.make_rng();

    let (count_lo, count_hi) = match ctx.params.count {
        Some(p) => p,
        None => (12, 24),
    };
    let count_hi = if count_hi > 128 {
        128
    } else {
        count_hi
    };
    let count_lo = if count_lo > count_hi {
        count_hi
    } else {
        count_lo
    };
    let r_ext = match ctx.params.range {
        Some(v) => {
            if v < 1 {
                1
            } else if v > 1_000_000 {
                1_000_000
            } else {
                v
            }
        },
        None => 48,
    };
    let d2 = match ctx.params.closest_distance2 {
        Some(v) => v,
        None => 144,
    };
    let default_list: Vec<(u32, String)> = vec![
        (10u32, "tree1".to_owned()),
        (10u32, "tree2".to_owned()),
        (80u32, "pine_tree".to_owned()),
    ];
    let genlist: &Vec<(u32, String)> = match &ctx.params.generators {
        Some(l) => {
            if l.len() >= 1 && l.len() <= 0xFFFF {
                l
            } else {
                &default_list
            }
        },
        None => &default_list,
    };
    let drop_to_ground = match ctx.params.drop_to_ground {
        Some(v) => v,
        None => true,
    };

    let mut count = rng.range_u(count_lo as u64, count_hi as u64 + 1);
    let mut group = Group::new();
    let mut point_set = PointSet::new();

    let mut done = false;
    let mut attempt: u32 = 0;
    while attempt < 128 && !done
        invariant
            scene.terrain.wf(),
            genlist@.len() >= 1,
            genlist@.len() <= 0xFFFF,
            group.objects@.len() == point_set.points@.len(),
            group.objects@.len() <= attempt,
            attempt <= 128,
            forall|k: int|
                0 <= k < group.objects@.len() ==> (#[trigger] group.objects@[k]).position
                    == point_set.points@[k],
            forall|a: int, b: int|
                0 <= a < b < point_set.points@.len() ==> sq_dist_2d(
                    #[trigger] point_set.points@[a],
                    #[trigger] point_set.points@[b],
                ) >= spec_min_spacing2(ctx.params),
            spec_min_spacing2(ctx.params) == d2 as int,
            1 <= r_ext <= 1_000_000,
        decreases 128 - attempt,
    {
        attempt += 1;
        let dx = rng.range(-(r_ext as i64), r_ext as i64 + 1);
        let dy = rng.range(-(r_ext as i64), r_ext as i64 + 1);
        let px = clamp_i32(ctx.center.x as i64 + dx);
        let py = clamp_i32(ctx.center.y as i64 + dy);
        let pz = if drop_to_ground {
            match scene.terrain.height_at(px, py) {
                Some(h) => {
                    if -0x1000_0000 <= h && h <= 0x1000_0000 {
                        h + 1
                    } else {
                        1
                    }
                },
                None => 1,
            }
        } else {
            ctx.center.z
        };
        let p = IVec3::new(px, py, pz);

        // reject candidates too close to an accepted point
        let close = match point_set.nearest_distance_2d(&p) {
            Some(d) => d < d2 as i128,
            None => false,
        };
        if close {
            continue ;
        }
        // reject candidates on ground already marked occupied
        let occupied = match scene.terrain.top_block_at(px, py) {
            Some(b) => b.occupied,
            None => false,
        };
        if occupied {
            continue ;
        }

        let ghost prev_points = point_set.points@;
        let ghost prev_objects = group.objects@;
        proof {
            if point_set.points@.len() > 0 {
                assert forall|a: int|
                    0 <= a < prev_points.len() implies sq_dist_2d(
                    #[trigger] prev_points[a],
                    p,
                ) >= d2 as int by {
                    lemma_sq_dist_2d_sym(prev_points[a], p);
                }
            }
        }
        point_set.add(p);

        // choose the sub-generator by cumulative weight
        let total = weights_total(genlist);
        let name: String = if total >= 1 && total <= 0xFFFF_FFFF {
            let picked = rng.select_weighted(genlist);
            picked.clone()
        } else {
            genlist[0].1.clone()
        };
        let seed = rng.seed8();
        let sub = ctx.fork(name.as_str(), seed).with_center(p);

        let imp: ObjectImp = if fuel >= 1 && is_known_generator(name.as_str()) {
            match generate_model_fuel(&sub, scene, fuel - 1) {
                VoxelModel::VoxelSet(vs) => ObjectImp::VoxelSet(vs),
                VoxelModel::Group(g) => ObjectImp::Group(g),
                _ => ObjectImp::Empty,
            }
        } else {
            ObjectImp::Empty
        };
        group.objects.push(
            Object {
                generator_id: sub.generator,
                seed,
                params: sub.params,
                position: p,
                imp,
            },
        );
        proof {
            assert(group.objects@ == prev_objects.push(group.objects@.last()));
            assert forall|a: int, b: int|
                0 <= a < b < point_set.points@.len() implies sq_dist_2d(
                #[trigger] point_set.points@[a],
                #[trigger] point_set.points@[b],
            ) >= spec_min_spacing2(ctx.params) by {
                if b < prev_points.len() {
                    assert(point_set.points@[a] == prev_points[a]);
                    assert(point_set.points@[b] == prev_points[b]);
                } else {
                    assert(point_set.points@[b] == p);
                    assert(point_set.points@[a] == prev_points[a]);
                }
            }
        }
        if count > 0 {
            count = count - 1;
        }
        if count == 0 {
            done = true;
        }
    }
    group
}

/// Clamps a drawn world coordinate into the voxel coordinate range.
fn clamp_i32(v: i64) -> (r: i32)
{
    if v > 0x7FFF_FFFF {
        0x7FFF_FFFF
    } else if v < -0x7FFF_FFFF {
        -0x7FFF_FFFF
    } else {
        v as i32
    }
}

} // verus!
