use vstd::prelude::*;
use crate::block::Block;
use crate::error::Error;
use crate::ivec3::IVec3;
use crate::mathx::cos_milli;
use crate::mathx::sin_milli;
use crate::paint::GenContext;
use crate::rng::RNG;
use crate::paint::bresenham3d;
use crate::scene2::Scene2;
use crate::voxel_set::VoxelSet;

verus! {

/// Cost of one flat orthogonal step on free ground, in the road cost
/// model's fixed-point units; the admissible heuristic charges this per
/// step of remaining Chebyshev distance.
pub const HEUR_STEP: u64 = 75000;

/// Half-extent of the square region a road search may roam.
pub const ROAD_RANGE: i32 = 300;

/// The ground height the cost model sees at a column: the height of the
/// topmost stored voxel, or 0 where the column holds no data.
pub open spec fn spec_ground(vs: VoxelSet, x: int, y: int) -> int {
    if exists|z: int| vs.vox(x, y, z) != 0 {
        choose|z: int|
            vs.vox(x, y, z) != 0 && forall|w: int| vs.vox(x, y, w) != 0 ==> w <= z
    } else {
        0
    }
}

/// The walk cost of the surface block at a column, capped so cost
/// products stay small; 0 where the column holds no data.
pub open spec fn spec_surface_cost(vs: VoxelSet, x: int, y: int) -> int {
    if exists|z: int| vs.vox(x, y, z) != 0 {
        let wc = vs.palette.blocks@[vs.vox(x, y, spec_ground(vs, x, y)) as int].walk_cost as int;
        if wc > 1_000_000 {
            1_000_000
        } else {
            wc
        }
    } else {
        0
    }
}

/// The elevation penalty tier, in hundredths: descents are discouraged
/// less than climbs, and cliffs in either direction are near-forbidden.
pub open spec fn spec_tier(dz: int) -> int {
    if dz < -8 {
        10000
    } else if dz < -4 {
        200
    } else if dz < -2 {
        150
    } else if dz < 0 {
        75
    } else if dz == 0 {
        100
    } else if dz < 2 {
        125
    } else if dz < 4 {
        150
    } else if dz < 8 {
        200
    } else if dz < 16 {
        500
    } else {
        10000
    }
}

/// The cost of one step of the road search: planar distance (diagonals
/// cost more), times the elevation tier, times a factor of the
/// destination surface's walk cost, so prior roads attract the route and
/// dense vegetation repels it.
pub open spec fn spec_step_cost(vs: VoxelSet, a: (i32, i32), b: (i32, i32)) -> int {
    let dist: int = if a.0 != b.0 && a.1 != b.1 {
        14
    } else {
        10
    };
    let dz = spec_ground(vs, b.0 as int, b.1 as int) - spec_ground(vs, a.0 as int, a.1 as int);
    dist * spec_tier(dz) * (100 + spec_surface_cost(vs, b.0 as int, b.1 as int))
}

/// Total cost of a path, summed over its steps.
pub open spec fn spec_path_cost(vs: VoxelSet, path: Seq<(i32, i32)>) -> int
    decreases path.len(),
{
    if path.len() <= 1 {
        0
    } else {
        spec_step_cost(vs, path[0], path[1]) + spec_path_cost(vs, path.drop_first())
    }
}

/// True when `b` is one 8-connected step from `a`.
pub open spec fn spec_neighbor(a: (i32, i32), b: (i32, i32)) -> bool {
    &&& -1 <= b.0 - a.0 <= 1
    &&& -1 <= b.1 - a.1 <= 1
    &&& a != b
}

/// True when `n` lies inside the road search region.
pub open spec fn spec_in_range(n: (i32, i32)) -> bool {
    -ROAD_RANGE <= n.0 <= ROAD_RANGE && -ROAD_RANGE <= n.1 <= ROAD_RANGE
}

/// A well-formed candidate route: an 8-connected node sequence from
/// `start` to `goal` that stays inside the search region.
pub open spec fn valid_road_path(path: Seq<(i32, i32)>, start: (i32, i32), goal: (i32, i32)) -> bool {
    &&& path.len() >= 1
    &&& path[0] == start
    &&& path.last() == goal
    &&& forall|i: int| 0 <= i < path.len() - 1 ==> spec_neighbor(#[trigger] path[i], path[i + 1])
    &&& forall|i: int| 0 <= i < path.len() ==> spec_in_range(#[trigger] path[i])
}

/// Chebyshev distance between two nodes.
pub open spec fn spec_cheb(a: (i32, i32), b: (i32, i32)) -> int {
    let dx = if a.0 >= b.0 {
        a.0 - b.0
    } else {
        b.0 - a.0
    };
    let dy = if a.1 >= b.1 {
        a.1 - b.1
    } else {
        b.1 - a.1
    };
    if dx >= dy {
        dx
    } else {
        dy
    }
}

/// The search heuristic: the per-step lower bound times the remaining
/// Chebyshev distance.
pub open spec fn spec_heur(n: (i32, i32), goal: (i32, i32)) -> int {
    HEUR_STEP * spec_cheb(n, goal)
}

/// Every step costs at least the heuristic's per-step charge.
pub proof fn lemma_step_cost_lower(vs: VoxelSet, a: (i32, i32), b: (i32, i32))
    ensures
        spec_step_cost(vs, a, b) >= HEUR_STEP,
{
    let dist: int = if a.0 != b.0 && a.1 != b.1 {
        14
    } else {
        10
    };
    let dz = spec_ground(vs, b.0 as int, b.1 as int) - spec_ground(vs, a.0 as int, a.1 as int);
    let tier = spec_tier(dz);
    let w = 100 + spec_surface_cost(vs, b.0 as int, b.1 as int);
    assert(tier >= 75);
    assert(w >= 100);
    assert(dist * tier * w >= 10 * 75 * 100) by (nonlinear_arith)
        requires
            dist >= 10,
            tier >= 75,
            w >= 100,
    ;
}

/// Admissibility of the road heuristic: along any 8-connected path to
/// the goal, the heuristic at the start never exceeds the path's true
/// cost, so the search cannot be misled into a suboptimal route.
pub proof fn lemma_heuristic_admissible(vs: VoxelSet, path: Seq<(i32, i32)>, goal: (i32, i32))
    requires
        path.len() >= 1,
        path.last() == goal,
        forall|i: int| 0 <= i < path.len() - 1 ==> spec_neighbor(#[trigger] path[i], path[i + 1]),
    ensures
        spec_heur(path[0], goal) <= spec_path_cost(vs, path),
    decreases path.len(),
{
    if path.len() == 1 {
        assert(spec_cheb(path[0], goal) == 0);
    } else {
        let rest = path.drop_first();
        assert(rest.last() == goal);
        assert forall|i: int|
            0 <= i < rest.len() - 1 implies spec_neighbor(#[trigger] rest[i], rest[i + 1]) by {
            assert(rest[i] == path[i + 1] && rest[i + 1] == path[i + 2]);
            assert(spec_neighbor(path[i + 1], path[i + 2]));
        }
        lemma_heuristic_admissible(vs, rest, goal);
        assert(spec_neighbor(path[0], path[1]));
        assert(spec_cheb(path[0], goal) <= spec_cheb(path[1], goal) + 1);
        lemma_step_cost_lower(vs, path[0], path[1]);
        assert(spec_heur(path[0], goal) <= HEUR_STEP + spec_heur(path[1], goal)) by (nonlinear_arith)
            requires
                spec_cheb(path[0], goal) <= spec_cheb(path[1], goal) + 1,
                spec_heur(path[0], goal) == HEUR_STEP * spec_cheb(path[0], goal),
                spec_heur(path[1], goal) == HEUR_STEP * spec_cheb(path[1], goal),
                spec_cheb(path[0], goal) >= 0,
                spec_cheb(path[1], goal) >= 0,
        ;
        assert(rest[0] == path[1]);
    }
}

/// The ground height the cost model sees at a column.
pub fn ground_height(vs: &VoxelSet, x: i32, y: i32) -> (r: i32)
    requires
        vs.wf(),
    ensures
        r as int == spec_ground(*vs, x as int, y as int),
{
    match vs.height_at(x, y) {
        Some(h) => {
            proof {
                let hh = spec_ground(*vs, x as int, y as int);
                assert(vs.vox(x as int, y as int, h as int) != 0);
                assert(exists|z: int| vs.vox(x as int, y as int, z) != 0);
                let z = choose|z: int|
                    vs.vox(x as int, y as int, z) != 0 && forall|w: int|
                        vs.vox(x as int, y as int, w) != 0 ==> w <= z;
                assert(z <= h as int && h as int <= z);
            }
            h
        },
        None => {
            proof {
                if exists|z: int| vs.vox(x as int, y as int, z) != 0 {
                    let z = choose|z: int| vs.vox(x as int, y as int, z) != 0;
                    assert(vs.vox(x as int, y as int, z) == 0);
                }
            }
            0
        },
    }
}

/// The capped walk cost of the surface block at a column.
fn surface_cost(vs: &VoxelSet, x: i32, y: i32) -> (r: u64)
    requires
        vs.wf(),
    ensures
        r as int == spec_surface_cost(*vs, x as int, y as int),
        r <= 1_000_000,
{
    match vs.height_at(x, y) {
        Some(h) => {
            proof {
                let z = choose|z: int|
                    vs.vox(x as int, y as int, z) != 0 && forall|w: int|
                        vs.vox(x as int, y as int, w) != 0 ==> w <= z;
                assert(z <= h as int && h as int <= z);
                vs.lemma_vox_in_palette(x as int, y as int, h as int);
            }
            let b = vs.get_voxel(IVec3::new(x, y, h));
            let wc = b.walk_cost as u64;
            if wc > 1_000_000 {
                1_000_000
            } else {
                wc
            }
        },
        None => {
            proof {
                if exists|z: int| vs.vox(x as int, y as int, z) != 0 {
                    let z = choose|z: int| vs.vox(x as int, y as int, z) != 0;
                    assert(vs.vox(x as int, y as int, z) == 0);
                }
            }
            0
        },
    }
}

/// The elevation penalty tier for a height delta.
fn tier(dz: i64) -> (r: u64)
    ensures
        r as int == spec_tier(dz as int),
{
    if dz < -8 {
        10000
    } else if dz < -4 {
        200
    } else if dz < -2 {
        150
    } else if dz < 0 {
        75
    } else if dz == 0 {
        100
    } else if dz < 2 {
        125
    } else if dz < 4 {
        150
    } else if dz < 8 {
        200
    } else if dz < 16 {
        500
    } else {
        10000
    }
}

/// The cost of one step of the road search.
#[verifier::rlimit(80)]
pub fn step_cost(vs: &VoxelSet, a: (i32, i32), b: (i32, i32)) -> (r: u64)
    requires
        vs.wf(),
    ensures
        r as int == spec_step_cost(*vs, a, b),
        HEUR_STEP <= r <= 14_000_000_000_000,
{
    let dist: u64 = if a.0 != b.0 && a.1 != b.1 {
        14
    } else {
        10
    };
    let ga = ground_height(vs, a.0, a.1);
    let gb = ground_height(vs, b.0, b.1);
    let dz: i64 = gb as i64 - ga as i64;
    let t = tier(dz);
    let w: u64 = 100 + surface_cost(vs, b.0, b.1);
    proof {
        assert(dist * t * w <= 14 * 10000 * 1_000_100 && dist * t * w >= 10 * 75 * 100)
            by (nonlinear_arith)
            requires
                10 <= dist <= 14,
                75 <= t <= 10000,
                100 <= w <= 1_000_100,
        ;
    }
    dist * t * w
}

/// The successors of a node: its 8-connected neighbors inside the road
/// search region, each with its step cost.
#[verifier::rlimit(80)]
pub fn road_successors(vs: &VoxelSet, n: (i32, i32)) -> (r: Vec<((i32, i32), u64)>)
    requires
        vs.wf(),
        spec_in_range(n),
    ensures
        forall|k: int|
            0 <= k < r@.len() ==> {
                let (m, c) = #[trigger] r@[k];
                &&& spec_neighbor(n, m)
                &&& spec_in_range(m)
                &&& c as int == spec_step_cost(*vs, n, m)
            },
{
    let mut out: Vec<((i32, i32), u64)> = Vec::new();
    push_move(vs, n, 1, 0, &mut out);
    push_move(vs, n, -1, 0, &mut out);
    push_move(vs, n, 0, 1, &mut out);
    push_move(vs, n, 0, -1, &mut out);
    push_move(vs, n, 1, 1, &mut out);
    push_move(vs, n, -1, 1, &mut out);
    push_move(vs, n, 1, -1, &mut out);
    push_move(vs, n, -1, -1, &mut out);
    out
}

/// Appends the neighbor one move away if it stays inside the region.
#[verifier::rlimit(80)]
fn push_move(vs: &VoxelSet, n: (i32, i32), dx: i32, dy: i32, out: &mut Vec<((i32, i32), u64)>)
    requires
        vs.wf(),
        spec_in_range(n),
        -1 <= dx <= 1,
        -1 <= dy <= 1,
        !(dx == 0 && dy == 0),
        forall|k: int|
            0 <= k < old(out)@.len() ==> {
                let (m, c) = #[trigger] old(out)@[k];
                &&& spec_neighbor(n, m)
                &&& spec_in_range(m)
                &&& c as int == spec_step_cost(*vs, n, m)
            },
    ensures
        forall|k: int|
            0 <= k < final(out)@.len() ==> {
                let (m, c) = #[trigger] final(out)@[k];
                &&& spec_neighbor(n, m)
                &&& spec_in_range(m)
                &&& c as int == spec_step_cost(*vs, n, m)
            },
{
    let mx = n.0 + dx;
    let my = n.1 + dy;
    if -ROAD_RANGE <= mx && mx <= ROAD_RANGE && -ROAD_RANGE <= my && my <= ROAD_RANGE {
        let c = step_cost(vs, n, (mx, my));
        let ghost prev = out@;
        out.push(((mx, my), c));
        proof {
            assert(forall|k: int| 0 <= k < prev.len() ==> final(out)@[k] == prev[k]);
        }
    }
}

/// The search heuristic at a node.
pub fn road_heuristic(n: (i32, i32), goal: (i32, i32)) -> (r: u64)
    requires
        spec_in_range(n),
        spec_in_range(goal),
    ensures
        r as int == spec_heur(n, goal),
{
    let dx: i64 = if n.0 >= goal.0 {
        n.0 as i64 - goal.0 as i64
    } else {
        goal.0 as i64 - n.0 as i64
    };
    let dy: i64 = if n.1 >= goal.1 {
        n.1 as i64 - goal.1 as i64
    } else {
        goal.1 as i64 - n.1 as i64
    };
    let cheb: u64 = if dx >= dy {
        dx as u64
    } else {
        dy as u64
    };
    HEUR_STEP * cheb
}

/// True when the search reached its goal node.
pub fn road_goal(n: (i32, i32), goal: (i32, i32)) -> (r: bool)
    ensures
        r == (n == goal),
{
    n.0 == goal.0 && n.1 == goal.1
}

/// Relies on pathfinding's `astar`: it returns a shortest path from the
/// start to a node satisfying the success test, together with the path's
/// total cost (the sum of the successor costs along it), with both the
/// start and the end node included; `None` exactly when no path exists.
/// The search region is finite, the successor, heuristic and goal
/// closures only call the verified functions above, and
/// `lemma_heuristic_admissible` shows the heuristic never overestimates,
/// which the crate documents as the condition for the returned cost to
/// be the lowest over all routes.
#[verifier::external_body]
fn astar_search(vs: &VoxelSet, start: (i32, i32), goal: (i32, i32)) -> (r: Option<
    (Vec<(i32, i32)>, u64),
>)
    requires
        vs.wf(),
        spec_in_range(start),
        spec_in_range(goal),
    ensures
        r matches Some(p) ==> {
            &&& valid_road_path(p.0@, start, goal)
            &&& p.1 as int == spec_path_cost(*vs, p.0@)
            &&& forall|q: Seq<(i32, i32)>|
                valid_road_path(q, start, goal) ==> p.1 as int <= spec_path_cost(*vs, q)
        },
        r is None ==> forall|q: Seq<(i32, i32)>| !valid_road_path(q, start, goal),
{
    pathfinding::prelude::astar(
        &start,
        |n: &(i32, i32)| road_successors(vs, *n),
        |n: &(i32, i32)| road_heuristic(*n, goal),
        |n: &(i32, i32)| road_goal(*n, goal),
    )
}

/// Clears the air column above a road-bed voxel, removing vegetation
/// that overlaps the road.
#[verifier::rlimit(80)]
fn carve_clear(t: &mut VoxelSet, v: IVec3)
    requires
        old(t).wf(),
        -0x2000_0010 <= v.x <= 0x2000_0010,
        -0x2000_0010 <= v.y <= 0x2000_0010,
        -0x2000_0010 <= v.z <= 0x2000_0010,
    ensures
        final(t).wf(),
        final(t).palette == old(t).palette,
{
    let mut dx: i32 = -3;
    while dx <= 3
        invariant
            t.wf(),
            t.palette == old(t).palette,
            -0x2000_0010 <= v.x <= 0x2000_0010,
            -0x2000_0010 <= v.y <= 0x2000_0010,
            -0x2000_0010 <= v.z <= 0x2000_0010,
            -3 <= dx <= 4,
        decreases 4 - dx,
    {
        let mut dy: i32 = -3;
        while dy <= 3
            invariant
                t.wf(),
                t.palette == old(t).palette,
                -0x2000_0010 <= v.x <= 0x2000_0010,
                -0x2000_0010 <= v.y <= 0x2000_0010,
                -0x2000_0010 <= v.z <= 0x2000_0010,
                -3 <= dx <= 4,
                -3 <= dy <= 4,
            decreases 4 - dy,
        {
            let mut dz: i32 = 1;
            while dz <= 12
                invariant
                    t.wf(),
                    t.palette == old(t).palette,
                    -0x2000_0010 <= v.x <= 0x2000_0010,
                    -0x2000_0010 <= v.y <= 0x2000_0010,
                    -0x2000_0010 <= v.z <= 0x2000_0010,
                    -3 <= dx <= 4,
                    -3 <= dy <= 4,
                    1 <= dz <= 13,
                decreases 13 - dz,
            {
                t.clear_voxel(IVec3::new(v.x + dx, v.y + dy, v.z + dz));
                dz += 1;
            }
            dy += 1;
        }
        dx += 1;
    }
}

/// Paints the ground surface around a road-bed voxel with road blocks.
#[verifier::rlimit(80)]
fn carve_paint(t: &mut VoxelSet, rng: &mut RNG, v: IVec3)
    requires
        old(t).wf(),
        -0x2000_0010 <= v.x <= 0x2000_0010,
        -0x2000_0010 <= v.y <= 0x2000_0010,
    ensures
        final(t).wf(),
        final(t).palette == old(t).palette,
{
    let mut dx: i32 = -3;
    while dx <= 3
        invariant
            t.wf(),
            t.palette == old(t).palette,
            -0x2000_0010 <= v.x <= 0x2000_0010,
            -0x2000_0010 <= v.y <= 0x2000_0010,
            -3 <= dx <= 4,
        decreases 4 - dx,
    {
        let mut dy: i32 = -3;
        while dy <= 3
            invariant
                t.wf(),
                t.palette == old(t).palette,
                -0x2000_0010 <= v.x <= 0x2000_0010,
                -0x2000_0010 <= v.y <= 0x2000_0010,
                -3 <= dx <= 4,
                -3 <= dy <= 4,
            decreases 4 - dy,
        {
            let gx = v.x + dx;
            let gy = v.y + dy;
            let z = ground_height(t, gx, gy);
            let block = if rng.bool() {
                "road1"
            } else {
                "road2"
            };
            t.set_voxel(IVec3::new(gx, gy, z), block);
            dy += 1;
        }
        dx += 1;
    }
}

/// Marks a wider halo around a road-bed voxel as occupied so later
/// placement passes keep off the road.
#[verifier::rlimit(80)]
fn carve_occupy(t: &mut VoxelSet, v: IVec3)
    requires
        old(t).wf(),
        -0x2000_0010 <= v.x <= 0x2000_0010,
        -0x2000_0010 <= v.y <= 0x2000_0010,
    ensures
        final(t).wf(),
{
    let mut dx: i32 = -7;
    while dx <= 7
        invariant
            t.wf(),
            -0x2000_0010 <= v.x <= 0x2000_0010,
            -0x2000_0010 <= v.y <= 0x2000_0010,
            -7 <= dx <= 8,
        decreases 8 - dx,
    {
        let mut dy: i32 = -7;
        while dy <= 7
            invariant
                t.wf(),
                -0x2000_0010 <= v.x <= 0x2000_0010,
                -0x2000_0010 <= v.y <= 0x2000_0010,
                -7 <= dx <= 8,
                -7 <= dy <= 8,
            decreases 8 - dy,
        {
            let gx = v.x + dx;
            let gy = v.y + dy;
            let z = ground_height(t, gx, gy);
            t.modify_voxel(IVec3::new(gx, gy, z), |b: Block| b.with_occupied(true));
            dy += 1;
        }
        dx += 1;
    }
}

/// Searches a cost-minimal route between two columns of the terrain,
/// inside the road search region.  On success the path is a valid
/// 8-connected route from `start` to `goal`, its cost is the sum of the
/// cost model's step costs along it, and no valid route costs less;
/// `None` exactly when no valid route exists.
pub fn find_path(vs: &VoxelSet, start: (i32, i32), goal: (i32, i32)) -> (r: Option<
    (Vec<(i32, i32)>, u64),
>)
    requires
        vs.wf(),
    ensures
        r matches Some(p) ==> {
            &&& valid_road_path(p.0@, start, goal)
            &&& p.1 as int == spec_path_cost(*vs, p.0@)
            &&& forall|q: Seq<(i32, i32)>|
                valid_road_path(q, start, goal) ==> p.1 as int <= spec_path_cost(*vs, q)
        },
        r is None ==> forall|q: Seq<(i32, i32)>| !valid_road_path(q, start, goal),
{
    if -ROAD_RANGE <= start.0 && start.0 <= ROAD_RANGE && -ROAD_RANGE <= start.1 && start.1
        <= ROAD_RANGE && -ROAD_RANGE <= goal.0 && goal.0 <= ROAD_RANGE && -ROAD_RANGE <= goal.1
        && goal.1 <= ROAD_RANGE {
        astar_search(vs, start, goal)
    } else {
        proof {
            assert forall|q: Seq<(i32, i32)>| !valid_road_path(q, start, goal) by {
                if valid_road_path(q, start, goal) {
                    assert(spec_in_range(q[0]));
                }
            }
        }
        None
    }
}

/// One road attempt: pick two endpoints on roughly opposite sides of the
/// center, search a cost-minimal route between them, thin it to posts,
/// and carve it into the terrain: clear the air above the bed, paint the
/// surface with road blocks, and mark a halo around it as occupied.
#[verifier::rlimit(80)]
pub fn road_imp(ctx: &GenContext, scene: &mut Scene2) -> (r: Result<(), Error>)
    requires
        old(scene).terrain.wf(),
    ensures
        final(scene).terrain.wf(),
        r is Err ==> forall|x: int, y: int, z: int|
            final(scene).terrain.vox(x, y, z) == old(scene).terrain.vox(x, y, z),
{
    let mut rng = ctx.make_rng();
    if scene.terrain.palette.blocks.len() >= 0xFF00 {
        return Err(Error::CorruptPayload("terrain palette is saturated".to_owned()));
    }
    scene.terrain.register_block(Block::color("road1", 25, 20, 10).with_walk_cost(150));
    scene.terrain.register_block(Block::color("road2", 20, 15, 10).with_walk_cost(150));

    // endpoints on roughly opposite sides of the center
    let start_radius = rng.range(200, 251);
    let start_ang = rng.range(0, 360);
    let end_radius = rng.range(200, 251);
    let end_ang = start_ang + 180 + rng.range(-18, 19);
    let start = (polar(start_radius, cos_milli(start_ang)), polar(start_radius, sin_milli(start_ang)));
    let goal = (polar(end_radius, cos_milli(end_ang)), polar(end_radius, sin_milli(end_ang)));

    let path = match astar_search(&scene.terrain, start, goal) {
        Some(p) => p.0,
        None => {
            return Err(Error::CorruptPayload("no route between the endpoints".to_owned()));
        },
    };
    if path.len() >= usize::MAX - 16 {
        return Err(Error::CorruptPayload("route is degenerate".to_owned()));
    }

    // thin the voxel path to sparse posts so the road reads as straight runs
    let mut posts: Vec<(i32, i32)> = Vec::new();
    let mut i: usize = 0;
    while i < path.len()
        invariant
            path@.len() < usize::MAX - 16,
            i <= path@.len() + 12,
            forall|k: int| 0 <= k < posts@.len() ==> spec_in_range(#[trigger] posts@[k]),
            forall|k: int| 0 <= k < path@.len() ==> spec_in_range(#[trigger] path@[k]),
        decreases path@.len() + 12 - i,
    {
        if i + 6 < path.len() {
            posts.push(path[i]);
        }
        i += 12;
    }
    posts.push(path[path.len() - 1]);

    // carve between consecutive posts
    let nposts = posts.len();
    let mut pi: usize = 0;
    while pi < nposts - 1
        invariant
            scene.terrain.wf(),
            nposts == posts@.len(),
            nposts >= 1,
            pi <= nposts,
            forall|k: int| 0 <= k < posts@.len() ==> spec_in_range(#[trigger] posts@[k]),
        decreases nposts - pi,
    {
        let a = posts[pi];
        let b = posts[pi + 1];
        let za = clamp_z(ground_height(&scene.terrain, a.0, a.1));
        let zb = clamp_z(ground_height(&scene.terrain, b.0, b.1));
        let line = bresenham3d(IVec3::new(a.0, a.1, za), IVec3::new(b.0, b.1, zb));
        let mut li: usize = 0;
        while li < line.len()
            invariant
                scene.terrain.wf(),
                forall|k: int|
                    0 <= k < line@.len() ==> -0x2000_0010 <= (#[trigger] line@[k]).x
                        <= 0x2000_0010 && -0x2000_0010 <= line@[k].y <= 0x2000_0010
                        && -0x2000_0010 <= line@[k].z <= 0x2000_0010,
            decreases line@.len() - li,
        {
            carve_clear(&mut scene.terrain, line[li]);
            li += 1;
        }
        let mut li: usize = 0;
        while li < line.len()
            invariant
                scene.terrain.wf(),
                forall|k: int|
                    0 <= k < line@.len() ==> -0x2000_0010 <= (#[trigger] line@[k]).x
                        <= 0x2000_0010 && -0x2000_0010 <= line@[k].y <= 0x2000_0010
                        && -0x2000_0010 <= line@[k].z <= 0x2000_0010,
            decreases line@.len() - li,
        {
            carve_paint(&mut scene.terrain, &mut rng, line[li]);
            li += 1;
        }
        let mut li: usize = 0;
        while li < line.len()
            invariant
                scene.terrain.wf(),
                forall|k: int|
                    0 <= k < line@.len() ==> -0x2000_0010 <= (#[trigger] line@[k]).x
                        <= 0x2000_0010 && -0x2000_0010 <= line@[k].y <= 0x2000_0010
                        && -0x2000_0010 <= line@[k].z <= 0x2000_0010,
            decreases line@.len() - li,
        {
            carve_occupy(&mut scene.terrain, line[li]);
            li += 1;
        }
        pi += 1;
    }
    Ok(())
}

/// One polar coordinate component: the radius scaled by a sine or
/// cosine given in thousandths.
fn polar(radius: i64, trig_milli: i64) -> (r: i32)
    requires
        0 <= radius <= 1000,
        -1000 <= trig_milli <= 1000,
    ensures
        -1000 <= r <= 1000,
        -radius <= r <= radius,
{
    proof {
        assert(-1_000_000 <= radius * trig_milli <= 1_000_000 && -radius * 1000 <= radius
            * trig_milli <= radius * 1000) by (nonlinear_arith)
            requires
                0 <= radius <= 1000,
                -1000 <= trig_milli <= 1000,
        ;
    }
    let v: i64 = (radius * trig_milli) / 1000;
    v as i32
}

/// Clamps a carve height into the range line drawing accepts.
fn clamp_z(z: i32) -> (r: i32)
    ensures
        -0x2000_0000 <= r <= 0x2000_0000,
{
    if z > 0x2000_0000 {
        0x2000_0000
    } else if z < -0x2000_0000 {
        -0x2000_0000
    } else {
        z
    }
}

/// Carves a road into the scene's terrain, retrying with fresh endpoint
/// pairs a few times; a run where no attempt finds a route leaves the
/// terrain's voxels untouched and reports so, which is acceptable for a
/// decorative feature.
pub fn road(ctx: &GenContext, scene: &mut Scene2) -> (carved: bool)
    requires
        old(scene).terrain.wf(),
    ensures
        final(scene).terrain.wf(),
        !carved ==> forall|x: int, y: int, z: int|
            final(scene).terrain.vox(x, y, z) == old(scene).terrain.vox(x, y, z),
{
    let mut rng = ctx.make_rng();
    let mut attempt: u32 = 0;
    while attempt < 4
        invariant
            scene.terrain.wf(),
            forall|x: int, y: int, z: int|
                scene.terrain.vox(x, y, z) == old(scene).terrain.vox(x, y, z),
        decreases 4 - attempt,
    {
        let seed = rng.seed8();
        let sub = ctx.fork("road", seed);
        match road_imp(&sub, scene) {
            Ok(_) => {
                return true;
            },
            Err(_) => {},
        }
        attempt += 1;
    }
    false
}

} // verus!
