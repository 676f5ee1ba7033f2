use snowfall::generators::chest_and_key::chest_and_key;
use snowfall::generators::cluster2::cluster2;
use snowfall::generators::generate_model;
use snowfall::generators::is_known_generator;
use snowfall::generators::pine_tree::pine_tree;
use snowfall::generators::road::find_path;
use snowfall::generators::sprite::sprite_to_voxels;
use snowfall::block::Block;
use snowfall::ivec3::IVec3;
use snowfall::paint::{bresenham3d, GenContext};
use snowfall::point_set::PointSet;
use snowfall::rng::RNG;
use snowfall::scene2::Scene2;
use snowfall::voxel_model::VoxelModel;

// determinism: identical seeds give identical sequences, and forks taken
// at the same point give identical children
#[test]
fn rng_determinism_same_seed() {
    let mut a = RNG::new(12345);
    let mut b = RNG::new(12345);
    for _ in 0..32 {
        assert_eq!(a.gen_u64(), b.gen_u64());
        assert_eq!(a.bool(), b.bool());
        assert_eq!(a.range_u(5, 500), b.range_u(5, 500));
        assert_eq!(a.range(-40, 77), b.range(-40, 77));
        assert_eq!(a.d20(), b.d20());
    }
    let fa = a.fork();
    let fb = b.fork();
    assert_eq!(fa.seed(), fb.seed());
    // the child is independent of draws taken after the fork
    let _ = a.gen_u64();
    let mut ca = fa;
    let mut cb = fb;
    for _ in 0..8 {
        assert_eq!(ca.range_u(0, 1000), cb.range_u(0, 1000));
    }
}

#[test]
fn rng_ranges_stay_in_bounds() {
    let mut r = RNG::new(7);
    for _ in 0..200 {
        let v = r.range_u(10, 20);
        assert!((10..20).contains(&v));
        let w = r.range(-5, 5);
        assert!((-5..5).contains(&w));
        let d = r.d6();
        assert!((1..=6).contains(&d));
        let s = r.seed8();
        assert!((1..8192).contains(&s));
        let sign = r.sign();
        assert!(sign == 1 || sign == -1);
    }
}

#[test]
fn rng_select_n_is_distinct() {
    let mut r = RNG::new(99);
    let picked = r.select_n(5, 10);
    assert_eq!(picked.len(), 5);
    for i in 0..picked.len() {
        assert!(picked[i] < 10);
        for j in 0..i {
            assert_ne!(picked[i], picked[j]);
        }
    }
    let all = r.select_n(50, 10);
    assert_eq!(all.len(), 10);
}

#[test]
fn rng_select_weighted_respects_certainty() {
    let mut r = RNG::new(4);
    let v: Vec<(u32, &str)> = vec![(0, "never"), (10, "always"), (0, "nor")];
    for _ in 0..32 {
        assert_eq!(*r.select_weighted(&v), "always");
    }
}

#[test]
fn point_set_reports_nearest() {
    let mut ps = PointSet::new();
    assert!(ps.nearest_distance_2d(&IVec3::new(0, 0, 0)).is_none());
    ps.add(IVec3::new(3, 4, 0));
    ps.add(IVec3::new(10, 0, 0));
    // squared planar distance to the closer point
    assert_eq!(ps.nearest_distance_2d(&IVec3::new(0, 0, 0)), Some(25));
    assert_eq!(ps.nearest(&IVec3::new(9, 0, 0)), Some(IVec3::new(10, 0, 0)));
}

// placement spacing: every accepted pair is at least the minimum apart
#[test]
fn cluster_placement_respects_spacing() {
    let mut scene = Scene2::new();
    let ctx = GenContext::new("cluster2", 42);
    let group = cluster2(&ctx, &mut scene);
    assert!(group.objects.len() > 1, "the pass should place something");
    for i in 0..group.objects.len() {
        for j in 0..i {
            let a = group.objects[i].position;
            let b = group.objects[j].position;
            let dx = (a.x - b.x) as i64;
            let dy = (a.y - b.y) as i64;
            assert!(dx * dx + dy * dy >= 144, "pair {i},{j} too close");
        }
    }
}

#[test]
fn bresenham_line_is_connected() {
    let p = IVec3::new(0, 0, 0);
    let q = IVec3::new(5, 6, 7);
    let line = bresenham3d(p, q);
    assert_eq!(line[0], p);
    assert_eq!(*line.last().unwrap(), q);
    assert_eq!(line.len(), 8);
    for w in line.windows(2) {
        assert!((w[1].x - w[0].x).abs() <= 1);
        assert!((w[1].y - w[0].y).abs() <= 1);
        assert!((w[1].z - w[0].z).abs() <= 1);
    }
}

// path admissibility check: on flat unobstructed ground the found cost
// equals the known-optimal straight 5-step orthogonal route
#[test]
fn road_search_on_flat_ground_is_straight() {
    let mut terrain = snowfall::voxel_set::VoxelSet::new();
    terrain.register_block(Block::color("grass", 0, 180, 0));
    for x in -6..=11 {
        for y in -6..=6 {
            terrain.set_voxel(IVec3::new(x, y, 1), "grass");
        }
    }
    let (path, cost) = find_path(&terrain, (0, 0), (5, 0)).expect("the goal is reachable");
    assert_eq!(path.len(), 6, "a straight 5-step orthogonal path");
    assert_eq!(path[0], (0, 0));
    assert_eq!(*path.last().unwrap(), (5, 0));
    // 5 flat orthogonal steps on grass: 10 * 100 * (100 + 1000) each
    assert_eq!(cost, 5 * 1_100_000);
}

#[test]
fn dispatch_knows_its_generators() {
    assert!(is_known_generator("pine_tree"));
    assert!(is_known_generator("hill_with_road"));
    assert!(!is_known_generator("volcano"));
}

#[test]
fn dispatch_runs_a_leaf_generator() {
    let mut scene = Scene2::new();
    let ctx = GenContext::new("flower", 7);
    match generate_model(&ctx, &mut scene) {
        VoxelModel::VoxelSet(vs) => {
            assert_eq!(vs.get_voxel(IVec3::new(0, 0, 0)).id, "green");
        }
        _ => panic!("a flower is a single voxel set"),
    }
}

#[test]
fn pine_tree_has_a_trunk() {
    let scene = Scene2::new();
    let ctx = GenContext::new("pine_tree", 42);
    let model = pine_tree(&ctx, &scene);
    assert!(!model.is_empty(IVec3::new(0, 0, 0)));
    assert!(model.get_voxel(IVec3::new(0, 0, 0)).id.starts_with("wood"));
}

#[test]
fn noise_field_is_deterministic_and_bounded() {
    let mut r1 = RNG::new(5);
    let mut r2 = RNG::new(5);
    let n1 = r1.noise_field().scale_milli(8000).build();
    let n2 = r2.noise_field().scale_milli(8000).build();
    for x in -20..20 {
        let a = n1.gen_2d(x, 3);
        assert!(a < 4096);
        assert_eq!(a, n2.gen_2d(x, 3));
        let b = n1.gen_3d(x, 3, -x);
        assert!(b < 4096);
        assert_eq!(b, n2.gen_3d(x, 3, -x));
    }
    // neighboring samples of a coarse field stay close (coherence)
    let coarse = r1.noise_field().scale_milli(64000).build();
    for x in 0..32 {
        let a = coarse.gen_2d(x, 0) as i64;
        let b = coarse.gen_2d(x + 1, 0) as i64;
        assert!((a - b).abs() < 1024);
    }
}

#[test]
fn sprite_sheet_places_opaque_pixels() {
    // a 2x2 sprite with one transparent corner
    let pixels = vec![
        (255, 0, 0, 255),
        (0, 255, 0, 255),
        (0, 0, 255, 255),
        (9, 9, 9, 0),
    ];
    let ctx = GenContext::new("sprite", 0);
    let set = sprite_to_voxels(&ctx, &pixels, 2, 2, 10);
    assert_eq!(set.voxel_iter(false).len(), 3);
}

#[test]
fn chest_and_key_builds_a_scene() {
    let pixels = vec![(200, 180, 40, 255), (0, 0, 0, 0), (200, 180, 40, 255), (200, 180, 40, 255)];
    let mut scene = Scene2::new();
    let ctx = GenContext::new("chest_and_key", 11);
    let group = chest_and_key(&ctx, &mut scene, &pixels, 2, 2);
    assert!(group.objects.len() >= 1);
    // the ground pass rebuilt the terrain
    assert!(scene.terrain.height_at(0, 0).is_some());
}
