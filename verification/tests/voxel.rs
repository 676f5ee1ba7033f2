use snowfall::block::{Block, BlockShader};
use snowfall::chunk::{chunk_coords, Chunk};
use snowfall::ivec3::IVec3;
use snowfall::vs_vec3::VSVec3;
use snowfall::ibox3::IBox3;
use snowfall::voxel_grid::{VoxelGrid, VoxelGridGenerator};
use snowfall::voxel_palette::VoxelPalette;
use snowfall::voxel_set::VoxelSet;

#[test]
fn test_ibox3_new() {
    let ibox = IBox3::new();
    assert_eq!(ibox.min, IVec3::new(i32::MAX, i32::MAX, i32::MAX));
    assert_eq!(ibox.max, IVec3::new(i32::MIN, i32::MIN, i32::MIN));
}

#[test]
fn test_voxel_set_new() {
    let mut model = VoxelSet::new();
    let index = model.register_block(Block::color("test", 255, 0, 0));

    model.set(IVec3::new(0, 0, 0), index);
    model.set_voxel(IVec3::new(0, 0, 1), "test");

    assert_eq!(model.get_voxel(IVec3::new(0, 0, 0)).id, "test");
    assert_eq!(model.get_voxel(IVec3::new(0, 0, 1)).id, "test");
    assert_eq!(model.get_voxel(IVec3::new(0, 0, 2)).id, "empty");
}

#[test]
fn test_vsvec3() {
    let v = VSVec3::new(1, 2, 3);
    assert_eq!(v.x, 1);
    assert_eq!(v.y, 2);
    assert_eq!(v.z, 3);

    let v: VSVec3 = (1, 2, 3).into();
    assert_eq!(v.x, 1);
    assert_eq!(v.y, 2);
    assert_eq!(v.z, 3);
}

// palette dedup: equivalent blocks with different ids resolve to one index
#[test]
fn palette_dedup_equivalent_blocks() {
    let mut palette = VoxelPalette::new();
    let b1 = Block::color("oak", 10, 20, 30);
    let b2 = Block::color("birch", 10, 20, 30);
    assert!(b1.is_equivalent(&b2));
    let i1 = palette.ensure(b1);
    let i2 = palette.ensure(b2);
    assert_eq!(i1, i2);
    assert_eq!(palette.blocks.len(), 2);
}

#[test]
fn palette_register_replaces_by_id() {
    let mut palette = VoxelPalette::new();
    let i1 = palette.register(Block::color("oak", 1, 2, 3));
    let i2 = palette.register(Block::color("oak", 9, 9, 9));
    assert_eq!(i1, i2);
    match palette.get(i2).unwrap().shader {
        BlockShader::RGB(c) => assert_eq!((c.r, c.g, c.b), (9, 9, 9)),
        _ => panic!("expected a colored block"),
    }
}

// column emptiness: unwritten positions read empty; set then clear reads empty
#[test]
fn column_emptiness_round_trip() {
    let mut model = VoxelSet::new();
    assert_eq!(model.height_at(4, 7), None);
    assert!(model.is_empty(IVec3::new(4, 7, 0)));

    model.register_block(Block::color("grass", 0, 200, 0));
    let p = IVec3::new(4, 7, 3);
    model.set_voxel(p, "grass");
    assert!(!model.is_empty(p));
    assert_eq!(model.height_at(4, 7), Some(3));

    model.clear_voxel(p);
    assert!(model.is_empty(p));
    assert_eq!(model.height_at(4, 7), None);
}

#[test]
fn height_at_reports_topmost() {
    let mut model = VoxelSet::new();
    model.register_block(Block::color("grass", 0, 200, 0));
    model.set_voxel(IVec3::new(0, 0, 2), "grass");
    model.set_voxel(IVec3::new(0, 0, 9), "grass");
    model.set_voxel(IVec3::new(0, 0, 5), "grass");
    assert_eq!(model.height_at(0, 0), Some(9));
    let top = model.top_block_at(0, 0).unwrap();
    assert_eq!(top.id, "grass");
}

#[test]
fn bounds_covers_voxels() {
    let mut model = VoxelSet::new();
    model.register_block(Block::color("grass", 0, 200, 0));
    model.set_voxel(IVec3::new(-2, 1, 3), "grass");
    model.set_voxel(IVec3::new(5, -4, 0), "grass");
    let b = model.bounds();
    assert!(b.min.x <= -2 && b.max.x >= 5);
    assert!(b.min.y <= -4 && b.max.y >= 1);
    assert!(b.min.z <= 0 && b.max.z >= 3);
}

#[test]
fn modify_voxel_dedups_variants() {
    let mut model = VoxelSet::new();
    model.register_block(Block::color("grass", 0, 200, 0));
    let p = IVec3::new(1, 1, 1);
    model.set_voxel(p, "grass");
    let before = model.palette.blocks.len();
    model.modify_voxel(p, |b: Block| b.with_occupied(true));
    assert!(model.get_voxel(p).occupied);
    let after_first = model.palette.blocks.len();
    assert_eq!(after_first, before + 1);
    // a second identical edit reuses the deduplicated variant
    model.modify_voxel(p, |b: Block| b.with_occupied(true));
    assert_eq!(model.palette.blocks.len(), after_first);
}

// chunk round trip within a session, and the empty-chunk collapse
#[test]
fn chunk_round_trip_in_session() {
    let mut chunk = Chunk::Empty;
    assert!(chunk.is_empty((3, 4, 5)));
    chunk.set((3, 4, 5), 7);
    assert_eq!(chunk.get((3, 4, 5)), 7);
    assert!(!chunk.is_empty((3, 4, 5)));
    assert!(chunk.is_empty((3, 4, 6)));
    match chunk {
        Chunk::Full(_) => {}
        _ => panic!("a written chunk is promoted to the dense form"),
    }
}

#[test]
fn chunk_coords_splits_negative_coordinates() {
    let (outer, inner) = chunk_coords(IVec3::new(-1, -9, -17));
    assert_eq!((outer.x, outer.y, outer.z), (-1, -2, -2));
    assert_eq!(inner, (7, 7, 15));
}

struct AlwaysEmpty;

impl VoxelGridGenerator for AlwaysEmpty {
    fn generate(&self, _world_position: IVec3) -> String {
        "empty".to_owned()
    }
}

struct SolidBelowZero;

impl VoxelGridGenerator for SolidBelowZero {
    fn generate(&self, world_position: IVec3) -> String {
        if world_position.z < 0 {
            "stone".to_owned()
        } else {
            "empty".to_owned()
        }
    }
}

#[test]
fn generated_empty_chunk_collapses() {
    let mut grid = VoxelGrid::new();
    grid.ensure_chunk_generated(&AlwaysEmpty, IVec3::new(0, 0, 4));
    assert_eq!(grid.chunks.len(), 1);
    match grid.chunks[0].chunk {
        Chunk::Empty => {}
        _ => panic!("an all-empty generated chunk collapses to the empty representation"),
    }
}

#[test]
fn generated_solid_chunk_stays_dense() {
    let mut grid = VoxelGrid::new();
    grid.register_block(Block::color("stone", 90, 90, 90));
    grid.ensure_chunk_generated(&SolidBelowZero, IVec3::new(0, 0, -1));
    assert_eq!(grid.chunks.len(), 1);
    match grid.chunks[0].chunk {
        Chunk::Full(_) => {}
        _ => panic!("a generated chunk with contents keeps its dense form"),
    }
    assert_eq!(grid.get(IVec3::new(0, 0, -1)).unwrap().id, "stone");
    assert!(grid.is_empty(IVec3::new(0, 0, 55)));
}

#[test]
fn grid_set_get_round_trip() {
    let mut grid = VoxelGrid::new();
    grid.register_block(Block::color("stone", 90, 90, 90));
    grid.set(IVec3::new(-3, 10, 22), "stone");
    assert_eq!(grid.get(IVec3::new(-3, 10, 22)).unwrap().id, "stone");
    assert!(grid.is_empty(IVec3::new(-3, 10, 23)));
    assert!(!grid.is_empty(IVec3::new(-3, 10, 22)));
}

#[test]
fn block_variants_encode_their_changes() {
    let base = Block::color("oak", 10, 20, 30);
    let occupied = base.with_occupied(true);
    assert_ne!(occupied.id, base.id);
    assert!(occupied.occupied);
    let same = base.with_occupied(false);
    assert_eq!(same.id, base.id);
    let recolored = base.with_color(1, 2, 3);
    assert_ne!(recolored.id, base.id);
    let cheap = base.with_walk_cost(150);
    assert_eq!(cheap.id, base.id);
    assert_eq!(cheap.walk_cost, 150);
}
