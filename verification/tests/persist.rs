use snowfall::block::Block;
use snowfall::codec::{deserialize_voxel_set, serialize_voxel_set};
use snowfall::error::Error;
use snowfall::generators::pine_tree::pine_tree;
use snowfall::ivec3::IVec3;
use snowfall::paint::GenContext;
use snowfall::scene2::Scene2;
use snowfall::voxel_set::VoxelSet;

fn sample_set() -> VoxelSet {
    let mut model = VoxelSet::new();
    model.register_block(Block::color("grass", 0, 180, 0));
    let mut stone = Block::color("stone", 90, 90, 90);
    stone.occupied = true;
    model.register_block(stone);
    model.set_voxel(IVec3::new(0, 0, 1), "grass");
    model.set_voxel(IVec3::new(-5, 3, 2), "stone");
    model.set_voxel(IVec3::new(7, -2, -4), "grass");
    model
}

#[test]
fn voxel_set_file_round_trip() {
    let model = sample_set();
    let bytes = serialize_voxel_set(&model);
    let restored = deserialize_voxel_set(&bytes).expect("a freshly written file loads");
    assert_eq!(restored.get_voxel(IVec3::new(0, 0, 1)).id, "grass");
    assert_eq!(restored.get_voxel(IVec3::new(-5, 3, 2)).id, "stone");
    assert!(restored.get_voxel(IVec3::new(-5, 3, 2)).occupied);
    assert_eq!(restored.get_voxel(IVec3::new(7, -2, -4)).id, "grass");
    assert_eq!(restored.get_voxel(IVec3::new(1, 1, 1)).id, "empty");
    assert_eq!(restored.height_at(-5, 3), Some(2));
    // and the restored container serializes to the very same bytes
    assert_eq!(serialize_voxel_set(&restored), bytes);
}

// file versioning: wrong magic and wrong version are distinct, named errors
#[test]
fn wrong_magic_is_a_header_error() {
    let model = sample_set();
    let mut bytes = serialize_voxel_set(&model);
    bytes[0] = b'X';
    match deserialize_voxel_set(&bytes) {
        Err(Error::FileHeader(_)) => {}
        other => panic!("expected a header error, got {other:?}"),
    }
}

#[test]
fn wrong_version_is_a_version_error() {
    let model = sample_set();
    let mut bytes = serialize_voxel_set(&model);
    bytes[10] = 9;
    match deserialize_voxel_set(&bytes) {
        Err(Error::FileVersion(_)) => {}
        other => panic!("expected a version error, got {other:?}"),
    }
}

#[test]
fn truncated_file_is_rejected() {
    match deserialize_voxel_set(&vec![83, 78, 86]) {
        Err(Error::FileHeader(_)) => {}
        other => panic!("expected a header error, got {other:?}"),
    }
}

#[test]
fn corrupt_payload_is_rejected() {
    let model = sample_set();
    let bytes = serialize_voxel_set(&model);
    let mut clipped = bytes.clone();
    clipped.truncate(14);
    match deserialize_voxel_set(&clipped) {
        Err(Error::CorruptPayload(_)) => {}
        other => panic!("expected a payload error, got {other:?}"),
    }
}

// scenario: the same seed regenerates a byte-identical pine tree
#[test]
fn pine_tree_seed_42_is_reproducible() {
    let scene = Scene2::new();
    let ctx1 = GenContext::new("pine_tree", 42);
    let model1 = pine_tree(&ctx1, &scene);
    let ctx2 = GenContext::new("pine_tree", 42);
    let model2 = pine_tree(&ctx2, &scene);
    let bytes1 = serialize_voxel_set(&model1);
    let bytes2 = serialize_voxel_set(&model2);
    assert_eq!(bytes1, bytes2);
    // a different seed gives a different model
    let ctx3 = GenContext::new("pine_tree", 43);
    let model3 = pine_tree(&ctx3, &scene);
    assert_ne!(serialize_voxel_set(&model3), bytes1);
}

#[test]
fn error_descriptions_name_the_condition() {
    let e = Error::FileHeader("bad".to_owned());
    assert!(e.describe().contains("header"));
    let e = Error::UnknownGenerator("volcano".to_owned());
    assert!(e.describe().contains("unknown generator"));
}
