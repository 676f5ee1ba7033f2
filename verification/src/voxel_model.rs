use vstd::prelude::*;
use crate::scene2::Group;
use crate::voxel_scene::VoxelScene;
use crate::voxel_set::VoxelSet;

verus! {

/// The tagged result of one generator invocation: nothing, a single
/// voxel set, a nested group of placed objects, or a standalone scene of
/// placed-object records.
#[derive(Debug)]
pub enum VoxelModel {
    Empty,
    VoxelSet(Box<VoxelSet>),
    VoxelScene(Box<VoxelScene>),
    Group(Box<Group>),
}

impl VoxelModel {
    /// The name of the variant, for reporting.
    pub fn type_str(&self) -> (r: &'static str)
        ensures
            match self {
                VoxelModel::Empty => r@ == "Empty"@,
                VoxelModel::VoxelSet(_) => r@ == "VoxelSet"@,
                VoxelModel::VoxelScene(_) => r@ == "VoxelScene"@,
                VoxelModel::Group(_) => r@ == "Group"@,
            },
    {
        match self {
            VoxelModel::Empty => "Empty",
            VoxelModel::VoxelSet(_) => "VoxelSet",
            VoxelModel::VoxelScene(_) => "VoxelScene",
            VoxelModel::Group(_) => "Group",
        }
    }
}

} // verus!
