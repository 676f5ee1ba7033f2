use vstd::prelude::*;
use crate::ivec3::IVec3;
use crate::paint::GenParams;

verus! {

/// The magic string a persisted scene document carries.
pub const VOXEL_SCENE_FILE_IDENTIFIER: &'static str = "SNOWFALL_VOXEL_SCENE";

/// The version string a persisted scene document carries.
pub const VOXEL_SCENE_FILE_VERSION: &'static str = "0.0.1";

/// One placed-object record of a persisted scene: consumers regenerate
/// the referenced model from the same id, seed and parameters instead of
/// embedding voxel data, so the file stays small and regeneration is
/// deterministic.
#[derive(Debug)]
pub struct Object {
    pub model_id: String,
    pub seed: u64,
    pub position: IVec3,
    pub params: GenParams,
}

/// One layer of placed-object records.  Models of a ground layer are
/// treated as "the ground" other objects can be placed on.
#[derive(Debug)]
pub struct Layer {
    pub is_ground: bool,
    pub objects: Vec<Object>,
}

impl Layer {
    pub fn new() -> (r: Layer)
        ensures
            r.is_ground == false,
            r.objects@.len() == 0,
    {
        Layer { is_ground: false, objects: Vec::new() }
    }
}

/// A scene as persisted: a tree of layers of placed-object records.
#[derive(Debug)]
pub struct VoxelScene {
    pub layers: Vec<Layer>,
}

impl VoxelScene {
    pub fn new() -> (r: VoxelScene)
        ensures
            r.layers@.len() == 0,
    {
        VoxelScene { layers: Vec::new() }
    }

    /// Appends `object` to the given layer, growing the layer list as
    /// needed.
    pub fn add_object(&mut self, layer: usize, object: Object)
        requires
            layer < usize::MAX,
        ensures
            final(self).layers@.len() >= layer + 1,
            final(self).layers@.len() == (if old(self).layers@.len() >= layer + 1 {
                old(self).layers@.len()
            } else {
                (layer + 1) as nat
            }),
            final(self).layers@[layer as int].objects@.len() >= 1,
            final(self).layers@[layer as int].objects@.last() == object,
    {
        while self.layers.len() < layer + 1
            invariant
                layer < usize::MAX,
                self.layers@.len() >= old(self).layers@.len(),
                old(self).layers@.len() >= layer + 1 ==> self.layers@.len() == old(
                    self,
                ).layers@.len(),
                old(self).layers@.len() < layer + 1 ==> self.layers@.len() <= layer + 1,
                forall|i: int|
                    0 <= i < old(self).layers@.len() ==> #[trigger] self.layers@[i] == old(
                        self,
                    ).layers@[i],
            decreases layer + 1 - self.layers@.len(),
        {
            self.layers.push(Layer::new());
        }
        let mut l = self.layers.remove(layer);
        l.objects.push(object);
        self.layers.insert(layer, l);
    }
}

/// The persisted form of a scene: a magic string, a version string, and
/// the scene itself.
#[derive(Debug)]
pub struct VoxelSceneFile {
    pub identifier: String,
    pub version: String,
    pub scene: VoxelScene,
}

impl VoxelSceneFile {
    pub fn new(scene: VoxelScene) -> (r: VoxelSceneFile)
        ensures
            r.identifier@ == VOXEL_SCENE_FILE_IDENTIFIER@,
            r.version@ == VOXEL_SCENE_FILE_VERSION@,
            r.scene == scene,
    {
        VoxelSceneFile {
            identifier: VOXEL_SCENE_FILE_IDENTIFIER.to_owned(),
            version: VOXEL_SCENE_FILE_VERSION.to_owned(),
            scene,
        }
    }
}

} // verus!
