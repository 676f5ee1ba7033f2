use vstd::prelude::*;
use crate::ivec3::IVec3;
use crate::paint::GenContext;
use crate::paint::GenParams;
use crate::voxel_model::VoxelModel;
use crate::voxel_set::VoxelSet;

verus! {

/// The scene a generation pass assembles: a mutable shared terrain
/// container every sub-generator may read and write, plus a tree of
/// placed objects.  Ordering is enforced purely by call sequence: the
/// terrain pass completes before any placement pass begins.
#[derive(Debug)]
pub struct Scene2 {
    pub terrain: VoxelSet,
    pub root: Object,
}

impl Scene2 {
    pub fn new() -> (r: Scene2)
        ensures
            r.terrain.wf(),
            forall|x: int, y: int, z: int| r.terrain.vox(x, y, z) == 0,
            r.root.generator_id@ == Seq::<char>::empty(),
            r.root.seed == 0,
            r.root.imp is Empty,
    {
        proof {
            reveal_strlit("");
        }
        Scene2 {
            terrain: VoxelSet::new(),
            root: Object {
                generator_id: "".to_owned(),
                seed: 0,
                params: GenParams::none(),
                position: IVec3::new(0, 0, 0),
                imp: ObjectImp::Empty,
            },
        }
    }
}

/// One placed object of the scene tree: how it was generated (identity,
/// seed, parameters), where it stands, and its payload.
#[derive(Debug)]
pub struct Object {
    pub generator_id: String,
    pub seed: u64,
    pub params: GenParams,
    pub position: IVec3,
    pub imp: ObjectImp,
}

/// The payload of a placed object.  `Stub` is the placeholder of a record
/// not yet realized; `Actor` is the forward-looking hook for stateful
/// per-tick behavior, which the verified core only carries, never runs.
#[derive(Debug)]
pub enum ObjectImp {
    Empty,
    Stub,
    Actor,
    VoxelSet(Box<VoxelSet>),
    Group(Box<Group>),
}

impl ObjectImp {
    /// The name of the variant, for reporting.
    pub fn type_str(&self) -> (r: &'static str)
        ensures
            match self {
                ObjectImp::Empty => r@ == "Empty"@,
                ObjectImp::Stub => r@ == "Stub"@,
                ObjectImp::Actor => r@ == "Actor"@,
                ObjectImp::VoxelSet(_) => r@ == "VoxelSet"@,
                ObjectImp::Group(_) => r@ == "Group"@,
            },
    {
        match self {
            ObjectImp::Empty => "Empty",
            ObjectImp::Stub => "Stub",
            ObjectImp::Actor => "Actor",
            ObjectImp::VoxelSet(_) => "VoxelSet",
            ObjectImp::Group(_) => "Group",
        }
    }
}

/// A pure composition node: a list of placed objects.
#[derive(Debug)]
pub struct Group {
    pub objects: Vec<Object>,
}

impl Group {
    pub fn new() -> (r: Group)
        ensures
            r.objects@.len() == 0,
    {
        Group { objects: Vec::new() }
    }

    /// Places a finished voxel set under this group, recording the
    /// context that generated it.
    pub fn push_set(&mut self, ctx: &GenContext, set: VoxelSet)
        ensures
            final(self).objects@.len() == old(self).objects@.len() + 1,
            forall|i: int|
                0 <= i < old(self).objects@.len() ==> final(self).objects@[i] == old(
                    self,
                ).objects@[i],
            final(self).objects@.last().generator_id@ == ctx.generator@,
            final(self).objects@.last().seed == ctx.seed,
            final(self).objects@.last().position == ctx.center,
            final(self).objects@.last().imp is VoxelSet,
    {
        self.objects.push(
            Object {
                generator_id: ctx.generator.clone(),
                seed: ctx.seed,
                params: ctx.params.clone(),
                position: ctx.center,
                imp: ObjectImp::VoxelSet(Box::new(set)),
            },
        );
    }

    /// Adopts every object of a generated group.  A model of any other
    /// variant signals a generator defect and is rejected by contract.
    pub fn merge(&mut self, model: VoxelModel)
        requires
            model is Group,
        ensures
            final(self).objects@.len() >= old(self).objects@.len(),
            forall|i: int|
                0 <= i < old(self).objects@.len() ==> final(self).objects@[i] == old(
                    self,
                ).objects@[i],
    {
        match model {
            VoxelModel::Group(g) => {
                let mut incoming = g;
                let n = incoming.objects.len();
                let ghost base = self.objects@;
                let mut i: usize = 0;
                while i < n
                    invariant
                        i <= n,
                        incoming.objects@.len() == n - i,
                        self.objects@.len() == base.len() + i,
                        forall|j: int| 0 <= j < base.len() ==> self.objects@[j] == base[j],
                    decreases n - i,
                {
                    let obj = incoming.objects.remove(0);
                    self.objects.push(obj);
                    i += 1;
                }
            },
            _ => {},
        }
    }
}

} // verus!
