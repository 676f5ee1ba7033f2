use vstd::prelude::*;
use crate::chunk_full::ChunkFull;
use crate::chunk_full::CHUNK_DIM_X;
use crate::chunk_full::CHUNK_DIM_Y;
use crate::chunk_full::CHUNK_DIM_Z;
use crate::chunk_full::local_valid;
use crate::chunk_palette::LOCAL_PALETTE_CAP;
use crate::chunk_sparse::ChunkSparse;
use crate::ivec3::IVec3;

verus! {

/// One fixed-size cuboid region of the unbounded voxel grid.  A region
/// that holds nothing stays in the zero-cost `Empty` representation; a
/// first write promotes it to the dense form.
#[derive(Debug)]
pub enum Chunk {
    Empty,
    Full(ChunkFull),
    Sparse(ChunkSparse),
}

impl Chunk {
    /// The global palette index stored at the chunk-local position `p`.
    pub open spec fn spec_at(&self, p: (u8, u8, u8)) -> usize {
        match self {
            Chunk::Empty => 0,
            Chunk::Full(imp) => imp.spec_at(p),
            Chunk::Sparse(imp) => imp.spec_at(p),
        }
    }

    pub open spec fn wf(&self) -> bool {
        match self {
            Chunk::Empty => true,
            Chunk::Full(imp) => imp.wf(),
            Chunk::Sparse(imp) => imp.wf(),
        }
    }

    /// True when the voxel at `p` stores nothing.
    pub fn is_empty(&self, p: (u8, u8, u8)) -> (r: bool)
        requires
            self.wf(),
            local_valid(p),
        ensures
            r == (self.spec_at(p) == 0),
    {
        match self {
            Chunk::Empty => true,
            Chunk::Full(imp) => imp.is_voxel_empty(p),
            Chunk::Sparse(imp) => imp.is_voxel_empty(p),
        }
    }

    /// The global palette index stored at `p`.
    pub fn get(&self, p: (u8, u8, u8)) -> (r: usize)
        requires
            self.wf(),
            local_valid(p),
        ensures
            r == self.spec_at(p),
    {
        match self {
            Chunk::Empty => 0,
            Chunk::Full(imp) => imp.get_voxel(p),
            Chunk::Sparse(imp) => imp.get_voxel(p),
        }
    }

    /// Runtime validation: accepts only well-formed chunks.
    pub fn check_wf(&self) -> (r: bool)
        ensures
            r ==> self.wf(),
    {
        match self {
            Chunk::Empty => true,
            Chunk::Full(imp) => imp.check_wf(),
            Chunk::Sparse(imp) => imp.check_wf(),
        }
    }

    /// A deep copy of the chunk.
    pub fn duplicate(&self) -> (r: Chunk)
        ensures
            self.wf() ==> r.wf(),
            forall|p: (u8, u8, u8)| local_valid(p) ==> #[trigger] r.spec_at(p) == self.spec_at(p),
    {
        match self {
            Chunk::Empty => Chunk::Empty,
            Chunk::Full(imp) => Chunk::Full(imp.duplicate()),
            Chunk::Sparse(imp) => Chunk::Sparse(imp.duplicate()),
        }
    }

    /// Stores the block with global index `block_index` at `p`.  An
    /// `Empty` chunk transparently promotes to the dense form.
    pub fn set(&mut self, p: (u8, u8, u8), block_index: usize)
        requires
            old(self).wf(),
            local_valid(p),
            block_index < LOCAL_PALETTE_CAP,
        ensures
            final(self).wf(),
            final(self).spec_at(p) == block_index,
            forall|q: (u8, u8, u8)|
                local_valid(q) && q != p ==> final(self).spec_at(q) == old(self).spec_at(q),
    {
        match self {
            Chunk::Empty => {
                let mut imp = ChunkFull::new();
                imp.set(p, block_index);
                *self = Chunk::Full(imp);
            },
            Chunk::Full(imp) => {
                imp.set(p, block_index);
            },
            Chunk::Sparse(imp) => {
                imp.set(p, block_index);
            },
        }
    }
}

/// Splits an absolute voxel coordinate into the coordinate of its chunk
/// (floor division by the chunk dimensions) and the coordinate local to
/// that chunk (Euclidean remainder, always non-negative).
pub fn chunk_coords(p: IVec3) -> (r: (IVec3, (u8, u8, u8)))
    ensures
        r.0.x == p.x as int / CHUNK_DIM_X as int,
        r.0.y == p.y as int / CHUNK_DIM_Y as int,
        r.0.z == p.z as int / CHUNK_DIM_Z as int,
        r.1.0 == p.x as int % CHUNK_DIM_X as int,
        r.1.1 == p.y as int % CHUNK_DIM_Y as int,
        r.1.2 == p.z as int % CHUNK_DIM_Z as int,
        local_valid(r.1),
{
    let qx = match p.x.checked_div_euclid(CHUNK_DIM_X as i32) {
        Some(v) => v,
        None => vstd::pervasive::unreached(),
    };
    let qy = match p.y.checked_div_euclid(CHUNK_DIM_Y as i32) {
        Some(v) => v,
        None => vstd::pervasive::unreached(),
    };
    let qz = match p.z.checked_div_euclid(CHUNK_DIM_Z as i32) {
        Some(v) => v,
        None => vstd::pervasive::unreached(),
    };
    let rx = match p.x.checked_rem_euclid(CHUNK_DIM_X as i32) {
        Some(v) => v,
        None => vstd::pervasive::unreached(),
    };
    let ry = match p.y.checked_rem_euclid(CHUNK_DIM_Y as i32) {
        Some(v) => v,
        None => vstd::pervasive::unreached(),
    };
    let rz = match p.z.checked_rem_euclid(CHUNK_DIM_Z as i32) {
        Some(v) => v,
        None => vstd::pervasive::unreached(),
    };
    (IVec3::new(qx, qy, qz), (rx as u8, ry as u8, rz as u8))
}

} // verus!
