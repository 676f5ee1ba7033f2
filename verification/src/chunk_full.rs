use vstd::prelude::*;
use crate::chunk_palette::ChunkPalette;
use crate::chunk_palette::LOCAL_PALETTE_CAP;

verus! {

/// Chunk dimensions: a chunk covers 8 x 8 columns of 16 voxels.
pub const CHUNK_DIM_X: usize = 8;
pub const CHUNK_DIM_Y: usize = 8;
pub const CHUNK_DIM_Z: usize = 16;
pub const CHUNK_SIZE: usize = CHUNK_DIM_X * CHUNK_DIM_Y * CHUNK_DIM_Z;

/// True when `p` addresses a voxel inside one chunk.
pub open spec fn local_valid(p: (u8, u8, u8)) -> bool {
    p.0 < CHUNK_DIM_X && p.1 < CHUNK_DIM_Y && p.2 < CHUNK_DIM_Z
}

/// Dense chunk representation: one local palette index per voxel.
/// Z is kept contiguous since linear scans across Z are the most common.
#[derive(Debug)]
pub struct ChunkFull {
    pub data: Vec<u8>,
    pub palette: ChunkPalette,
}

impl ChunkFull {
    /// The position of `p` in the dense array.
    pub open spec fn spec_index(p: (u8, u8, u8)) -> int {
        p.2 as int + p.0 as int * CHUNK_DIM_Z as int + p.1 as int * (CHUNK_DIM_X * CHUNK_DIM_Z) as int
    }

    /// The global palette index stored at `p`; 0 means empty.
    pub open spec fn spec_at(&self, p: (u8, u8, u8)) -> usize {
        self.palette.entries()[self.data@[Self::spec_index(p)] as int]
    }

    /// Well-formedness: a full dense array whose locals all resolve in
    /// the local palette, and only local 0 maps to global 0.
    pub open spec fn wf(&self) -> bool {
        &&& self.data@.len() == CHUNK_SIZE
        &&& self.palette.wf()
        &&& forall|i: int|
            0 <= i < self.data@.len() ==> (#[trigger] self.data@[i] as int)
                < self.palette.entries().len()
        &&& forall|i: int|
            0 <= i < self.data@.len() && #[trigger] self.data@[i] != 0
                ==> self.palette.entries()[self.data@[i] as int] != 0
    }

    /// Distinct positions occupy distinct slots of the dense array.
    pub proof fn lemma_index_injective(p: (u8, u8, u8), q: (u8, u8, u8))
        requires
            local_valid(p),
            local_valid(q),
            p != q,
        ensures
            Self::spec_index(p) != Self::spec_index(q),
            0 <= Self::spec_index(p) < CHUNK_SIZE,
    {
        assert(Self::spec_index(p) != Self::spec_index(q) && 0 <= Self::spec_index(p)
            < CHUNK_SIZE as int) by (nonlinear_arith)
            requires
                p.0 < 8 && p.1 < 8 && p.2 < 16,
                q.0 < 8 && q.1 < 8 && q.2 < 16,
                p != q,
                Self::spec_index(p) == p.2 + p.0 * 16 + p.1 * 128,
                Self::spec_index(q) == q.2 + q.0 * 16 + q.1 * 128,
                CHUNK_SIZE == 1024,
        ;
    }

    /// Every slot of the dense array is the position of some voxel.
    pub proof fn lemma_index_surjective(i: int) -> (p: (u8, u8, u8))
        requires
            0 <= i < CHUNK_SIZE,
        ensures
            local_valid(p),
            Self::spec_index(p) == i,
    {
        let p = (((i / 16) % 8) as u8, (i / 128) as u8, (i % 16) as u8);
        assert(local_valid(p) && Self::spec_index(p) == i) by (nonlinear_arith)
            requires
                0 <= i < 1024,
                CHUNK_SIZE == 1024,
                p == (((i / 16) % 8) as u8, (i / 128) as u8, (i % 16) as u8),
                Self::spec_index(p) == p.2 + p.0 * 16 + p.1 * 128,
        ;
        p
    }

    /// A fresh, entirely empty dense chunk.
    pub fn new() -> (r: ChunkFull)
        ensures
            r.wf(),
            forall|i: int| 0 <= i < r.data@.len() ==> #[trigger] r.data@[i] == 0,
            forall|p: (u8, u8, u8)| local_valid(p) ==> #[trigger] r.spec_at(p) == 0,
    {
        let mut data: Vec<u8> = Vec::new();
        let mut i: usize = 0;
        while i < CHUNK_SIZE
            invariant
                i <= CHUNK_SIZE,
                data@.len() == i,
                forall|j: int| 0 <= j < i ==> #[trigger] data@[j] == 0,
            decreases CHUNK_SIZE - i,
        {
            data.push(0);
            i += 1;
        }
        let r = ChunkFull { data, palette: ChunkPalette::new() };
        proof {
            assert forall|p: (u8, u8, u8)| local_valid(p) implies #[trigger] r.spec_at(p) == 0 by {
                Self::lemma_index_injective(p, (if p.0 == 0 { 1 } else { 0 }, 0, 0));
            }
        }
        r
    }

    /// A deep copy of the chunk.
    pub fn duplicate(&self) -> (r: ChunkFull)
        ensures
            r.data@ == self.data@,
            r.palette.entries() == self.palette.entries(),
            self.wf() ==> r.wf(),
            forall|p: (u8, u8, u8)| local_valid(p) ==> #[trigger] r.spec_at(p) == self.spec_at(p),
    {
        let n = self.data.len();
        let mut data: Vec<u8> = Vec::new();
        let mut i: usize = 0;
        while i < n
            invariant
                n == self.data@.len(),
                i <= n,
                data@.len() == i,
                forall|j: int| 0 <= j < i ==> #[trigger] data@[j] == self.data@[j],
            decreases n - i,
        {
            data.push(self.data[i]);
            i += 1;
        }
        proof {
            assert(data@ =~= self.data@);
        }
        ChunkFull { data, palette: self.palette.duplicate() }
    }

    /// The position of `p` in the dense array.
    pub fn index(&self, p: (u8, u8, u8)) -> (r: usize)
        requires
            local_valid(p),
        ensures
            r == Self::spec_index(p),
            r < CHUNK_SIZE,
    {
        proof {
            Self::lemma_index_injective(p, (if p.0 == 0 { 1 } else { 0 }, 0, 0));
        }
        p.2 as usize + p.0 as usize * CHUNK_DIM_Z + p.1 as usize * CHUNK_DIM_X * CHUNK_DIM_Z
    }

    /// Stores the block with global index `block_index` at `p`.
    pub fn set(&mut self, p: (u8, u8, u8), block_index: usize)
        requires
            old(self).wf(),
            local_valid(p),
            block_index < LOCAL_PALETTE_CAP,
        ensures
            final(self).wf(),
            final(self).spec_at(p) == block_index,
            forall|q: (u8, u8, u8)|
                local_valid(q) && q != p ==> final(self).spec_at(q) == old(self).spec_at(q),
    {
        let local = self.palette.to_local(block_index);
        let index = self.index(p);
        self.data.set(index, local);
        proof {
            assert forall|q: (u8, u8, u8)| local_valid(q) && q != p implies final(self).spec_at(q)
                == old(self).spec_at(q) by {
                Self::lemma_index_injective(p, q);
                let qi = Self::spec_index(q);
                assert(self.data@[qi] == old(self).data@[qi]);
                if old(self).data@[qi] != 0 {
                    assert(self.palette.entries()[old(self).data@[qi] as int] == old(
                        self,
                    ).palette.entries()[old(self).data@[qi] as int]);
                } else {
                    assert(self.palette.entries()[0] == 0 && old(self).palette.entries()[0] == 0);
                }
            }
        }
    }

    /// True when no voxel of the chunk stores anything: the whole chunk
    /// can then collapse to the zero-cost empty representation.
    pub fn is_chunk_empty(&self) -> (r: bool)
        requires
            self.wf(),
        ensures
            r <==> forall|p: (u8, u8, u8)| local_valid(p) ==> #[trigger] self.spec_at(p) == 0,
    {
        let mut i: usize = 0;
        while i < CHUNK_SIZE
            invariant
                self.wf(),
                i <= CHUNK_SIZE,
                forall|j: int| 0 <= j < i ==> #[trigger] self.data@[j] == 0,
            decreases CHUNK_SIZE - i,
        {
            if self.data[i] != 0 {
                proof {
                    let p = Self::lemma_index_surjective(i as int);
                    assert(self.spec_at(p) != 0);
                }
                return false;
            }
            i += 1;
        }
        proof {
            assert forall|p: (u8, u8, u8)| local_valid(p) implies #[trigger] self.spec_at(p)
                == 0 by {
                Self::lemma_index_injective(p, (if p.0 == 0 { 1 } else { 0 }, 0, 0));
            }
        }
        true
    }

    /// Runtime validation: accepts only well-formed chunks.  Used when a
    /// chunk arrives from outside (a pager) and nothing is known of it.
    pub fn check_wf(&self) -> (r: bool)
        ensures
            r ==> self.wf(),
    {
        if self.data.len() != CHUNK_SIZE {
            return false;
        }
        if !self.palette.check_wf() {
            return false;
        }
        let plen = self.palette.len_entries();
        let n = self.data.len();
        let mut i: usize = 0;
        while i < n
            invariant
                self.palette.wf(),
                plen == self.palette.entries().len(),
                n == self.data@.len(),
                i <= n,
                forall|j: int|
                    0 <= j < i ==> (#[trigger] self.data@[j] as int) < self.palette.entries().len(),
                forall|j: int|
                    0 <= j < i && #[trigger] self.data@[j] != 0
                        ==> self.palette.entries()[self.data@[j] as int] != 0,
            decreases n - i,
        {
            let v = self.data[i];
            if (v as usize) >= plen {
                return false;
            }
            if v != 0 && self.palette.to_global(v) == 0 {
                return false;
            }
            i += 1;
        }
        true
    }

    /// True when the voxel at `p` stores nothing.
    pub fn is_voxel_empty(&self, p: (u8, u8, u8)) -> (r: bool)
        requires
            self.wf(),
            local_valid(p),
        ensures
            r == (self.spec_at(p) == 0),
    {
        let index = self.index(p);
        self.data[index] == 0
    }

    /// The global palette index stored at `p`.
    pub fn get_voxel(&self, p: (u8, u8, u8)) -> (r: usize)
        requires
            self.wf(),
            local_valid(p),
        ensures
            r == self.spec_at(p),
    {
        let index = self.index(p);
        self.palette.to_global(self.data[index])
    }
}

} // verus!
