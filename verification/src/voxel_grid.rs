use vstd::prelude::*;
use vstd::arithmetic::div_mod::lemma_fundamental_div_mod;
use crate::block::Block;
use crate::chunk::Chunk;
use crate::chunk::chunk_coords;
use crate::chunk_full::ChunkFull;
use crate::chunk_full::CHUNK_DIM_X;
use crate::chunk_full::CHUNK_DIM_Y;
use crate::chunk_full::CHUNK_DIM_Z;
use crate::chunk_full::local_valid;
use crate::chunk_palette::LOCAL_PALETTE_CAP;
use crate::grid_palette::Palette;
use crate::grid_palette::is_last_id;
use crate::ivec3::IVec3;

verus! {

/// Interface for paging chunks in and out of backing storage.  What a
/// pager hands back is validated by the grid before it is adopted, so
/// implementations carry no proof obligations.
pub trait VoxelGridPager {
    fn read_chunk(&self, p: IVec3) -> Option<Chunk>;

    fn write_chunk(&mut self, p: IVec3, chunk: &Chunk);
}

/// Interface for synthesizing the contents of a chunk that was never
/// written: asked once per voxel for a block id.
pub trait VoxelGridGenerator {
    fn generate(&self, world_position: IVec3) -> String;
}

/// One resident chunk of the grid, keyed by its chunk coordinate.
#[derive(Debug)]
pub struct GridSlot {
    pub cx: i32,
    pub cy: i32,
    pub cz: i32,
    pub chunk: Chunk,
}

/// No two resident chunks share a chunk coordinate.
pub open spec fn slot_unique(s: Seq<GridSlot>) -> bool {
    forall|i: int, j: int|
        0 <= i < j < s.len() ==> !(s[i].cx == s[j].cx && s[i].cy == s[j].cy && s[i].cz == s[j].cz)
}

/// True when a chunk with the given chunk coordinate is resident.
pub open spec fn slot_has(s: Seq<GridSlot>, cx: int, cy: int, cz: int) -> bool {
    exists|i: int| 0 <= i < s.len() && s[i].cx == cx && s[i].cy == cy && s[i].cz == cz
}

/// The resident chunk at the given chunk coordinate.
pub open spec fn slot_chunk(s: Seq<GridSlot>, cx: int, cy: int, cz: int) -> Chunk {
    s[choose|i: int| 0 <= i < s.len() && s[i].cx == cx && s[i].cy == cy && s[i].cz == cz].chunk
}

/// With unique keys, a resident slot decides the lookup at its key.
pub proof fn lemma_slot(s: Seq<GridSlot>, i: int)
    requires
        slot_unique(s),
        0 <= i < s.len(),
    ensures
        slot_has(s, s[i].cx as int, s[i].cy as int, s[i].cz as int),
        slot_chunk(s, s[i].cx as int, s[i].cy as int, s[i].cz as int) == s[i].chunk,
{
    let (cx, cy, cz) = (s[i].cx as int, s[i].cy as int, s[i].cz as int);
    assert(slot_has(s, cx, cy, cz));
    let k = choose|k: int| 0 <= k < s.len() && s[k].cx == cx && s[k].cy == cy && s[k].cz == cz;
    if k != i {
        assert(!(s[k].cx == s[i].cx && s[k].cy == s[i].cy && s[k].cz == s[i].cz));
    }
}

/// The chunk coordinate of the absolute position `x` along one axis with
/// chunk dimension `d`, and the coordinate local to the chunk.
pub open spec fn outer(x: int, d: int) -> int {
    x / d
}

pub open spec fn inner(x: int, d: int) -> int {
    x % d
}

/// Two absolute positions with the same chunk coordinate and the same
/// local coordinate are the same position.
pub proof fn lemma_split_injective(a: int, b: int, d: int)
    requires
        d > 0,
        outer(a, d) == outer(b, d),
        inner(a, d) == inner(b, d),
    ensures
        a == b,
{
    lemma_fundamental_div_mod(a, d);
    lemma_fundamental_div_mod(b, d);
}

/// VoxelGrid is the unbounded, pageable sparse voxel space for
/// world-scale terrain: fixed-size chunks, each internally paletted, and
/// mostly-empty regions kept in a zero-cost representation.
#[derive(Debug)]
pub struct VoxelGrid {
    pub palette: Palette,
    pub chunks: Vec<GridSlot>,
}

impl VoxelGrid {
    /// The global palette index stored at the absolute position; 0 when
    /// the position's chunk is not resident or stores nothing there.
    pub open spec fn grid_at(&self, x: int, y: int, z: int) -> usize {
        let cx = outer(x, CHUNK_DIM_X as int);
        let cy = outer(y, CHUNK_DIM_Y as int);
        let cz = outer(z, CHUNK_DIM_Z as int);
        if slot_has(self.chunks@, cx, cy, cz) {
            slot_chunk(self.chunks@, cx, cy, cz).spec_at(
                (
                    inner(x, CHUNK_DIM_X as int) as u8,
                    inner(y, CHUNK_DIM_Y as int) as u8,
                    inner(z, CHUNK_DIM_Z as int) as u8,
                ),
            )
        } else {
            0
        }
    }

    pub open spec fn wf(&self) -> bool {
        &&& self.palette.wf()
        &&& slot_unique(self.chunks@)
        &&& forall|i: int| 0 <= i < self.chunks@.len() ==> (#[trigger] self.chunks@[i].chunk).wf()
    }

    /// A fresh grid with no resident chunks and the canonical palette.
    pub fn new() -> (r: VoxelGrid)
        ensures
            r.wf(),
            r.palette.blocks@.len() == 1,
            forall|x: int, y: int, z: int| r.grid_at(x, y, z) == 0,
    {
        VoxelGrid { palette: Palette::new(), chunks: Vec::new() }
    }

    /// Registers a block definition in the global palette.
    pub fn register_block(&mut self, block: Block)
        requires
            old(self).wf(),
            old(self).palette.blocks@.len() < LOCAL_PALETTE_CAP,
        ensures
            final(self).wf(),
            final(self).palette.blocks@ == old(self).palette.blocks@.push(block),
            final(self).chunks@ == old(self).chunks@,
            forall|x: int, y: int, z: int| final(self).grid_at(x, y, z) == old(self).grid_at(x, y, z),
    {
        self.palette.register(block);
    }

    /// Position of the resident chunk with the given chunk coordinate.
    fn find_slot(&self, cx: i32, cy: i32, cz: i32) -> (r: Option<usize>)
        ensures
            match r {
                Some(i) => i < self.chunks@.len() && self.chunks@[i as int].cx == cx
                    && self.chunks@[i as int].cy == cy && self.chunks@[i as int].cz == cz,
                None => !slot_has(self.chunks@, cx as int, cy as int, cz as int),
            },
    {
        let n = self.chunks.len();
        let mut i: usize = 0;
        while i < n
            invariant
                n == self.chunks@.len(),
                i <= n,
                forall|j: int|
                    0 <= j < i ==> !((#[trigger] self.chunks@[j]).cx == cx && self.chunks@[j].cy
                        == cy && self.chunks@[j].cz == cz),
            decreases n - i,
        {
            let s = &self.chunks[i];
            if s.cx == cx && s.cy == cy && s.cz == cz {
                return Some(i);
            }
            i += 1;
        }
        None
    }

    /// True when the absolute position reads as empty.  A chunk that was
    /// never materialized reads as empty throughout.
    pub fn is_empty(&self, p: IVec3) -> (r: bool)
        requires
            self.wf(),
        ensures
            r == (self.grid_at(p.x as int, p.y as int, p.z as int) == 0),
    {
        let (cpos, local) = chunk_coords(p);
        match self.find_slot(cpos.x, cpos.y, cpos.z) {
            Some(i) => {
                proof {
                    lemma_slot(self.chunks@, i as int);
                }
                self.chunks[i].chunk.is_empty(local)
            },
            None => true,
        }
    }

    /// The block stored at the absolute position: `None` when the
    /// position's chunk is not resident, or when a paged-in chunk
    /// references a block the global palette does not know.
    pub fn get(&self, p: IVec3) -> (r: Option<&Block>)
        requires
            self.wf(),
        ensures
            match r {
                Some(b) => self.grid_at(p.x as int, p.y as int, p.z as int)
                    < self.palette.blocks@.len() && *b == self.palette.blocks@[self.grid_at(
                    p.x as int,
                    p.y as int,
                    p.z as int,
                ) as int],
                None => !slot_has(
                    self.chunks@,
                    p.x as int / CHUNK_DIM_X as int,
                    p.y as int / CHUNK_DIM_Y as int,
                    p.z as int / CHUNK_DIM_Z as int,
                ) || self.grid_at(p.x as int, p.y as int, p.z as int)
                    >= self.palette.blocks@.len(),
            },
    {
        let (cpos, local) = chunk_coords(p);
        match self.find_slot(cpos.x, cpos.y, cpos.z) {
            Some(i) => {
                proof {
                    lemma_slot(self.chunks@, i as int);
                }
                let block_index = self.chunks[i].chunk.get(local);
                self.palette.block_by_index(block_index)
            },
            None => None,
        }
    }

    /// Stores the block registered under `id` at the absolute position,
    /// materializing the chunk if needed.  Unregistered ids are a caller
    /// defect and are rejected by contract.
    pub fn set(&mut self, p: IVec3, id: &str)
        requires
            old(self).wf(),
            exists|j: int|
                0 <= j < old(self).palette.blocks@.len() && (#[trigger] old(
                    self,
                ).palette.blocks@[j]).id@ == id@,
        ensures
            final(self).wf(),
            final(self).palette == old(self).palette,
            is_last_id(
                final(self).palette.blocks@,
                id@,
                final(self).grid_at(p.x as int, p.y as int, p.z as int) as int,
            ),
            forall|x: int, y: int, z: int|
                !(x == p.x && y == p.y && z == p.z) ==> final(self).grid_at(x, y, z) == old(
                    self,
                ).grid_at(x, y, z),
    {
        let block_index = match self.palette.index_by_id(id) {
            Some(i) => i,
            None => vstd::pervasive::unreached(),
        };
        let (cpos, local) = chunk_coords(p);
        let ghost oldslots = self.chunks@;
        match self.find_slot(cpos.x, cpos.y, cpos.z) {
            Some(ci) => {
                let mut slot = self.chunks.swap_remove(ci);
                let ghost oldchunk = slot.chunk;
                proof {
                    lemma_slot(oldslots, ci as int);
                }
                slot.chunk.set(local, block_index);
                let ghost newchunk = slot.chunk;
                self.chunks.push(slot);
                proof {
                    assert(forall|j: int|
                        0 <= j < oldslots.len() - 1 ==> #[trigger] self.chunks@[j] == (if j
                            == ci as int {
                            oldslots[oldslots.len() - 1]
                        } else {
                            oldslots[j]
                        }));
                    self.lemma_grid_set_resident(
                        *old(self),
                        oldslots,
                        ci as int,
                        oldchunk,
                        newchunk,
                        p,
                        cpos,
                        local,
                        block_index,
                    );
                }
            },
            None => {
                let mut slot = GridSlot {
                    cx: cpos.x,
                    cy: cpos.y,
                    cz: cpos.z,
                    chunk: Chunk::Empty,
                };
                slot.chunk.set(local, block_index);
                let ghost newchunk = slot.chunk;
                self.chunks.push(slot);
                proof {
                    self.lemma_grid_set_fresh(
                        *old(self),
                        oldslots,
                        newchunk,
                        p,
                        cpos,
                        local,
                        block_index,
                    );
                }
            },
        }
    }

    /// Common frame argument: with the rewritten chunk of `p` at the back
    /// of the slot vector and every other slot's lookup preserved,
    /// lookups change only at `p`.
    #[verifier::spinoff_prover]
    proof fn lemma_grid_frame(
        &self,
        prev: VoxelGrid,
        oldslots: Seq<GridSlot>,
        oldchunk: Chunk,
        newchunk: Chunk,
        p: IVec3,
        cpos: IVec3,
        local: (u8, u8, u8),
        block_index: usize,
    )
        requires
            prev.wf(),
            oldslots == prev.chunks@,
            self.palette == prev.palette,
            cpos.x == outer(p.x as int, CHUNK_DIM_X as int),
            cpos.y == outer(p.y as int, CHUNK_DIM_Y as int),
            cpos.z == outer(p.z as int, CHUNK_DIM_Z as int),
            local.0 == inner(p.x as int, CHUNK_DIM_X as int),
            local.1 == inner(p.y as int, CHUNK_DIM_Y as int),
            local.2 == inner(p.z as int, CHUNK_DIM_Z as int),
            local_valid(local),
            slot_has(oldslots, cpos.x as int, cpos.y as int, cpos.z as int) ==> oldchunk
                == slot_chunk(oldslots, cpos.x as int, cpos.y as int, cpos.z as int),
            !slot_has(oldslots, cpos.x as int, cpos.y as int, cpos.z as int) ==> (oldchunk
                matches Chunk::Empty),
            slot_unique(self.chunks@),
            self.chunks@.len() >= 1,
            self.chunks@.last().cx == cpos.x && self.chunks@.last().cy == cpos.y
                && self.chunks@.last().cz == cpos.z,
            self.chunks@.last().chunk == newchunk,
            // every other old slot is still resident with the same chunk,
            // and nothing new became resident
            forall|cx: int, cy: int, cz: int|
                !(cx == cpos.x && cy == cpos.y && cz == cpos.z) ==> (#[trigger] slot_has(
                    self.chunks@,
                    cx,
                    cy,
                    cz,
                ) == slot_has(oldslots, cx, cy, cz) && (slot_has(oldslots, cx, cy, cz)
                    ==> slot_chunk(self.chunks@, cx, cy, cz) == slot_chunk(oldslots, cx, cy, cz))),
            newchunk.wf(),
            newchunk.spec_at(local) == block_index,
            forall|q: (u8, u8, u8)|
                local_valid(q) && q != local ==> newchunk.spec_at(q) == oldchunk.spec_at(q),
        ensures
            self.grid_at(p.x as int, p.y as int, p.z as int) == block_index,
            forall|x: int, y: int, z: int|
                !(x == p.x && y == p.y && z == p.z) ==> self.grid_at(x, y, z) == prev.grid_at(
                    x,
                    y,
                    z,
                ),
    {
        let slots = self.chunks@;
        let n = slots.len() as int;
        lemma_slot(slots, n - 1);
        assert(self.grid_at(p.x as int, p.y as int, p.z as int) == block_index);
        assert forall|x: int, y: int, z: int|
            !(x == p.x && y == p.y && z == p.z) implies self.grid_at(x, y, z) == prev.grid_at(
            x,
            y,
            z,
        ) by {
            let cx = outer(x, CHUNK_DIM_X as int);
            let cy = outer(y, CHUNK_DIM_Y as int);
            let cz = outer(z, CHUNK_DIM_Z as int);
            let l = (
                inner(x, CHUNK_DIM_X as int) as u8,
                inner(y, CHUNK_DIM_Y as int) as u8,
                inner(z, CHUNK_DIM_Z as int) as u8,
            );
            assert(local_valid(l));
            if cx == cpos.x && cy == cpos.y && cz == cpos.z {
                assert(self.grid_at(x, y, z) == newchunk.spec_at(l));
                if l == local {
                    lemma_split_injective(x, p.x as int, CHUNK_DIM_X as int);
                    lemma_split_injective(y, p.y as int, CHUNK_DIM_Y as int);
                    lemma_split_injective(z, p.z as int, CHUNK_DIM_Z as int);
                    assert(false);
                }
                assert(newchunk.spec_at(l) == oldchunk.spec_at(l));
                if slot_has(oldslots, cx, cy, cz) {
                    assert(prev.grid_at(x, y, z) == oldchunk.spec_at(l));
                } else {
                    assert(oldchunk matches Chunk::Empty);
                    assert(prev.grid_at(x, y, z) == 0);
                }
            } else {
            }
        }
    }

    /// Rewriting the resident chunk at `ci` (moved to the back) changes
    /// lookups only at `p`.
    #[verifier::spinoff_prover]
    proof fn lemma_grid_set_resident(
        &self,
        prev: VoxelGrid,
        oldslots: Seq<GridSlot>,
        ci: int,
        oldchunk: Chunk,
        newchunk: Chunk,
        p: IVec3,
        cpos: IVec3,
        local: (u8, u8, u8),
        block_index: usize,
    )
        requires
            prev.wf(),
            oldslots == prev.chunks@,
            self.palette == prev.palette,
            cpos.x == outer(p.x as int, CHUNK_DIM_X as int),
            cpos.y == outer(p.y as int, CHUNK_DIM_Y as int),
            cpos.z == outer(p.z as int, CHUNK_DIM_Z as int),
            local.0 == inner(p.x as int, CHUNK_DIM_X as int),
            local.1 == inner(p.y as int, CHUNK_DIM_Y as int),
            local.2 == inner(p.z as int, CHUNK_DIM_Z as int),
            local_valid(local),
            0 <= ci < oldslots.len(),
            oldslots[ci].cx == cpos.x && oldslots[ci].cy == cpos.y && oldslots[ci].cz == cpos.z,
            oldchunk == oldslots[ci].chunk,
            self.chunks@.len() == oldslots.len(),
            self.chunks@.last().cx == cpos.x && self.chunks@.last().cy == cpos.y
                && self.chunks@.last().cz == cpos.z,
            self.chunks@.last().chunk == newchunk,
            forall|j: int|
                0 <= j < oldslots.len() - 1 ==> #[trigger] self.chunks@[j] == (if j == ci {
                    oldslots[oldslots.len() - 1]
                } else {
                    oldslots[j]
                }),
            newchunk.wf(),
            newchunk.spec_at(local) == block_index,
            forall|q: (u8, u8, u8)|
                local_valid(q) && q != local ==> newchunk.spec_at(q) == oldchunk.spec_at(q),
        ensures
            self.wf(),
            self.grid_at(p.x as int, p.y as int, p.z as int) == block_index,
            forall|x: int, y: int, z: int|
                !(x == p.x && y == p.y && z == p.z) ==> self.grid_at(x, y, z) == prev.grid_at(
                    x,
                    y,
                    z,
                ),
    {
        let slots = self.chunks@;
        let n = oldslots.len() as int;
        assert(slot_unique(slots)) by {
            assert forall|i: int, j: int| 0 <= i < j < slots.len() implies !(slots[i].cx
                == slots[j].cx && slots[i].cy == slots[j].cy && slots[i].cz == slots[j].cz) by {
                let oi = if i == ci {
                    n - 1
                } else if i == n - 1 {
                    ci
                } else {
                    i
                };
                let oj = if j == ci {
                    n - 1
                } else if j == n - 1 {
                    ci
                } else {
                    j
                };
                assert(slots[i].cx == oldslots[oi].cx && slots[i].cy == oldslots[oi].cy
                    && slots[i].cz == oldslots[oi].cz);
                assert(slots[j].cx == oldslots[oj].cx && slots[j].cy == oldslots[oj].cy
                    && slots[j].cz == oldslots[oj].cz);
                assert(oi != oj);
            }
        }
        assert forall|i: int| 0 <= i < slots.len() implies (#[trigger] slots[i].chunk).wf() by {
            if i == n - 1 {
            } else if i == ci {
                assert(slots[i] == oldslots[n - 1]);
            } else {
                assert(slots[i] == oldslots[i]);
            }
        }
        lemma_slot(oldslots, ci);
        assert forall|cx: int, cy: int, cz: int|
            !(cx == cpos.x && cy == cpos.y && cz == cpos.z) implies (#[trigger] slot_has(
            slots,
            cx,
            cy,
            cz,
        ) == slot_has(oldslots, cx, cy, cz) && (slot_has(oldslots, cx, cy, cz) ==> slot_chunk(
            slots,
            cx,
            cy,
            cz,
        ) == slot_chunk(oldslots, cx, cy, cz))) by {
            if slot_has(oldslots, cx, cy, cz) {
                let k = choose|k: int|
                    0 <= k < oldslots.len() && oldslots[k].cx == cx && oldslots[k].cy == cy
                        && oldslots[k].cz == cz;
                lemma_slot(oldslots, k);
                assert(k != ci);
                let nk = if k == n - 1 {
                    ci
                } else {
                    k
                };
                assert(slots[nk] == oldslots[k]);
                lemma_slot(slots, nk);
            } else {
                if slot_has(slots, cx, cy, cz) {
                    let j = choose|j: int|
                        0 <= j < slots.len() && slots[j].cx == cx && slots[j].cy == cy
                            && slots[j].cz == cz;
                    if j == n - 1 {
                        assert(false);
                    } else if j == ci {
                        assert(slots[j] == oldslots[n - 1]);
                        assert(slot_has(oldslots, cx, cy, cz));
                    } else {
                        assert(slots[j] == oldslots[j]);
                        assert(slot_has(oldslots, cx, cy, cz));
                    }
                }
            }
        }
        self.lemma_grid_frame(prev, oldslots, oldchunk, newchunk, p, cpos, local, block_index);
    }

    /// Appending a freshly materialized chunk for an absent coordinate
    /// changes lookups only at `p`.
    #[verifier::spinoff_prover]
    proof fn lemma_grid_set_fresh(
        &self,
        prev: VoxelGrid,
        oldslots: Seq<GridSlot>,
        newchunk: Chunk,
        p: IVec3,
        cpos: IVec3,
        local: (u8, u8, u8),
        block_index: usize,
    )
        requires
            prev.wf(),
            oldslots == prev.chunks@,
            self.palette == prev.palette,
            cpos.x == outer(p.x as int, CHUNK_DIM_X as int),
            cpos.y == outer(p.y as int, CHUNK_DIM_Y as int),
            cpos.z == outer(p.z as int, CHUNK_DIM_Z as int),
            local.0 == inner(p.x as int, CHUNK_DIM_X as int),
            local.1 == inner(p.y as int, CHUNK_DIM_Y as int),
            local.2 == inner(p.z as int, CHUNK_DIM_Z as int),
            local_valid(local),
            !slot_has(oldslots, cpos.x as int, cpos.y as int, cpos.z as int),
            self.chunks@.len() == oldslots.len() + 1,
            forall|j: int| 0 <= j < oldslots.len() ==> #[trigger] self.chunks@[j] == oldslots[j],
            self.chunks@.last().cx == cpos.x && self.chunks@.last().cy == cpos.y
                && self.chunks@.last().cz == cpos.z,
            self.chunks@.last().chunk == newchunk,
            newchunk.wf(),
            newchunk.spec_at(local) == block_index,
            forall|q: (u8, u8, u8)|
                local_valid(q) && q != local ==> newchunk.spec_at(q) == Chunk::Empty.spec_at(q),
        ensures
            self.wf(),
            self.grid_at(p.x as int, p.y as int, p.z as int) == block_index,
            forall|x: int, y: int, z: int|
                !(x == p.x && y == p.y && z == p.z) ==> self.grid_at(x, y, z) == prev.grid_at(
                    x,
                    y,
                    z,
                ),
    {
        let slots = self.chunks@;
        let n = oldslots.len() as int;
        assert(slot_unique(slots)) by {
            assert forall|i: int, j: int| 0 <= i < j < slots.len() implies !(slots[i].cx
                == slots[j].cx && slots[i].cy == slots[j].cy && slots[i].cz == slots[j].cz) by {
                if j == n {
                    assert(slots[i] == oldslots[i]);
                    if slots[i].cx == cpos.x && slots[i].cy == cpos.y && slots[i].cz == cpos.z {
                        assert(slot_has(oldslots, cpos.x as int, cpos.y as int, cpos.z as int));
                    }
                }
            }
        }
        assert forall|i: int| 0 <= i < slots.len() implies (#[trigger] slots[i].chunk).wf() by {
            if i < n {
                assert(slots[i] == oldslots[i]);
            }
        }
        assert forall|cx: int, cy: int, cz: int|
            !(cx == cpos.x && cy == cpos.y && cz == cpos.z) implies (#[trigger] slot_has(
            slots,
            cx,
            cy,
            cz,
        ) == slot_has(oldslots, cx, cy, cz) && (slot_has(oldslots, cx, cy, cz) ==> slot_chunk(
            slots,
            cx,
            cy,
            cz,
        ) == slot_chunk(oldslots, cx, cy, cz))) by {
            if slot_has(oldslots, cx, cy, cz) {
                let k = choose|k: int|
                    0 <= k < oldslots.len() && oldslots[k].cx == cx && oldslots[k].cy == cy
                        && oldslots[k].cz == cz;
                lemma_slot(oldslots, k);
                assert(slots[k] == oldslots[k]);
                lemma_slot(slots, k);
            } else {
                if slot_has(slots, cx, cy, cz) {
                    let j = choose|j: int|
                        0 <= j < slots.len() && slots[j].cx == cx && slots[j].cy == cy
                            && slots[j].cz == cz;
                    if j < n {
                        assert(slots[j] == oldslots[j]);
                        assert(slot_has(oldslots, cx, cy, cz));
                    }
                }
            }
        }
        self.lemma_grid_frame(
            prev,
            oldslots,
            Chunk::Empty,
            newchunk,
            p,
            cpos,
            local,
            block_index,
        );
    }
}

impl VoxelGrid {
    /// Inserting a well-formed chunk for an absent coordinate changes no
    /// lookup outside that chunk, and lookups inside it follow the chunk.
    #[verifier::spinoff_prover]
    proof fn lemma_grid_insert_fresh(
        &self,
        prev: VoxelGrid,
        oldslots: Seq<GridSlot>,
        newchunk: Chunk,
        cpos: IVec3,
    )
        requires
            prev.wf(),
            oldslots == prev.chunks@,
            self.palette == prev.palette,
            !slot_has(oldslots, cpos.x as int, cpos.y as int, cpos.z as int),
            self.chunks@.len() == oldslots.len() + 1,
            forall|j: int| 0 <= j < oldslots.len() ==> #[trigger] self.chunks@[j] == oldslots[j],
            self.chunks@.last().cx == cpos.x && self.chunks@.last().cy == cpos.y
                && self.chunks@.last().cz == cpos.z,
            self.chunks@.last().chunk == newchunk,
            newchunk.wf(),
        ensures
            self.wf(),
            slot_has(self.chunks@, cpos.x as int, cpos.y as int, cpos.z as int),
            slot_chunk(self.chunks@, cpos.x as int, cpos.y as int, cpos.z as int) == newchunk,
            forall|x: int, y: int, z: int|
                !(outer(x, CHUNK_DIM_X as int) == cpos.x && outer(y, CHUNK_DIM_Y as int) == cpos.y
                    && outer(z, CHUNK_DIM_Z as int) == cpos.z) ==> self.grid_at(x, y, z)
                    == prev.grid_at(x, y, z),
    {
        let slots = self.chunks@;
        let n = oldslots.len() as int;
        assert(slot_unique(slots)) by {
            assert forall|i: int, j: int| 0 <= i < j < slots.len() implies !(slots[i].cx
                == slots[j].cx && slots[i].cy == slots[j].cy && slots[i].cz == slots[j].cz) by {
                if j == n {
                    assert(slots[i] == oldslots[i]);
                    if slots[i].cx == cpos.x && slots[i].cy == cpos.y && slots[i].cz == cpos.z {
                        assert(slot_has(oldslots, cpos.x as int, cpos.y as int, cpos.z as int));
                    }
                }
            }
        }
        assert forall|i: int| 0 <= i < slots.len() implies (#[trigger] slots[i].chunk).wf() by {
            if i < n {
                assert(slots[i] == oldslots[i]);
            }
        }
        lemma_slot(slots, n);
        assert forall|x: int, y: int, z: int|
            !(outer(x, CHUNK_DIM_X as int) == cpos.x && outer(y, CHUNK_DIM_Y as int) == cpos.y
                && outer(z, CHUNK_DIM_Z as int) == cpos.z) implies self.grid_at(x, y, z)
            == prev.grid_at(x, y, z) by {
            let cx = outer(x, CHUNK_DIM_X as int);
            let cy = outer(y, CHUNK_DIM_Y as int);
            let cz = outer(z, CHUNK_DIM_Z as int);
            if slot_has(oldslots, cx, cy, cz) {
                let k = choose|k: int|
                    0 <= k < oldslots.len() && oldslots[k].cx == cx && oldslots[k].cy == cy
                        && oldslots[k].cz == cz;
                lemma_slot(oldslots, k);
                assert(slots[k] == oldslots[k]);
                lemma_slot(slots, k);
            } else {
                if slot_has(slots, cx, cy, cz) {
                    let j = choose|j: int|
                        0 <= j < slots.len() && slots[j].cx == cx && slots[j].cy == cy
                            && slots[j].cz == cz;
                    if j < n {
                        assert(slots[j] == oldslots[j]);
                        assert(slot_has(oldslots, cx, cy, cz));
                    }
                }
            }
        }
    }

    /// Materializes the chunk at `cpos` by asking `generator` once per
    /// local voxel for a block id; ids the palette does not know resolve
    /// to empty.  A generated chunk that turns out entirely empty
    /// collapses to the zero-cost `Empty` representation rather than
    /// keeping a dense array of zeros.
    pub fn ensure_chunk_generated<G: VoxelGridGenerator>(&mut self, generator: &G, cpos: IVec3)
        requires
            old(self).wf(),
            -0x0400_0000 <= cpos.x <= 0x0400_0000,
            -0x0400_0000 <= cpos.y <= 0x0400_0000,
            -0x0400_0000 <= cpos.z <= 0x0400_0000,
        ensures
            final(self).wf(),
            final(self).palette == old(self).palette,
            slot_has(final(self).chunks@, cpos.x as int, cpos.y as int, cpos.z as int),
            slot_has(old(self).chunks@, cpos.x as int, cpos.y as int, cpos.z as int)
                ==> final(self).chunks@ == old(self).chunks@,
            !slot_has(old(self).chunks@, cpos.x as int, cpos.y as int, cpos.z as int) ==> {
                let c = slot_chunk(
                    final(self).chunks@,
                    cpos.x as int,
                    cpos.y as int,
                    cpos.z as int,
                );
                &&& ((c matches Chunk::Empty) <==> (forall|q: (u8, u8, u8)|
                    local_valid(q) ==> #[trigger] c.spec_at(q) == 0))
                &&& forall|x: int, y: int, z: int|
                    !(outer(x, CHUNK_DIM_X as int) == cpos.x && outer(y, CHUNK_DIM_Y as int)
                        == cpos.y && outer(z, CHUNK_DIM_Z as int) == cpos.z)
                        ==> final(self).grid_at(x, y, z) == old(self).grid_at(x, y, z)
            },
    {
        match self.find_slot(cpos.x, cpos.y, cpos.z) {
            Some(i) => {
                proof {
                    lemma_slot(self.chunks@, i as int);
                }
                return ;
            },
            None => {},
        }
        let ghost oldslots = self.chunks@;
        let base_x: i32 = ((cpos.x as i64) * (CHUNK_DIM_X as i64)) as i32;
        let base_y: i32 = ((cpos.y as i64) * (CHUNK_DIM_Y as i64)) as i32;
        let base_z: i32 = ((cpos.z as i64) * (CHUNK_DIM_Z as i64)) as i32;
        let mut full = ChunkFull::new();
        let mut dy: u8 = 0;
        while dy < CHUNK_DIM_Y as u8
            invariant
                self.wf(),
                full.wf(),
                dy <= CHUNK_DIM_Y,
                -0x4000_0000 <= base_x <= 0x4000_0000,
                -0x4000_0000 <= base_y <= 0x4000_0000,
                -0x4000_0000 <= base_z <= 0x4000_0000,
            decreases CHUNK_DIM_Y - dy,
        {
            let mut dx: u8 = 0;
            while dx < CHUNK_DIM_X as u8
                invariant
                    self.wf(),
                    full.wf(),
                    dy < CHUNK_DIM_Y,
                    dx <= CHUNK_DIM_X,
                    -0x4000_0000 <= base_x <= 0x4000_0000,
                    -0x4000_0000 <= base_y <= 0x4000_0000,
                    -0x4000_0000 <= base_z <= 0x4000_0000,
                decreases CHUNK_DIM_X - dx,
            {
                let mut dz: u8 = 0;
                while dz < CHUNK_DIM_Z as u8
                    invariant
                        self.wf(),
                        full.wf(),
                        dy < CHUNK_DIM_Y,
                        dx < CHUNK_DIM_X,
                        dz <= CHUNK_DIM_Z,
                        -0x4000_0000 <= base_x <= 0x4000_0000,
                        -0x4000_0000 <= base_y <= 0x4000_0000,
                        -0x4000_0000 <= base_z <= 0x4000_0000,
                    decreases CHUNK_DIM_Z - dz,
                {
                    let p = IVec3::new(base_x + dx as i32, base_y + dy as i32, base_z + dz as i32);
                    let block_name = generator.generate(p);
                    let block_index = match self.palette.index_by_id(block_name.as_str()) {
                        Some(i) => i,
                        None => 0,
                    };
                    full.set((dx, dy, dz), block_index);
                    dz += 1;
                }
                dx += 1;
            }
            dy += 1;
        }
        let empty = full.is_chunk_empty();
        let ghost gfull = full;
        let chunk = if empty {
            Chunk::Empty
        } else {
            Chunk::Full(full)
        };
        let ghost newchunk = chunk;
        self.chunks.push(GridSlot { cx: cpos.x, cy: cpos.y, cz: cpos.z, chunk });
        proof {
            self.lemma_grid_insert_fresh(*old(self), oldslots, newchunk, cpos);
            let c = slot_chunk(self.chunks@, cpos.x as int, cpos.y as int, cpos.z as int);
            assert(c == newchunk);
            if empty {
                assert(c matches Chunk::Empty);
                assert(forall|q: (u8, u8, u8)| local_valid(q) ==> #[trigger] c.spec_at(q) == 0);
            } else {
                assert(c == Chunk::Full(gfull));
                let q = choose|q: (u8, u8, u8)| local_valid(q) && gfull.spec_at(q) != 0;
                assert(local_valid(q) && c.spec_at(q) != 0);
                assert(!(forall|p: (u8, u8, u8)| local_valid(p) ==> #[trigger] c.spec_at(p) == 0));
            }
        }
    }

    /// Makes the chunk at `cpos` resident by asking `pager` for persisted
    /// state, falling back to the zero-cost empty chunk.
    pub fn ensure_chunk_paged<P: VoxelGridPager>(&mut self, pager: &P, cpos: IVec3)
        requires
            old(self).wf(),
        ensures
            final(self).wf(),
            final(self).palette == old(self).palette,
            slot_has(final(self).chunks@, cpos.x as int, cpos.y as int, cpos.z as int),
            slot_has(old(self).chunks@, cpos.x as int, cpos.y as int, cpos.z as int)
                ==> final(self).chunks@ == old(self).chunks@,
            !slot_has(old(self).chunks@, cpos.x as int, cpos.y as int, cpos.z as int)
                ==> forall|x: int, y: int, z: int|
                !(outer(x, CHUNK_DIM_X as int) == cpos.x && outer(y, CHUNK_DIM_Y as int) == cpos.y
                    && outer(z, CHUNK_DIM_Z as int) == cpos.z) ==> final(self).grid_at(x, y, z)
                    == old(self).grid_at(x, y, z),
    {
        match self.find_slot(cpos.x, cpos.y, cpos.z) {
            Some(i) => {
                proof {
                    lemma_slot(self.chunks@, i as int);
                }
                return ;
            },
            None => {},
        }
        let ghost oldslots = self.chunks@;
        let paged = match pager.read_chunk(cpos) {
            Some(c) => c,
            None => Chunk::Empty,
        };
        let chunk = if paged.check_wf() {
            paged
        } else {
            Chunk::Empty
        };
        let ghost newchunk = chunk;
        self.chunks.push(GridSlot { cx: cpos.x, cy: cpos.y, cz: cpos.z, chunk });
        proof {
            self.lemma_grid_insert_fresh(*old(self), oldslots, newchunk, cpos);
        }
    }
}

} // verus!
