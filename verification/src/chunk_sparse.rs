use vstd::prelude::*;
use crate::chunk_palette::ChunkPalette;
use crate::chunk_palette::LOCAL_PALETTE_CAP;
use crate::chunk_full::local_valid;

verus! {

/// One stored voxel of a sparse chunk: its local position and the local
/// palette index of its block.
#[derive(Debug, Clone, Copy, PartialEq, Eq, Structural)]
pub struct SparseCell {
    pub x: u8,
    pub y: u8,
    pub z: u8,
    pub local: u8,
}

/// No two stored voxels share a position.
pub open spec fn sp_unique(cells: Seq<SparseCell>) -> bool {
    forall|i: int, j: int|
        0 <= i < j < cells.len() ==> !(cells[i].x == cells[j].x && cells[i].y == cells[j].y
            && cells[i].z == cells[j].z)
}

/// True when a voxel is stored at `p`.
pub open spec fn sp_has(cells: Seq<SparseCell>, p: (u8, u8, u8)) -> bool {
    exists|i: int|
        0 <= i < cells.len() && cells[i].x == p.0 && cells[i].y == p.1 && cells[i].z == p.2
}

/// The local index stored at `p`; 0 when absent.
pub open spec fn sp_local(cells: Seq<SparseCell>, p: (u8, u8, u8)) -> u8 {
    if sp_has(cells, p) {
        cells[choose|i: int|
            0 <= i < cells.len() && cells[i].x == p.0 && cells[i].y == p.1 && cells[i].z
                == p.2].local
    } else {
        0
    }
}

/// With unique positions, a stored cell decides the lookup at its position.
proof fn lemma_sp_local(cells: Seq<SparseCell>, i: int)
    requires
        sp_unique(cells),
        0 <= i < cells.len(),
    ensures
        sp_has(cells, (cells[i].x, cells[i].y, cells[i].z)),
        sp_local(cells, (cells[i].x, cells[i].y, cells[i].z)) == cells[i].local,
{
    let p = (cells[i].x, cells[i].y, cells[i].z);
    assert(sp_has(cells, p));
    let k = choose|k: int|
        0 <= k < cells.len() && cells[k].x == p.0 && cells[k].y == p.1 && cells[k].z == p.2;
    if k != i {
        assert(!(cells[k].x == cells[i].x && cells[k].y == cells[i].y && cells[k].z
            == cells[i].z));
    }
}

/// Sparse chunk representation for regions with few occupied voxels:
/// a list of stored positions, each with a local palette index.
#[derive(Debug)]
pub struct ChunkSparse {
    pub cells: Vec<SparseCell>,
    pub palette: ChunkPalette,
}

impl ChunkSparse {
    /// The global palette index stored at `p`; 0 means empty.
    pub open spec fn spec_at(&self, p: (u8, u8, u8)) -> usize {
        self.palette.entries()[sp_local(self.cells@, p) as int]
    }

    /// Well-formedness: unique positions whose locals all resolve in the
    /// local palette, and only local 0 maps to global 0.
    pub open spec fn wf(&self) -> bool {
        &&& self.palette.wf()
        &&& sp_unique(self.cells@)
        &&& forall|i: int|
            0 <= i < self.cells@.len() ==> (#[trigger] self.cells@[i].local as int)
                < self.palette.entries().len()
        &&& forall|i: int|
            0 <= i < self.cells@.len() && #[trigger] self.cells@[i].local != 0
                ==> self.palette.entries()[self.cells@[i].local as int] != 0
    }

    /// A fresh, entirely empty sparse chunk.
    pub fn new() -> (r: ChunkSparse)
        ensures
            r.wf(),
            forall|p: (u8, u8, u8)| #[trigger] r.spec_at(p) == 0,
    {
        ChunkSparse { cells: Vec::new(), palette: ChunkPalette::new() }
    }

    /// A deep copy of the chunk.
    pub fn duplicate(&self) -> (r: ChunkSparse)
        ensures
            r.cells@ == self.cells@,
            r.palette.entries() == self.palette.entries(),
            self.wf() ==> r.wf(),
            forall|p: (u8, u8, u8)| #[trigger] r.spec_at(p) == self.spec_at(p),
    {
        let n = self.cells.len();
        let mut cells: Vec<SparseCell> = Vec::new();
        let mut i: usize = 0;
        while i < n
            invariant
                n == self.cells@.len(),
                i <= n,
                cells@.len() == i,
                forall|j: int| 0 <= j < i ==> #[trigger] cells@[j] == self.cells@[j],
            decreases n - i,
        {
            cells.push(self.cells[i]);
            i += 1;
        }
        proof {
            assert(cells@ =~= self.cells@);
        }
        ChunkSparse { cells, palette: self.palette.duplicate() }
    }

    /// Position of the entry at `p` in the cell list.
    fn find(&self, p: (u8, u8, u8)) -> (r: Option<usize>)
        ensures
            match r {
                Some(i) => i < self.cells@.len() && self.cells@[i as int].x == p.0
                    && self.cells@[i as int].y == p.1 && self.cells@[i as int].z == p.2,
                None => !sp_has(self.cells@, p),
            },
    {
        let n = self.cells.len();
        let mut i: usize = 0;
        while i < n
            invariant
                n == self.cells@.len(),
                i <= n,
                forall|j: int|
                    0 <= j < i ==> !((#[trigger] self.cells@[j]).x == p.0 && self.cells@[j].y
                        == p.1 && self.cells@[j].z == p.2),
            decreases n - i,
        {
            let c = self.cells[i];
            if c.x == p.0 && c.y == p.1 && c.z == p.2 {
                return Some(i);
            }
            i += 1;
        }
        None
    }

    /// Stores the block with global index `block_index` at `p`.
    pub fn set(&mut self, p: (u8, u8, u8), block_index: usize)
        requires
            old(self).wf(),
            local_valid(p),
            block_index < LOCAL_PALETTE_CAP,
        ensures
            final(self).wf(),
            final(self).spec_at(p) == block_index,
            forall|q: (u8, u8, u8)| q != p ==> final(self).spec_at(q) == old(self).spec_at(q),
    {
        let ghost oldcells = self.cells@;
        let local = self.palette.to_local(block_index);
        let newcell = SparseCell { x: p.0, y: p.1, z: p.2, local };
        match self.find(p) {
            Some(k) => {
                self.cells.set(k, newcell);
                proof {
                    let cells = self.cells@;
                    assert(sp_unique(cells)) by {
                        assert forall|i: int, j: int| 0 <= i < j < cells.len() implies !(cells[i].x
                            == cells[j].x && cells[i].y == cells[j].y && cells[i].z
                            == cells[j].z) by {
                            assert(!(oldcells[i].x == oldcells[j].x && oldcells[i].y
                                == oldcells[j].y && oldcells[i].z == oldcells[j].z));
                        }
                    }
                    lemma_sp_local(cells, k as int);
                    assert forall|q: (u8, u8, u8)| q != p implies final(self).spec_at(q) == old(
                        self,
                    ).spec_at(q) by {
                        Self::lemma_frame(oldcells, cells, k as int, p, q);
                        let l = sp_local(oldcells, q);
                        if sp_has(oldcells, q) {
                            let i = choose|i: int|
                                0 <= i < oldcells.len() && oldcells[i].x == q.0 && oldcells[i].y
                                    == q.1 && oldcells[i].z == q.2;
                            lemma_sp_local(oldcells, i);
                        }
                        assert(l == 0 || old(self).palette.entries()[l as int] != 0);
                    }
                }
            },
            None => {
                self.cells.push(newcell);
                proof {
                    let cells = self.cells@;
                    let n = oldcells.len() as int;
                    assert(sp_unique(cells)) by {
                        assert forall|i: int, j: int| 0 <= i < j < cells.len() implies !(cells[i].x
                            == cells[j].x && cells[i].y == cells[j].y && cells[i].z
                            == cells[j].z) by {
                            if j == n {
                                assert(cells[i] == oldcells[i]);
                                if cells[i].x == p.0 && cells[i].y == p.1 && cells[i].z == p.2 {
                                    assert(sp_has(oldcells, p));
                                }
                            } else {
                                assert(!(oldcells[i].x == oldcells[j].x && oldcells[i].y
                                    == oldcells[j].y && oldcells[i].z == oldcells[j].z));
                            }
                        }
                    }
                    lemma_sp_local(cells, n);
                    assert forall|q: (u8, u8, u8)| q != p implies final(self).spec_at(q) == old(
                        self,
                    ).spec_at(q) by {
                        Self::lemma_frame_push(oldcells, cells, p, q);
                        let l = sp_local(oldcells, q);
                        if sp_has(oldcells, q) {
                            let i = choose|i: int|
                                0 <= i < oldcells.len() && oldcells[i].x == q.0 && oldcells[i].y
                                    == q.1 && oldcells[i].z == q.2;
                            lemma_sp_local(oldcells, i);
                        }
                        assert(l == 0 || old(self).palette.entries()[l as int] != 0);
                    }
                }
            },
        }
    }

    /// Overwriting the entry at position `p` leaves other lookups as
    /// they were.
    proof fn lemma_frame(
        oldcells: Seq<SparseCell>,
        cells: Seq<SparseCell>,
        k: int,
        p: (u8, u8, u8),
        q: (u8, u8, u8),
    )
        requires
            sp_unique(oldcells),
            sp_unique(cells),
            0 <= k < oldcells.len(),
            cells.len() == oldcells.len(),
            oldcells[k].x == p.0 && oldcells[k].y == p.1 && oldcells[k].z == p.2,
            cells[k].x == p.0 && cells[k].y == p.1 && cells[k].z == p.2,
            forall|j: int| 0 <= j < cells.len() && j != k ==> #[trigger] cells[j] == oldcells[j],
            q != p,
        ensures
            sp_local(cells, q) == sp_local(oldcells, q),
    {
        if sp_has(oldcells, q) {
            let i = choose|i: int|
                0 <= i < oldcells.len() && oldcells[i].x == q.0 && oldcells[i].y == q.1
                    && oldcells[i].z == q.2;
            lemma_sp_local(oldcells, i);
            assert(i != k);
            assert(cells[i] == oldcells[i]);
            lemma_sp_local(cells, i);
        } else {
            assert(!sp_has(cells, q)) by {
                if sp_has(cells, q) {
                    let i = choose|i: int|
                        0 <= i < cells.len() && cells[i].x == q.0 && cells[i].y == q.1
                            && cells[i].z == q.2;
                    assert(i != k);
                    assert(cells[i] == oldcells[i]);
                    assert(sp_has(oldcells, q));
                }
            }
        }
    }

    /// Appending an entry for an absent position leaves other lookups as
    /// they were.
    proof fn lemma_frame_push(
        oldcells: Seq<SparseCell>,
        cells: Seq<SparseCell>,
        p: (u8, u8, u8),
        q: (u8, u8, u8),
    )
        requires
            sp_unique(oldcells),
            sp_unique(cells),
            cells.len() == oldcells.len() + 1,
            forall|j: int| 0 <= j < oldcells.len() ==> #[trigger] cells[j] == oldcells[j],
            cells.last().x == p.0 && cells.last().y == p.1 && cells.last().z == p.2,
            q != p,
        ensures
            sp_local(cells, q) == sp_local(oldcells, q),
    {
        let n = oldcells.len() as int;
        if sp_has(oldcells, q) {
            let i = choose|i: int|
                0 <= i < oldcells.len() && oldcells[i].x == q.0 && oldcells[i].y == q.1
                    && oldcells[i].z == q.2;
            lemma_sp_local(oldcells, i);
            assert(cells[i] == oldcells[i]);
            lemma_sp_local(cells, i);
        } else {
            assert(!sp_has(cells, q)) by {
                if sp_has(cells, q) {
                    let i = choose|i: int|
                        0 <= i < cells.len() && cells[i].x == q.0 && cells[i].y == q.1
                            && cells[i].z == q.2;
                    if i < n {
                        assert(cells[i] == oldcells[i]);
                        assert(sp_has(oldcells, q));
                    }
                }
            }
        }
    }

    /// Runtime validation: accepts only well-formed chunks.  Used when a
    /// chunk arrives from outside (a pager) and nothing is known of it.
    pub fn check_wf(&self) -> (r: bool)
        ensures
            r ==> self.wf(),
    {
        if !self.palette.check_wf() {
            return false;
        }
        let plen = self.palette.len_entries();
        let n = self.cells.len();
        let mut i: usize = 0;
        while i < n
            invariant
                self.palette.wf(),
                plen == self.palette.entries().len(),
                n == self.cells@.len(),
                i <= n,
                forall|j: int|
                    0 <= j < i ==> (#[trigger] self.cells@[j].local as int)
                        < self.palette.entries().len(),
                forall|j: int|
                    0 <= j < i && #[trigger] self.cells@[j].local != 0
                        ==> self.palette.entries()[self.cells@[j].local as int] != 0,
                forall|a: int, b: int|
                    0 <= a < b < i ==> !((#[trigger] self.cells@[a]).x == (
                    #[trigger] self.cells@[b]).x && self.cells@[a].y == self.cells@[b].y
                        && self.cells@[a].z == self.cells@[b].z),
            decreases n - i,
        {
            let c = self.cells[i];
            if (c.local as usize) >= plen {
                return false;
            }
            if c.local != 0 && self.palette.to_global(c.local) == 0 {
                return false;
            }
            let mut j: usize = 0;
            while j < i
                invariant
                    n == self.cells@.len(),
                    i < n,
                    j <= i,
                    c == self.cells@[i as int],
                    forall|a: int|
                        0 <= a < j ==> !((#[trigger] self.cells@[a]).x == self.cells@[i as int].x
                            && self.cells@[a].y == self.cells@[i as int].y && self.cells@[a].z
                            == self.cells@[i as int].z),
                decreases i - j,
            {
                let d = self.cells[j];
                if d.x == c.x && d.y == c.y && d.z == c.z {
                    return false;
                }
                j += 1;
            }
            i += 1;
        }
        true
    }

    /// True when the voxel at `p` stores nothing.
    pub fn is_voxel_empty(&self, p: (u8, u8, u8)) -> (r: bool)
        requires
            self.wf(),
        ensures
            r == (self.spec_at(p) == 0),
    {
        let local = self.get_local(p);
        proof {
            if local != 0 {
                if sp_has(self.cells@, p) {
                    let i = choose|i: int|
                        0 <= i < self.cells@.len() && self.cells@[i].x == p.0 && self.cells@[i].y
                            == p.1 && self.cells@[i].z == p.2;
                    assert(self.cells@[i].local != 0 ==> self.palette.entries()[self.cells@[i].local as int]
                        != 0);
                }
            }
        }
        local == 0
    }

    /// The local palette index stored at `p`; 0 when absent.
    pub fn get_local(&self, p: (u8, u8, u8)) -> (r: u8)
        requires
            self.wf(),
        ensures
            r == sp_local(self.cells@, p),
            (r as int) < self.palette.entries().len(),
    {
        match self.find(p) {
            Some(i) => {
                proof {
                    lemma_sp_local(self.cells@, i as int);
                }
                self.cells[i].local
            },
            None => 0,
        }
    }

    /// The global palette index stored at `p`.
    pub fn get_voxel(&self, p: (u8, u8, u8)) -> (r: usize)
        requires
            self.wf(),
        ensures
            r == self.spec_at(p),
    {
        let local = self.get_local(p);
        if local == 0 {
            0
        } else {
            self.palette.to_global(local)
        }
    }
}

} // verus!
