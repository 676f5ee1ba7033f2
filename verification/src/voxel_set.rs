use vstd::prelude::*;
use crate::block::Block;
use crate::block::BlockShader;
use crate::ivec3::IVec3;
use crate::ibox3::IBox3;
use crate::voxel_palette::PaletteIndex;
use crate::voxel_palette::VoxelPalette;
use crate::voxel_palette::ensure_res;
use crate::voxel_palette::ensure_idx;
use crate::voxel_palette::id_index;
use crate::voxel_palette::has_id;

verus! {

/// One stored voxel of a column: its height and the palette index of its
/// block.  Index 0 stands for "empty", exactly like an absent entry.
#[derive(Debug, Clone, Copy, PartialEq, Eq, Structural)]
pub struct Cell {
    pub z: i32,
    pub index: u16,
}

/// One vertical column of voxels at a fixed (x, y).  Column storage is a
/// deliberate choice: "height at a column" and "topmost block of a
/// column" are the most frequent queries of the generators.
#[derive(Debug)]
pub struct Column {
    pub x: i32,
    pub y: i32,
    pub cells: Vec<Cell>,
}

/// No two cells of a column share a height.
pub open spec fn unique_z(cells: Seq<Cell>) -> bool {
    forall|i: int, j: int| 0 <= i < j < cells.len() ==> cells[i].z != cells[j].z
}

/// True when the column stores an entry at height `z`.
pub open spec fn cell_has(cells: Seq<Cell>, z: int) -> bool {
    exists|i: int| 0 <= i < cells.len() && cells[i].z == z
}

/// The palette index the column stores at height `z`; 0 when absent.
pub open spec fn cell_at(cells: Seq<Cell>, z: int) -> u16 {
    if cell_has(cells, z) {
        cells[choose|i: int| 0 <= i < cells.len() && cells[i].z == z].index
    } else {
        0
    }
}

/// No two columns share an (x, y) key.
pub open spec fn unique_cols(cols: Seq<Column>) -> bool {
    forall|i: int, j: int|
        0 <= i < j < cols.len() ==> !(cols[i].x == cols[j].x && cols[i].y == cols[j].y)
}

/// True when a column with key (x, y) is stored.
pub open spec fn col_has(cols: Seq<Column>, x: int, y: int) -> bool {
    exists|i: int| 0 <= i < cols.len() && cols[i].x == x && cols[i].y == y
}

/// The cells of the column with key (x, y); empty when absent.
pub open spec fn col_cells(cols: Seq<Column>, x: int, y: int) -> Seq<Cell> {
    if col_has(cols, x, y) {
        cols[choose|i: int| 0 <= i < cols.len() && cols[i].x == x && cols[i].y == y].cells@
    } else {
        Seq::empty()
    }
}

/// With unique heights, a stored cell decides the lookup at its height.
pub proof fn lemma_cell_at(cells: Seq<Cell>, i: int)
    requires
        unique_z(cells),
        0 <= i < cells.len(),
    ensures
        cell_has(cells, cells[i].z as int),
        cell_at(cells, cells[i].z as int) == cells[i].index,
{
    let z = cells[i].z as int;
    assert(cell_has(cells, z));
    let k = choose|k: int| 0 <= k < cells.len() && cells[k].z == z;
    if k != i {
        assert(cells[k].z != cells[i].z);
    }
}

/// Overwriting the cell that holds height `z` changes lookups at `z` only.
pub proof fn lemma_cell_update(oldcells: Seq<Cell>, k: int, z: i32, idx: u16)
    requires
        unique_z(oldcells),
        0 <= k < oldcells.len(),
        oldcells[k].z == z,
    ensures
        unique_z(oldcells.update(k, Cell { z, index: idx })),
        cell_at(oldcells.update(k, Cell { z, index: idx }), z as int) == idx,
        forall|w: int|
            w != z ==> cell_at(oldcells.update(k, Cell { z, index: idx }), w) == cell_at(
                oldcells,
                w,
            ),
{
    let newcells = oldcells.update(k, Cell { z, index: idx });
    assert(unique_z(newcells)) by {
        assert forall|i: int, j: int| 0 <= i < j < newcells.len() implies newcells[i].z
            != newcells[j].z by {
            assert(oldcells[i].z != oldcells[j].z);
        }
    }
    lemma_cell_at(newcells, k);
    assert forall|w: int| w != z implies cell_at(newcells, w) == cell_at(oldcells, w) by {
        if cell_has(oldcells, w) {
            let i = choose|i: int| 0 <= i < oldcells.len() && oldcells[i].z == w;
            assert(i != k);
            lemma_cell_at(oldcells, i);
            assert(newcells[i].z == w);
            lemma_cell_at(newcells, i);
        } else {
            assert(!cell_has(newcells, w)) by {
                if cell_has(newcells, w) {
                    let i = choose|i: int| 0 <= i < newcells.len() && newcells[i].z == w;
                    assert(i != k);
                    assert(oldcells[i].z == w);
                }
            }
        }
    }
}

/// Appending a cell for an absent height changes lookups at `z` only.
pub proof fn lemma_cell_push(oldcells: Seq<Cell>, z: i32, idx: u16)
    requires
        unique_z(oldcells),
        !cell_has(oldcells, z as int),
    ensures
        unique_z(oldcells.push(Cell { z, index: idx })),
        cell_at(oldcells.push(Cell { z, index: idx }), z as int) == idx,
        forall|w: int|
            w != z ==> cell_at(oldcells.push(Cell { z, index: idx }), w) == cell_at(oldcells, w),
{
    let newcells = oldcells.push(Cell { z, index: idx });
    let n = oldcells.len() as int;
    assert(unique_z(newcells)) by {
        assert forall|i: int, j: int| 0 <= i < j < newcells.len() implies newcells[i].z
            != newcells[j].z by {
            if j == n {
                assert(newcells[i] == oldcells[i]);
                if oldcells[i].z == z {
                    assert(cell_has(oldcells, z as int));
                }
            } else {
                assert(oldcells[i].z != oldcells[j].z);
            }
        }
    }
    lemma_cell_at(newcells, n);
    assert forall|w: int| w != z implies cell_at(newcells, w) == cell_at(oldcells, w) by {
        if cell_has(oldcells, w) {
            let i = choose|i: int| 0 <= i < oldcells.len() && oldcells[i].z == w;
            lemma_cell_at(oldcells, i);
            assert(newcells[i].z == w);
            lemma_cell_at(newcells, i);
        } else {
            assert(!cell_has(newcells, w)) by {
                if cell_has(newcells, w) {
                    let i = choose|i: int| 0 <= i < newcells.len() && newcells[i].z == w;
                    assert(i != n);
                    assert(oldcells[i].z == w);
                }
            }
        }
    }
}

/// With unique keys, a stored column decides the lookup at its key.
pub proof fn lemma_col_cells(cols: Seq<Column>, i: int)
    requires
        unique_cols(cols),
        0 <= i < cols.len(),
    ensures
        col_has(cols, cols[i].x as int, cols[i].y as int),
        col_cells(cols, cols[i].x as int, cols[i].y as int) == cols[i].cells@,
{
    let x = cols[i].x as int;
    let y = cols[i].y as int;
    assert(col_has(cols, x, y));
    let k = choose|k: int| 0 <= k < cols.len() && cols[k].x == x && cols[k].y == y;
    if k != i {
        assert(!(cols[k].x == cols[i].x && cols[k].y == cols[i].y));
    }
}

/// VoxelSet is the bounded voxel container for individually sized models
/// (trees, chests, hills) that fit in memory as a whole.  It pairs a
/// deduplicating palette with sparse column-major storage.
///
/// An absent column, an absent height entry, and a stored index 0 all
/// denote "empty" and are treated identically by every reader.
#[derive(Debug)]
pub struct VoxelSet {
    pub palette: VoxelPalette,
    pub columns: Vec<Column>,
}

impl VoxelSet {
    /// The palette index stored at (x, y, z); 0 when nothing is.
    pub open spec fn vox(&self, x: int, y: int, z: int) -> u16 {
        cell_at(col_cells(self.columns@, x, y), z)
    }

    /// Well-formedness: the palette is well-formed, column keys and
    /// heights are unique, and every stored index resolves in the palette.
    pub open spec fn wf(&self) -> bool {
        &&& self.palette.wf()
        &&& unique_cols(self.columns@)
        &&& forall|i: int| 0 <= i < self.columns@.len() ==> unique_z(#[trigger] self.columns@[i].cells@)
        &&& forall|i: int, j: int|
            0 <= i < self.columns@.len() && 0 <= j < self.columns@[i].cells@.len()
                ==> (#[trigger] self.columns@[i].cells@[j]).index < self.palette.blocks@.len()
    }

    /// Every voxel of a well-formed set resolves in the palette.
    pub proof fn lemma_vox_in_palette(&self, x: int, y: int, z: int)
        requires
            self.wf(),
        ensures
            self.vox(x, y, z) < self.palette.blocks@.len(),
    {
        if col_has(self.columns@, x, y) {
            let i = choose|i: int|
                0 <= i < self.columns@.len() && self.columns@[i].x == x && self.columns@[i].y == y;
            let cells = self.columns@[i].cells@;
            if cell_has(cells, z) {
                let j = choose|j: int| 0 <= j < cells.len() && cells[j].z == z;
                assert(self.columns@[i].cells@[j].index < self.palette.blocks@.len());
            }
        }
    }

    /// A fresh, fully empty voxel set with the canonical palette.
    pub fn new() -> (r: VoxelSet)
        ensures
            r.wf(),
            r.palette.blocks@.len() == 1,
            forall|x: int, y: int, z: int| r.vox(x, y, z) == 0,
    {
        let r = VoxelSet { palette: VoxelPalette::new(), columns: Vec::new() };
        proof {
            assert(forall|x: int, y: int, z: int| r.vox(x, y, z) == 0);
        }
        r
    }

    /// Registers a block definition by id; see [`VoxelPalette::register`].
    pub fn register_block(&mut self, block: Block) -> (r: PaletteIndex)
        requires
            old(self).wf(),
            old(self).palette.blocks@.len() < 0xFFFF,
        ensures
            final(self).wf(),
            final(self).columns@ == old(self).columns@,
            r.0 < final(self).palette.blocks@.len(),
            block.id@ != "empty"@ ==> final(self).palette.blocks@[r.0 as int] == block,
            !has_id(old(self).palette.blocks@, block.id@) ==> final(self).palette.blocks@ == old(
                self,
            ).palette.blocks@.push(block),
            old(self).palette.blocks@.len() <= final(self).palette.blocks@.len() <= old(
                self,
            ).palette.blocks@.len() + 1,
            forall|x: int, y: int, z: int| final(self).vox(x, y, z) == old(self).vox(x, y, z),
    {
        self.palette.register(block)
    }

    /// Adds a block definition deduplicated by equivalence; see
    /// [`VoxelPalette::ensure`].
    pub fn ensure_block(&mut self, block: Block) -> (r: PaletteIndex)
        requires
            old(self).wf(),
            old(self).palette.blocks@.len() < 0xFFFF,
        ensures
            final(self).wf(),
            final(self).columns@ == old(self).columns@,
            final(self).palette.blocks@ == ensure_res(old(self).palette.blocks@, block),
            r.0 == ensure_idx(old(self).palette.blocks@, block),
            r.0 < final(self).palette.blocks@.len(),
            forall|x: int, y: int, z: int| final(self).vox(x, y, z) == old(self).vox(x, y, z),
    {
        self.palette.ensure(block)
    }

    /// Position of the column with key (x, y) in the backing vector.
    fn find_col(&self, x: i32, y: i32) -> (r: Option<usize>)
        ensures
            match r {
                Some(i) => i < self.columns@.len() && self.columns@[i as int].x == x
                    && self.columns@[i as int].y == y,
                None => !col_has(self.columns@, x as int, y as int),
            },
    {
        let n = self.columns.len();
        let mut i: usize = 0;
        while i < n
            invariant
                n == self.columns@.len(),
                i <= n,
                forall|j: int|
                    0 <= j < i ==> !((#[trigger] self.columns@[j]).x == x && self.columns@[j].y
                        == y),
            decreases n - i,
        {
            if self.columns[i].x == x && self.columns[i].y == y {
                return Some(i);
            }
            i += 1;
        }
        None
    }

    /// Position of the entry at height `z` in a column's cell vector.
    fn find_cell(cells: &Vec<Cell>, z: i32) -> (r: Option<usize>)
        ensures
            match r {
                Some(i) => i < cells@.len() && cells@[i as int].z == z,
                None => !cell_has(cells@, z as int),
            },
    {
        let n = cells.len();
        let mut i: usize = 0;
        while i < n
            invariant
                n == cells@.len(),
                i <= n,
                forall|j: int| 0 <= j < i ==> (#[trigger] cells@[j]).z != z,
            decreases n - i,
        {
            if cells[i].z == z {
                return Some(i);
            }
            i += 1;
        }
        None
    }

    /// Stores a palette index at `vc`, overwriting any previous entry.
    pub fn set(&mut self, vc: IVec3, index: PaletteIndex)
        requires
            old(self).wf(),
            index.0 < old(self).palette.blocks@.len(),
        ensures
            final(self).wf(),
            final(self).palette == old(self).palette,
            final(self).vox(vc.x as int, vc.y as int, vc.z as int) == index.0,
            forall|x: int, y: int, z: int|
                !(x == vc.x && y == vc.y && z == vc.z) ==> final(self).vox(x, y, z) == old(
                    self,
                ).vox(x, y, z),
    {
        let ghost oldcols = self.columns@;
        match self.find_col(vc.x, vc.y) {
            Some(ci) => {
                let mut col = self.columns.swap_remove(ci);
                let ghost mid = self.columns@;
                let ghost oldcells = col.cells@;
                proof {
                    assert(unique_z(oldcells));
                    assert(forall|j: int|
                        0 <= j < oldcells.len() ==> (#[trigger] oldcells[j]).index < old(
                            self,
                        ).palette.blocks@.len()) by {
                        assert(oldcols[ci as int].cells@ == oldcells);
                    }
                }
                match Self::find_cell(&col.cells, vc.z) {
                    Some(k) => {
                        col.cells.set(k, Cell { z: vc.z, index: index.0 });
                        proof {
                            lemma_cell_update(oldcells, k as int, vc.z, index.0);
                        }
                    },
                    None => {
                        col.cells.push(Cell { z: vc.z, index: index.0 });
                        proof {
                            lemma_cell_push(oldcells, vc.z, index.0);
                        }
                    },
                }
                let ghost newcells = col.cells@;
                self.columns.push(col);
                proof {
                    assert(forall|j: int|
                        0 <= j < oldcols.len() - 1 ==> #[trigger] self.columns@[j] == (if j
                            == ci as int {
                            oldcols[oldcols.len() - 1]
                        } else {
                            oldcols[j]
                        }));
                    self.lemma_set_shape(*old(self), oldcols, ci as int, oldcells, newcells, vc, index.0);
                }
            },
            None => {
                let mut cells = Vec::new();
                cells.push(Cell { z: vc.z, index: index.0 });
                self.columns.push(Column { x: vc.x, y: vc.y, cells });
                proof {
                    self.lemma_set_fresh(*old(self), oldcols, vc, index.0);
                }
            },
        }
    }

    /// After replacing the column at `ci` with the same key and new cells
    /// (moved to the back), lookups change only at `vc`.
    proof fn lemma_set_shape(
        &self,
        prev: VoxelSet,
        oldcols: Seq<Column>,
        ci: int,
        oldcells: Seq<Cell>,
        newcells: Seq<Cell>,
        vc: IVec3,
        idx: u16,
    )
        requires
            prev.wf(),
            idx < prev.palette.blocks@.len(),
            oldcols == prev.columns@,
            0 <= ci < oldcols.len(),
            oldcols[ci].x == vc.x && oldcols[ci].y == vc.y,
            oldcells == oldcols[ci].cells@,
            self.palette == prev.palette,
            // shape of the final column vector
            self.columns@.len() == oldcols.len(),
            self.columns@.last().x == vc.x && self.columns@.last().y == vc.y,
            self.columns@.last().cells@ == newcells,
            forall|j: int|
                0 <= j < oldcols.len() - 1 ==> #[trigger] self.columns@[j] == (if j == ci {
                    oldcols[oldcols.len() - 1]
                } else {
                    oldcols[j]
                }),
            // shape of the new cells
            unique_z(newcells),
            forall|z: int| z != vc.z ==> cell_at(newcells, z) == cell_at(oldcells, z),
            cell_at(newcells, vc.z as int) == idx,
            forall|j: int| 0 <= j < newcells.len() ==> (#[trigger] newcells[j]).index < prev.palette.blocks@.len(),
        ensures
            self.wf(),
            self.vox(vc.x as int, vc.y as int, vc.z as int) == idx,
            forall|x: int, y: int, z: int|
                !(x == vc.x && y == vc.y && z == vc.z) ==> self.vox(x, y, z) == prev.vox(x, y, z),
    {
        let cols = self.columns@;
        let n = oldcols.len() as int;
        // unique keys are preserved: the multiset of keys is preserved
        assert(unique_cols(cols)) by {
            assert forall|i: int, j: int| 0 <= i < j < cols.len() implies !(cols[i].x == cols[j].x
                && cols[i].y == cols[j].y) by {
                let oi = if i == ci {
                    n - 1
                } else if i == n - 1 {
                    ci
                } else {
                    i
                };
                let oj = if j == ci {
                    n - 1
                } else if j == n - 1 {
                    ci
                } else {
                    j
                };
                assert(cols[i].x == oldcols[oi].x && cols[i].y == oldcols[oi].y);
                assert(cols[j].x == oldcols[oj].x && cols[j].y == oldcols[oj].y);
                assert(oi != oj);
            }
        }
        assert forall|i: int| 0 <= i < cols.len() implies unique_z(#[trigger] cols[i].cells@) by {
            if i == n - 1 {
            } else if i == ci {
                assert(cols[i] == oldcols[n - 1]);
            } else {
                assert(cols[i] == oldcols[i]);
            }
        }
        assert forall|i: int, j: int|
            0 <= i < cols.len() && 0 <= j < cols[i].cells@.len() implies (#[trigger] cols[i].cells@[j]).index
            < self.palette.blocks@.len() by {
            if i == n - 1 {
            } else if i == ci {
                assert(cols[i] == oldcols[n - 1]);
            } else {
                assert(cols[i] == oldcols[i]);
            }
        }
        // lookup at the written key
        lemma_col_cells(cols, n - 1);
        assert(col_cells(cols, vc.x as int, vc.y as int) == newcells);
        // lookups elsewhere
        assert forall|x: int, y: int, z: int|
            !(x == vc.x && y == vc.y && z == vc.z) implies self.vox(x, y, z) == prev.vox(
            x,
            y,
            z,
        ) by {
            if x == vc.x && y == vc.y {
                lemma_col_cells(oldcols, ci);
                assert(col_cells(oldcols, x, y) == oldcells);
                assert(cell_at(newcells, z) == cell_at(oldcells, z));
            } else {
                if col_has(oldcols, x, y) {
                    let k = choose|k: int|
                        0 <= k < oldcols.len() && oldcols[k].x == x && oldcols[k].y == y;
                    lemma_col_cells(oldcols, k);
                    let nk = if k == n - 1 {
                        ci
                    } else {
                        k
                    };
                    assert(k != ci);
                    assert(cols[nk] == oldcols[k]);
                    lemma_col_cells(cols, nk);
                } else {
                    assert(!col_has(cols, x, y)) by {
                        if col_has(cols, x, y) {
                            let k = choose|k: int|
                                0 <= k < cols.len() && cols[k].x == x && cols[k].y == y;
                            if k == n - 1 {
                                assert(false);
                            } else if k == ci {
                                assert(cols[k] == oldcols[n - 1]);
                                assert(col_has(oldcols, x, y));
                            } else {
                                assert(cols[k] == oldcols[k]);
                                assert(col_has(oldcols, x, y));
                            }
                        }
                    }
                }
            }
        }
    }

    /// After appending a fresh one-cell column for an absent key, lookups
    /// change only at `vc`.
    proof fn lemma_set_fresh(&self, prev: VoxelSet, oldcols: Seq<Column>, vc: IVec3, idx: u16)
        requires
            prev.wf(),
            idx < prev.palette.blocks@.len(),
            oldcols == prev.columns@,
            !col_has(oldcols, vc.x as int, vc.y as int),
            self.palette == prev.palette,
            self.columns@.len() == oldcols.len() + 1,
            forall|j: int| 0 <= j < oldcols.len() ==> #[trigger] self.columns@[j] == oldcols[j],
            self.columns@.last().x == vc.x && self.columns@.last().y == vc.y,
            self.columns@.last().cells@ =~= seq![Cell { z: vc.z, index: idx }],
        ensures
            self.wf(),
            self.vox(vc.x as int, vc.y as int, vc.z as int) == idx,
            forall|x: int, y: int, z: int|
                !(x == vc.x && y == vc.y && z == vc.z) ==> self.vox(x, y, z) == prev.vox(x, y, z),
    {
        let cols = self.columns@;
        let n = oldcols.len() as int;
        assert(unique_cols(cols)) by {
            assert forall|i: int, j: int| 0 <= i < j < cols.len() implies !(cols[i].x == cols[j].x
                && cols[i].y == cols[j].y) by {
                if j == n {
                    assert(cols[i] == oldcols[i]);
                    if cols[i].x == vc.x && cols[i].y == vc.y {
                        assert(col_has(oldcols, vc.x as int, vc.y as int));
                    }
                }
            }
        }
        let newcells = cols.last().cells@;
        assert(unique_z(newcells));
        lemma_col_cells(cols, n);
        lemma_cell_at(newcells, 0);
        assert(self.vox(vc.x as int, vc.y as int, vc.z as int) == idx);
        assert forall|i: int| 0 <= i < cols.len() implies unique_z(#[trigger] cols[i].cells@) by {
            if i < n {
                assert(cols[i] == oldcols[i]);
            }
        }
        assert forall|i: int, j: int|
            0 <= i < cols.len() && 0 <= j < cols[i].cells@.len() implies (#[trigger] cols[i].cells@[j]).index
            < self.palette.blocks@.len() by {
            if i < n {
                assert(cols[i] == oldcols[i]);
            }
        }
        assert forall|x: int, y: int, z: int|
            !(x == vc.x && y == vc.y && z == vc.z) implies self.vox(x, y, z) == prev.vox(
            x,
            y,
            z,
        ) by {
            if x == vc.x && y == vc.y {
                assert(col_cells(cols, x, y) == newcells);
                if z != vc.z {
                    assert(!cell_has(newcells, z)) by {
                        if cell_has(newcells, z) {
                            let k = choose|k: int|
                                0 <= k < newcells.len() && newcells[k].z == z;
                            assert(k == 0);
                        }
                    }
                    assert(cell_at(newcells, z) == 0);
                    assert(prev.vox(x, y, z) == 0);
                }
            } else {
                if col_has(oldcols, x, y) {
                    let k = choose|k: int|
                        0 <= k < oldcols.len() && oldcols[k].x == x && oldcols[k].y == y;
                    lemma_col_cells(oldcols, k);
                    assert(cols[k] == oldcols[k]);
                    lemma_col_cells(cols, k);
                } else {
                    assert(!col_has(cols, x, y)) by {
                        if col_has(cols, x, y) {
                            let k = choose|k: int|
                                0 <= k < cols.len() && cols[k].x == x && cols[k].y == y;
                            if k < n {
                                assert(cols[k] == oldcols[k]);
                                assert(col_has(oldcols, x, y));
                            }
                        }
                    }
                }
            }
        }
    }
}

impl VoxelSet {
    /// Removing the cell that holds height `z` (swap-remove) empties the
    /// lookup at `z` and changes nothing else.
    proof fn lemma_cell_swap_remove(oldcells: Seq<Cell>, k: int, z: i32)
        requires
            unique_z(oldcells),
            0 <= k < oldcells.len(),
            oldcells[k].z == z,
        ensures
            unique_z(oldcells.update(k, oldcells.last()).drop_last()),
            cell_at(oldcells.update(k, oldcells.last()).drop_last(), z as int) == 0,
            forall|w: int|
                w != z ==> cell_at(oldcells.update(k, oldcells.last()).drop_last(), w) == cell_at(
                    oldcells,
                    w,
                ),
    {
        let newcells = oldcells.update(k, oldcells.last()).drop_last();
        let n = oldcells.len() as int;
        assert forall|i: int, j: int| 0 <= i < j < newcells.len() implies newcells[i].z
            != newcells[j].z by {
            let oi = if i == k { n - 1 } else { i };
            let oj = if j == k { n - 1 } else { j };
            assert(newcells[i] == oldcells[oi]);
            assert(newcells[j] == oldcells[oj]);
            assert(oi != oj);
        }
        assert(!cell_has(newcells, z as int)) by {
            if cell_has(newcells, z as int) {
                let i = choose|i: int| 0 <= i < newcells.len() && newcells[i].z == z;
                let oi = if i == k { n - 1 } else { i };
                assert(newcells[i] == oldcells[oi]);
                if oi != k {
                    assert(oldcells[oi].z != oldcells[k].z);
                }
            }
        }
        assert forall|w: int| w != z implies cell_at(newcells, w) == cell_at(oldcells, w) by {
            if cell_has(oldcells, w) {
                let i = choose|i: int| 0 <= i < oldcells.len() && oldcells[i].z == w;
                lemma_cell_at(oldcells, i);
                assert(i != k);
                if i == n - 1 {
                    // the last cell moved into slot k (k < n - 1 since k != i)
                    assert(newcells[k] == oldcells[n - 1]);
                    lemma_cell_at(newcells, k);
                } else {
                    assert(newcells[i] == oldcells[i]);
                    lemma_cell_at(newcells, i);
                }
            } else {
                assert(!cell_has(newcells, w)) by {
                    if cell_has(newcells, w) {
                        let i = choose|i: int| 0 <= i < newcells.len() && newcells[i].z == w;
                        let oi = if i == k { n - 1 } else { i };
                        assert(newcells[i] == oldcells[oi]);
                        assert(cell_has(oldcells, w));
                    }
                }
            }
        }
    }

    /// Clears the voxel at `vc`; afterwards the position reads as empty.
    pub fn clear_voxel(&mut self, vc: IVec3)
        requires
            old(self).wf(),
        ensures
            final(self).wf(),
            final(self).palette == old(self).palette,
            final(self).vox(vc.x as int, vc.y as int, vc.z as int) == 0,
            forall|x: int, y: int, z: int|
                !(x == vc.x && y == vc.y && z == vc.z) ==> final(self).vox(x, y, z) == old(
                    self,
                ).vox(x, y, z),
    {
        let ghost oldcols = self.columns@;
        match self.find_col(vc.x, vc.y) {
            Some(ci) => {
                let mut col = self.columns.swap_remove(ci);
                let ghost oldcells = col.cells@;
                proof {
                    assert(unique_z(oldcells));
                    assert(forall|j: int|
                        0 <= j < oldcells.len() ==> (#[trigger] oldcells[j]).index < old(
                            self,
                        ).palette.blocks@.len()) by {
                        assert(oldcols[ci as int].cells@ == oldcells);
                    }
                }
                match Self::find_cell(&col.cells, vc.z) {
                    Some(k) => {
                        col.cells.swap_remove(k);
                        proof {
                            Self::lemma_cell_swap_remove(oldcells, k as int, vc.z);
                        }
                    },
                    None => {
                    },
                }
                let ghost newcells = col.cells@;
                self.columns.push(col);
                proof {
                    assert(forall|j: int|
                        0 <= j < oldcols.len() - 1 ==> #[trigger] self.columns@[j] == (if j
                            == ci as int {
                            oldcols[oldcols.len() - 1]
                        } else {
                            oldcols[j]
                        }));
                    self.lemma_set_shape(*old(self), oldcols, ci as int, oldcells, newcells, vc, 0);
                }
            },
            None => {
            },
        }
    }

    /// The palette index stored at `vc` (0 when the position is empty).
    pub fn get_index(&self, vc: IVec3) -> (r: u16)
        requires
            self.wf(),
        ensures
            r == self.vox(vc.x as int, vc.y as int, vc.z as int),
    {
        match self.find_col(vc.x, vc.y) {
            Some(ci) => {
                proof {
                    lemma_col_cells(self.columns@, ci as int);
                }
                match Self::find_cell(&self.columns[ci].cells, vc.z) {
                    Some(k) => {
                        proof {
                            lemma_cell_at(self.columns@[ci as int].cells@, k as int);
                        }
                        self.columns[ci].cells[k].index
                    },
                    None => 0,
                }
            },
            None => 0,
        }
    }

    /// True when the position reads as empty: no column, no entry, or the
    /// canonical empty index.
    pub fn is_empty(&self, vc: IVec3) -> (r: bool)
        requires
            self.wf(),
        ensures
            r == (self.vox(vc.x as int, vc.y as int, vc.z as int) == 0),
    {
        self.get_index(vc) == 0
    }

    /// The block stored at `vc`; the canonical empty block when nothing is.
    pub fn get_voxel(&self, vc: IVec3) -> (r: &Block)
        requires
            self.wf(),
        ensures
            *r == self.palette.blocks@[self.vox(vc.x as int, vc.y as int, vc.z as int) as int],
    {
        let idx = self.get_index(vc);
        proof {
            self.lemma_vox_in_palette(vc.x as int, vc.y as int, vc.z as int);
        }
        match self.palette.get(PaletteIndex(idx)) {
            Some(b) => b,
            None => vstd::pervasive::unreached(),
        }
    }

    /// Stores the block registered under `id` at `vc`; an unknown id
    /// resolves to index 0, that is, clears the position.
    pub fn set_voxel(&mut self, vc: IVec3, id: &str)
        requires
            old(self).wf(),
        ensures
            final(self).wf(),
            final(self).palette == old(self).palette,
            final(self).vox(vc.x as int, vc.y as int, vc.z as int) == id_index(
                old(self).palette.blocks@,
                id@,
            ),
            forall|x: int, y: int, z: int|
                !(x == vc.x && y == vc.y && z == vc.z) ==> final(self).vox(x, y, z) == old(
                    self,
                ).vox(x, y, z),
    {
        let index = self.palette.index_for_id(id);
        self.set(vc, index);
    }

    /// Reads the block at `vc`, applies `cb`, and stores the result
    /// deduplicated through the palette, so that repeated edits do not
    /// grow the palette without bound.
    pub fn modify_voxel<F: Fn(Block) -> Block>(&mut self, vc: IVec3, cb: F)
        requires
            old(self).wf(),
            forall|b: Block| cb.requires((b,)),
        ensures
            final(self).wf(),
            old(self).palette.blocks@.len() < 0xFFFF ==> exists|nb: Block|
                {
                    &&& #[trigger] cb.ensures(
                        (old(self).palette.blocks@[old(self).vox(vc.x as int, vc.y as int, vc.z as int) as int],),
                        nb,
                    )
                    &&& final(self).palette.blocks@ == ensure_res(old(self).palette.blocks@, nb)
                    &&& final(self).vox(vc.x as int, vc.y as int, vc.z as int) == ensure_idx(
                        old(self).palette.blocks@,
                        nb,
                    )
                },
            old(self).palette.blocks@.len() >= 0xFFFF ==> final(self).palette.blocks@ == old(
                self,
            ).palette.blocks@ && forall|x: int, y: int, z: int|
                final(self).vox(x, y, z) == old(self).vox(x, y, z),
            forall|x: int, y: int, z: int|
                !(x == vc.x && y == vc.y && z == vc.z) ==> final(self).vox(x, y, z) == old(
                    self,
                ).vox(x, y, z),
    {
        if self.palette.blocks.len() >= 0xFFFF {
            // a saturated palette cannot absorb new variants; leave the
            // voxel as it is rather than grow without bound
            return ;
        }
        let idx = self.get_index(vc);
        proof {
            self.lemma_vox_in_palette(vc.x as int, vc.y as int, vc.z as int);
        }
        let b = match self.palette.get(PaletteIndex(idx)) {
            Some(b) => b.clone(),
            None => vstd::pervasive::unreached(),
        };
        let nb = cb(b);
        let new_index = self.ensure_block(nb);
        if new_index.0 != idx {
            self.set(vc, new_index);
        }
    }
}


impl VoxelSet {
    /// The z of the highest non-empty voxel of the column at (x, y), or
    /// `None` when the column holds no data.
    pub fn height_at(&self, x: i32, y: i32) -> (r: Option<i32>)
        requires
            self.wf(),
        ensures
            r matches Some(h) ==> self.vox(x as int, y as int, h as int) != 0 && forall|z: int|
                self.vox(x as int, y as int, z) != 0 ==> z <= h,
            r is None ==> forall|z: int| self.vox(x as int, y as int, z) == 0,
    {
        match self.find_col(x, y) {
            None => {
                proof {
                    assert(!col_has(self.columns@, x as int, y as int));
                }
                None
            },
            Some(ci) => {
                proof {
                    lemma_col_cells(self.columns@, ci as int);
                }
                let ghost cs = self.columns@[ci as int].cells@;
                let n = self.columns[ci].cells.len();
                let mut best: Option<i32> = None;
                let mut i: usize = 0;
                while i < n
                    invariant
                        self.wf(),
                        ci < self.columns@.len(),
                        self.columns@[ci as int].x == x && self.columns@[ci as int].y == y,
                        cs == self.columns@[ci as int].cells@,
                        n == cs.len(),
                        i <= n,
                        best matches Some(h) ==> exists|j: int|
                            0 <= j < i && (#[trigger] cs[j]).z == h && cs[j].index != 0,
                        best matches Some(h) ==> forall|j: int|
                            0 <= j < i && (#[trigger] cs[j]).index != 0 ==> cs[j].z <= h,
                        best is None ==> forall|j: int| 0 <= j < i ==> (#[trigger] cs[j]).index == 0,
                    decreases n - i,
                {
                    let c = self.columns[ci].cells[i];
                    if c.index != 0 {
                        match best {
                            None => {
                                best = Some(c.z);
                            },
                            Some(h) => {
                                if c.z > h {
                                    best = Some(c.z);
                                }
                            },
                        }
                    }
                    i += 1;
                }
                proof {
                    lemma_col_cells(self.columns@, ci as int);
                    match best {
                        Some(h) => {
                            let j = choose|j: int|
                                0 <= j < n && (#[trigger] cs[j]).z == h && cs[j].index != 0;
                            lemma_cell_at(cs, j);
                            assert(self.vox(x as int, y as int, h as int) != 0);
                            assert forall|z: int|
                                self.vox(x as int, y as int, z) != 0 implies z <= h by {
                                assert(cell_at(cs, z) != 0);
                                assert(cell_has(cs, z));
                                let jj = choose|jj: int| 0 <= jj < cs.len() && cs[jj].z == z;
                                lemma_cell_at(cs, jj);
                                assert(cs[jj].index != 0);
                            }
                        },
                        None => {
                            assert forall|z: int|
                                self.vox(x as int, y as int, z) == 0 by {
                                if cell_has(cs, z) {
                                    let jj = choose|jj: int| 0 <= jj < cs.len() && cs[jj].z == z;
                                    lemma_cell_at(cs, jj);
                                }
                            }
                        },
                    }
                }
                best
            },
        }
    }

    /// The block of the highest non-empty voxel of the column at (x, y).
    pub fn top_block_at(&self, x: i32, y: i32) -> (r: Option<&Block>)
        requires
            self.wf(),
        ensures
            r matches Some(b) ==> exists|h: int|
                {
                    &&& #[trigger] self.vox(x as int, y as int, h) != 0
                    &&& forall|z: int| self.vox(x as int, y as int, z) != 0 ==> z <= h
                    &&& *b == self.palette.blocks@[self.vox(x as int, y as int, h) as int]
                },
            r is None ==> forall|z: int| self.vox(x as int, y as int, z) == 0,
    {
        match self.height_at(x, y) {
            Some(h) => {
                let b = self.get_voxel(IVec3::new(x, y, h));
                proof {
                    assert(self.vox(x as int, y as int, h as int) != 0);
                }
                Some(b)
            },
            None => None,
        }
    }

    /// All stored voxels as (position, block) pairs; blocks whose shader
    /// is empty are listed only when `include_empty` is set.
    pub fn voxel_iter(&self, include_empty: bool) -> (r: Vec<(IVec3, Block)>)
        requires
            self.wf(),
        ensures
            forall|k: int|
                0 <= k < r@.len() ==> {
                    let p = (#[trigger] r@[k]).0;
                    &&& r@[k].1 == self.palette.blocks@[self.vox(p.x as int, p.y as int, p.z as int) as int]
                    &&& (!include_empty ==> r@[k].1.shader != BlockShader::Empty)
                },
            forall|x: int, y: int, z: int|
                #[trigger] self.vox(x, y, z) != 0 && (include_empty || self.palette.blocks@[self.vox(
                    x,
                    y,
                    z,
                ) as int].shader != BlockShader::Empty) ==> exists|k: int|
                    0 <= k < r@.len() && (#[trigger] r@[k]).0.x == x && r@[k].0.y == y && r@[k].0.z
                        == z,
    {
        let mut out: Vec<(IVec3, Block)> = Vec::new();
        let ncols = self.columns.len();
        let mut ci: usize = 0;
        while ci < ncols
            invariant
                self.wf(),
                ncols == self.columns@.len(),
                ci <= ncols,
                forall|k: int|
                    0 <= k < out@.len() ==> {
                        let p = (#[trigger] out@[k]).0;
                        &&& out@[k].1 == self.palette.blocks@[self.vox(p.x as int, p.y as int, p.z as int) as int]
                        &&& (!include_empty ==> out@[k].1.shader != BlockShader::Empty)
                    },
                forall|ii: int, jj: int|
                    0 <= ii < ci && 0 <= jj < self.columns@[ii].cells@.len()
                        && (#[trigger] self.columns@[ii].cells@[jj]).index != 0
                        && (include_empty || self.palette.blocks@[self.columns@[ii].cells@[jj].index as int].shader
                        != BlockShader::Empty) ==> exists|k: int|
                        0 <= k < out@.len() && (#[trigger] out@[k]).0.x == self.columns@[ii].x
                            && out@[k].0.y == self.columns@[ii].y && out@[k].0.z
                            == self.columns@[ii].cells@[jj].z,
            decreases ncols - ci,
        {
            let ghost cs = self.columns@[ci as int].cells@;
            let cx = self.columns[ci].x;
            let cy = self.columns[ci].y;
            let ncells = self.columns[ci].cells.len();
            let mut j: usize = 0;
            while j < ncells
                invariant
                    self.wf(),
                    ncols == self.columns@.len(),
                    ci < ncols,
                    cs == self.columns@[ci as int].cells@,
                    cx == self.columns@[ci as int].x,
                    cy == self.columns@[ci as int].y,
                    ncells == cs.len(),
                    j <= ncells,
                    forall|k: int|
                        0 <= k < out@.len() ==> {
                            let p = (#[trigger] out@[k]).0;
                            &&& out@[k].1 == self.palette.blocks@[self.vox(p.x as int, p.y as int, p.z as int) as int]
                            &&& (!include_empty ==> out@[k].1.shader != BlockShader::Empty)
                        },
                    forall|ii: int, jj: int|
                        0 <= ii < ci && 0 <= jj < self.columns@[ii].cells@.len()
                            && (#[trigger] self.columns@[ii].cells@[jj]).index != 0
                            && (include_empty
                            || self.palette.blocks@[self.columns@[ii].cells@[jj].index as int].shader
                            != BlockShader::Empty) ==> exists|k: int|
                            0 <= k < out@.len() && (#[trigger] out@[k]).0.x == self.columns@[ii].x
                                && out@[k].0.y == self.columns@[ii].y && out@[k].0.z
                                == self.columns@[ii].cells@[jj].z,
                    forall|jj: int|
                        0 <= jj < j && (#[trigger] cs[jj]).index != 0 && (include_empty
                            || self.palette.blocks@[cs[jj].index as int].shader
                            != BlockShader::Empty) ==> exists|k: int|
                            0 <= k < out@.len() && (#[trigger] out@[k]).0.x == cx && out@[k].0.y
                                == cy && out@[k].0.z == cs[jj].z,
                decreases ncells - j,
            {
                let c = self.columns[ci].cells[j];
                proof {
                    lemma_col_cells(self.columns@, ci as int);
                    lemma_cell_at(cs, j as int);
                    self.lemma_vox_in_palette(cx as int, cy as int, c.z as int);
                }
                let b = match self.palette.get(PaletteIndex(c.index)) {
                    Some(b) => b.clone(),
                    None => vstd::pervasive::unreached(),
                };
                let ghost prev_out = out@;
                let ghost bsnap = b;
                let keep = include_empty || !b.is_empty();
                if keep {
                    out.push((IVec3::new(cx, cy, c.z), b));
                }
                proof {
                    assert(cs[j as int] == c);
                    assert(self.vox(cx as int, cy as int, c.z as int) == c.index);
                    assert forall|ii: int, jj: int|
                        0 <= ii < ci && 0 <= jj < self.columns@[ii].cells@.len()
                            && (#[trigger] self.columns@[ii].cells@[jj]).index != 0
                            && (include_empty
                            || self.palette.blocks@[self.columns@[ii].cells@[jj].index as int].shader
                            != BlockShader::Empty) implies exists|k: int|
                        0 <= k < out@.len() && (#[trigger] out@[k]).0.x == self.columns@[ii].x
                            && out@[k].0.y == self.columns@[ii].y && out@[k].0.z
                            == self.columns@[ii].cells@[jj].z by {
                        let k0 = choose|k0: int|
                            0 <= k0 < prev_out.len() && (#[trigger] prev_out[k0]).0.x
                                == self.columns@[ii].x && prev_out[k0].0.y == self.columns@[ii].y
                                && prev_out[k0].0.z == self.columns@[ii].cells@[jj].z;
                        assert(out@[k0] == prev_out[k0]);
                    }
                    assert forall|jj: int|
                        0 <= jj < j + 1 && (#[trigger] cs[jj]).index != 0 && (include_empty
                            || self.palette.blocks@[cs[jj].index as int].shader
                            != BlockShader::Empty) implies exists|k: int|
                        0 <= k < out@.len() && (#[trigger] out@[k]).0.x == cx && out@[k].0.y == cy
                            && out@[k].0.z == cs[jj].z by {
                        if jj < j {
                            let k0 = choose|k0: int|
                                0 <= k0 < prev_out.len() && (#[trigger] prev_out[k0]).0.x == cx
                                    && prev_out[k0].0.y == cy && prev_out[k0].0.z == cs[jj].z;
                            assert(out@[k0] == prev_out[k0]);
                        } else {
                            assert(bsnap == self.palette.blocks@[c.index as int]);
                            assert(keep);
                            let kn = prev_out.len() as int;
                            assert(out@[kn].0.x == cx && out@[kn].0.y == cy && out@[kn].0.z
                                == cs[jj].z);
                        }
                    }
                }
                j += 1;
            }
            ci += 1;
        }
        proof {
            assert forall|x: int, y: int, z: int|
                #[trigger] self.vox(x, y, z) != 0 && (include_empty || self.palette.blocks@[self.vox(
                    x,
                    y,
                    z,
                ) as int].shader != BlockShader::Empty) implies exists|k: int|
                0 <= k < out@.len() && (#[trigger] out@[k]).0.x == x && out@[k].0.y == y
                    && out@[k].0.z == z by {
                assert(col_has(self.columns@, x, y));
                let ii = choose|ii: int|
                    0 <= ii < self.columns@.len() && self.columns@[ii].x == x
                        && self.columns@[ii].y == y;
                lemma_col_cells(self.columns@, ii);
                let cs2 = self.columns@[ii].cells@;
                assert(cell_has(cs2, z));
                let jj = choose|jj: int| 0 <= jj < cs2.len() && cs2[jj].z == z;
                lemma_cell_at(cs2, jj);
                assert(cs2[jj].index == self.vox(x, y, z));
            }
        }
        out
    }

    /// True when the voxel at (x, y, z) renders: it stores a block whose
    /// shader is not empty.
    pub open spec fn spec_rendered(&self, x: int, y: int, z: int) -> bool {
        self.vox(x, y, z) != 0 && self.palette.blocks@[self.vox(x, y, z) as int].shader
            != BlockShader::Empty
    }

    /// The smallest inclusive bounding box of all voxels whose block
    /// renders: it contains each of them and each face is attained by
    /// one of them.  A set with no rendered voxel yields the empty
    /// sentinel box.
    pub fn bounds(&self) -> (r: IBox3)
        requires
            self.wf(),
        ensures
            forall|x: int, y: int, z: int|
                #[trigger] self.spec_rendered(x, y, z) ==> r.spec_contains(x, y, z),
            (forall|x: int, y: int, z: int| !#[trigger] self.spec_rendered(x, y, z)) ==> r.min.x
                == i32::MAX && r.min.y == i32::MAX && r.min.z == i32::MAX && r.max.x == i32::MIN
                && r.max.y == i32::MIN && r.max.z == i32::MIN,
            (exists|x: int, y: int, z: int| #[trigger] self.spec_rendered(x, y, z)) ==> {
                &&& exists|x: int, y: int, z: int|
                    #[trigger] self.spec_rendered(x, y, z) && x == r.min.x
                &&& exists|x: int, y: int, z: int|
                    #[trigger] self.spec_rendered(x, y, z) && x == r.max.x
                &&& exists|x: int, y: int, z: int|
                    #[trigger] self.spec_rendered(x, y, z) && y == r.min.y
                &&& exists|x: int, y: int, z: int|
                    #[trigger] self.spec_rendered(x, y, z) && y == r.max.y
                &&& exists|x: int, y: int, z: int|
                    #[trigger] self.spec_rendered(x, y, z) && z == r.min.z
                &&& exists|x: int, y: int, z: int|
                    #[trigger] self.spec_rendered(x, y, z) && z == r.max.z
            },
    {
        let items = self.voxel_iter(false);
        let mut b = IBox3::new();
        let n = items.len();
        let mut i: usize = 0;
        while i < n
            invariant
                self.wf(),
                n == items@.len(),
                i <= n,
                forall|k: int|
                    0 <= k < n ==> {
                        let p = (#[trigger] items@[k]).0;
                        self.spec_rendered(p.x as int, p.y as int, p.z as int)
                    },
                forall|k: int|
                    0 <= k < i ==> b.spec_contains(
                        (#[trigger] items@[k]).0.x as int,
                        items@[k].0.y as int,
                        items@[k].0.z as int,
                    ),
                i == 0 ==> b.min.x == i32::MAX && b.min.y == i32::MAX && b.min.z == i32::MAX
                    && b.max.x == i32::MIN && b.max.y == i32::MIN && b.max.z == i32::MIN,
                i > 0 ==> exists|k: int| 0 <= k < i && (#[trigger] items@[k]).0.x == b.min.x,
                i > 0 ==> exists|k: int| 0 <= k < i && (#[trigger] items@[k]).0.x == b.max.x,
                i > 0 ==> exists|k: int| 0 <= k < i && (#[trigger] items@[k]).0.y == b.min.y,
                i > 0 ==> exists|k: int| 0 <= k < i && (#[trigger] items@[k]).0.y == b.max.y,
                i > 0 ==> exists|k: int| 0 <= k < i && (#[trigger] items@[k]).0.z == b.min.z,
                i > 0 ==> exists|k: int| 0 <= k < i && (#[trigger] items@[k]).0.z == b.max.z,
            decreases n - i,
        {
            b.add(items[i].0);
            i += 1;
        }
        proof {
            // every voxel of the list is rendered, so the invariant's
            // soundness direction came from voxel_iter's contract
            assert forall|k: int|
                0 <= k < n implies {
                let p = (#[trigger] items@[k]).0;
                self.spec_rendered(p.x as int, p.y as int, p.z as int)
            } by {
                let p = items@[k].0;
                if self.vox(p.x as int, p.y as int, p.z as int) == 0 {
                    assert(items@[k].1.shader == BlockShader::Empty);
                }
            }
            assert forall|x: int, y: int, z: int|
                #[trigger] self.spec_rendered(x, y, z) implies b.spec_contains(x, y, z) by {
                let k = choose|k: int|
                    0 <= k < items@.len() && (#[trigger] items@[k]).0.x == x && items@[k].0.y == y
                        && items@[k].0.z == z;
                assert(b.spec_contains(x, y, z));
            }
            if exists|x: int, y: int, z: int| self.spec_rendered(x, y, z) {
                let (x, y, z) = choose|x: int, y: int, z: int| self.spec_rendered(x, y, z);
                let k = choose|k: int|
                    0 <= k < items@.len() && (#[trigger] items@[k]).0.x == x && items@[k].0.y == y
                        && items@[k].0.z == z;
                assert(n > 0);
                assert forall|kk: int|
                    0 <= kk < n implies self.spec_rendered(
                    (#[trigger] items@[kk]).0.x as int,
                    items@[kk].0.y as int,
                    items@[kk].0.z as int,
                ) by {}
            }
        }
        b
    }
}


/// Column emptiness law: positions a fresh container never wrote read as
/// empty, and a write followed by a clear leaves every position reading
/// exactly as it did before either operation.  The hypotheses are the
/// stated contracts of `new`, `set` and `clear_voxel`.
pub proof fn lemma_column_emptiness(
    fresh: VoxelSet,
    written: VoxelSet,
    cleared: VoxelSet,
    p: IVec3,
    idx: u16,
)
    requires
        forall|x: int, y: int, z: int| fresh.vox(x, y, z) == 0,
        written.vox(p.x as int, p.y as int, p.z as int) == idx,
        forall|x: int, y: int, z: int|
            !(x == p.x && y == p.y && z == p.z) ==> written.vox(x, y, z) == fresh.vox(x, y, z),
        cleared.vox(p.x as int, p.y as int, p.z as int) == 0,
        forall|x: int, y: int, z: int|
            !(x == p.x && y == p.y && z == p.z) ==> cleared.vox(x, y, z) == written.vox(x, y, z),
    ensures
        forall|x: int, y: int, z: int| cleared.vox(x, y, z) == 0,
        forall|x: int, y: int, z: int| cleared.vox(x, y, z) == fresh.vox(x, y, z),
{
}


} // verus!
