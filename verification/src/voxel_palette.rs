use vstd::prelude::*;
use crate::block::Block;
use crate::block::BlockShader;
use crate::block::equiv;

verus! {

/// Small integer handle referencing a Block within one specific palette.
/// Indices are stable for the lifetime of their palette and are not
/// comparable across different palettes.
#[derive(Debug, Clone, Copy, PartialEq, Eq, Structural)]
pub struct PaletteIndex(pub u16);

impl PaletteIndex {
    /// The index of the canonical empty block.
    pub fn zero() -> (r: PaletteIndex)
        ensures
            r.0 == 0,
    {
        PaletteIndex(0)
    }

    /// True for the index of the canonical empty block.
    pub fn is_zero(&self) -> (r: bool)
        ensures
            r == (self.0 == 0),
    {
        self.0 == 0
    }
}

/// True when some entry of `s` is equivalent to `b`.
pub open spec fn has_equiv(s: Seq<Block>, b: Block) -> bool {
    exists|i: int| 0 <= i < s.len() && equiv(s[i], b)
}

/// True when `i` is the lowest index of `s` holding a block equivalent to `b`.
pub open spec fn is_first_equiv(s: Seq<Block>, b: Block, i: int) -> bool {
    &&& 0 <= i < s.len()
    &&& equiv(s[i], b)
    &&& forall|j: int| 0 <= j < i ==> !equiv(s[j], b)
}

/// The lowest index of `s` holding a block equivalent to `b`.
pub open spec fn first_equiv(s: Seq<Block>, b: Block) -> int {
    choose|i: int| is_first_equiv(s, b, i)
}

/// The palette contents after `ensure`: unchanged when an equivalent
/// entry exists, else grown by one.
pub open spec fn ensure_res(s: Seq<Block>, b: Block) -> Seq<Block> {
    if has_equiv(s, b) {
        s
    } else {
        s.push(b)
    }
}

/// The index `ensure` returns: the first equivalent entry, else the index
/// of the appended one.
pub open spec fn ensure_idx(s: Seq<Block>, b: Block) -> int {
    if has_equiv(s, b) {
        first_equiv(s, b)
    } else {
        s.len() as int
    }
}

/// True when some entry of `s` carries the id `id`.
pub open spec fn has_id(s: Seq<Block>, id: Seq<char>) -> bool {
    exists|i: int| 0 <= i < s.len() && s[i].id@ == id
}

/// True when `i` is the lowest index of `s` whose entry carries the id `id`.
pub open spec fn is_first_id(s: Seq<Block>, id: Seq<char>, i: int) -> bool {
    &&& 0 <= i < s.len()
    &&& s[i].id@ == id
    &&& forall|j: int| 0 <= j < i ==> s[j].id@ != id
}

/// The lowest index of `s` whose entry carries the id `id`.
pub open spec fn first_id(s: Seq<Block>, id: Seq<char>) -> int {
    choose|i: int| is_first_id(s, id, i)
}

/// The index `index_for_id` resolves `id` to: the first entry carrying
/// the id, or 0 when none does.
pub open spec fn id_index(s: Seq<Block>, id: Seq<char>) -> int {
    if has_id(s, id) {
        first_id(s, id)
    } else {
        0
    }
}

/// A palette that holds an entry with an id holds a first such entry.
pub proof fn lemma_exists_first_id(s: Seq<Block>, id: Seq<char>, k: int)
    requires
        0 <= k < s.len(),
        s[k].id@ == id,
    ensures
        exists|i: int| is_first_id(s, id, i),
        is_first_id(s, id, first_id(s, id)),
    decreases k,
{
    if forall|j: int| 0 <= j < k ==> s[j].id@ != id {
        assert(is_first_id(s, id, k));
    } else {
        let j = choose|j: int| 0 <= j < k && s[j].id@ == id;
        lemma_exists_first_id(s, id, j);
    }
}

/// A palette that holds an equivalent entry holds a first equivalent entry.
pub proof fn lemma_exists_first_equiv(s: Seq<Block>, b: Block, k: int)
    requires
        0 <= k < s.len(),
        equiv(s[k], b),
    ensures
        exists|i: int| is_first_equiv(s, b, i),
        is_first_equiv(s, b, first_equiv(s, b)),
    decreases k,
{
    if forall|j: int| 0 <= j < k ==> !equiv(s[j], b) {
        assert(is_first_equiv(s, b, k));
    } else {
        let j = choose|j: int| 0 <= j < k && equiv(s[j], b);
        lemma_exists_first_equiv(s, b, j);
    }
}

/// The first equivalent index is unique.
pub proof fn lemma_first_equiv_unique(s: Seq<Block>, b: Block, i1: int, i2: int)
    requires
        is_first_equiv(s, b, i1),
        is_first_equiv(s, b, i2),
    ensures
        i1 == i2,
{
    if i1 < i2 {
        assert(!equiv(s[i1], b));
    } else if i2 < i1 {
        assert(!equiv(s[i2], b));
    }
}

/// The deduplicating table of block definitions a voxel container indexes
/// into.  Index 0 always holds the canonical empty block; the table only
/// grows, so issued indices stay valid.
#[derive(Debug)]
pub struct VoxelPalette {
    pub blocks: Vec<Block>,
}

impl VoxelPalette {
    /// Well-formedness: the table is non-empty, small enough to index with
    /// a `u16`, and entry 0 is the canonical empty block.
    pub open spec fn wf(&self) -> bool {
        &&& 1 <= self.blocks@.len() <= 0xFFFF
        &&& self.blocks@[0].id@ == "empty"@
        &&& self.blocks@[0].shader == BlockShader::Empty
        &&& self.blocks@[0].occupied == false
        &&& self.blocks@[0].walk_cost == 0
    }

    pub fn new() -> (r: VoxelPalette)
        ensures
            r.wf(),
            r.blocks@.len() == 1,
    {
        let mut blocks = Vec::new();
        blocks.push(Block::empty());
        VoxelPalette { blocks }
    }

    /// Adds `block` to the palette.  If an entry with the same id already
    /// exists, the first such entry is **replaced**, else the block is
    /// appended; either way the returned index resolves to the block's
    /// id.  The canonical empty block at index 0 cannot be redefined.
    pub fn register(&mut self, block: Block) -> (r: PaletteIndex)
        requires
            old(self).wf(),
            old(self).blocks@.len() < 0xFFFF,
        ensures
            final(self).wf(),
            r.0 < final(self).blocks@.len(),
            old(self).blocks@.len() <= final(self).blocks@.len() <= old(self).blocks@.len() + 1,
            block.id@ != "empty"@ ==> final(self).blocks@[r.0 as int] == block,
            block.id@ != "empty"@ && has_id(old(self).blocks@, block.id@) ==> is_first_id(
                old(self).blocks@,
                block.id@,
                r.0 as int,
            ) && final(self).blocks@ == old(self).blocks@.update(r.0 as int, block),
            !has_id(old(self).blocks@, block.id@) ==> r.0 == old(self).blocks@.len()
                && final(self).blocks@ == old(self).blocks@.push(block),
            block.id@ == "empty"@ ==> r.0 == 0 && final(self).blocks@ == old(self).blocks@,
    {
        let ghost s = self.blocks@;
        let mut i: usize = 0;
        let n = self.blocks.len();
        while i < n
            invariant
                self.wf(),
                n == self.blocks@.len() <= 0xFFFF,
                i <= n,
                self.blocks@ == s,
                s == old(self).blocks@,
                forall|j: int| 0 <= j < i ==> s[j].id@ != block.id@,
            decreases n - i,
        {
            if self.blocks[i].id == block.id {
                if i == 0 {
                    // the canonical empty block cannot be redefined
                    return PaletteIndex(0);
                }
                self.blocks.set(i, block);
                return PaletteIndex(i as u16);
            }
            i += 1;
        }
        self.blocks.push(block);
        PaletteIndex((n) as u16)
    }

    /// Adds `block` to the palette only if no equivalent entry exists;
    /// returns the index of the first equivalent entry either way.
    pub fn ensure(&mut self, block: Block) -> (r: PaletteIndex)
        requires
            old(self).wf(),
            old(self).blocks@.len() < 0xFFFF,
        ensures
            final(self).wf(),
            r.0 < final(self).blocks@.len(),
            equiv(final(self).blocks@[r.0 as int], block),
            final(self).blocks@ == ensure_res(old(self).blocks@, block),
            r.0 == ensure_idx(old(self).blocks@, block),
            old(self).blocks@.len() <= final(self).blocks@.len(),
            forall|j: int|
                0 <= j < old(self).blocks@.len() ==> final(self).blocks@[j] == old(self).blocks@[j],
    {
        let ghost s = self.blocks@;
        let mut i: usize = 0;
        let n = self.blocks.len();
        while i < n
            invariant
                self.wf(),
                n == self.blocks@.len() <= 0xFFFF,
                i <= n,
                self.blocks@ == s,
                s == old(self).blocks@,
                forall|j: int| 0 <= j < i ==> !equiv(s[j], block),
            decreases n - i,
        {
            if self.blocks[i].is_equivalent(&block) {
                proof {
                    lemma_exists_first_equiv(s, block, i as int);
                    lemma_first_equiv_unique(s, block, first_equiv(s, block), i as int);
                }
                return PaletteIndex(i as u16);
            }
            i += 1;
        }
        self.blocks.push(block);
        PaletteIndex((n) as u16)
    }

    /// The block a previously issued index refers to.  Out-of-range
    /// indices were never issued by this palette and yield `None`.
    pub fn get(&self, index: PaletteIndex) -> (r: Option<&Block>)
        ensures
            index.0 < self.blocks@.len() ==> r == Some(&self.blocks@[index.0 as int]),
            index.0 >= self.blocks@.len() ==> r is None,
    {
        if (index.0 as usize) < self.blocks.len() {
            Some(&self.blocks[index.0 as usize])
        } else {
            None
        }
    }

    /// The index of the first entry carrying `id`, or index 0 (the empty
    /// block) when no entry does.
    pub fn index_for_id(&self, id: &str) -> (r: PaletteIndex)
        requires
            self.wf(),
        ensures
            r.0 < self.blocks@.len(),
            r.0 == id_index(self.blocks@, id@),
            has_id(self.blocks@, id@) ==> is_first_id(self.blocks@, id@, r.0 as int),
    {
        let needle: String = id.to_owned();
        let mut i: usize = 0;
        let n = self.blocks.len();
        while i < n
            invariant
                self.wf(),
                n == self.blocks@.len() <= 0xFFFF,
                i <= n,
                needle@ == id@,
                forall|j: int| 0 <= j < i ==> self.blocks@[j].id@ != id@,
            decreases n - i,
        {
            if self.blocks[i].id == needle {
                proof {
                    lemma_exists_first_id(self.blocks@, id@, i as int);
                    assert(is_first_id(self.blocks@, id@, i as int));
                    let f = first_id(self.blocks@, id@);
                    if f < i {
                        assert(self.blocks@[f].id@ != id@);
                    } else if f > i {
                        assert(is_first_id(self.blocks@, id@, f));
                        assert(self.blocks@[i as int].id@ != id@);
                    }
                }
                return PaletteIndex(i as u16);
            }
            i += 1;
        }
        PaletteIndex(0)
    }
}

/// Palette dedup law: for equivalent blocks `b1` and `b2`, `ensure(b1)`
/// followed by `ensure(b2)` returns the same index twice, and the second
/// call leaves the palette unchanged.
pub proof fn lemma_palette_dedup(s: Seq<Block>, b1: Block, b2: Block)
    requires
        equiv(b1, b2),
    ensures
        ensure_idx(ensure_res(s, b1), b2) == ensure_idx(s, b1),
        ensure_res(ensure_res(s, b1), b2) == ensure_res(s, b1),
{
    let s1 = ensure_res(s, b1);
    let r1 = ensure_idx(s, b1);
    if has_equiv(s, b1) {
        let k = choose|i: int| 0 <= i < s.len() && equiv(s[i], b1);
        lemma_exists_first_equiv(s, b1, k);
        assert(is_first_equiv(s, b1, r1));
        assert(equiv(s1[r1], b2));
        assert forall|j: int| 0 <= j < r1 implies !equiv(s1[j], b2) by {
            assert(!equiv(s[j], b1));
        }
        assert(is_first_equiv(s1, b2, r1));
        assert(has_equiv(s1, b2));
        lemma_exists_first_equiv(s1, b2, r1);
        lemma_first_equiv_unique(s1, b2, first_equiv(s1, b2), r1);
    } else {
        assert(s1 == s.push(b1));
        assert(equiv(s1[r1], b2));
        assert(has_equiv(s1, b2));
        assert forall|j: int| 0 <= j < r1 implies !equiv(s1[j], b2) by {
            assert(s1[j] == s[j]);
            assert(!equiv(s[j], b1));
        }
        assert(is_first_equiv(s1, b2, r1));
        lemma_exists_first_equiv(s1, b2, r1);
        lemma_first_equiv_unique(s1, b2, first_equiv(s1, b2), r1);
    }
}

} // verus!
