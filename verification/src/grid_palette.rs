use vstd::prelude::*;
use crate::block::Block;
use crate::block::BlockShader;
use crate::chunk_palette::LOCAL_PALETTE_CAP;

verus! {

/// True when `i` is the highest index of `s` whose entry carries `id`;
/// the grid palette resolves an id to its latest registration.
pub open spec fn is_last_id(s: Seq<Block>, id: Seq<char>, i: int) -> bool {
    &&& 0 <= i < s.len()
    &&& s[i].id@ == id
    &&& forall|j: int| i < j < s.len() ==> s[j].id@ != id
}

/// The global palette of the chunked voxel grid: an append-only table of
/// block definitions looked up by id.  Entry 0 is the canonical empty
/// block, and the table stays below the chunk-local palette cap so every
/// entry can be referenced from chunk data.
#[derive(Debug)]
pub struct Palette {
    pub blocks: Vec<Block>,
}

impl Palette {
    pub open spec fn wf(&self) -> bool {
        &&& 1 <= self.blocks@.len() <= LOCAL_PALETTE_CAP
        &&& self.blocks@[0].id@ == "empty"@
        &&& self.blocks@[0].shader == BlockShader::Empty
    }

    pub fn new() -> (r: Palette)
        ensures
            r.wf(),
            r.blocks@.len() == 1,
    {
        let mut blocks = Vec::new();
        blocks.push(Block::empty());
        Palette { blocks }
    }

    /// Appends a block definition; a later registration of the same id
    /// shadows earlier ones in id lookups.
    pub fn register(&mut self, block: Block)
        requires
            old(self).wf(),
            old(self).blocks@.len() < LOCAL_PALETTE_CAP,
        ensures
            final(self).wf(),
            final(self).blocks@ == old(self).blocks@.push(block),
    {
        self.blocks.push(block);
    }

    /// The index of the latest entry carrying `id`, if any.
    pub fn index_by_id(&self, id: &str) -> (r: Option<usize>)
        requires
            self.wf(),
        ensures
            match r {
                Some(i) => is_last_id(self.blocks@, id@, i as int),
                None => forall|j: int|
                    0 <= j < self.blocks@.len() ==> (#[trigger] self.blocks@[j]).id@ != id@,
            },
    {
        let needle: String = id.to_owned();
        let n = self.blocks.len();
        let mut i: usize = n;
        while i > 0
            invariant
                n == self.blocks@.len(),
                i <= n,
                needle@ == id@,
                forall|j: int| i <= j < n ==> (#[trigger] self.blocks@[j]).id@ != id@,
            decreases i,
        {
            i -= 1;
            if self.blocks[i].id == needle {
                return Some(i);
            }
        }
        None
    }

    /// The latest block registered under `id`, if any.
    pub fn block_by_id(&self, id: &str) -> (r: Option<&Block>)
        requires
            self.wf(),
        ensures
            match r {
                Some(b) => exists|i: int| is_last_id(self.blocks@, id@, i) && *b == self.blocks@[i],
                None => forall|j: int|
                    0 <= j < self.blocks@.len() ==> (#[trigger] self.blocks@[j]).id@ != id@,
            },
    {
        match self.index_by_id(id) {
            Some(i) => Some(&self.blocks[i]),
            None => None,
        }
    }

    /// The block at a previously issued index.
    pub fn block_by_index(&self, index: usize) -> (r: Option<&Block>)
        ensures
            index < self.blocks@.len() ==> r == Some(&self.blocks@[index as int]),
            index >= self.blocks@.len() ==> r is None,
    {
        if index < self.blocks.len() {
            Some(&self.blocks[index])
        } else {
            None
        }
    }
}

} // verus!
