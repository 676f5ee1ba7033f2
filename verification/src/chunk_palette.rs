use vstd::prelude::*;
use vstd::set_lib::set_int_range;
use vstd::set_lib::lemma_int_range;
use vstd::set_lib::lemma_len_subset;

verus! {

/// Upper bound (exclusive) on the global palette indices a chunk-local
/// palette can map; it keeps local indices within a byte.
pub const LOCAL_PALETTE_CAP: usize = 256;

/// The chunk-local palette: maps small local indices (stored per voxel)
/// to indices of the grid's global palette.  It starts as a fixed 16-slot
/// table and falls back to a dynamic vector only on overflow.  Local
/// index 0 is pinned to global index 0, the canonical empty block.
#[derive(Debug)]
pub enum ChunkPalette {
    Small { entries: Vec<usize> },
    Full(Vec<usize>),
}

/// Distinct sequence elements drawn from `[lo, hi)` number at most
/// `hi - lo`.
proof fn lemma_pigeonhole(t: Seq<int>, lo: int, hi: int)
    requires
        lo <= hi,
        t.no_duplicates(),
        forall|i: int| 0 <= i < t.len() ==> lo <= #[trigger] t[i] < hi,
    ensures
        t.len() <= hi - lo,
{
    broadcast use vstd::seq_lib::group_seq_properties;
    broadcast use vstd::set::group_set_axioms;
    broadcast use vstd::seq_lib::seq_to_set_is_finite;

    t.unique_seq_to_set();
    lemma_int_range(lo, hi);
    assert(t.to_set().subset_of(set_int_range(lo, hi))) by {
        assert forall|v: int| t.to_set().contains(v) implies set_int_range(lo, hi).contains(
            v,
        ) by {
            assert(t.contains(v));
            let i = choose|i: int| 0 <= i < t.len() && t[i] == v;
            assert(lo <= t[i] < hi);
        }
    }
    lemma_len_subset(t.to_set(), set_int_range(lo, hi));
}

impl ChunkPalette {
    /// The local-to-global table, whichever representation holds it.
    pub open spec fn entries(&self) -> Seq<usize> {
        match self {
            ChunkPalette::Small { entries } => entries@,
            ChunkPalette::Full(entries) => entries@,
        }
    }

    /// Well-formedness: slot 0 maps to global 0; nonzero mappings are
    /// distinct and below the cap; the fixed table has exactly 16 slots,
    /// and the fallback vector has no free (zero) slot beyond slot 0.
    pub open spec fn wf(&self) -> bool {
        &&& self.entries().len() >= 1
        &&& self.entries()[0] == 0
        &&& forall|i: int| 0 <= i < self.entries().len() ==> #[trigger] self.entries()[i] < LOCAL_PALETTE_CAP
        &&& forall|i: int, j: int|
            0 <= i < j < self.entries().len() && #[trigger] self.entries()[i] == #[trigger] self.entries()[j]
                ==> self.entries()[i] == 0
        &&& match self {
            ChunkPalette::Small { entries } => entries@.len() == 16,
            ChunkPalette::Full(entries) => 16 <= entries@.len() && forall|i: int|
                1 <= i < entries@.len() ==> #[trigger] entries@[i] != 0,
        }
    }

    /// A well-formed table never outgrows the cap: its nonzero mappings
    /// are distinct values of `[1, cap)`.
    proof fn lemma_len_cap(&self)
        requires
            self.wf(),
        ensures
            self.entries().len() <= LOCAL_PALETTE_CAP,
    {
        match self {
            ChunkPalette::Small { .. } => {},
            ChunkPalette::Full(_) => {
                let e = self.entries();
                let t = Seq::new((e.len() - 1) as nat, |i: int| e[i + 1] as int);
                assert(t.no_duplicates()) by {
                    assert forall|i: int, j: int|
                        0 <= i < t.len() && 0 <= j < t.len() && i != j implies t[i] != t[j] by {
                        assert(e[i + 1] != 0 && e[j + 1] != 0);
                    }
                }
                assert(forall|i: int| 0 <= i < t.len() ==> 1 <= #[trigger] t[i] < LOCAL_PALETTE_CAP);
                lemma_pigeonhole(t, 1, LOCAL_PALETTE_CAP as int);
            },
        }
    }

    /// A fresh palette: 16 free slots, slot 0 pinned to global 0.
    pub fn new() -> (r: ChunkPalette)
        ensures
            r.wf(),
            forall|i: int| 0 <= i < r.entries().len() ==> #[trigger] r.entries()[i] == 0,
    {
        let mut entries: Vec<usize> = Vec::new();
        let mut i: usize = 0;
        while i < 16
            invariant
                i <= 16,
                entries@.len() == i,
                forall|j: int| 0 <= j < i ==> #[trigger] entries@[j] == 0,
            decreases 16 - i,
        {
            entries.push(0);
            i += 1;
        }
        ChunkPalette::Small { entries }
    }

    /// Number of slots of the table.
    pub fn len_entries(&self) -> (r: usize)
        ensures
            r == self.entries().len(),
    {
        match self {
            ChunkPalette::Small { entries } => entries.len(),
            ChunkPalette::Full(entries) => entries.len(),
        }
    }

    /// The slot already mapping `block_index`, if any.
    fn find_local(&self, block_index: usize) -> (r: Option<usize>)
        ensures
            match r {
                Some(i) => i < self.entries().len() && self.entries()[i as int] == block_index,
                None => forall|j: int|
                    0 <= j < self.entries().len() ==> #[trigger] self.entries()[j] != block_index,
            },
    {
        let n = self.len_entries();
        let mut i: usize = 0;
        while i < n
            invariant
                n == self.entries().len(),
                i <= n,
                forall|j: int| 0 <= j < i ==> #[trigger] self.entries()[j] != block_index,
            decreases n - i,
        {
            let v = match self {
                ChunkPalette::Small { entries } => entries[i],
                ChunkPalette::Full(entries) => entries[i],
            };
            if v == block_index {
                return Some(i);
            }
            i += 1;
        }
        None
    }

    /// A free slot of the fixed table (beyond the pinned slot 0), if any.
    fn find_zero_slot(&self) -> (r: Option<usize>)
        ensures
            match r {
                Some(i) => 1 <= i < self.entries().len() && self.entries()[i as int] == 0,
                None => forall|j: int|
                    1 <= j < self.entries().len() ==> #[trigger] self.entries()[j] != 0,
            },
    {
        let n = self.len_entries();
        let mut i: usize = 1;
        while i < n
            invariant
                n == self.entries().len(),
                1 <= i <= n || (n == 0 && i == 1),
                forall|j: int| 1 <= j < i ==> #[trigger] self.entries()[j] != 0,
            decreases n - i,
        {
            let v = match self {
                ChunkPalette::Small { entries } => entries[i],
                ChunkPalette::Full(entries) => entries[i],
            };
            if v == 0 {
                return Some(i);
            }
            i += 1;
        }
        None
    }

    /// A copy of the table contents.
    fn copy_entries(&self) -> (r: Vec<usize>)
        ensures
            r@ == self.entries(),
    {
        let n = self.len_entries();
        let mut out: Vec<usize> = Vec::new();
        let mut i: usize = 0;
        while i < n
            invariant
                n == self.entries().len(),
                i <= n,
                out@.len() == i,
                forall|j: int| 0 <= j < i ==> #[trigger] out@[j] == self.entries()[j],
            decreases n - i,
        {
            let v = match self {
                ChunkPalette::Small { entries } => entries[i],
                ChunkPalette::Full(entries) => entries[i],
            };
            out.push(v);
            i += 1;
        }
        proof {
            assert(out@ =~= self.entries());
        }
        out
    }

    /// The local index `block_index` maps to, allocating a slot when the
    /// mapping is new.  Existing nonzero mappings are never moved, so
    /// locals already stored in chunk data keep their meaning.
    pub fn to_local(&mut self, block_index: usize) -> (r: u8)
        requires
            old(self).wf(),
            block_index < LOCAL_PALETTE_CAP,
        ensures
            final(self).wf(),
            (r as int) < final(self).entries().len(),
            final(self).entries()[r as int] == block_index,
            final(self).entries().len() >= old(self).entries().len(),
            block_index == 0 ==> r == 0,
            block_index != 0 ==> r != 0,
            forall|j: int|
                0 <= j < old(self).entries().len() && #[trigger] old(self).entries()[j] != 0
                    ==> final(self).entries()[j] == old(self).entries()[j],
            final(self).entries()[0] == 0,
            // a mapping the table already holds allocates nothing
            (exists|j: int|
                0 <= j < old(self).entries().len() && #[trigger] old(self).entries()[j]
                    == block_index) ==> final(self).entries() == old(self).entries(),
    {
        if block_index == 0 {
            return 0;
        }
        proof {
            self.lemma_len_cap();
        }
        match self.find_local(block_index) {
            Some(i) => {
                proof {
                    if i == 0 {
                        assert(self.entries()[0] == 0);
                    }
                }
                return i as u8;
            },
            None => {},
        }
        let is_small = match self {
            ChunkPalette::Small { .. } => true,
            ChunkPalette::Full(_) => false,
        };
        if is_small {
            match self.find_zero_slot() {
                Some(k) => {
                    match self {
                        ChunkPalette::Small { entries } => {
                            entries.set(k, block_index);
                        },
                        ChunkPalette::Full(_) => {},
                    }
                    k as u8
                },
                None => {
                    // every slot is taken: fall back to the dynamic table
                    let mut vec = self.copy_entries();
                    vec.push(block_index);
                    *self = ChunkPalette::Full(vec);
                    16
                },
            }
        } else {
            let n = self.len_entries();
            proof {
                // the new mapping joins the distinct nonzero values, so
                // there is room below the cap
                let e = self.entries();
                let t = Seq::new((e.len() - 1) as nat, |k: int| e[k + 1] as int).push(
                    block_index as int,
                );
                assert(t.no_duplicates()) by {
                    assert forall|a: int, b: int|
                        0 <= a < t.len() && 0 <= b < t.len() && a != b implies t[a] != t[b] by {
                        if a < t.len() - 1 && b < t.len() - 1 {
                            assert(e[a + 1] != 0 && e[b + 1] != 0);
                        } else if a < t.len() - 1 {
                            assert(e[a + 1] != block_index);
                        } else if b < t.len() - 1 {
                            assert(e[b + 1] != block_index);
                        }
                    }
                }
                assert(forall|k: int| 0 <= k < t.len() ==> 1 <= #[trigger] t[k] < LOCAL_PALETTE_CAP);
                lemma_pigeonhole(t, 1, LOCAL_PALETTE_CAP as int);
                assert(e.len() < LOCAL_PALETTE_CAP);
            }
            match self {
                ChunkPalette::Full(entries) => {
                    entries.push(block_index);
                },
                ChunkPalette::Small { .. } => {},
            }
            n as u8
        }
    }

    /// A deep copy of the palette, preserving the representation.
    pub fn duplicate(&self) -> (r: ChunkPalette)
        ensures
            r.entries() == self.entries(),
            (r matches ChunkPalette::Small { .. }) == (self matches ChunkPalette::Small { .. }),
    {
        let e = self.copy_entries();
        match self {
            ChunkPalette::Small { .. } => ChunkPalette::Small { entries: e },
            ChunkPalette::Full(_) => ChunkPalette::Full(e),
        }
    }

    /// Runtime validation: accepts only well-formed tables.  Used when a
    /// chunk arrives from outside (a pager) and nothing is known of it.
    pub fn check_wf(&self) -> (r: bool)
        ensures
            r ==> self.wf(),
    {
        let e = self.copy_entries();
        let n = e.len();
        if n < 1 || e[0] != 0 {
            return false;
        }
        match self {
            ChunkPalette::Small { .. } => {
                if n != 16 {
                    return false;
                }
            },
            ChunkPalette::Full(_) => {
                if n < 16 {
                    return false;
                }
                let mut i: usize = 1;
                while i < n
                    invariant
                        n == e@.len(),
                        e@ == self.entries(),
                        1 <= i <= n,
                        forall|j: int| 1 <= j < i ==> #[trigger] self.entries()[j] != 0,
                    decreases n - i,
                {
                    if e[i] == 0 {
                        return false;
                    }
                    i += 1;
                }
            },
        }
        let mut i: usize = 0;
        while i < n
            invariant
                n == e@.len(),
                e@ == self.entries(),
                i <= n,
                forall|j: int| 0 <= j < i ==> #[trigger] self.entries()[j] < LOCAL_PALETTE_CAP,
                forall|a: int, b: int|
                    0 <= a < b < i && #[trigger] self.entries()[a] == #[trigger] self.entries()[b]
                        ==> self.entries()[a] == 0,
            decreases n - i,
        {
            if e[i] >= LOCAL_PALETTE_CAP {
                return false;
            }
            if e[i] != 0 {
                let mut j: usize = 0;
                while j < i
                    invariant
                        n == e@.len(),
                        e@ == self.entries(),
                        i < n,
                        j <= i,
                        forall|a: int| 0 <= a < j ==> #[trigger] self.entries()[a] != self.entries()[i as int],
                    decreases i - j,
                {
                    if e[j] == e[i] {
                        return false;
                    }
                    j += 1;
                }
            }
            i += 1;
        }
        true
    }

    /// The global palette index a stored local index stands for.
    pub fn to_global(&self, local_index: u8) -> (r: usize)
        requires
            self.wf(),
            (local_index as int) < self.entries().len(),
        ensures
            r == self.entries()[local_index as int],
            local_index == 0 ==> r == 0,
    {
        match self {
            ChunkPalette::Small { entries } => entries[local_index as usize],
            ChunkPalette::Full(entries) => entries[local_index as usize],
        }
    }
}

} // verus!
