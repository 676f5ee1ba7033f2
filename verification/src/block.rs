use vstd::prelude::*;

verus! {

/// RGB color carried by a block's shader.
#[derive(Debug, Clone, Copy, PartialEq, Eq, Structural)]
pub struct BlockRGB {
    pub r: u8,
    pub g: u8,
    pub b: u8,
}

/// How a block is rendered: invisible, or a flat RGB color.
#[derive(Debug, Clone, Copy, PartialEq, Eq, Structural)]
pub enum BlockShader {
    Empty,
    RGB(BlockRGB),
}

/// A Block is the definition of a "type" of voxel, whereas a voxel is a
/// specific placement of a block in a model.
///
/// `walk_cost` is a fixed-point scalar in thousandths used by the
/// pathfinding cost model: 1000 stands for the cost of plain grass,
/// 150 for a cleared road, 5000 for thick underbrush.
#[derive(Debug)]
pub struct Block {
    /// Unique identifier for the block (e.g. "grass", "sand").
    pub id: String,
    pub shader: BlockShader,
    /// Indicates the voxel cannot be built on top of.
    pub occupied: bool,
    /// Movement cost in thousandths of the cost of plain ground.
    pub walk_cost: u32,
}

/// Two blocks are equivalent when every property other than the id matches.
pub open spec fn equiv(a: Block, b: Block) -> bool {
    a.shader == b.shader && a.occupied == b.occupied && a.walk_cost == b.walk_cost
}

/// Decimal digit characters used when a color is encoded into an id.
pub open spec fn digit_char(d: int) -> char {
    "0123456789"@[d]
}

/// Decimal text of a byte, without leading zeros.
pub open spec fn dec_u8(v: u8) -> Seq<char> {
    if v < 10 {
        seq![digit_char(v as int)]
    } else if v < 100 {
        seq![digit_char(v as int / 10), digit_char(v as int % 10)]
    } else {
        seq![digit_char(v as int / 100), digit_char((v as int / 10) % 10), digit_char(v as int % 10)]
    }
}

/// The occupancy tag a synthesized variant id carries.
pub open spec fn occ_tag(occupied: bool) -> Seq<char> {
    if occupied {
        "X"@
    } else {
        "O"@
    }
}

/// The shader tag a synthesized variant id carries.
pub open spec fn shader_tag(s: BlockShader) -> Seq<char> {
    match s {
        BlockShader::Empty => "E"@,
        BlockShader::RGB(c) => "RGB"@ + dec_u8(c.r) + ","@ + dec_u8(c.g) + ","@ + dec_u8(c.b),
    }
}

/// The id synthesized for a variant of `b`: the base id followed by an
/// encoding of the occupied flag and the shader, so that distinct variants
/// of one base block never share an id.
pub open spec fn spec_variant_id(b: Block) -> Seq<char> {
    b.id@ + "::"@ + occ_tag(b.occupied) + "|"@ + shader_tag(b.shader)
}

/// Appends the decimal text of `v` to `s`.
fn append_u8_dec(s: &mut String, v: u8)
    ensures
        final(s)@ == old(s)@ + dec_u8(v),
{
    proof {
        reveal_strlit("0123456789");
        reveal_strlit("0");
        reveal_strlit("1");
        reveal_strlit("2");
        reveal_strlit("3");
        reveal_strlit("4");
        reveal_strlit("5");
        reveal_strlit("6");
        reveal_strlit("7");
        reveal_strlit("8");
        reveal_strlit("9");
    }
    if v >= 100 {
        append_digit(s, v / 100);
    }
    if v >= 10 {
        append_digit(s, (v / 10) % 10);
    }
    append_digit(s, v % 10);
    proof {
        assert(final(s)@ =~= old(s)@ + dec_u8(v));
    }
}

/// Appends a single decimal digit (0 to 9) to `s`.
fn append_digit(s: &mut String, d: u8)
    requires
        d < 10,
    ensures
        final(s)@ == old(s)@ + seq![digit_char(d as int)],
{
    proof {
        reveal_strlit("0123456789");
        reveal_strlit("0");
        reveal_strlit("1");
        reveal_strlit("2");
        reveal_strlit("3");
        reveal_strlit("4");
        reveal_strlit("5");
        reveal_strlit("6");
        reveal_strlit("7");
        reveal_strlit("8");
        reveal_strlit("9");
    }
    let t: &str = match d {
        0 => "0",
        1 => "1",
        2 => "2",
        3 => "3",
        4 => "4",
        5 => "5",
        6 => "6",
        7 => "7",
        8 => "8",
        _ => "9",
    };
    s.append(t);
    proof {
        assert(final(s)@ =~= old(s)@ + seq![digit_char(d as int)]);
    }
}

impl Block {
    /// The canonical empty block; index 0 of every palette holds it.
    pub fn empty() -> (r: Block)
        ensures
            r.id@ == "empty"@,
            r.shader == BlockShader::Empty,
            r.occupied == false,
            r.walk_cost == 0,
    {
        Block { id: "empty".to_owned(), shader: BlockShader::Empty, occupied: false, walk_cost: 0 }
    }

    /// A fresh block with default properties and the given id.
    pub fn new(id: &str) -> (r: Block)
        ensures
            r.id@ == id@,
            r.shader == BlockShader::Empty,
            r.occupied == false,
            r.walk_cost == 1000,
    {
        Block { id: id.to_owned(), shader: BlockShader::Empty, occupied: false, walk_cost: 1000 }
    }

    /// A fresh block with default properties and a flat RGB shader.
    pub fn color(id: &str, r: u8, g: u8, b: u8) -> (res: Block)
        ensures
            res.id@ == id@,
            res.shader == BlockShader::RGB(BlockRGB { r, g, b }),
            res.occupied == false,
            res.walk_cost == 1000,
    {
        let mut block = Block::new(id);
        block.shader = BlockShader::RGB(BlockRGB { r, g, b });
        block
    }

    /// True when all properties other than the id match.
    pub fn is_equivalent(&self, other: &Block) -> (r: bool)
        ensures
            r == equiv(*self, *other),
    {
        self.shader == other.shader && self.occupied == other.occupied && self.walk_cost
            == other.walk_cost
    }

    /// The id synthesized for variants of this block.
    pub fn variant_id(&self) -> (r: String)
        ensures
            r@ == spec_variant_id(*self),
    {
        let mut s = self.id.clone();
        s.append("::");
        if self.occupied {
            s.append("X");
        } else {
            s.append("O");
        }
        s.append("|");
        match self.shader {
            BlockShader::Empty => {
                s.append("E");
            },
            BlockShader::RGB(c) => {
                s.append("RGB");
                append_u8_dec(&mut s, c.r);
                s.append(",");
                append_u8_dec(&mut s, c.g);
                s.append(",");
                append_u8_dec(&mut s, c.b);
            },
        }
        proof {
            assert(s@ =~= spec_variant_id(*self));
        }
        s
    }

    /// The variant of this block with the occupied flag set to `occupied`:
    /// the same block when nothing changes, else a copy under the
    /// synthesized variant id.
    pub fn with_occupied(&self, occupied: bool) -> (r: Block)
        ensures
            self.occupied == occupied ==> r == *self,
            self.occupied != occupied ==> r.id@ == spec_variant_id(
                Block { occupied, ..*self },
            ) && r.shader == self.shader && r.occupied == occupied && r.walk_cost
                == self.walk_cost,
    {
        if self.occupied == occupied {
            self.clone()
        } else {
            let m = Block {
                id: self.id.clone(),
                shader: self.shader,
                occupied,
                walk_cost: self.walk_cost,
            };
            let id = m.variant_id();
            Block { id, shader: self.shader, occupied, walk_cost: self.walk_cost }
        }
    }

    /// The variant of this block with the given shader color: the same
    /// block when nothing changes, else a copy under the synthesized
    /// variant id.
    pub fn with_color(&self, r: u8, g: u8, b: u8) -> (res: Block)
        ensures
            self.shader == BlockShader::RGB(BlockRGB { r, g, b }) ==> res == *self,
            self.shader != BlockShader::RGB(BlockRGB { r, g, b }) ==> res.id@ == spec_variant_id(
                Block { shader: BlockShader::RGB(BlockRGB { r, g, b }), ..*self },
            ) && res.shader == BlockShader::RGB(BlockRGB { r, g, b }) && res.occupied
                == self.occupied && res.walk_cost == self.walk_cost,
    {
        let shader = BlockShader::RGB(BlockRGB { r, g, b });
        if self.shader == shader {
            self.clone()
        } else {
            let m = Block {
                id: self.id.clone(),
                shader,
                occupied: self.occupied,
                walk_cost: self.walk_cost,
            };
            let id = m.variant_id();
            Block { id, shader, occupied: self.occupied, walk_cost: self.walk_cost }
        }
    }

    /// A copy of this block with another walk cost and the id left as it
    /// is; the palette deduplicates the result by equivalence.
    pub fn with_walk_cost(&self, walk_cost: u32) -> (r: Block)
        ensures
            r.id@ == self.id@ && r.shader == self.shader && r.occupied == self.occupied
                && r.walk_cost == walk_cost,
    {
        Block { id: self.id.clone(), shader: self.shader, occupied: self.occupied, walk_cost }
    }

    /// True when the block renders as nothing.
    pub fn is_empty(&self) -> (r: bool)
        ensures
            r == (self.shader == BlockShader::Empty),
    {
        match self.shader {
            BlockShader::Empty => true,
            _ => false,
        }
    }
}

impl Clone for Block {
    fn clone(&self) -> (r: Block)
        ensures
            r == *self,
    {
        Block {
            id: self.id.clone(),
            shader: self.shader,
            occupied: self.occupied,
            walk_cost: self.walk_cost,
        }
    }
}

} // verus!
