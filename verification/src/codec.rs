use vstd::prelude::*;
use vstd::utf8::encode_utf8;
use vstd::string::StringSliceAdditionalSpecFns;
use vstd::utf8::decode_utf8;
use vstd::utf8::valid_utf8;
use vstd::utf8::decode_utf8_encode_utf8;
use crate::block::Block;
use crate::block::BlockRGB;
use crate::block::BlockShader;
use crate::error::Error;
use crate::voxel_set::Cell;
use crate::voxel_set::Column;
use crate::voxel_set::VoxelSet;
use crate::voxel_set::unique_z;
use crate::voxel_set::unique_cols;
use crate::voxel_palette::VoxelPalette;

verus! {

// ---------------------------------------------------------------------
// Byte-level encoding specifications (little endian)
// ---------------------------------------------------------------------

pub open spec fn le16(v: u16) -> Seq<u8> {
    seq![(v & 0xFF) as u8, ((v >> 8) & 0xFF) as u8]
}

pub open spec fn le32(v: u32) -> Seq<u8> {
    seq![
        (v & 0xFF) as u8,
        ((v >> 8) & 0xFF) as u8,
        ((v >> 16) & 0xFF) as u8,
        ((v >> 24) & 0xFF) as u8,
    ]
}

pub open spec fn le64(v: u64) -> Seq<u8> {
    seq![
        (v & 0xFF) as u8,
        ((v >> 8) & 0xFF) as u8,
        ((v >> 16) & 0xFF) as u8,
        ((v >> 24) & 0xFF) as u8,
        ((v >> 32) & 0xFF) as u8,
        ((v >> 40) & 0xFF) as u8,
        ((v >> 48) & 0xFF) as u8,
        ((v >> 56) & 0xFF) as u8,
    ]
}

/// The encoding of one block definition.
pub open spec fn enc_block(b: Block) -> Seq<u8> {
    le64(encode_utf8(b.id@).len() as u64) + encode_utf8(b.id@) + (match b.shader {
        BlockShader::Empty => seq![0u8],
        BlockShader::RGB(c) => seq![1u8, c.r, c.g, c.b],
    }) + seq![
        if b.occupied {
            1u8
        } else {
            0u8
        },
    ] + le32(b.walk_cost)
}

/// The encodings of a palette's blocks, concatenated.
pub open spec fn enc_blocks(s: Seq<Block>) -> Seq<u8>
    decreases s.len(),
{
    if s.len() == 0 {
        Seq::empty()
    } else {
        enc_blocks(s.drop_last()) + enc_block(s.last())
    }
}

/// The encoding of one stored cell.
pub open spec fn enc_cell(c: Cell) -> Seq<u8> {
    le32(c.z as u32) + le16(c.index)
}

pub open spec fn enc_cells(s: Seq<Cell>) -> Seq<u8>
    decreases s.len(),
{
    if s.len() == 0 {
        Seq::empty()
    } else {
        enc_cells(s.drop_last()) + enc_cell(s.last())
    }
}

/// The encoding of one column: its key, then its cells.
pub open spec fn enc_column(c: Column) -> Seq<u8> {
    le32(c.x as u32) + le32(c.y as u32) + le64(c.cells@.len() as u64) + enc_cells(c.cells@)
}

pub open spec fn enc_columns(s: Seq<Column>) -> Seq<u8>
    decreases s.len(),
{
    if s.len() == 0 {
        Seq::empty()
    } else {
        enc_columns(s.drop_last()) + enc_column(s.last())
    }
}

/// The full payload encoding of a bounded voxel container: the palette,
/// then the columns, each length-prefixed.
pub open spec fn enc_voxel_set(vs: VoxelSet) -> Seq<u8> {
    le64(vs.palette.blocks@.len() as u64) + enc_blocks(vs.palette.blocks@) + le64(
        vs.columns@.len() as u64,
    ) + enc_columns(vs.columns@)
}

/// The fixed 8-byte magic identifier of a persisted voxel-set file.
pub open spec fn magic_bytes() -> Seq<u8> {
    seq![83u8, 78u8, 86u8, 83u8, 69u8, 84u8, 0u8, 0u8]
}

/// The 4-component format version of a persisted voxel-set file.
pub open spec fn version_bytes() -> Seq<u8> {
    seq![0u8, 0u8, 1u8, 0u8]
}

/// The full file image of a persisted voxel set: magic, version, then
/// the compressed payload.
pub open spec fn enc_voxel_set_file(vs: VoxelSet) -> Seq<u8> {
    magic_bytes() + version_bytes() + deflate_of(enc_voxel_set(vs))
}

// ---------------------------------------------------------------------
// Compression (flate2)
// ---------------------------------------------------------------------

/// The DEFLATE compression of a byte buffer at the default level: a
/// pure function of the bytes.
pub uninterp spec fn deflate_of(data: Seq<u8>) -> Seq<u8>;

/// What DEFLATE decompression makes of a byte buffer: the original
/// bytes for a stream the encoder produced, `None` for malformed input.
pub uninterp spec fn inflate_of(data: Seq<u8>) -> Option<Seq<u8>>;

/// Relies on flate2's `write::DeflateEncoder` (backed by the pure-Rust
/// miniz_oxide): compressing a buffer at the default level depends on
/// the bytes alone, DEFLATE is lossless (decoding the stream restores
/// the buffer), and writing into a `Vec` sink cannot fail.
#[verifier::external_body]
fn deflate_bytes(data: &Vec<u8>) -> (r: Vec<u8>)
    ensures
        r@ == deflate_of(data@),
        inflate_of(r@) == Some(data@),
{
    let mut e = flate2::write::DeflateEncoder::new(Vec::new(), flate2::Compression::default());
    std::io::Write::write_all(&mut e, data.as_slice()).expect("write to a vec sink cannot fail");
    e.finish().expect("finishing a vec sink cannot fail")
}

/// Relies on flate2's `read::DeflateDecoder`: decompressing a DEFLATE
/// stream restores exactly the bytes that were compressed, and
/// malformed input is reported as an error.
#[verifier::external_body]
fn inflate_bytes(data: &Vec<u8>) -> (r: Option<Vec<u8>>)
    ensures
        r matches Some(v) ==> inflate_of(data@) == Some(v@),
        r is None ==> inflate_of(data@) is None,
{
    let mut d = flate2::read::DeflateDecoder::new(data.as_slice());
    let mut out = Vec::new();
    match std::io::Read::read_to_end(&mut d, &mut out) {
        Ok(_) => Some(out),
        Err(_) => None,
    }
}

/// Relies on `String::from_utf8`: succeeds exactly on valid UTF-8 and
/// returns the string those bytes spell.
#[verifier::external_body]
fn string_from_utf8(bytes: Vec<u8>) -> (r: Option<String>)
    ensures
        r matches Some(s) ==> valid_utf8(bytes@) && s@ == decode_utf8(bytes@),
        r is None ==> !valid_utf8(bytes@),
{
    match String::from_utf8(bytes) {
        Ok(s) => Some(s),
        Err(_) => None,
    }
}

// ---------------------------------------------------------------------
// Writers
// ---------------------------------------------------------------------

fn push_u16(out: &mut Vec<u8>, v: u16)
    ensures
        final(out)@ == old(out)@ + le16(v),
{
    out.push((v & 0xFF) as u8);
    out.push(((v >> 8) & 0xFF) as u8);
    proof {
        assert(final(out)@ =~= old(out)@ + le16(v));
    }
}

fn push_u32(out: &mut Vec<u8>, v: u32)
    ensures
        final(out)@ == old(out)@ + le32(v),
{
    out.push((v & 0xFF) as u8);
    out.push(((v >> 8) & 0xFF) as u8);
    out.push(((v >> 16) & 0xFF) as u8);
    out.push(((v >> 24) & 0xFF) as u8);
    proof {
        assert(final(out)@ =~= old(out)@ + le32(v));
    }
}

fn push_u64(out: &mut Vec<u8>, v: u64)
    ensures
        final(out)@ == old(out)@ + le64(v),
{
    out.push((v & 0xFF) as u8);
    out.push(((v >> 8) & 0xFF) as u8);
    out.push(((v >> 16) & 0xFF) as u8);
    out.push(((v >> 24) & 0xFF) as u8);
    out.push(((v >> 32) & 0xFF) as u8);
    out.push(((v >> 40) & 0xFF) as u8);
    out.push(((v >> 48) & 0xFF) as u8);
    out.push(((v >> 56) & 0xFF) as u8);
    proof {
        assert(final(out)@ =~= old(out)@ + le64(v));
    }
}

/// Appends the UTF-8 bytes of `s`.
fn push_str_bytes(out: &mut Vec<u8>, s: &str)
    ensures
        final(out)@ == old(out)@ + encode_utf8(s@),
{
    let bytes = s.as_bytes();
    let n = bytes.len();
    let mut i: usize = 0;
    while i < n
        invariant
            n == s.spec_bytes().len(),
            bytes@ == s.spec_bytes(),
            i <= n,
            out@ == old(out)@ + s.spec_bytes().take(i as int),
        decreases n - i,
    {
        proof {
            assert(s.spec_bytes().take(i as int + 1) =~= s.spec_bytes().take(i as int).push(
                s.spec_bytes()[i as int],
            ));
        }
        out.push(bytes[i]);
        i += 1;
    }
    proof {
        assert(s.spec_bytes().take(n as int) =~= s.spec_bytes());
        assert(s.spec_bytes() == encode_utf8(s@));
    }
}

fn push_block(out: &mut Vec<u8>, b: &Block)
    ensures
        final(out)@ == old(out)@ + enc_block(*b),
{
    let mut idb: Vec<u8> = Vec::new();
    push_str_bytes(&mut idb, b.id.as_str());
    push_u64(out, idb.len() as u64);
    let n = idb.len();
    let mut i: usize = 0;
    while i < n
        invariant
            n == idb@.len(),
            i <= n,
            idb@ == encode_utf8(b.id@),
            out@ == old(out)@ + le64(idb@.len() as u64) + idb@.take(i as int),
        decreases n - i,
    {
        proof {
            assert(idb@.take(i as int + 1) =~= idb@.take(i as int).push(idb@[i as int]));
        }
        out.push(idb[i]);
        i += 1;
    }
    proof {
        assert(idb@.take(n as int) =~= idb@);
    }
    match b.shader {
        BlockShader::Empty => {
            out.push(0u8);
        },
        BlockShader::RGB(c) => {
            out.push(1u8);
            out.push(c.r);
            out.push(c.g);
            out.push(c.b);
        },
    }
    if b.occupied {
        out.push(1u8);
    } else {
        out.push(0u8);
    }
    push_u32(out, b.walk_cost);
    proof {
        assert(final(out)@ =~= old(out)@ + enc_block(*b));
    }
}

/// Serializes a voxel set to its payload bytes: a deterministic function
/// of the container's contents.
pub fn encode_voxel_set(vs: &VoxelSet) -> (r: Vec<u8>)
    ensures
        r@ == enc_voxel_set(*vs),
{
    let mut out: Vec<u8> = Vec::new();
    push_u64(&mut out, vs.palette.blocks.len() as u64);
    let nb = vs.palette.blocks.len();
    let mut i: usize = 0;
    while i < nb
        invariant
            nb == vs.palette.blocks@.len(),
            i <= nb,
            out@ == le64(vs.palette.blocks@.len() as u64) + enc_blocks(
                vs.palette.blocks@.take(i as int),
            ),
        decreases nb - i,
    {
        proof {
            assert(vs.palette.blocks@.take(i as int + 1).drop_last() =~= vs.palette.blocks@.take(
                i as int,
            ));
            assert(vs.palette.blocks@.take(i as int + 1).last() == vs.palette.blocks@[i as int]);
        }
        push_block(&mut out, &vs.palette.blocks[i]);
        i += 1;
    }
    proof {
        assert(vs.palette.blocks@.take(nb as int) =~= vs.palette.blocks@);
    }
    push_u64(&mut out, vs.columns.len() as u64);
    let nc = vs.columns.len();
    let mut ci: usize = 0;
    while ci < nc
        invariant
            nc == vs.columns@.len(),
            ci <= nc,
            out@ == le64(vs.palette.blocks@.len() as u64) + enc_blocks(vs.palette.blocks@) + le64(
                vs.columns@.len() as u64,
            ) + enc_columns(vs.columns@.take(ci as int)),
        decreases nc - ci,
    {
        proof {
            assert(vs.columns@.take(ci as int + 1).drop_last() =~= vs.columns@.take(ci as int));
            assert(vs.columns@.take(ci as int + 1).last() == vs.columns@[ci as int]);
        }
        let col = &vs.columns[ci];
        push_u32(&mut out, col.x as u32);
        push_u32(&mut out, col.y as u32);
        push_u64(&mut out, col.cells.len() as u64);
        let m = col.cells.len();
        let mut j: usize = 0;
        let ghost mid = out@;
        while j < m
            invariant
                m == vs.columns@[ci as int].cells@.len(),
                ci < nc == vs.columns@.len(),
                col == &vs.columns[ci as int],
                j <= m,
                out@ == mid + enc_cells(vs.columns@[ci as int].cells@.take(j as int)),
            decreases m - j,
        {
            proof {
                let cells = vs.columns@[ci as int].cells@;
                assert(cells.take(j as int + 1).drop_last() =~= cells.take(j as int));
                assert(cells.take(j as int + 1).last() == cells[j as int]);
            }
            let c = col.cells[j];
            push_u32(&mut out, c.z as u32);
            push_u16(&mut out, c.index);
            proof {
                assert(out@ =~= mid + enc_cells(
                    vs.columns@[ci as int].cells@.take(j as int + 1),
                ));
            }
            j += 1;
        }
        proof {
            let cells = vs.columns@[ci as int].cells@;
            assert(cells.take(m as int) =~= cells);
            assert(out@ =~= le64(vs.palette.blocks@.len() as u64) + enc_blocks(vs.palette.blocks@)
                + le64(vs.columns@.len() as u64) + enc_columns(vs.columns@.take(ci as int + 1)));
        }
        ci += 1;
    }
    proof {
        assert(vs.columns@.take(nc as int) =~= vs.columns@);
        assert(out@ =~= enc_voxel_set(*vs));
    }
    out
}

/// The full persisted image of a voxel set: the fixed magic identifier,
/// the format version, then the compressed payload.  The payload
/// decompresses back to exactly the container's encoding, so a freshly
/// written file is provably acceptable to the loader.
pub fn serialize_voxel_set(vs: &VoxelSet) -> (r: Vec<u8>)
    ensures
        r@ == enc_voxel_set_file(*vs),
        r@.len() >= 12,
        r@.subrange(0, 8) == magic_bytes(),
        r@.subrange(8, 12) == version_bytes(),
        inflate_of(r@.subrange(12, r@.len() as int)) == Some(enc_voxel_set(*vs)),
{
    let mut out: Vec<u8> = Vec::new();
    out.push(83);
    out.push(78);
    out.push(86);
    out.push(83);
    out.push(69);
    out.push(84);
    out.push(0);
    out.push(0);
    out.push(0);
    out.push(0);
    out.push(1);
    out.push(0);
    let payload = encode_voxel_set(vs);
    let compressed = deflate_bytes(&payload);
    let n = compressed.len();
    let mut i: usize = 0;
    while i < n
        invariant
            n == compressed@.len(),
            i <= n,
            out@ == magic_bytes() + version_bytes() + compressed@.take(i as int),
        decreases n - i,
    {
        proof {
            assert(compressed@.take(i as int + 1) =~= compressed@.take(i as int).push(
                compressed@[i as int],
            ));
        }
        out.push(compressed[i]);
        i += 1;
    }
    proof {
        assert(compressed@.take(n as int) =~= compressed@);
        assert(out@ =~= enc_voxel_set_file(*vs));
        assert(out@.subrange(0, 8) =~= magic_bytes());
        assert(out@.subrange(8, 12) =~= version_bytes());
        assert(out@.subrange(12, out@.len() as int) =~= compressed@);
    }
    out
}

// ---------------------------------------------------------------------
// Readers
// ---------------------------------------------------------------------

fn read_u8(bytes: &Vec<u8>, off: usize) -> (r: Option<(u8, usize)>)
    ensures
        r matches Some(p) ==> p.1 == off + 1 && off + 1 <= bytes@.len() && seq![p.0]
            == bytes@.subrange(off as int, off + 1),
        r is None ==> off + 1 > bytes@.len(),
{
    if off < bytes.len() {
        proof {
            assert(seq![bytes@[off as int]] =~= bytes@.subrange(off as int, off + 1));
        }
        Some((bytes[off], off + 1))
    } else {
        None
    }
}

fn read_u16(bytes: &Vec<u8>, off: usize) -> (r: Option<(u16, usize)>)
    ensures
        r matches Some(p) ==> p.1 == off + 2 && off + 2 <= bytes@.len() && le16(p.0)
            == bytes@.subrange(off as int, off + 2),
        r is None ==> off + 2 > bytes@.len(),
{
    let total = bytes.len();
    if 2 <= total && off <= total - 2 {
        let b0 = bytes[off];
        let b1 = bytes[off + 1];
        let v: u16 = b0 as u16 | ((b1 as u16) << 8);
        proof {
            assert((v & 0xFF) as u8 == b0 && ((v >> 8) & 0xFF) as u8 == b1) by (bit_vector)
                requires
                    v == b0 as u16 | ((b1 as u16) << 8),
            ;
            assert(le16(v) =~= bytes@.subrange(off as int, off + 2));
        }
        Some((v, off + 2))
    } else {
        None
    }
}

fn read_u32(bytes: &Vec<u8>, off: usize) -> (r: Option<(u32, usize)>)
    ensures
        r matches Some(p) ==> p.1 == off + 4 && off + 4 <= bytes@.len() && le32(p.0)
            == bytes@.subrange(off as int, off + 4),
        r is None ==> off + 4 > bytes@.len(),
{
    let total = bytes.len();
    if 4 <= total && off <= total - 4 {
        let b0 = bytes[off];
        let b1 = bytes[off + 1];
        let b2 = bytes[off + 2];
        let b3 = bytes[off + 3];
        let v: u32 = b0 as u32 | ((b1 as u32) << 8) | ((b2 as u32) << 16) | ((b3 as u32) << 24);
        proof {
            assert((v & 0xFF) as u8 == b0 && ((v >> 8) & 0xFF) as u8 == b1 && ((v >> 16) & 0xFF) as u8
                == b2 && ((v >> 24) & 0xFF) as u8 == b3) by (bit_vector)
                requires
                    v == b0 as u32 | ((b1 as u32) << 8) | ((b2 as u32) << 16) | ((b3 as u32) << 24),
            ;
            assert(le32(v) =~= bytes@.subrange(off as int, off + 4));
        }
        Some((v, off + 4))
    } else {
        None
    }
}

fn read_u64(bytes: &Vec<u8>, off: usize) -> (r: Option<(u64, usize)>)
    ensures
        r matches Some(p) ==> p.1 == off + 8 && off + 8 <= bytes@.len() && le64(p.0)
            == bytes@.subrange(off as int, off + 8),
        r is None ==> off + 8 > bytes@.len(),
{
    let total = bytes.len();
    if 8 <= total && off <= total - 8 {
        let b0 = bytes[off];
        let b1 = bytes[off + 1];
        let b2 = bytes[off + 2];
        let b3 = bytes[off + 3];
        let b4 = bytes[off + 4];
        let b5 = bytes[off + 5];
        let b6 = bytes[off + 6];
        let b7 = bytes[off + 7];
        let v: u64 = b0 as u64 | ((b1 as u64) << 8) | ((b2 as u64) << 16) | ((b3 as u64) << 24) | (
        (b4 as u64) << 32) | ((b5 as u64) << 40) | ((b6 as u64) << 48) | ((b7 as u64) << 56);
        proof {
            assert((v & 0xFF) as u8 == b0 && ((v >> 8) & 0xFF) as u8 == b1 && ((v >> 16) & 0xFF) as u8
                == b2 && ((v >> 24) & 0xFF) as u8 == b3 && ((v >> 32) & 0xFF) as u8 == b4 && ((v
                >> 40) & 0xFF) as u8 == b5 && ((v >> 48) & 0xFF) as u8 == b6 && ((v >> 56)
                & 0xFF) as u8 == b7) by (bit_vector)
                requires
                    v == b0 as u64 | ((b1 as u64) << 8) | ((b2 as u64) << 16) | ((b3 as u64) << 24)
                        | ((b4 as u64) << 32) | ((b5 as u64) << 40) | ((b6 as u64) << 48) | ((
                    b7 as u64) << 56),
            ;
            assert(le64(v) =~= bytes@.subrange(off as int, off + 8));
        }
        Some((v, off + 8))
    } else {
        None
    }
}

/// Copies `n` bytes starting at `off`.
fn read_bytes(bytes: &Vec<u8>, off: usize, n: usize) -> (r: Option<(Vec<u8>, usize)>)
    ensures
        r matches Some(p) ==> p.1 == off + n && off + n <= bytes@.len() && p.0@
            == bytes@.subrange(off as int, off + n),
        r is None ==> off + n > bytes@.len(),
{
    let total = bytes.len();
    if n <= total && off <= total - n {
        let mut out: Vec<u8> = Vec::new();
        let mut i: usize = 0;
        while i < n
            invariant
                total == bytes@.len(),
                off + n <= total,
                i <= n,
                out@ == bytes@.subrange(off as int, off + i),
            decreases n - i,
        {
            proof {
                assert(bytes@.subrange(off as int, off + i + 1) =~= bytes@.subrange(
                    off as int,
                    off + i,
                ).push(bytes@[off + i]));
            }
            out.push(bytes[off + i]);
            i += 1;
        }
        Some((out, off + n))
    } else {
        None
    }
}

/// Parses one block definition; on success the consumed bytes are
/// exactly the encoding of the returned block.
fn decode_block(bytes: &Vec<u8>, off: usize) -> (r: Option<(Block, usize)>)
    ensures
        r matches Some(p) ==> off <= p.1 <= bytes@.len() && enc_block(p.0) == bytes@.subrange(
            off as int,
            p.1 as int,
        ),
{
    let (id_len, o1) = match read_u64(bytes, off) {
        Some(p) => p,
        None => {
            return None;
        },
    };
    if id_len > bytes.len() as u64 {
        return None;
    }
    let (idb, o2) = match read_bytes(bytes, o1, id_len as usize) {
        Some(p) => p,
        None => {
            return None;
        },
    };
    let ghost idb_view = idb@;
    let id = match string_from_utf8(idb) {
        Some(s) => s,
        None => {
            return None;
        },
    };
    proof {
        decode_utf8_encode_utf8(idb_view);
        assert(encode_utf8(id@) == idb_view);
    }
    let (tag, o3) = match read_u8(bytes, o2) {
        Some(p) => p,
        None => {
            return None;
        },
    };
    let (shader, o4) = if tag == 0 {
        proof {
            assert(bytes@[o2 as int] == tag) by {
                assert(bytes@.subrange(o2 as int, o3 as int)[0] == bytes@[o2 as int]);
            }
            assert(bytes@.subrange(o2 as int, o3 as int) =~= seq![0u8]);
        }
        (BlockShader::Empty, o3)
    } else if tag == 1 {
        let (cr, oa) = match read_u8(bytes, o3) {
            Some(p) => p,
            None => {
                return None;
            },
        };
        let (cg, ob) = match read_u8(bytes, oa) {
            Some(p) => p,
            None => {
                return None;
            },
        };
        let (cb, oc) = match read_u8(bytes, ob) {
            Some(p) => p,
            None => {
                return None;
            },
        };
        proof {
            assert(bytes@[o2 as int] == tag) by {
                assert(bytes@.subrange(o2 as int, o3 as int)[0] == bytes@[o2 as int]);
            }
            assert(bytes@[o3 as int] == cr) by {
                assert(bytes@.subrange(o3 as int, oa as int)[0] == bytes@[o3 as int]);
            }
            assert(bytes@[oa as int] == cg) by {
                assert(bytes@.subrange(oa as int, ob as int)[0] == bytes@[oa as int]);
            }
            assert(bytes@[ob as int] == cb) by {
                assert(bytes@.subrange(ob as int, oc as int)[0] == bytes@[ob as int]);
            }
            assert(bytes@.subrange(o2 as int, oc as int) =~= seq![1u8, cr, cg, cb]);
        }
        (BlockShader::RGB(BlockRGB { r: cr, g: cg, b: cb }), oc)
    } else {
        return None;
    };
    proof {
        assert(bytes@.subrange(o2 as int, o4 as int) == (match shader {
            BlockShader::Empty => seq![0u8],
            BlockShader::RGB(c) => seq![1u8, c.r, c.g, c.b],
        }));
    }
    let (occ_byte, o5) = match read_u8(bytes, o4) {
        Some(p) => p,
        None => {
            return None;
        },
    };
    let occupied = if occ_byte == 1 {
        true
    } else if occ_byte == 0 {
        false
    } else {
        return None;
    };
    let (walk_cost, o6) = match read_u32(bytes, o5) {
        Some(p) => p,
        None => {
            return None;
        },
    };
    let b = Block { id, shader, occupied, walk_cost };
    proof {
        let s = bytes@;
        assert(s.subrange(o4 as int, o5 as int) =~= seq![
            if occupied {
                1u8
            } else {
                0u8
            },
        ]);
        assert(s.subrange(off as int, o2 as int) =~= s.subrange(off as int, o1 as int)
            + s.subrange(o1 as int, o2 as int));
        assert(s.subrange(off as int, o4 as int) =~= s.subrange(off as int, o2 as int)
            + s.subrange(o2 as int, o4 as int));
        assert(s.subrange(off as int, o5 as int) =~= s.subrange(off as int, o4 as int)
            + s.subrange(o4 as int, o5 as int));
        assert(s.subrange(off as int, o6 as int) =~= s.subrange(off as int, o5 as int)
            + s.subrange(o5 as int, o6 as int));
        assert(enc_block(b) =~= bytes@.subrange(off as int, o6 as int));
    }
    Some((b, o6))
}

/// Parses a payload produced by [`encode_voxel_set`].  On success the
/// result is well formed and re-encodes to exactly the input, so a
/// parsed container carries no data beyond what the bytes spell.
pub fn decode_voxel_set(bytes: &Vec<u8>) -> (r: Option<VoxelSet>)
    ensures
        r matches Some(vs) ==> vs.wf() && enc_voxel_set(vs) == bytes@,
{
    let (nblocks, o1) = match read_u64(bytes, 0) {
        Some(p) => p,
        None => {
            return None;
        },
    };
    if nblocks < 1 || nblocks > 0xFFFF {
        return None;
    }
    let mut blocks: Vec<Block> = Vec::new();
    let mut off: usize = o1;
    let mut i: u64 = 0;
    while i < nblocks
        invariant
            i <= nblocks,
            nblocks <= 0xFFFF,
            blocks@.len() == i,
            off <= bytes@.len(),
            le64(nblocks) + enc_blocks(blocks@) == bytes@.subrange(0, off as int),
        decreases nblocks - i,
    {
        let (b, o2) = match decode_block(bytes, off) {
            Some(p) => p,
            None => {
                return None;
            },
        };
        proof {
            assert(blocks@.push(b).drop_last() =~= blocks@);
            assert(enc_blocks(blocks@.push(b)) == enc_blocks(blocks@) + enc_block(b));
            assert(bytes@.subrange(0, o2 as int) =~= bytes@.subrange(0, off as int)
                + bytes@.subrange(off as int, o2 as int));
            assert((le64(nblocks) + enc_blocks(blocks@.push(b))) =~= bytes@.subrange(
                0,
                o2 as int,
            ));
        }
        blocks.push(b);
        off = o2;
        i += 1;
    }
    // entry 0 must be the canonical empty block
    let empty_id: String = "empty".to_owned();
    if !(blocks[0].id == empty_id && blocks[0].occupied == false && blocks[0].walk_cost == 0) {
        return None;
    }
    match blocks[0].shader {
        BlockShader::Empty => {},
        _ => {
            return None;
        },
    }
    let (ncols, o3) = match read_u64(bytes, off) {
        Some(p) => p,
        None => {
            return None;
        },
    };
    let ghost cols_start = o3;
    let mut columns: Vec<Column> = Vec::new();
    let mut off2: usize = o3;
    let mut ci: u64 = 0;
    while ci < ncols
        invariant
            ci <= ncols,
            columns@.len() == ci,
            off2 <= bytes@.len(),
            blocks@.len() <= 0xFFFF,
            enc_columns(columns@) == bytes@.subrange(cols_start as int, off2 as int),
            cols_start <= off2,
            unique_cols(columns@),
            forall|a: int| 0 <= a < columns@.len() ==> unique_z(#[trigger] columns@[a].cells@),
            forall|a: int, b: int|
                0 <= a < columns@.len() && 0 <= b < columns@[a].cells@.len()
                    ==> (#[trigger] columns@[a].cells@[b]).index < blocks@.len(),
        decreases ncols - ci,
    {
        let ghost col_start = off2;
        let (xu, p1) = match read_u32(bytes, off2) {
            Some(p) => p,
            None => {
                return None;
            },
        };
        let (yu, p2) = match read_u32(bytes, p1) {
            Some(p) => p,
            None => {
                return None;
            },
        };
        let x = xu as i32;
        let y = yu as i32;
        proof {
            assert(x as u32 == xu && y as u32 == yu) by (bit_vector)
                requires
                    x == xu as i32 && y == yu as i32,
            ;
        }
        // reject a duplicate column key
        let mut k: usize = 0;
        let ncur = columns.len();
        while k < ncur
            invariant
                ncur == columns@.len(),
                k <= ncur,
                forall|a: int|
                    0 <= a < k ==> !((#[trigger] columns@[a]).x == x && columns@[a].y == y),
            decreases ncur - k,
        {
            if columns[k].x == x && columns[k].y == y {
                return None;
            }
            k += 1;
        }
        let (ncells, p3) = match read_u64(bytes, p2) {
            Some(p) => p,
            None => {
                return None;
            },
        };
        let mut cells: Vec<Cell> = Vec::new();
        let mut off3: usize = p3;
        let mut j: u64 = 0;
        while j < ncells
            invariant
                j <= ncells,
                cells@.len() == j,
                off3 <= bytes@.len(),
                blocks@.len() <= 0xFFFF,
                enc_cells(cells@) == bytes@.subrange(p3 as int, off3 as int),
                p3 <= off3,
                unique_z(cells@),
                forall|b: int| 0 <= b < cells@.len() ==> (#[trigger] cells@[b]).index < blocks@.len(),
            decreases ncells - j,
        {
            let (zu, q1) = match read_u32(bytes, off3) {
                Some(p) => p,
                None => {
                    return None;
                },
            };
            let (index, q2) = match read_u16(bytes, q1) {
                Some(p) => p,
                None => {
                    return None;
                },
            };
            let z = zu as i32;
            proof {
                assert(z as u32 == zu) by (bit_vector)
                    requires
                        z == zu as i32,
                ;
            }
            if (index as usize) >= blocks.len() {
                return None;
            }
            // reject a duplicate height
            let mut k2: usize = 0;
            let mcur = cells.len();
            while k2 < mcur
                invariant
                    mcur == cells@.len(),
                    k2 <= mcur,
                    forall|b: int| 0 <= b < k2 ==> (#[trigger] cells@[b]).z != z,
                decreases mcur - k2,
            {
                if cells[k2].z == z {
                    return None;
                }
                k2 += 1;
            }
            let c = Cell { z, index };
            proof {
                assert(cells@.push(c).drop_last() =~= cells@);
                assert(enc_cells(cells@.push(c)) == enc_cells(cells@) + enc_cell(c));
                assert(enc_cell(c) =~= bytes@.subrange(off3 as int, q2 as int));
                assert(bytes@.subrange(p3 as int, q2 as int) =~= bytes@.subrange(
                    p3 as int,
                    off3 as int,
                ) + bytes@.subrange(off3 as int, q2 as int));
                assert(enc_cells(cells@.push(c)) =~= bytes@.subrange(p3 as int, q2 as int));
            }
            cells.push(c);
            off3 = q2;
            j += 1;
        }
        let col = Column { x, y, cells };
        proof {
            let s = bytes@;
            assert(columns@.push(col).drop_last() =~= columns@);
            assert(enc_columns(columns@.push(col)) == enc_columns(columns@) + enc_column(col));
            assert(s.subrange(col_start as int, p2 as int) =~= s.subrange(
                col_start as int,
                p1 as int,
            ) + s.subrange(p1 as int, p2 as int));
            assert(s.subrange(col_start as int, p3 as int) =~= s.subrange(
                col_start as int,
                p2 as int,
            ) + s.subrange(p2 as int, p3 as int));
            assert(s.subrange(col_start as int, off3 as int) =~= s.subrange(
                col_start as int,
                p3 as int,
            ) + s.subrange(p3 as int, off3 as int));
            assert(enc_column(col) =~= s.subrange(col_start as int, off3 as int));
            assert(s.subrange(cols_start as int, off3 as int) =~= s.subrange(
                cols_start as int,
                col_start as int,
            ) + s.subrange(col_start as int, off3 as int));
            assert(enc_columns(columns@.push(col)) =~= s.subrange(
                cols_start as int,
                off3 as int,
            ));
        }
        columns.push(col);
        off2 = off3;
        ci += 1;
    }
    if off2 != bytes.len() {
        return None;
    }
    let vs = VoxelSet { palette: VoxelPalette { blocks }, columns };
    proof {
        assert(enc_voxel_set(vs) =~= bytes@);
        assert(vs.wf());
    }
    Some(vs)
}

/// Loads a persisted voxel-set file.  A mismatched magic identifier or
/// version is a distinct, named failure, never silently tolerated; a
/// payload that does not decompress or parse is reported as corrupt.
pub fn deserialize_voxel_set(bytes: &Vec<u8>) -> (r: Result<VoxelSet, Error>)
    ensures
        (bytes@.len() < 8 || bytes@.subrange(0, 8) != magic_bytes()) <==> (r matches Err(e)
            && e matches Error::FileHeader(_)),
        (bytes@.len() >= 8 && bytes@.subrange(0, 8) == magic_bytes() && (bytes@.len() < 12
            || bytes@.subrange(8, 12) != version_bytes())) <==> (r matches Err(e)
            && e matches Error::FileVersion(_)),
        r matches Ok(vs) ==> vs.wf() && bytes@.len() >= 12 && bytes@.subrange(0, 8)
            == magic_bytes() && bytes@.subrange(8, 12) == version_bytes() && inflate_of(
            bytes@.subrange(12, bytes@.len() as int),
        ) == Some(enc_voxel_set(vs)),
{
    if bytes.len() < 8 || !(bytes[0] == 83 && bytes[1] == 78 && bytes[2] == 86 && bytes[3] == 83
        && bytes[4] == 69 && bytes[5] == 84 && bytes[6] == 0 && bytes[7] == 0) {
        proof {
            if bytes@.len() >= 8 && bytes@.subrange(0, 8) == magic_bytes() {
                assert(bytes@[0] == magic_bytes()[0] && bytes@[1] == magic_bytes()[1] && bytes@[2]
                    == magic_bytes()[2] && bytes@[3] == magic_bytes()[3] && bytes@[4]
                    == magic_bytes()[4] && bytes@[5] == magic_bytes()[5] && bytes@[6]
                    == magic_bytes()[6] && bytes@[7] == magic_bytes()[7]) by {
                    assert(bytes@.subrange(0, 8)[0] == bytes@[0]);
                    assert(bytes@.subrange(0, 8)[1] == bytes@[1]);
                    assert(bytes@.subrange(0, 8)[2] == bytes@[2]);
                    assert(bytes@.subrange(0, 8)[3] == bytes@[3]);
                    assert(bytes@.subrange(0, 8)[4] == bytes@[4]);
                    assert(bytes@.subrange(0, 8)[5] == bytes@[5]);
                    assert(bytes@.subrange(0, 8)[6] == bytes@[6]);
                    assert(bytes@.subrange(0, 8)[7] == bytes@[7]);
                }
            }
        }
        return Err(Error::FileHeader("unrecognized magic identifier".to_owned()));
    }
    proof {
        assert(bytes@.subrange(0, 8) =~= magic_bytes());
    }
    if bytes.len() < 12 || !(bytes[8] == 0 && bytes[9] == 0 && bytes[10] == 1 && bytes[11] == 0) {
        proof {
            if bytes@.len() >= 12 && bytes@.subrange(8, 12) == version_bytes() {
                assert(bytes@[8] == version_bytes()[0] && bytes@[9] == version_bytes()[1]
                    && bytes@[10] == version_bytes()[2] && bytes@[11] == version_bytes()[3]) by {
                    assert(bytes@.subrange(8, 12)[0] == bytes@[8]);
                    assert(bytes@.subrange(8, 12)[1] == bytes@[9]);
                    assert(bytes@.subrange(8, 12)[2] == bytes@[10]);
                    assert(bytes@.subrange(8, 12)[3] == bytes@[11]);
                }
            }
        }
        return Err(Error::FileVersion("unsupported format version".to_owned()));
    }
    proof {
        assert(bytes@.subrange(8, 12) =~= version_bytes());
    }
    let payload = match read_bytes(bytes, 12, bytes.len() - 12) {
        Some(p) => p.0,
        None => {
            return Err(Error::CorruptPayload("truncated payload".to_owned()));
        },
    };
    let inflated = match inflate_bytes(&payload) {
        Some(v) => v,
        None => {
            return Err(Error::CorruptPayload("payload does not decompress".to_owned()));
        },
    };
    match decode_voxel_set(&inflated) {
        Some(vs) => {
            proof {
                assert(payload@ =~= bytes@.subrange(12, bytes@.len() as int));
            }
            Ok(vs)
        },
        None => Err(Error::CorruptPayload("payload does not parse".to_owned())),
    }
}


} // verus!
