//! The resource subsystem: parses the packed asset container (an index blob
//! followed by up to thirteen banks, each with a 4-byte little-endian length
//! prefix), reverses the bit-oriented backward compression scheme, and
//! de-planarizes bitmap resources into one 4-bit pixel per byte.
//!
//! The depacker reads the packed region backward: the top three 32-bit words
//! carry the unpacked size, a checksum accumulator and the initial shift
//! register. Bits come off the low end of the shift register; when it runs
//! out, the next word is pulled from the packed stream and folded into the
//! running checksum. Output is produced from the end of the destination
//! buffer toward the front. A malformed container is a fatal load error.

use vstd::prelude::*;
use crate::defines::PAGE_SIZE;

verus! {

/// Why a container failed to load.
#[derive(Clone, Copy, PartialEq, Eq, Structural, Debug)]
pub enum LoadError {
    /// The container or its index ends before a read it calls for.
    MalformedIndex,
    /// A record names a bank outside `1..=13`.
    UnknownBank,
    /// A record points past the end of its bank.
    BankRangeOutOfBounds,
    /// The packed region is too small or not word-aligned.
    MalformedPackedData,
    /// A decode step asked for more bytes than remain to produce, or a
    /// back-reference reached outside the output buffer.
    DepackUnderrun,
    /// The checksum over the packed words did not come out to zero.
    CorruptChecksum,
    /// A bitmap resource is shorter than the fixed planar layout.
    MalformedBitmap,
}

/// The kinds of resources the index distinguishes; every other type code is
/// carried through untouched.
#[derive(Clone, Copy, PartialEq, Eq, Structural, Debug)]
pub enum ResourceType {
    Bitmap,
    Palette,
    Script,
}

impl ResourceType {
    /// The type code the index uses for this kind.
    pub open spec fn spec_code(self) -> u8 {
        match self {
            ResourceType::Bitmap => 2,
            ResourceType::Palette => 3,
            ResourceType::Script => 4,
        }
    }

    pub fn code(self) -> (r: u8)
        ensures
            r == self.spec_code(),
    {
        match self {
            ResourceType::Bitmap => 2,
            ResourceType::Palette => 3,
            ResourceType::Script => 4,
        }
    }
}

/// One loaded resource: its index type code and its decoded bytes.
pub struct FileEntry {
    pub ftype: u8,
    pub content: Vec<u8>,
}

/// The cursor and shift-register state of one depack run. The packed bytes
/// and the output buffer are passed alongside wherever they are needed.
pub struct UnpackContext {
    /// Length field of the pending back-reference or literal run.
    pub size: u16,
    /// Running checksum; zero after a sound decode.
    pub crc: u32,
    /// The bit shift register.
    pub chk: u32,
    /// Bytes still to produce.
    pub data_size: u32,
    /// Backward read cursor into the packed bytes.
    pub index: u32,
    /// Write cursor into the output, moving toward the front.
    pub output_index: u32,
}

/// The big-endian 32-bit word at byte offset `i`.
pub open spec fn spec_word_at(packed: Seq<u8>, i: int) -> u32
    recommends
        0 <= i,
        i + 4 <= packed.len(),
{
    (((packed[i] as u32) << 24) | ((packed[i + 1] as u32) << 16) | ((packed[i + 2] as u32) << 8)
        | (packed[i + 3] as u32))
}

/// The backward cursor after one word read: four bytes down, floored at the
/// start of the region.
pub open spec fn spec_index_after_read(index: u32) -> u32 {
    if index > 0 {
        (index - 4) as u32
    } else {
        index
    }
}

impl UnpackContext {
    /// The cursor stays word-aligned and a whole word ahead of the start,
    /// and the write cursor stays inside the output.
    pub open spec fn wf(self, packed: Seq<u8>, out: Seq<u8>) -> bool {
        &&& self.index % 4 == 0
        &&& self.index + 4 <= packed.len()
        &&& self.output_index < out.len()
    }

    /// Reads the next 32-bit word from the packed stream, moving the
    /// backward cursor.
    pub fn read_u32(&mut self, packed: &[u8]) -> (r: u32)
        requires
            old(self).index + 4 <= packed@.len(),
            old(self).index % 4 == 0,
        ensures
            r == spec_word_at(packed@, old(self).index as int),
            *final(self) == (UnpackContext {
                index: spec_index_after_read(old(self).index),
                ..*old(self)
            }),
    {
        // Pins the buffer length into the usize range for the index sums.
        let n = packed.len();
        let i = self.index as usize;
        let b0 = packed[i];
        let b1 = packed[i + 1];
        let b2 = packed[i + 2];
        let b3 = packed[i + 3];

        if self.index > 0 {
            self.index = self.index - 4;
        }

        ((b0 as u32) << 24u32) | ((b1 as u32) << 16u32) | ((b2 as u32) << 8u32) | (b3 as u32)
    }
}

/// One shift of the register: the bit that falls out, and the register with
/// `cf` shifted in at the top.
pub open spec fn spec_rcr(chk: u32, cf: bool) -> (bool, u32) {
    (chk & 1 != 0, if cf {
        (chk >> 1) | 0x8000_0000
    } else {
        chk >> 1
    })
}

/// One decoded bit: shift the register; if it ran out, pull the next packed
/// word, fold it into the checksum, and take the bit from it instead.
pub open spec fn spec_next_chunk(ctx: UnpackContext, packed: Seq<u8>) -> (bool, UnpackContext) {
    let (cf0, chk0) = spec_rcr(ctx.chk, false);
    if chk0 == 0 {
        let w = spec_word_at(packed, ctx.index as int);
        let (cf1, chk1) = spec_rcr(w, true);
        (
            cf1,
            UnpackContext {
                chk: chk1,
                crc: ctx.crc ^ w,
                index: spec_index_after_read(ctx.index),
                ..ctx
            },
        )
    } else {
        (cf0, UnpackContext { chk: chk0, ..ctx })
    }
}

/// An `n`-bit code pulled from the stream, most significant bit first,
/// folded onto the accumulator `c`.
pub open spec fn spec_get_code_loop(
    ctx: UnpackContext,
    packed: Seq<u8>,
    n: u8,
    c: u16,
) -> (u16, UnpackContext)
    decreases n,
{
    if n == 0 {
        (c, ctx)
    } else {
        let (b, ctx1) = spec_next_chunk(ctx, packed);
        spec_get_code_loop(
            ctx1,
            packed,
            (n - 1) as u8,
            ((c << 1) | (if b {
                1u16
            } else {
                0u16
            })) as u16,
        )
    }
}

/// An `n`-bit code pulled from the stream, most significant bit first.
pub open spec fn spec_get_code(ctx: UnpackContext, packed: Seq<u8>, n: u8) -> (u16, UnpackContext) {
    spec_get_code_loop(ctx, packed, n, 0)
}

/// A literal run written backward: `count` bytes, each an 8-bit code from
/// the stream.
pub open spec fn spec_literal_run(
    ctx: UnpackContext,
    packed: Seq<u8>,
    out: Seq<u8>,
    count: u16,
) -> (UnpackContext, Seq<u8>)
    decreases count,
{
    if count == 0 {
        (ctx, out)
    } else {
        let (v, ctx1) = spec_get_code(ctx, packed, 8);
        let out1 = out.update(ctx1.output_index as int, v as u8);
        let ctx2 = UnpackContext {
            output_index: if ctx1.output_index > 0 {
                (ctx1.output_index - 1) as u32
            } else {
                ctx1.output_index
            },
            ..ctx1
        };
        spec_literal_run(ctx2, packed, out1, (count - 1) as u16)
    }
}

/// A back-reference copy written backward: `count` bytes, each read `dist`
/// ahead of the write cursor.
pub open spec fn spec_backref_run(
    ctx: UnpackContext,
    out: Seq<u8>,
    dist: u16,
    count: u16,
) -> Option<(UnpackContext, Seq<u8>)>
    decreases count,
{
    if count == 0 {
        Some((ctx, out))
    } else if ctx.output_index + dist >= out.len() {
        None
    } else {
        let v = out[ctx.output_index + dist];
        let out1 = out.update(ctx.output_index as int, v);
        let ctx1 = UnpackContext {
            output_index: if ctx.output_index > 0 {
                (ctx.output_index - 1) as u32
            } else {
                ctx.output_index
            },
            ..ctx
        };
        spec_backref_run(ctx1, out1, dist, (count - 1) as u16)
    }
}

/// One production of the decode loop: the 1-2 bit prefix code picks a
/// literal run or a back-reference, whose length is taken off the bytes
/// still to produce. `None` is a depack underrun.
pub open spec fn spec_depack_step(
    ctx: UnpackContext,
    packed: Seq<u8>,
    out: Seq<u8>,
) -> Option<(UnpackContext, Seq<u8>)> {
    let (b1, ctx1) = spec_next_chunk(ctx, packed);
    if !b1 {
        let (b2, ctx2) = spec_next_chunk(UnpackContext { size: 1, ..ctx1 }, packed);
        if !b2 {
            // A short literal run of 1 to 8 bytes.
            let (n, ctx3) = spec_get_code(ctx2, packed, 3);
            let count = (n + 1) as u16;
            if count > ctx3.data_size {
                None
            } else {
                let ctx4 = UnpackContext { data_size: (ctx3.data_size - count) as u32, ..ctx3 };
                Some(spec_literal_run(ctx4, packed, out, count))
            }
        } else {
            // A two-byte back-reference with an 8-bit distance.
            let (dist, ctx3) = spec_get_code(ctx2, packed, 8);
            let count = (ctx3.size + 1) as u16;
            if count > ctx3.data_size {
                None
            } else {
                let ctx4 = UnpackContext { data_size: (ctx3.data_size - count) as u32, ..ctx3 };
                spec_backref_run(ctx4, out, dist, count)
            }
        }
    } else {
        let (c, ctx2) = spec_get_code(ctx1, packed, 2);
        if c == 3 {
            // A long literal run of 9 to 264 bytes.
            let (n, ctx3) = spec_get_code(ctx2, packed, 8);
            let count = (n + 9) as u16;
            if count > ctx3.data_size {
                None
            } else {
                let ctx4 = UnpackContext { data_size: (ctx3.data_size - count) as u32, ..ctx3 };
                Some(spec_literal_run(ctx4, packed, out, count))
            }
        } else if c < 2 {
            // A short back-reference of 3 or 4 bytes.
            let (dist, ctx3) = spec_get_code(
                UnpackContext { size: (c + 2) as u16, ..ctx2 },
                packed,
                (c + 9) as u8,
            );
            let count = (ctx3.size + 1) as u16;
            if count > ctx3.data_size {
                None
            } else {
                let ctx4 = UnpackContext { data_size: (ctx3.data_size - count) as u32, ..ctx3 };
                spec_backref_run(ctx4, out, dist, count)
            }
        } else {
            // A back-reference whose length is an 8-bit code and whose
            // distance a 12-bit code.
            let (n, ctx3) = spec_get_code(ctx2, packed, 8);
            let (dist, ctx4) = spec_get_code(UnpackContext { size: n, ..ctx3 }, packed, 12);
            let count = (ctx4.size + 1) as u16;
            if count > ctx4.data_size {
                None
            } else {
                let ctx5 = UnpackContext { data_size: (ctx4.data_size - count) as u32, ..ctx4 };
                spec_backref_run(ctx5, out, dist, count)
            }
        }
    }
}

/// Runs productions until the declared unpacked size has been produced; that
/// count, not end of input, ends the decode.
pub open spec fn spec_depack_loop(
    ctx: UnpackContext,
    packed: Seq<u8>,
    out: Seq<u8>,
) -> Option<(UnpackContext, Seq<u8>)>
    decreases ctx.data_size,
{
    if ctx.data_size == 0 {
        Some((ctx, out))
    } else {
        match spec_depack_step(ctx, packed, out) {
            None => None,
            Some((ctx1, out1)) => {
                if ctx1.data_size < ctx.data_size {
                    spec_depack_loop(ctx1, packed, out1)
                } else {
                    // Does not arise: every production takes at least one
                    // byte off data_size.
                    None
                }
            },
        }
    }
}

/// What depacking a whole packed region yields: the three header words are
/// read from the top, the checksum seed is folded with the initial shift
/// register, the declared number of bytes is produced backward, and the
/// checksum must come out to zero. `None` is a fatal load error.
pub open spec fn spec_depack(packed: Seq<u8>, unpacked_size: u16) -> Option<Seq<u8>> {
    if packed.len() < 4 || packed.len() % 4 != 0 || unpacked_size == 0 {
        None
    } else {
        let i0 = (packed.len() - 4) as u32;
        let data_size = spec_word_at(packed, i0 as int);
        let i1 = spec_index_after_read(i0);
        let crc_word = spec_word_at(packed, i1 as int);
        let i2 = spec_index_after_read(i1);
        let chk0 = spec_word_at(packed, i2 as int);
        let i3 = spec_index_after_read(i2);
        let ctx = UnpackContext {
            size: 0,
            crc: crc_word ^ chk0,
            chk: chk0,
            data_size: data_size,
            index: i3,
            output_index: (unpacked_size - 1) as u32,
        };
        let out0 = Seq::<u8>::new(unpacked_size as nat, |k: int| 0u8);
        match spec_depack_loop(ctx, packed, out0) {
            None => None,
            Some((ctx1, out1)) => {
                if ctx1.crc == 0 {
                    Some(out1)
                } else {
                    None
                }
            },
        }
    }
}

/// The fixed planar-to-linear bitmap reorganisation: bit `7 - j` of the four
/// planes of source byte `s`, highest plane first, make pixel `8 s + j`.
pub open spec fn spec_plane_pixel(content: Seq<u8>, s: int, j: int) -> u8
    recommends
        0 <= s < 8000,
        0 <= j < 8,
        content.len() >= 32000,
{
    (((((content[s + 24000] >> (7 - j) as u32) & 1) as u8) << 3) | ((((content[s + 16000] >> (7
        - j) as u32) & 1) as u8) << 2) | ((((content[s + 8000] >> (7 - j) as u32) & 1) as u8)
        << 1) | (((content[s] >> (7 - j) as u32) & 1) as u8)) as u8
}

/// A de-planarized bitmap: one 4-bit pixel per output byte.
pub open spec fn spec_unswizzle(content: Seq<u8>) -> Seq<u8>
    recommends
        content.len() >= 32000,
{
    Seq::<u8>::new(PAGE_SIZE as nat, |k: int| spec_plane_pixel(content, k / 8, k % 8))
}



/// The checksum gate at the end of a decode: the produced bytes, if the
/// running checksum came out to zero.
pub open spec fn spec_depack_finish(res: Option<(UnpackContext, Seq<u8>)>) -> Option<Seq<u8>> {
    match res {
        None => None,
        Some((ctx, out)) => if ctx.crc == 0 {
            Some(out)
        } else {
            None
        },
    }
}

/// What loading one record yields: a copy of the bank range when the sizes
/// agree, a depack of the range otherwise. `None` is a fatal load error.
pub open spec fn spec_load_file(
    bank: Seq<u8>,
    bank_offset: u32,
    size: u16,
    packed_size: u16,
) -> Option<Seq<u8>> {
    if size == 0 {
        Some(Seq::<u8>::empty())
    } else if size == packed_size {
        if bank_offset + size <= bank.len() {
            Some(bank.subrange(bank_offset as int, bank_offset + size))
        } else {
            None
        }
    } else {
        if bank_offset + packed_size <= bank.len() {
            spec_depack(bank.subrange(bank_offset as int, bank_offset + packed_size), size)
        } else {
            None
        }
    }
}


/// Little-endian 32-bit value at byte offset `i`.
pub open spec fn spec_le32(s: Seq<u8>, i: int) -> u32
    recommends
        0 <= i,
        i + 4 <= s.len(),
{
    ((s[i] as u32) | ((s[i + 1] as u32) << 8) | ((s[i + 2] as u32) << 16) | ((s[i + 3] as u32)
        << 24))
}

/// Reads the little-endian 32-bit length prefix at `i`.
fn read_le32(mem: &[u8], i: usize) -> (r: u32)
    requires
        i + 4 <= mem@.len(),
    ensures
        r == spec_le32(mem@, i as int),
{
    // Pins the buffer length into the usize range for the index sums.
    let n = mem.len();
    (mem[i] as u32) | ((mem[i + 1] as u32) << 8u32) | ((mem[i + 2] as u32) << 16u32) | ((mem[i
        + 3] as u32) << 24u32)
}

/// Reads the big-endian 32-bit value at `i`.
fn read_be32(mem: &[u8], i: usize) -> (r: u32)
    requires
        i + 4 <= mem@.len(),
    ensures
        r == spec_word_at(mem@, i as int),
{
    // Pins the buffer length into the usize range for the index sums.
    let n = mem.len();
    ((mem[i] as u32) << 24u32) | ((mem[i + 1] as u32) << 16u32) | ((mem[i + 2] as u32) << 8u32)
        | (mem[i + 3] as u32)
}

/// Reads the big-endian 16-bit value at `i`.
fn read_be16(mem: &[u8], i: usize) -> (r: u16)
    requires
        i + 2 <= mem@.len(),
    ensures
        r == crate::utils::spec_read_u16(mem@, i as int),
{
    // Pins the buffer length into the usize range for the index sums.
    let n = mem.len();
    ((mem[i] as u16) << 8u32) | (mem[i + 1] as u16)
}


/// The byte range `(start, length)` of the `b`-th length-prefixed blob of
/// the container: blob 0 is the index, blobs 1 to 13 the banks.
pub open spec fn spec_region(gd: Seq<u8>, b: int) -> Option<(int, int)>
    decreases b,
{
    if b < 0 {
        None
    } else if b == 0 {
        if gd.len() >= 4 && 4 + spec_le32(gd, 0) <= gd.len() {
            Some((4int, spec_le32(gd, 0) as int))
        } else {
            None
        }
    } else {
        match spec_region(gd, b - 1) {
            None => None,
            Some((s, l)) => {
                let c = s + l;
                if c + 4 <= gd.len() && c + 4 + spec_le32(gd, c) <= gd.len() {
                    Some((c + 4, spec_le32(gd, c) as int))
                } else {
                    None
                }
            },
        }
    }
}

/// The index records from byte `idx` of the index blob on: twenty bytes of
/// fixed-width fields each, up to the terminator byte. Each record is the
/// type code, the bank id, the offset into the bank, the packed size and
/// the unpacked size. `None` is a malformed index.
pub open spec fn spec_records(memlist: Seq<u8>, idx: int) -> Option<
    Seq<(u8, u8, u32, u16, u16)>,
>
    decreases memlist.len() - idx,
{
    if idx < 0 || idx >= memlist.len() {
        None
    } else if memlist[idx] == 0xff {
        Some(Seq::empty())
    } else if idx + 20 > memlist.len() {
        None
    } else {
        match spec_records(memlist, idx + 20) {
            None => None,
            Some(rest) => Some(
                seq![
                    (
                        memlist[idx + 1],
                        memlist[idx + 7],
                        spec_word_at(memlist, idx + 8),
                        crate::utils::spec_read_u16(memlist, idx + 14),
                        crate::utils::spec_read_u16(memlist, idx + 18),
                    ),
                ] + rest,
            ),
        }
    }
}

/// The decoded bytes one index record stands for: its bank region is cut
/// out, the record's range is copied or depacked, and a bitmap is
/// de-planarized. `None` is a fatal load error.
pub open spec fn spec_record_content(gd: Seq<u8>, rec: (u8, u8, u32, u16, u16)) -> Option<
    Seq<u8>,
> {
    let (ftype, bank_id, offset, packed, size) = rec;
    if 1 <= bank_id <= 13 {
        match spec_region(gd, bank_id as int) {
            None => None,
            Some((s, l)) => {
                match spec_load_file(gd.subrange(s, s + l), offset, size, packed) {
                    None => None,
                    Some(content) => if ftype == 2 {
                        if content.len() >= 32000 {
                            Some(spec_unswizzle(content))
                        } else {
                            None
                        }
                    } else {
                        Some(content)
                    },
                }
            },
        }
    } else {
        None
    }
}


/// One unfolding of [`spec_records`] at a non-terminator record.
proof fn lemma_records_unfold(memlist: Seq<u8>, idx: int)
    requires
        0 <= idx,
        idx + 20 <= memlist.len(),
        memlist[idx] != 0xff,
    ensures
        spec_records(memlist, idx) == (match spec_records(memlist, idx + 20) {
            None => None,
            Some(rest) => Some(
                seq![
                    (
                        memlist[idx + 1],
                        memlist[idx + 7],
                        spec_word_at(memlist, idx + 8),
                        crate::utils::spec_read_u16(memlist, idx + 14),
                        crate::utils::spec_read_u16(memlist, idx + 18),
                    ),
                ] + rest,
            ),
        }),
{
}

/// What one record's stored bytes are, assembled from its bank region and
/// its decode.
proof fn lemma_record_entry(
    gd: Seq<u8>,
    rec: (u8, u8, u32, u16, u16),
    bs: int,
    bl: int,
    bank: Seq<u8>,
    content: Seq<u8>,
    stored: Seq<u8>,
)
    requires
        1 <= rec.1 <= 13,
        spec_region(gd, rec.1 as int) == Some((bs, bl)),
        bank == gd.subrange(bs, bs + bl),
        spec_load_file(bank, rec.2, rec.4, rec.3) == Some(content),
        rec.0 == 2 ==> content.len() >= 32000 && stored == spec_unswizzle(content),
        rec.0 != 2 ==> stored == content,
    ensures
        spec_record_content(gd, rec) == Some(stored),
{
}


/// Whether a container loads: the index blob and all thirteen banks are
/// present, the index parses to its terminator, and every record's bytes
/// can be recovered and post-processed.
pub open spec fn spec_container_loads(gd: Seq<u8>) -> bool {
    &&& spec_region(gd, 0) is Some
    &&& (forall|b: int| 1 <= b <= 13 ==> (#[trigger] spec_region(gd, b)) is Some)
    &&& {
        let (ms, ml) = spec_region(gd, 0)->Some_0;
        let memlist = gd.subrange(ms, ms + ml);
        &&& spec_records(memlist, 0) is Some
        &&& (forall|k: int|
            0 <= k < spec_records(memlist, 0)->Some_0.len() ==> (#[trigger] spec_record_content(
                gd,
                spec_records(memlist, 0)->Some_0[k],
            )) is Some)
    }
}

/// A record whose bytes cannot be recovered blocks the whole load.
proof fn lemma_record_blocks_load(
    gd: Seq<u8>,
    memlist: Seq<u8>,
    ml: int,
    idx0: int,
    rec: (u8, u8, u32, u16, u16),
    done: Seq<(u8, u8, u32, u16, u16)>,
)
    requires
        spec_region(gd, 0) == Some((4int, ml)),
        memlist == gd.subrange(4, 4 + ml),
        ({
            match spec_records(memlist, idx0) {
                Some(rest) => spec_records(memlist, 0) == Some(done + rest),
                None => spec_records(memlist, 0) is None,
            }
        }),
        0 <= idx0,
        idx0 + 20 <= memlist.len(),
        memlist[idx0] != 0xff,
        rec == (
            memlist[idx0 + 1],
            memlist[idx0 + 7],
            spec_word_at(memlist, idx0 + 8),
            crate::utils::spec_read_u16(memlist, idx0 + 14),
            crate::utils::spec_read_u16(memlist, idx0 + 18),
        ),
        ({
            ||| !(1 <= rec.1 <= 13)
            ||| (spec_region(gd, rec.1 as int) matches Some((bs, bl)) && {
                let lf = spec_load_file(gd.subrange(bs, bs + bl), rec.2, rec.4, rec.3);
                ||| lf is None
                ||| (lf is Some && rec.0 == 2 && lf->Some_0.len() < 32000)
            })
        }),
    ensures
        !spec_container_loads(gd),
{
    assert(spec_record_content(gd, rec) is None);
    lemma_records_unfold(memlist, idx0);
    if spec_container_loads(gd) {
        let recs = spec_records(memlist, 0)->Some_0;
        assert(spec_records(memlist, idx0) is Some);
        let rest = spec_records(memlist, idx0 + 20)->Some_0;
        assert(spec_records(memlist, idx0)->Some_0 == seq![rec] + rest);
        assert(recs == done + (seq![rec] + rest));
        assert(recs[done.len() as int] == rec);
        assert(spec_record_content(gd, recs[done.len() as int]) is Some);
    }
}

/// The decoded asset table, built once from the packed container.
pub struct ResourcesManager {
    pub files: Vec<FileEntry>,
}

impl ResourcesManager {
    /// Every loaded resource fits 16-bit addressing, and every bitmap
    /// resource holds exactly one de-planarized page.
    pub open spec fn wf(self) -> bool {
        forall|k: int|
            0 <= k < self.files@.len() ==> {
                &&& (#[trigger] self.files@[k]).content@.len() <= u16::MAX
                &&& (self.files@[k].ftype == 2 ==> self.files@[k].content@.len() == PAGE_SIZE)
            }
    }

    pub fn new() -> (r: ResourcesManager)
        ensures
            r.wf(),
            r.files@.len() == 0,
    {
        ResourcesManager { files: Vec::new() }
    }


    /// Builds the asset table from a packed container: a little-endian
    /// length-prefixed index blob, then thirteen length-prefixed banks. The
    /// index is walked record by record until its terminator byte; each
    /// record's bytes are recovered from its bank, and bitmap records are
    /// de-planarized. Any malformed structure is a fatal error and leaves no
    /// partial table behind a success.
    #[verifier::rlimit(100)]
    pub fn init(&mut self, game_data: &[u8]) -> (r: Result<(), LoadError>)
        requires
            old(self).files@.len() == 0,
        ensures
            final(self).wf(),
            r is Ok <==> spec_container_loads(game_data@),
            r is Ok ==> ({
                &&& spec_region(game_data@, 0) is Some
                &&& {
                    let (ms, ml) = spec_region(game_data@, 0)->Some_0;
                    let memlist = game_data@.subrange(ms, ms + ml);
                    &&& spec_records(memlist, 0) is Some
                    &&& {
                        let recs = spec_records(memlist, 0)->Some_0;
                        &&& final(self).files@.len() == recs.len()
                        &&& forall|k: int|
                            0 <= k < recs.len() ==> {
                                &&& (#[trigger] final(self).files@[k]).ftype == recs[k].0
                                &&& spec_record_content(game_data@, recs[k]) is Some
                                &&& final(self).files@[k].content@ == spec_record_content(
                                    game_data@,
                                    recs[k],
                                )->Some_0
                            }
                    }
                }
            }),
    {
        let n = game_data.len();
        if n < 4 {
            proof {
                assert(spec_region(game_data@, 0) is None);
            }
            return Err(LoadError::MalformedIndex);
        }
        let memlist_len32 = read_le32(game_data, 0);
        if (memlist_len32 as u64) > (n - 4) as u64 {
            proof {
                assert(spec_region(game_data@, 0) is None);
            }
            return Err(LoadError::MalformedIndex);
        }
        let memlist_start: usize = 4;
        let memlist_len = memlist_len32 as usize;
        proof {
            assert(spec_region(game_data@, 0) == Some((4int, memlist_len as int)));
        }

        let mut bank_starts: Vec<usize> = Vec::new();
        let mut bank_lens: Vec<usize> = Vec::new();
        let mut cursor: usize = 4 + memlist_len;
        let mut b: usize = 0;
        while b < 13
            invariant
                *self == *old(self),
                old(self).files@.len() == 0,
                bank_starts@.len() == b,
                bank_lens@.len() == b,
                b <= 13,
                cursor <= n,
                n == game_data@.len(),
                n <= usize::MAX,
                memlist_start == 4,
                memlist_start + memlist_len <= n,
                spec_region(game_data@, 0) == Some((4int, memlist_len as int)),
                forall|k: int|
                    1 <= k <= b ==> #[trigger] spec_region(game_data@, k) == Some(
                        (bank_starts@[k - 1] as int, bank_lens@[k - 1] as int),
                    ),
                forall|k: int|
                    0 <= k < b ==> #[trigger] bank_starts@[k] + bank_lens@[k] <= n,
                b == 0 ==> cursor == 4 + memlist_len,
                b >= 1 ==> cursor == bank_starts@[b - 1] + bank_lens@[b - 1],
            decreases 13 - b,
        {
            if n - cursor < 4 {
                proof {
                    assert(spec_region(game_data@, b as int + 1) is None);
                }
                return Err(LoadError::MalformedIndex);
            }
            let ghost region_end = cursor as int;
            let l32 = read_le32(game_data, cursor);
            cursor = cursor + 4;
            if (l32 as u64) > (n - cursor) as u64 {
                proof {
                    assert(spec_le32(game_data@, region_end) == l32);
                    assert(spec_region(game_data@, b as int + 1) is None);
                }
                return Err(LoadError::MalformedIndex);
            }
            let l = l32 as usize;
            bank_starts.push(cursor);
            bank_lens.push(l);
            proof {
                if b == 0 {
                    assert(spec_region(game_data@, b as int) == Some(
                        (4int, memlist_len as int),
                    ));
                } else {
                    assert(spec_region(game_data@, b as int) == Some(
                        (bank_starts@[b - 1] as int, bank_lens@[b - 1] as int),
                    ));
                }
                assert(spec_le32(game_data@, region_end) == l32);
                assert(region_end + 4 + spec_le32(game_data@, region_end) <= game_data@.len());
                assert(spec_region(game_data@, b as int + 1) == Some(
                    (region_end + 4, l as int),
                ));
            }
            cursor = cursor + l;
            b = b + 1;
        }

        let ghost memlist = game_data@.subrange(4, 4 + memlist_len as int);
        let ghost mut recs_done: Seq<(u8, u8, u32, u16, u16)> = Seq::empty();
        proof {
            if spec_records(memlist, 0) is Some {
                assert(Seq::empty() + spec_records(memlist, 0)->Some_0 =~= spec_records(
                    memlist,
                    0,
                )->Some_0);
            }
        }

        let mut idx: usize = 0;
        loop
            invariant
                self.wf(),
                n == game_data@.len(),
                n <= usize::MAX,
                memlist_start == 4,
                memlist_start + memlist_len <= n,
                idx <= memlist_len,
                bank_starts@.len() == 13,
                bank_lens@.len() == 13,
                memlist == game_data@.subrange(4, 4 + memlist_len as int),
                spec_region(game_data@, 0) == Some((4int, memlist_len as int)),
                forall|k: int|
                    1 <= k <= 13 ==> #[trigger] spec_region(game_data@, k) == Some(
                        (bank_starts@[k - 1] as int, bank_lens@[k - 1] as int),
                    ),
                forall|k: int|
                    0 <= k < 13 ==> #[trigger] bank_starts@[k] + bank_lens@[k] <= n,
                ({
                    match spec_records(memlist, idx as int) {
                        Some(rest) => spec_records(memlist, 0) == Some(recs_done + rest),
                        None => spec_records(memlist, 0) is None,
                    }
                }),
                self.files@.len() == recs_done.len(),
                forall|k: int|
                    0 <= k < recs_done.len() ==> {
                        &&& (#[trigger] self.files@[k]).ftype == recs_done[k].0
                        &&& spec_record_content(game_data@, recs_done[k]) is Some
                        &&& self.files@[k].content@ == spec_record_content(
                            game_data@,
                            recs_done[k],
                        )->Some_0
                    },
            ensures
                self.wf(),
                spec_records(memlist, 0) == Some(recs_done),
                self.files@.len() == recs_done.len(),
                forall|k: int|
                    0 <= k < recs_done.len() ==> {
                        &&& (#[trigger] self.files@[k]).ftype == recs_done[k].0
                        &&& spec_record_content(game_data@, recs_done[k]) is Some
                        &&& self.files@[k].content@ == spec_record_content(
                            game_data@,
                            recs_done[k],
                        )->Some_0
                    },
            decreases memlist_len - idx,
        {
            if idx >= memlist_len {
                // The terminator byte never came.
                proof {
                    assert(spec_records(memlist, idx as int) is None);
                }
                return Err(LoadError::MalformedIndex);
            }
            let state = game_data[memlist_start + idx];
            proof {
                assert(memlist[idx as int] == game_data@[4 + idx as int]);
            }
            if state == 0xff {
                break ;
            }
            if memlist_len - idx < 20 {
                proof {
                    assert(spec_records(memlist, idx as int) is None);
                }
                return Err(LoadError::MalformedIndex);
            }
            let base = memlist_start + idx;
            let ftype = game_data[base + 1];
            let bank_id = game_data[base + 7];
            let bank_offset = read_be32(game_data, base + 8);
            let packed_size = read_be16(game_data, base + 14);
            let size = read_be16(game_data, base + 18);

            let ghost rec = (ftype, bank_id, bank_offset, packed_size, size);
            proof {
                assert(rec == (
                    memlist[idx + 1],
                    memlist[idx + 7],
                    spec_word_at(memlist, idx + 8),
                    crate::utils::spec_read_u16(memlist, idx + 14),
                    crate::utils::spec_read_u16(memlist, idx + 18),
                )) by {
                    assert(memlist[idx + 1] == game_data@[base + 1]);
                    assert(memlist[idx + 7] == game_data@[base + 7]);
                    assert(memlist[idx + 8] == game_data@[base + 8]);
                    assert(memlist[idx + 9] == game_data@[base + 9]);
                    assert(memlist[idx + 10] == game_data@[base + 10]);
                    assert(memlist[idx + 11] == game_data@[base + 11]);
                    assert(memlist[idx + 14] == game_data@[base + 14]);
                    assert(memlist[idx + 15] == game_data@[base + 15]);
                    assert(memlist[idx + 18] == game_data@[base + 18]);
                    assert(memlist[idx + 19] == game_data@[base + 19]);
                }
                lemma_records_unfold(memlist, idx as int);
            }
            idx = idx + 20;

            if bank_id < 1 || bank_id > 13 {
                proof {
                    lemma_record_blocks_load(
                        game_data@,
                        memlist,
                        memlist_len as int,
                        idx - 20,
                        rec,
                        recs_done,
                    );
                }
                return Err(LoadError::UnknownBank);
            }
            let bs = bank_starts[(bank_id - 1) as usize];
            let bl = bank_lens[(bank_id - 1) as usize];
            let bank: &[u8] = vstd::slice::slice_subrange(game_data, bs, bs + bl);

            let content = match self.load_file(bank, bank_offset, size, packed_size) {
                Ok(c) => c,
                Err(e) => {
                    proof {
                        assert(spec_region(game_data@, bank_id as int) == Some(
                            (bs as int, bl as int),
                        ));
                        lemma_record_blocks_load(
                            game_data@,
                            memlist,
                            memlist_len as int,
                            idx - 20,
                            rec,
                            recs_done,
                        );
                    }
                    return Err(e);
                },
            };

            if ftype == 2 {
                if content.len() < 32000 {
                    proof {
                        assert(spec_region(game_data@, bank_id as int) == Some(
                            (bs as int, bl as int),
                        ));
                        lemma_record_blocks_load(
                            game_data@,
                            memlist,
                            memlist_len as int,
                            idx - 20,
                            rec,
                            recs_done,
                        );
                    }
                    return Err(LoadError::MalformedBitmap);
                }
                let bitmap = self.create_bitmap(content.as_slice());
                self.files.push(FileEntry { ftype, content: bitmap });
            } else {
                self.files.push(FileEntry { ftype, content });
            }

            proof {
                assert(spec_region(game_data@, bank_id as int) == Some((bs as int, bl as int)));
                lemma_record_entry(
                    game_data@,
                    rec,
                    bs as int,
                    bl as int,
                    bank@,
                    spec_load_file(bank@, bank_offset, size, packed_size)->Some_0,
                    self.files@.last().content@,
                );
                let old_done = recs_done;
                recs_done = recs_done.push(rec);
                if spec_records(memlist, idx as int) is Some {
                    let rest = spec_records(memlist, idx as int)->Some_0;
                    assert(spec_records(memlist, idx - 20) == Some(seq![rec] + rest));
                    assert(old_done + (seq![rec] + rest) =~= recs_done + rest);
                }
                assert forall|k: int| 0 <= k < recs_done.len() implies {
                    &&& (#[trigger] self.files@[k]).ftype == recs_done[k].0
                    &&& spec_record_content(game_data@, recs_done[k]) is Some
                    &&& self.files@[k].content@ == spec_record_content(
                        game_data@,
                        recs_done[k],
                    )->Some_0
                } by {
                    if k < recs_done.len() - 1 {
                        assert(self.files@[k] == self.files@.drop_last()[k]);
                        assert(recs_done[k] == old_done[k]);
                    } else {
                        assert(recs_done[k] == rec);
                        assert(self.files@[k] == self.files@.last());
                    }
                }
            }
        }

        proof {
            assert(spec_records(memlist, 0)->Some_0 == recs_done);
            assert forall|k: int|
                0 <= k < recs_done.len() implies (#[trigger] spec_record_content(
                game_data@,
                recs_done[k],
            )) is Some by {
                assert(self.files@[k].ftype == recs_done[k].0);
            }
            assert(spec_container_loads(game_data@));
        }
        Ok(())
    }

    /// The bytes of resource `file_id`.
    pub fn get_file(&self, file_id: u8) -> (r: &[u8])
        requires
            file_id < self.files@.len(),
        ensures
            r@ == self.files@[file_id as int].content@,
    {
        self.files[file_id as usize].content.as_slice()
    }


    /// One shift of the register, as [`spec_rcr`] says.
    fn rcr(&self, unpack_context: &mut UnpackContext, cf: bool) -> (r: bool)
        ensures
            ({
                let (b, chk) = spec_rcr(old(unpack_context).chk, cf);
                &&& r == b
                &&& *final(unpack_context) == (UnpackContext { chk, ..*old(unpack_context) })
            }),
    {
        let rcf = (unpack_context.chk & 1) != 0;
        unpack_context.chk = unpack_context.chk >> 1u32;
        if cf {
            unpack_context.chk = unpack_context.chk | 0x8000_0000;
        }
        rcf
    }

    /// One decoded bit, as [`spec_next_chunk`] says.
    fn next_chunk(&self, unpack_context: &mut UnpackContext, packed: &[u8]) -> (r: bool)
        requires
            old(unpack_context).index + 4 <= packed@.len(),
            old(unpack_context).index % 4 == 0,
        ensures
            ({
                let (b, ctx) = spec_next_chunk(*old(unpack_context), packed@);
                &&& r == b
                &&& *final(unpack_context) == ctx
            }),
            final(unpack_context).index + 4 <= packed@.len(),
            final(unpack_context).index % 4 == 0,
            final(unpack_context).output_index == old(unpack_context).output_index,
            final(unpack_context).data_size == old(unpack_context).data_size,
            final(unpack_context).size == old(unpack_context).size,
    {
        let mut cf = self.rcr(unpack_context, false);

        if unpack_context.chk == 0 {
            unpack_context.chk = unpack_context.read_u32(packed);
            unpack_context.crc = unpack_context.crc ^ unpack_context.chk;
            cf = self.rcr(unpack_context, true);
        }

        cf
    }

    /// An `n`-bit code, as [`spec_get_code`] says.
    fn get_code(&self, unpack_context: &mut UnpackContext, packed: &[u8], num_chunks: u8) -> (r:
        u16)
        requires
            old(unpack_context).index + 4 <= packed@.len(),
            old(unpack_context).index % 4 == 0,
        ensures
            ({
                let (c, ctx) = spec_get_code(*old(unpack_context), packed@, num_chunks);
                &&& r == c
                &&& *final(unpack_context) == ctx
            }),
            final(unpack_context).index + 4 <= packed@.len(),
            final(unpack_context).index % 4 == 0,
            final(unpack_context).output_index == old(unpack_context).output_index,
            final(unpack_context).data_size == old(unpack_context).data_size,
            final(unpack_context).size == old(unpack_context).size,
    {
        let mut c: u16 = 0;
        let mut n = num_chunks;

        while n > 0
            invariant
                unpack_context.index + 4 <= packed@.len(),
                unpack_context.index % 4 == 0,
                unpack_context.output_index == old(unpack_context).output_index,
                unpack_context.data_size == old(unpack_context).data_size,
                unpack_context.size == old(unpack_context).size,
                spec_get_code_loop(*unpack_context, packed@, n, c) == spec_get_code(
                    *old(unpack_context),
                    packed@,
                    num_chunks,
                ),
            decreases n,
        {
            proof {
                assert(forall|x: u16| #![auto] x | 0u16 == x) by (bit_vector);
            }
            c = c << 1u32;
            if self.next_chunk(unpack_context, packed) {
                c = c | 1;
            }
            n = n - 1;
        }

        c
    }

    /// A literal run, as [`spec_literal_run`] says; `r` is false on a depack
    /// underrun.
    fn dec_unk_1(
        &self,
        unpack_context: &mut UnpackContext,
        packed: &[u8],
        output: &mut Vec<u8>,
        num_chunks: u8,
        add_count: u8,
    ) -> (r: bool)
        requires
            old(unpack_context).index + 4 <= packed@.len(),
            old(unpack_context).index % 4 == 0,
            old(unpack_context).output_index < old(output)@.len(),
        ensures
            final(output)@.len() == old(output)@.len(),
            final(unpack_context).index + 4 <= packed@.len(),
            final(unpack_context).index % 4 == 0,
            final(unpack_context).output_index < final(output)@.len(),
            ({
                let (n, ctx1) = spec_get_code(*old(unpack_context), packed@, num_chunks);
                let count = (n + add_count + 1) as u16;
                if count > ctx1.data_size {
                    !r
                } else {
                    let ctx2 = UnpackContext { data_size: (ctx1.data_size - count) as u32, ..ctx1 };
                    let (ctx3, out3) = spec_literal_run(ctx2, packed@, old(output)@, count);
                    r && *final(unpack_context) == ctx3 && final(output)@ == out3
                }
            }),
    {
        let code = self.get_code(unpack_context, packed, num_chunks);
        let count_wide: u32 = (code as u32) + (add_count as u32) + 1;
        let mut count: u16 = #[verifier::truncate] (count_wide as u16);

        if (count as u32) > unpack_context.data_size {
            return false;
        }
        unpack_context.data_size = unpack_context.data_size - (count as u32);

        while count > 0
            invariant
                unpack_context.index + 4 <= packed@.len(),
                unpack_context.index % 4 == 0,
                unpack_context.output_index < output@.len(),
                output@.len() == old(output)@.len(),
                ({
                    let (n, ctx1) = spec_get_code(*old(unpack_context), packed@, num_chunks);
                    let count_s = (n + add_count + 1) as u16;
                    &&& count_s <= ctx1.data_size
                    &&& spec_literal_run(*unpack_context, packed@, output@, count)
                        == spec_literal_run(
                        UnpackContext { data_size: (ctx1.data_size - count_s) as u32, ..ctx1 },
                        packed@,
                        old(output)@,
                        count_s,
                    )
                }),
            decreases count,
        {
            let val = #[verifier::truncate] (self.get_code(unpack_context, packed, 8) as u8);
            let oi = unpack_context.output_index as usize;
            output[oi] = val;

            if unpack_context.output_index > 0 {
                unpack_context.output_index = unpack_context.output_index - 1;
            }

            count = count - 1;
        }

        true
    }

    /// A back-reference copy, as [`spec_backref_run`] says; `r` is false on
    /// a depack underrun.
    fn dec_unk_2(
        &self,
        unpack_context: &mut UnpackContext,
        packed: &[u8],
        output: &mut Vec<u8>,
        num_chunks: u8,
    ) -> (r: bool)
        requires
            old(unpack_context).index + 4 <= packed@.len(),
            old(unpack_context).index % 4 == 0,
            old(unpack_context).output_index < old(output)@.len(),
        ensures
            final(output)@.len() == old(output)@.len(),
            final(unpack_context).index + 4 <= packed@.len(),
            final(unpack_context).index % 4 == 0,
            final(unpack_context).output_index < final(output)@.len(),
            ({
                let (dist, ctx1) = spec_get_code(*old(unpack_context), packed@, num_chunks);
                let count = (ctx1.size + 1) as u16;
                if count > ctx1.data_size {
                    !r
                } else {
                    let ctx2 = UnpackContext { data_size: (ctx1.data_size - count) as u32, ..ctx1 };
                    let res = spec_backref_run(ctx2, old(output)@, dist, count);
                    if res is None {
                        !r
                    } else {
                        let (ctx3, out3) = res->Some_0;
                        r && *final(unpack_context) == ctx3 && final(output)@ == out3
                    }
                }
            }),
    {
        let dist = self.get_code(unpack_context, packed, num_chunks);
        let count_wide: u32 = (unpack_context.size as u32) + 1;
        let mut count: u16 = #[verifier::truncate] (count_wide as u16);

        if (count as u32) > unpack_context.data_size {
            return false;
        }
        unpack_context.data_size = unpack_context.data_size - (count as u32);

        while count > 0
            invariant
                unpack_context.index + 4 <= packed@.len(),
                unpack_context.index % 4 == 0,
                unpack_context.output_index < output@.len(),
                output@.len() == old(output)@.len(),
                ({
                    let (dist_s, ctx1) = spec_get_code(*old(unpack_context), packed@, num_chunks);
                    let count_s = (ctx1.size + 1) as u16;
                    &&& count_s <= ctx1.data_size
                    &&& dist == dist_s
                    &&& spec_backref_run(*unpack_context, output@, dist, count)
                        == spec_backref_run(
                        UnpackContext { data_size: (ctx1.data_size - count_s) as u32, ..ctx1 },
                        old(output)@,
                        dist_s,
                        count_s,
                    )
                }),
            decreases count,
        {
            let n = output.len();
            let oi = unpack_context.output_index as usize;
            if n - oi <= dist as usize {
                return false;
            }
            let val = output[oi + dist as usize];
            output[oi] = val;

            if unpack_context.output_index > 0 {
                unpack_context.output_index = unpack_context.output_index - 1;
            }

            count = count - 1;
        }

        true
    }


    /// Reorganizes the four bit-planes of a packed bitmap into one linear
    /// 4-bit pixel per byte, as [`spec_unswizzle`] says.
    fn create_bitmap(&self, content: &[u8]) -> (r: Vec<u8>)
        requires
            content@.len() >= 32000,
        ensures
            r@ == spec_unswizzle(content@),
    {
        let mut bitmap: Vec<u8> = Vec::new();
        let mut src_idx: usize = 0;

        while src_idx < 8000
            invariant
                content@.len() >= 32000,
                src_idx <= 8000,
                bitmap@.len() == 8 * src_idx,
                forall|k: int|
                    0 <= k < bitmap@.len() ==> bitmap@[k] == spec_plane_pixel(content@, k / 8, k
                        % 8),
            decreases 8000 - src_idx,
        {
            let mut j: usize = 0;
            while j < 8
                invariant
                    content@.len() >= 32000,
                    src_idx < 8000,
                    j <= 8,
                    bitmap@.len() == 8 * src_idx + j,
                    forall|k: int|
                        0 <= k < bitmap@.len() ==> bitmap@[k] == spec_plane_pixel(content@, k / 8, k
                            % 8),
                decreases 8 - j,
            {
                let shift = (7 - j) as u32;
                let pix = ((((content[src_idx + 24000] >> shift) & 1) as u8) << 3u32) | (((
                content[src_idx + 16000] >> shift) & 1) << 1u32 << 1u32) | (((content[src_idx
                    + 8000] >> shift) & 1) << 1u32) | ((content[src_idx] >> shift) & 1);
                bitmap.push(pix);
                proof {
                    let k = bitmap@.len() - 1;
                    assert(k / 8 == src_idx && k % 8 == j);
                    assert(forall|b: u8, sh: u32| sh < 8 ==> ((b >> sh) & 1) << 1u32 << 1u32 == ((
                    b >> sh) & 1) << 2u32) by (bit_vector);
                }
                j = j + 1;
            }
            src_idx = src_idx + 1;
        }
        proof {
            assert(bitmap@ =~= spec_unswizzle(content@));
        }
        bitmap
    }


    /// One production of the decode loop, as [`spec_depack_step`] says; `r`
    /// is false on a depack underrun.
    fn depack_step(&self, ctx: &mut UnpackContext, packed: &[u8], output: &mut Vec<u8>) -> (r:
        bool)
        requires
            old(ctx).index + 4 <= packed@.len(),
            old(ctx).index % 4 == 0,
            old(ctx).output_index < old(output)@.len(),
        ensures
            final(output)@.len() == old(output)@.len(),
            final(ctx).index + 4 <= packed@.len(),
            final(ctx).index % 4 == 0,
            final(ctx).output_index < final(output)@.len(),
            ({
                let res = spec_depack_step(*old(ctx), packed@, old(output)@);
                if res is None {
                    !r
                } else {
                    let (c2, o2) = res->Some_0;
                    r && *final(ctx) == c2 && final(output)@ == o2
                }
            }),
    {
        if !self.next_chunk(ctx, packed) {
            ctx.size = 1;
            if !self.next_chunk(ctx, packed) {
                self.dec_unk_1(ctx, packed, output, 3, 0)
            } else {
                self.dec_unk_2(ctx, packed, output, 8)
            }
        } else {
            let c = self.get_code(ctx, packed, 2);
            if c == 3 {
                self.dec_unk_1(ctx, packed, output, 8, 8)
            } else if c < 2 {
                ctx.size = #[verifier::truncate] (((c as u32) + 2) as u16);
                self.dec_unk_2(ctx, packed, output, #[verifier::truncate] (((c as u32) + 9) as u8))
            } else {
                ctx.size = self.get_code(ctx, packed, 8);
                self.dec_unk_2(ctx, packed, output, 12)
            }
        }
    }

    /// Recovers one record's bytes from its bank region, depacking when the
    /// packed size differs from the unpacked size, as [`spec_load_file`]
    /// says. An `Err` is exactly a case the specification refuses.
    #[verifier::rlimit(60)]
    fn load_file(&self, bank: &[u8], bank_offset: u32, size: u16, packed_size: u16) -> (r: Result<
        Vec<u8>,
        LoadError,
    >)
        ensures
            r is Ok <==> spec_load_file(bank@, bank_offset, size, packed_size) is Some,
            r is Ok ==> r->Ok_0@ == spec_load_file(bank@, bank_offset, size, packed_size)->Some_0,
            r is Ok ==> r->Ok_0@.len() == size,
    {
        let mut content: Vec<u8> = Vec::new();
        let mut z: usize = 0;
        while z < size as usize
            invariant
                content@.len() == z,
                z <= size,
                forall|k: int| 0 <= k < z ==> content@[k] == 0,
            decreases size - z,
        {
            content.push(0);
            z = z + 1;
        }

        if size == 0 {
            return Ok(content);
        }

        let n = bank.len();
        if size == packed_size {
            if !(bank_offset as usize <= n && n - (bank_offset as usize) >= size as usize) {
                return Err(LoadError::BankRangeOutOfBounds);
            }
            let base = bank_offset as usize;
            let mut i: usize = 0;
            while i < size as usize
                invariant
                    content@.len() == size,
                    i <= size,
                    base + size <= bank@.len(),
                    bank@.len() <= usize::MAX,
                    forall|k: int| 0 <= k < i ==> content@[k] == bank@[base + k],
                decreases size - i,
            {
                let v = bank[base + i];
                content[i] = v;
                i = i + 1;
            }
            proof {
                assert(content@ =~= bank@.subrange(
                    bank_offset as int,
                    bank_offset + size as int,
                ));
            }
            return Ok(content);
        }

        if !(bank_offset as usize <= n && n - (bank_offset as usize) >= packed_size as usize) {
            return Err(LoadError::BankRangeOutOfBounds);
        }
        if packed_size < 4 || packed_size % 4 != 0 {
            return Err(LoadError::MalformedPackedData);
        }

        let packed: &[u8] = vstd::slice::slice_subrange(
            bank,
            bank_offset as usize,
            bank_offset as usize + packed_size as usize,
        );

        let mut ctx = UnpackContext {
            size: 0,
            crc: 0,
            chk: 0,
            data_size: 0,
            index: (packed_size - 4) as u32,
            output_index: (size - 1) as u32,
        };

        ctx.data_size = ctx.read_u32(packed);
        ctx.crc = ctx.read_u32(packed);
        ctx.chk = ctx.read_u32(packed);
        ctx.crc = ctx.crc ^ ctx.chk;

        proof {
            assert(content@ =~= Seq::new(size as nat, |k: int| 0u8));
        }
        let ghost ctx_hdr = ctx;
        let ghost out_hdr = content@;

        proof {
            assert(spec_load_file(bank@, bank_offset, size, packed_size) == spec_depack_finish(
                spec_depack_loop(ctx_hdr, packed@, out_hdr),
            ));
        }

        while ctx.data_size > 0
            invariant
                ctx.index + 4 <= packed@.len(),
                ctx.index % 4 == 0,
                ctx.output_index < content@.len(),
                content@.len() == size,
                spec_depack_loop(ctx, packed@, content@) == spec_depack_loop(
                    ctx_hdr,
                    packed@,
                    out_hdr,
                ),
                spec_load_file(bank@, bank_offset, size, packed_size) == spec_depack_finish(
                    spec_depack_loop(ctx_hdr, packed@, out_hdr),
                ),
            decreases ctx.data_size,
        {
            let prev_data_size = ctx.data_size;
            if !self.depack_step(&mut ctx, packed, &mut content) {
                return Err(LoadError::DepackUnderrun);
            }
            // A production that takes nothing off the remaining count cannot
            // make progress; the format never produces one.
            if !(ctx.data_size < prev_data_size) {
                return Err(LoadError::DepackUnderrun);
            }
        }

        if ctx.crc != 0 {
            return Err(LoadError::CorruptChecksum);
        }

        Ok(content)
    }

    /// The index type code of resource `file_id`.
    pub fn get_file_type(&self, file_id: u8) -> (r: u8)
        requires
            file_id < self.files@.len(),
        ensures
            r == self.files@[file_id as int].ftype,
    {
        self.files[file_id as usize].ftype
    }
}


// What follows states the round-trip law of the depacker: a packed region
// produced by a compatible encoder decodes back to the bytes it was given.
// The encoder is given at the specification level; it emits the short
// literal-run production only, eight bytes at a time.

/// Two to the `n`.
pub open spec fn spec_two_pow(n: nat) -> nat
    decreases n,
{
    if n == 0 {
        1
    } else {
        2 * spec_two_pow((n - 1) as nat)
    }
}

/// One for a set bit.
pub open spec fn spec_bit_val(b: bool) -> nat {
    if b {
        1
    } else {
        0
    }
}

/// The value of a bit string read least significant bit first, as the words
/// of the packed stream hold their bits.
pub open spec fn spec_lsb_val(bs: Seq<bool>) -> nat
    decreases bs.len(),
{
    if bs.len() == 0 {
        0
    } else {
        spec_bit_val(bs[0]) + 2 * spec_lsb_val(bs.drop_first())
    }
}

/// The shift register holding the bit string `bs` still to deliver: the bits
/// in the low positions, the marker bit above them.
pub open spec fn spec_chk_val(bs: Seq<bool>) -> nat {
    spec_lsb_val(bs) + spec_two_pow(bs.len())
}

/// The value of a bit string read most significant bit first, as
/// [`spec_get_code`] assembles codes.
pub open spec fn spec_msb_val(bs: Seq<bool>) -> nat
    decreases bs.len(),
{
    if bs.len() == 0 {
        0
    } else {
        spec_bit_val(bs[0]) * spec_two_pow((bs.len() - 1) as nat) + spec_msb_val(bs.drop_first())
    }
}

/// The `n`-bit code of `v`, most significant bit first.
pub open spec fn spec_code_bits(v: u8, n: nat) -> Seq<bool> {
    Seq::new(n, |i: int| (v >> ((n - 1 - i) as u32)) & 1 == 1)
}

/// The bits of a byte sequence, each byte most significant bit first.
pub open spec fn spec_bytes_bits(bs: Seq<u8>) -> Seq<bool>
    decreases bs.len(),
{
    if bs.len() == 0 {
        Seq::empty()
    } else {
        spec_code_bits(bs[0], 8) + spec_bytes_bits(bs.drop_first())
    }
}

/// One short-literal-run production carrying `bs` (at most eight bytes, in
/// decode order): prefix bits 0 0, the three-bit count, then the bytes.
pub open spec fn spec_run_bits(bs: Seq<u8>) -> Seq<bool>
    recommends
        1 <= bs.len() <= 8,
{
    seq![false, false] + spec_code_bits((bs.len() - 1) as u8, 3) + spec_bytes_bits(bs)
}

/// All production bits for `x`: the decoder writes backward, so bytes leave
/// in runs of up to eight from the end of `x`, each run's bytes reversed.
pub open spec fn spec_pack_bits(x: Seq<u8>) -> Seq<bool>
    decreases x.len(),
{
    if x.len() == 0 {
        Seq::empty()
    } else {
        let k: int = if x.len() >= 8 {
            8
        } else {
            x.len() as int
        };
        spec_run_bits(Seq::new(k as nat, |i: int| x[x.len() - 1 - i])) + spec_pack_bits(
            x.take(x.len() - k),
        )
    }
}

/// The 32-bit stream word holding `bits[p..p+32]`.
pub open spec fn spec_chunk_word(bits: Seq<bool>, p: int) -> u32 {
    spec_lsb_val(bits.subrange(p, p + 32)) as u32
}

/// The exclusive or of the stream words from bit position `p` on.
pub open spec fn spec_xor_chunks(bits: Seq<bool>, p: int) -> u32
    recommends
        0 <= p <= bits.len(),
        (bits.len() - p) % 32 == 0,
    decreases bits.len() - p,
{
    if p < 0 || bits.len() - p < 32 {
        0
    } else {
        spec_chunk_word(bits, p) ^ spec_xor_chunks(bits, p + 32)
    }
}

/// The big-endian bytes of `w`.
pub open spec fn spec_be32_byte(w: u32, i: int) -> u8 {
    if i == 0 {
        (w >> 24) as u8
    } else if i == 1 {
        (w >> 16) as u8
    } else if i == 2 {
        (w >> 8) as u8
    } else {
        w as u8
    }
}

/// A compatible encoder: the data words (deepest-consumed first), then the
/// initial shift register holding the bit count's remainder modulo 32, then
/// the checksum word chosen so the running checksum ends at zero, then the
/// unpacked size.
pub open spec fn spec_pack(x: Seq<u8>) -> Seq<u8> {
    let bits = spec_pack_bits(x);
    let j = (bits.len() % 32) as int;
    let m = bits.len() as int / 32;
    let chk0 = spec_chk_val(bits.take(j)) as u32;
    let crc_word = chk0 ^ spec_xor_chunks(bits, j);
    Seq::new(
        (12 + 4 * m) as nat,
        |i: int|
            if i < 4 * m {
                // Word at byte offset 4u is consumed (m - u)-th from the
                // front of the remaining bit stream.
                spec_be32_byte(spec_chunk_word(bits, j + 32 * (m - 1 - i / 4)), i % 4)
            } else if i < 4 * m + 4 {
                spec_be32_byte(chk0, i - 4 * m)
            } else if i < 4 * m + 8 {
                spec_be32_byte(crc_word, i - (4 * m + 4))
            } else {
                spec_be32_byte(x.len() as u32, i - (4 * m + 8))
            },
    )
}

/// The bit-stream reading state `ctx` stands exactly at bit `pos` of
/// `bits`: the shift register holds the next `j` bits, the words below the
/// cursor hold the rest, and the running checksum is the exclusive or of the
/// words still to pull.
pub open spec fn spec_stream_inv_at(
    ctx: UnpackContext,
    packed: Seq<u8>,
    bits: Seq<bool>,
    pos: int,
    j: int,
) -> bool {
    let r = (bits.len() - pos - j) / 32;
    &&& 0 <= pos
    &&& 0 <= j <= 31
    &&& pos + j <= bits.len()
    &&& (bits.len() - pos - j) % 32 == 0
    &&& ctx.chk == spec_chk_val(bits.subrange(pos, pos + j))
    &&& (r >= 1 ==> ctx.index == 4 * (r - 1))
    &&& (r == 0 ==> ctx.index == 0)
    &&& ctx.index + 4 <= packed.len()
    &&& ctx.index % 4 == 0
    &&& (forall|u: int|
        0 <= u < r ==> #[trigger] spec_word_at(packed, 4 * u) == spec_chunk_word(
            bits,
            pos + j + 32 * (r - 1 - u),
        ))
    &&& ctx.crc == spec_xor_chunks(bits, pos + j)
}

/// As [`spec_stream_inv_at`], with the register fill left open.
pub open spec fn spec_stream_inv(
    ctx: UnpackContext,
    packed: Seq<u8>,
    bits: Seq<bool>,
    pos: int,
) -> bool {
    exists|j: int| #[trigger] spec_stream_inv_at(ctx, packed, bits, pos, j)
}


/// The register encoding is bounded by the width it stands for.
proof fn lemma_lsb_val_bound(bs: Seq<bool>)
    ensures
        spec_lsb_val(bs) < spec_two_pow(bs.len()),
    decreases bs.len(),
{
    if bs.len() > 0 {
        lemma_lsb_val_bound(bs.drop_first());
    }
}

/// Peeling the first bit off the register encoding.
proof fn lemma_chk_val_step(bs: Seq<bool>)
    requires
        bs.len() >= 1,
    ensures
        spec_chk_val(bs) == spec_bit_val(bs[0]) + 2 * spec_chk_val(bs.drop_first()),
{
    assert(spec_two_pow(bs.len()) == 2 * spec_two_pow(bs.drop_first().len()));
}

/// Peeling the first bit off a stream word's value.
proof fn lemma_lsb_val_step(bs: Seq<bool>)
    requires
        bs.len() >= 1,
    ensures
        spec_lsb_val(bs) == spec_bit_val(bs[0]) + 2 * spec_lsb_val(bs.drop_first()),
{
}

/// One decoded bit under the stream invariant: the bit at the cursor comes
/// out, and the cursor moves one bit.
proof fn lemma_next_chunk_sim(ctx: UnpackContext, packed: Seq<u8>, bits: Seq<bool>, pos: int)
    requires
        spec_stream_inv(ctx, packed, bits, pos),
        pos < bits.len(),
    ensures
        ({
            let (b, ctx1) = spec_next_chunk(ctx, packed);
            &&& b == bits[pos]
            &&& spec_stream_inv(ctx1, packed, bits, pos + 1)
            &&& ctx1.size == ctx.size
            &&& ctx1.data_size == ctx.data_size
            &&& ctx1.output_index == ctx.output_index
        }),
{
    let j = choose|j: int| spec_stream_inv_at(ctx, packed, bits, pos, j);
    assert(spec_stream_inv_at(ctx, packed, bits, pos, j));
    let r = (bits.len() - pos - j) / 32;

    assert(forall|x: u32| #![auto] x & 1 == x % 2 && x >> 1u32 == x / 2) by (bit_vector);
    assert(forall|x: u32| #![auto] ((x >> 1u32) | 0x8000_0000) == x / 2 + 0x8000_0000)
        by (bit_vector);
    assert(forall|a: u32, b: u32| #![auto] (a ^ b) ^ a == b) by (bit_vector);

    if j == 0 {
        // The register holds only the marker: the bit comes from the next
        // stream word.
        assert(bits.subrange(pos, pos).len() == 0);
        assert(ctx.chk == 1);
        assert(r >= 1) by {
            assert(bits.len() - pos - j > 0);
        }
        let chunk = bits.subrange(pos, pos + 32);
        let w = spec_word_at(packed, ctx.index as int);
        assert(spec_word_at(packed, 4 * (r - 1)) == spec_chunk_word(bits, pos + 32 * (r - 1 - (r
            - 1))));
        assert(w == spec_chunk_word(bits, pos));
        assert(spec_lsb_val(chunk) < spec_two_pow(32)) by {
            lemma_lsb_val_bound(chunk);
        }
        assert(spec_two_pow(32) == 0x1_0000_0000) by {
            reveal_with_fuel(spec_two_pow, 33);
        }
        lemma_lsb_val_step(chunk);
        let tail = chunk.drop_first();
        assert(spec_lsb_val(tail) < spec_two_pow(31)) by {
            lemma_lsb_val_bound(tail);
        }
        assert(spec_two_pow(31) == 0x8000_0000) by {
            reveal_with_fuel(spec_two_pow, 32);
        }

        let (b, ctx1) = spec_next_chunk(ctx, packed);
        assert(b == (w % 2 == 1));
        assert(b == bits[pos]);
        assert(ctx1.chk == w / 2 + 0x8000_0000);
        assert(tail =~= bits.subrange(pos + 1, pos + 1 + 31));
        assert(ctx1.chk == spec_chk_val(bits.subrange(pos + 1, pos + 1 + 31)));

        // The cursor and the checksum move one word.
        assert(ctx1.crc == spec_xor_chunks(bits, pos + 32)) by {
            assert(spec_xor_chunks(bits, pos) == spec_chunk_word(bits, pos) ^ spec_xor_chunks(
                bits,
                pos + 32,
            ));
        }
        assert(spec_stream_inv_at(ctx1, packed, bits, pos + 1, 31)) by {
            let r1 = (bits.len() - (pos + 1) - 31) / 32;
            assert(r1 == r - 1);
            assert(forall|u: int|
                0 <= u < r1 ==> #[trigger] spec_word_at(packed, 4 * u) == spec_chunk_word(
                    bits,
                    (pos + 1) + 31 + 32 * (r1 - 1 - u),
                ));
        }
    } else {
        let held = bits.subrange(pos, pos + j);
        lemma_chk_val_step(held);
        let tail = held.drop_first();
        assert(spec_chk_val(tail) >= spec_two_pow(tail.len()));
        assert(spec_two_pow(tail.len()) >= 1) by {
            lemma_two_pow_pos(tail.len());
        }
        assert(ctx.chk == spec_bit_val(held[0]) + 2 * spec_chk_val(tail));
        assert(spec_chk_val(held) < spec_two_pow(j as nat + 1)) by {
            lemma_lsb_val_bound(held);
        }
        assert(spec_two_pow(32) == 0x1_0000_0000) by {
            reveal_with_fuel(spec_two_pow, 33);
        }
        assert(spec_two_pow(j as nat + 1) <= spec_two_pow(32)) by {
            lemma_two_pow_le(j as nat + 1, 32);
        }

        let (b, ctx1) = spec_next_chunk(ctx, packed);
        assert(ctx.chk % 2 == spec_bit_val(held[0]));
        assert(b == bits[pos]);
        assert(ctx1.chk == spec_chk_val(tail));
        assert(tail =~= bits.subrange(pos + 1, pos + j));
        assert(spec_stream_inv_at(ctx1, packed, bits, pos + 1, j - 1)) by {
            let r1 = (bits.len() - (pos + 1) - (j - 1)) / 32;
            assert(r1 == r);
            assert(forall|u: int|
                0 <= u < r1 ==> #[trigger] spec_word_at(packed, 4 * u) == spec_chunk_word(
                    bits,
                    (pos + 1) + (j - 1) + 32 * (r1 - 1 - u),
                ));
        }
    }
}

/// Powers of two are positive.
proof fn lemma_two_pow_pos(n: nat)
    ensures
        spec_two_pow(n) >= 1,
    decreases n,
{
    if n > 0 {
        lemma_two_pow_pos((n - 1) as nat);
    }
}

/// Powers of two are monotone.
proof fn lemma_two_pow_le(a: nat, b: nat)
    requires
        a <= b,
    ensures
        spec_two_pow(a) <= spec_two_pow(b),
    decreases b,
{
    if a < b && b > 0 {
        lemma_two_pow_le(a, (b - 1) as nat);
        lemma_two_pow_pos((b - 1) as nat);
    }
}


/// Splitting a most-significant-first code value at its head bit.
proof fn lemma_msb_val_step(bs: Seq<bool>)
    requires
        bs.len() >= 1,
    ensures
        spec_msb_val(bs) == spec_bit_val(bs[0]) * spec_two_pow((bs.len() - 1) as nat)
            + spec_msb_val(bs.drop_first()),
{
}

/// Reading an `n`-bit code under the stream invariant: the folded
/// accumulator picks up exactly the next `n` bits, most significant first.
proof fn lemma_get_code_sim(
    ctx: UnpackContext,
    packed: Seq<u8>,
    bits: Seq<bool>,
    pos: int,
    n: u8,
    c: u16,
)
    requires
        spec_stream_inv(ctx, packed, bits, pos),
        pos + n <= bits.len(),
        n <= 12,
        (c + 1) * spec_two_pow(n as nat) <= 0x10000,
    ensures
        ({
            let (v, ctx1) = spec_get_code_loop(ctx, packed, n, c);
            &&& v == c * spec_two_pow(n as nat) + spec_msb_val(bits.subrange(pos, pos + n))
            &&& spec_stream_inv(ctx1, packed, bits, pos + n)
            &&& ctx1.size == ctx.size
            &&& ctx1.data_size == ctx.data_size
            &&& ctx1.output_index == ctx.output_index
        }),
    decreases n,
{
    if n == 0 {
        assert(bits.subrange(pos, pos).len() == 0);
    } else {
        lemma_next_chunk_sim(ctx, packed, bits, pos);
        let (b, ctxa) = spec_next_chunk(ctx, packed);
        let taken = bits.subrange(pos, pos + n);
        lemma_msb_val_step(taken);
        assert(spec_two_pow(n as nat) == 2 * spec_two_pow((n - 1) as nat));
        lemma_two_pow_pos((n - 1) as nat);
        assert(c < 0x8000) by {
            assert((c + 1) * spec_two_pow(n as nat) <= 0x10000);
            assert(spec_two_pow(n as nat) >= 2);
            assert((c + 1) * 2 <= (c + 1) * spec_two_pow(n as nat)) by (nonlinear_arith)
                requires
                    spec_two_pow(n as nat) >= 2,
                    c >= 0,
            ;
        }
        assert(forall|y: u16| y < 0x8000 ==> #[trigger] (y << 1u32) == 2 * y) by (bit_vector);
        assert(forall|y: u16| y % 2 == 0 ==> #[trigger] (y | 1) == y + 1) by (bit_vector);
        assert(forall|y: u16| #![auto] y | 0 == y) by (bit_vector);
        let c1: u16 = if b {
            ((c << 1u32) | 1) as u16
        } else {
            (c << 1u32) as u16
        };
        assert(c1 == 2 * c + spec_bit_val(b));
        assert((c1 + 1) * spec_two_pow((n - 1) as nat) <= 0x10000) by (nonlinear_arith)
            requires
                c1 <= 2 * c + 1,
                (c + 1) * spec_two_pow(n as nat) <= 0x10000,
                spec_two_pow(n as nat) == 2 * spec_two_pow((n - 1) as nat),
                spec_two_pow((n - 1) as nat) >= 1,
                c >= 0,
                c1 >= 0,
        ;
        lemma_get_code_sim(ctxa, packed, bits, pos + 1, (n - 1) as u8, c1);
        assert(taken.drop_first() =~= bits.subrange(pos + 1, pos + n));
        let (v, ctx1) = spec_get_code_loop(ctx, packed, n, c);
        assert(v == c1 * spec_two_pow((n - 1) as nat) + spec_msb_val(
            bits.subrange(pos + 1, pos + n),
        ));
        assert(c1 * spec_two_pow((n - 1) as nat) == c * spec_two_pow(n as nat) + spec_bit_val(b)
            * spec_two_pow((n - 1) as nat)) by (nonlinear_arith)
            requires
                c1 == 2 * c + spec_bit_val(b),
                spec_two_pow(n as nat) == 2 * spec_two_pow((n - 1) as nat),
        ;
    }
}

/// A literal run under the stream invariant: `bs` is what the run carries
/// (in decode order), and each byte lands one slot further toward the front
/// of the output.
proof fn lemma_literal_run_sim(
    ctx: UnpackContext,
    packed: Seq<u8>,
    bits: Seq<bool>,
    pos: int,
    out: Seq<u8>,
    bs: Seq<u8>,
)
    requires
        spec_stream_inv(ctx, packed, bits, pos),
        pos + 8 * bs.len() <= bits.len(),
        bits.subrange(pos, pos + 8 * bs.len()) == spec_bytes_bits(bs),
        1 <= bs.len() <= 8,
        bs.len() <= ctx.output_index + 1,
        ctx.output_index < out.len(),
    ensures
        ({
            let (ctx1, out1) = spec_literal_run(ctx, packed, out, bs.len() as u16);
            &&& out1.len() == out.len()
            &&& forall|t: int|
                0 <= t < bs.len() ==> out1[ctx.output_index - t] == bs[t]
            &&& forall|i: int|
                0 <= i < out.len() && !(ctx.output_index - bs.len() < i <= ctx.output_index)
                    ==> out1[i] == out[i]
            &&& spec_stream_inv(ctx1, packed, bits, pos + 8 * bs.len())
            &&& ctx1.data_size == ctx.data_size
            &&& ctx1.size == ctx.size
            &&& (bs.len() <= ctx.output_index ==> ctx1.output_index == ctx.output_index
                - bs.len())
            &&& (bs.len() == ctx.output_index + 1 ==> ctx1.output_index == 0)
        }),
    decreases bs.len(),
{
    let whole = bits.subrange(pos, pos + 8 * bs.len());
    let head_bits = bits.subrange(pos, pos + 8);
    assert(spec_bytes_bits(bs) == spec_code_bits(bs[0], 8) + spec_bytes_bits(bs.drop_first()));
    assert(head_bits =~= spec_code_bits(bs[0], 8)) by {
        assert forall|i: int| 0 <= i < 8 implies head_bits[i] == #[trigger] spec_code_bits(
            bs[0],
            8,
        )[i] by {
            assert(head_bits[i] == bits[pos + i]);
            assert(whole[i] == bits[pos + i]);
            assert(whole[i] == (spec_code_bits(bs[0], 8) + spec_bytes_bits(bs.drop_first()))[i]);
        }
    }
    lemma_two_pow_pos(8);
    assert(spec_two_pow(8) == 256) by {
        reveal_with_fuel(spec_two_pow, 9);
    }
    lemma_get_code_sim(ctx, packed, bits, pos, 8, 0);
    let (v, ctxa) = spec_get_code(ctx, packed, 8);
    lemma_code_bits_val(bs[0], 8);
    assert(spec_msb_val(head_bits) == bs[0]);
    assert(v == bs[0]);
    assert(v as u8 == bs[0]);

    let out1 = out.update(ctxa.output_index as int, v as u8);
    let ctxb = UnpackContext {
        output_index: if ctxa.output_index > 0 {
            (ctxa.output_index - 1) as u32
        } else {
            ctxa.output_index
        },
        ..ctxa
    };
    let j8 = choose|j: int| #[trigger] spec_stream_inv_at(ctxa, packed, bits, pos + 8, j);
    assert(spec_stream_inv_at(ctxa, packed, bits, pos + 8, j8));
    assert(spec_stream_inv_at(ctxb, packed, bits, pos + 8, j8));
    assert(spec_literal_run(ctx, packed, out, bs.len() as u16) == spec_literal_run(
        ctxb,
        packed,
        out1,
        (bs.len() - 1) as u16,
    ));
    let oi = ctx.output_index as int;
    let fin = spec_literal_run(ctx, packed, out, bs.len() as u16);
    if bs.len() == 1 {
        assert(bits.subrange(pos + 8, pos + 8).len() == 0);
        assert(fin == (ctxb, out1));
        assert(forall|t: int| 0 <= t < 1 ==> #[trigger] fin.1[oi - t] == bs[t]);
    } else {
        assert(bits.subrange(pos + 8, pos + 8 * bs.len()) =~= spec_bytes_bits(bs.drop_first()))
            by {
            assert forall|i: int|
                0 <= i < 8 * (bs.len() - 1) implies bits.subrange(pos + 8, pos + 8 * bs.len())[i]
                == spec_bytes_bits(bs.drop_first())[i] by {
                assert(bits.subrange(pos + 8, pos + 8 * bs.len())[i] == bits[pos + 8 + i]);
                assert(whole[8 + i] == bits[pos + 8 + i]);
                assert(whole[8 + i] == (spec_code_bits(bs[0], 8) + spec_bytes_bits(
                    bs.drop_first(),
                ))[8 + i]);
            }
        }
        lemma_literal_run_sim(ctxb, packed, bits, pos + 8, out1, bs.drop_first());
        assert forall|t: int| 0 <= t < bs.len() implies #[trigger] fin.1[oi - t] == bs[t] by {
            if t == 0 {
                // The head byte was written before the recursion and the
                // recursion leaves that slot alone.
                assert(out1[oi] == bs[0]);
                assert(fin.1[oi] == out1[oi]);
            } else {
                assert(fin.1[ctxb.output_index - (t - 1)] == bs.drop_first()[t - 1]);
            }
        }
    }
}

/// An `n`-bit code reads back as the value modulo the width.
proof fn lemma_code_bits_val_rec(v: u8, n: nat)
    requires
        n <= 8,
    ensures
        spec_msb_val(spec_code_bits(v, n)) == (v as nat) % spec_two_pow(n),
    decreases n,
{
    reveal_with_fuel(spec_two_pow, 10);
    let bs = spec_code_bits(v, n);
    if n == 0 {
        assert(spec_msb_val(bs) == 0);
    } else {
        lemma_code_bits_val_rec(v, (n - 1) as nat);
        assert(bs.drop_first() =~= spec_code_bits(v, (n - 1) as nat));
        lemma_msb_val_step(bs);
        if n == 1 {
            assert(v % 2 == (if (v >> 0u32) & 1 == 1 { 1u8 } else { 0u8 }) * 1 + v % 1)
                by (bit_vector);
        } else if n == 2 {
            assert(v % 4 == (if (v >> 1u32) & 1 == 1 { 1u8 } else { 0u8 }) * 2 + v % 2)
                by (bit_vector);
        } else if n == 3 {
            assert(v % 8 == (if (v >> 2u32) & 1 == 1 { 1u8 } else { 0u8 }) * 4 + v % 4)
                by (bit_vector);
        } else if n == 4 {
            assert(v % 16 == (if (v >> 3u32) & 1 == 1 { 1u8 } else { 0u8 }) * 8 + v % 8)
                by (bit_vector);
        } else if n == 5 {
            assert(v % 32 == (if (v >> 4u32) & 1 == 1 { 1u8 } else { 0u8 }) * 16 + v % 16)
                by (bit_vector);
        } else if n == 6 {
            assert(v % 64 == (if (v >> 5u32) & 1 == 1 { 1u8 } else { 0u8 }) * 32 + v % 32)
                by (bit_vector);
        } else if n == 7 {
            assert(v % 128 == (if (v >> 6u32) & 1 == 1 { 1u8 } else { 0u8 }) * 64 + v % 64)
                by (bit_vector);
        } else {
            assert((v as u16) % 256 == (if (v >> 7u32) & 1 == 1 { 1u16 } else { 0u16 }) * 128 + (
            v as u16) % 128) by (bit_vector);
        }
    }
}

/// An `n`-bit code of a value below `2^n` reads back as that value.
proof fn lemma_code_bits_val(v: u8, n: nat)
    requires
        n == 8 || (n == 3 && v < 8),
    ensures
        spec_msb_val(spec_code_bits(v, n)) == v,
{
    reveal_with_fuel(spec_two_pow, 10);
    lemma_code_bits_val_rec(v, n);
    assert(spec_two_pow(8) == 256);
    assert(spec_two_pow(3) == 8);
    if n == 8 {
        assert((v as nat) % 256 == v);
    } else {
        assert((v as nat) % 8 == v);
    }
}

/// One production of the packed stream: the run prefix and count decode, and
/// the run's bytes land backward from the write cursor.
#[verifier::rlimit(100)]
proof fn lemma_pack_run_step(
    ctx: UnpackContext,
    packed: Seq<u8>,
    bits: Seq<bool>,
    pos: int,
    out: Seq<u8>,
    rb: Seq<u8>,
)
    requires
        spec_stream_inv(ctx, packed, bits, pos),
        1 <= rb.len() <= 8,
        pos + 5 + 8 * rb.len() <= bits.len(),
        bits.subrange(pos, pos + 5 + 8 * rb.len()) == spec_run_bits(rb),
        rb.len() <= ctx.data_size,
        rb.len() <= ctx.output_index + 1,
        ctx.output_index < out.len(),
    ensures
        ({
            let res = spec_depack_step(ctx, packed, out);
            &&& res is Some
            &&& {
                let (ctx1, out1) = res->Some_0;
                &&& out1.len() == out.len()
                &&& forall|t: int|
                    0 <= t < rb.len() ==> out1[ctx.output_index - t] == rb[t]
                &&& forall|i: int|
                    0 <= i < out.len() && !(ctx.output_index - rb.len() < i
                        <= ctx.output_index) ==> out1[i] == out[i]
                &&& spec_stream_inv(ctx1, packed, bits, pos + 5 + 8 * rb.len())
                &&& ctx1.data_size == ctx.data_size - rb.len()
                &&& (rb.len() <= ctx.output_index ==> ctx1.output_index == ctx.output_index
                    - rb.len())
                &&& (rb.len() == ctx.output_index + 1 ==> ctx1.output_index == 0)
            }
        }),
{
    let k = rb.len() as int;
    let run = spec_run_bits(rb);
    let whole = bits.subrange(pos, pos + 5 + 8 * k);
    assert(run.len() == 5 + 8 * k) by {
        lemma_bytes_bits_len(rb);
    }
    assert(whole[0] == false && whole[1] == false);
    assert(bits[pos] == false && bits[pos + 1] == false);

    lemma_next_chunk_sim(ctx, packed, bits, pos);
    let (b1, ctxa) = spec_next_chunk(ctx, packed);
    let ctxa1 = UnpackContext { size: 1, ..ctxa };
    let ja = choose|j: int| #[trigger] spec_stream_inv_at(ctxa, packed, bits, pos + 1, j);
    assert(spec_stream_inv_at(ctxa1, packed, bits, pos + 1, ja));
    lemma_next_chunk_sim(ctxa1, packed, bits, pos + 1);
    let (b2, ctxb) = spec_next_chunk(ctxa1, packed);

    // The three-bit count.
    assert(bits.subrange(pos + 2, pos + 5) =~= spec_code_bits((rb.len() - 1) as u8, 3)) by {
        assert forall|i: int|
            0 <= i < 3 implies bits.subrange(pos + 2, pos + 5)[i] == #[trigger] spec_code_bits(
            (rb.len() - 1) as u8,
            3,
        )[i] by {
            assert(bits.subrange(pos + 2, pos + 5)[i] == bits[pos + 2 + i]);
            assert(whole[2 + i] == bits[pos + 2 + i]);
            assert(whole[2 + i] == run[2 + i]);
            assert(run[2 + i] == (seq![false, false] + spec_code_bits((rb.len() - 1) as u8, 3)
                + spec_bytes_bits(rb))[2 + i]);
        }
    }
    reveal_with_fuel(spec_two_pow, 5);
    lemma_get_code_sim(ctxb, packed, bits, pos + 2, 3, 0);
    lemma_code_bits_val((rb.len() - 1) as u8, 3);
    let (n, ctxc) = spec_get_code(ctxb, packed, 3);
    assert(n == rb.len() - 1);

    let count = (n + 1) as u16;
    assert(count == rb.len());
    assert(!(count > ctxc.data_size));
    let ctxd = UnpackContext { data_size: (ctxc.data_size - count) as u32, ..ctxc };
    let jd = choose|j: int| #[trigger] spec_stream_inv_at(ctxc, packed, bits, pos + 5, j);
    assert(spec_stream_inv_at(ctxd, packed, bits, pos + 5, jd));

    assert(bits.subrange(pos + 5, pos + 5 + 8 * k) =~= spec_bytes_bits(rb)) by {
        lemma_bytes_bits_len(rb);
        assert forall|i: int|
            0 <= i < 8 * k implies bits.subrange(pos + 5, pos + 5 + 8 * k)[i]
            == #[trigger] spec_bytes_bits(rb)[i] by {
            assert(bits.subrange(pos + 5, pos + 5 + 8 * k)[i] == bits[pos + 5 + i]);
            assert(whole[5 + i] == bits[pos + 5 + i]);
            assert(whole[5 + i] == run[5 + i]);
            assert(run[5 + i] == (seq![false, false] + spec_code_bits((rb.len() - 1) as u8, 3)
                + spec_bytes_bits(rb))[5 + i]);
        }
    }
    lemma_literal_run_sim(ctxd, packed, bits, pos + 5, out, rb);
}

/// The bits of a byte sequence take eight slots each.
proof fn lemma_bytes_bits_len(bs: Seq<u8>)
    ensures
        spec_bytes_bits(bs).len() == 8 * bs.len(),
    decreases bs.len(),
{
    if bs.len() > 0 {
        lemma_bytes_bits_len(bs.drop_first());
    }
}


/// The decode loop consumes the productions of `spec_pack_bits(x_rem)` and
/// reproduces `x_rem` at the front of the output.
proof fn lemma_depack_runs(
    packed: Seq<u8>,
    bits: Seq<bool>,
    x_rem: Seq<u8>,
    pos: int,
    ctx: UnpackContext,
    out: Seq<u8>,
)
    requires
        spec_stream_inv(ctx, packed, bits, pos),
        0 <= pos <= bits.len(),
        bits.subrange(pos, bits.len() as int) == spec_pack_bits(x_rem),
        ctx.data_size == x_rem.len(),
        x_rem.len() >= 1 ==> ctx.output_index == x_rem.len() - 1,
        x_rem.len() <= out.len(),
        ctx.output_index < out.len(),
    ensures
        ({
            let res = spec_depack_loop(ctx, packed, out);
            &&& res is Some
            &&& {
                let (ctxf, outf) = res->Some_0;
                &&& outf.len() == out.len()
                &&& forall|i: int| 0 <= i < x_rem.len() ==> outf[i] == x_rem[i]
                &&& forall|i: int| x_rem.len() <= i < out.len() ==> outf[i] == out[i]
                &&& ctxf.crc == 0
            }
        }),
    decreases x_rem.len(),
{
    if x_rem.len() == 0 {
        assert(spec_pack_bits(x_rem).len() == 0);
        assert(pos == bits.len());
        let j = choose|j: int| #[trigger] spec_stream_inv_at(ctx, packed, bits, pos, j);
        assert(spec_stream_inv_at(ctx, packed, bits, pos, j));
        assert(j == 0);
        assert(ctx.crc == spec_xor_chunks(bits, pos));
        assert(spec_xor_chunks(bits, pos) == 0);
    } else {
        let n = x_rem.len() as int;
        let k: int = if n >= 8 {
            8
        } else {
            n
        };
        let rb = Seq::new(k as nat, |i: int| x_rem[n - 1 - i]);
        let rest = x_rem.take(n - k);
        let run = spec_run_bits(rb);
        assert(spec_pack_bits(x_rem) == run + spec_pack_bits(rest));
        assert(run.len() == 5 + 8 * k) by {
            lemma_bytes_bits_len(rb);
        }
        let tail_bits_len = bits.len() as int - pos - (5 + 8 * k);
        assert(spec_pack_bits(rest).len() == tail_bits_len);

        assert(bits.subrange(pos, pos + 5 + 8 * k) =~= run) by {
            assert forall|i: int|
                0 <= i < 5 + 8 * k implies bits.subrange(pos, pos + 5 + 8 * k)[i] == run[i] by {
                assert(bits.subrange(pos, bits.len() as int)[i] == bits[pos + i]);
                assert((run + spec_pack_bits(rest))[i] == run[i]);
            }
        }
        assert(bits.subrange(pos + 5 + 8 * k, bits.len() as int) =~= spec_pack_bits(rest)) by {
            assert forall|i: int|
                0 <= i < tail_bits_len implies bits.subrange(pos + 5 + 8 * k, bits.len() as int)[i]
                == spec_pack_bits(rest)[i] by {
                assert(bits.subrange(pos, bits.len() as int)[5 + 8 * k + i] == bits[pos + 5 + 8
                    * k + i]);
                assert((run + spec_pack_bits(rest))[5 + 8 * k + i] == spec_pack_bits(rest)[i]);
            }
        }

        lemma_pack_run_step(ctx, packed, bits, pos, out, rb);
        let (ctx1, out1) = spec_depack_step(ctx, packed, out)->Some_0;
        assert(ctx1.data_size < ctx.data_size);
        assert(spec_depack_loop(ctx, packed, out) == spec_depack_loop(ctx1, packed, out1));

        lemma_depack_runs(packed, bits, rest, pos + 5 + 8 * k, ctx1, out1);

        let res = spec_depack_loop(ctx1, packed, out1);
        let (ctxf, outf) = res->Some_0;
        assert forall|i: int| 0 <= i < n implies outf[i] == x_rem[i] by {
            if i < n - k {
                assert(outf[i] == rest[i]);
            } else {
                assert(outf[i] == out1[i]);
                let t = n - 1 - i;
                assert(out1[ctx.output_index - t] == rb[t]);
                assert(rb[t] == x_rem[n - 1 - t]);
            }
        }
        assert forall|i: int| n <= i < out.len() implies outf[i] == out[i] by {
            assert(outf[i] == out1[i]);
            assert(out1[i] == out[i]);
        }
    }
}

/// A big-endian 32-bit value survives its byte split.
proof fn lemma_be32_roundtrip(w: u32)
    ensures
        ((((w >> 24) as u8) as u32) << 24) | ((((w >> 16) as u8) as u32) << 16) | ((((w
            >> 8) as u8) as u32) << 8) | ((w as u8) as u32) == w,
{
    assert(((((w >> 24) as u8) as u32) << 24) | ((((w >> 16) as u8) as u32) << 16) | ((((w
        >> 8) as u8) as u32) << 8) | ((w as u8) as u32) == w) by (bit_vector);
}

/// The word the decoder reads at an aligned offset of a packed region whose
/// bytes there split `w` big-endian.
proof fn lemma_word_at_be32(packed: Seq<u8>, off: int, w: u32)
    requires
        0 <= off,
        off + 4 <= packed.len(),
        packed[off] == spec_be32_byte(w, 0),
        packed[off + 1] == spec_be32_byte(w, 1),
        packed[off + 2] == spec_be32_byte(w, 2),
        packed[off + 3] == spec_be32_byte(w, 3),
    ensures
        spec_word_at(packed, off) == w,
{
    lemma_be32_roundtrip(w);
}


/// The encoder's bit stream is linear in the input size.
proof fn lemma_pack_bits_len(x: Seq<u8>)
    ensures
        spec_pack_bits(x).len() <= 13 * x.len(),
    decreases x.len(),
{
    if x.len() > 0 {
        let k: int = if x.len() >= 8 {
            8
        } else {
            x.len() as int
        };
        let rb = Seq::new(k as nat, |i: int| x[x.len() - 1 - i]);
        lemma_bytes_bits_len(rb);
        lemma_pack_bits_len(x.take(x.len() - k));
    }
}

/// Depacking inverts the compatible encoder: for any byte sequence that can
/// stand in one resource, decoding its packed form yields it back.
#[verifier::rlimit(100)]
pub proof fn lemma_depack_pack_roundtrip(x: Seq<u8>)
    requires
        1 <= x.len() <= u16::MAX,
    ensures
        spec_depack(spec_pack(x), x.len() as u16) == Some(x),
{
    let packed = spec_pack(x);
    let bits = spec_pack_bits(x);
    lemma_pack_bits_len(x);
    let j = (bits.len() % 32) as int;
    let m = bits.len() as int / 32;
    let chk0 = spec_chk_val(bits.take(j)) as u32;
    let crc_word = chk0 ^ spec_xor_chunks(bits, j);
    let n = x.len() as int;

    assert(packed.len() == 12 + 4 * m);
    assert(packed.len() % 4 == 0);

    // The three header words read back as built.
    assert(spec_word_at(packed, 4 * m + 8) == x.len() as u32) by {
        lemma_word_at_be32(packed, 4 * m + 8, x.len() as u32);
    }
    assert(spec_word_at(packed, 4 * m + 4) == crc_word) by {
        lemma_word_at_be32(packed, 4 * m + 4, crc_word);
    }
    assert(spec_word_at(packed, 4 * m) == chk0) by {
        lemma_word_at_be32(packed, 4 * m, chk0);
    }

    let i0 = (packed.len() - 4) as u32;
    let i1 = spec_index_after_read(i0);
    let i2 = spec_index_after_read(i1);
    let i3 = spec_index_after_read(i2);
    assert(i0 == 4 * m + 8 && i1 == 4 * m + 4 && i2 == 4 * m);
    assert(m >= 1 ==> i3 == 4 * (m - 1));
    assert(m == 0 ==> i3 == 0);

    let ctx0 = UnpackContext {
        size: 0,
        crc: crc_word ^ chk0,
        chk: chk0,
        data_size: x.len() as u32,
        index: i3,
        output_index: (x.len() - 1) as u32,
    };
    let out0 = Seq::<u8>::new(x.len() as nat, |k: int| 0u8);

    assert(spec_stream_inv_at(ctx0, packed, bits, 0, j)) by {
        assert(spec_chk_val(bits.take(j)) < spec_two_pow(32)) by {
            lemma_lsb_val_bound(bits.take(j));
            lemma_two_pow_le(j as nat + 1, 32);
        }
        assert(spec_two_pow(32) == 0x1_0000_0000) by {
            reveal_with_fuel(spec_two_pow, 33);
        }
        assert(bits.take(j) =~= bits.subrange(0, j));
        assert(forall|a: u32, b: u32| #![auto] (a ^ b) ^ a == b) by (bit_vector);
        let r = (bits.len() - j) / 32;
        assert(r == m);
        assert forall|u: int| 0 <= u < m implies #[trigger] spec_word_at(packed, 4 * u)
            == spec_chunk_word(bits, j + 32 * (m - 1 - u)) by {
            let w = spec_chunk_word(bits, j + 32 * (m - 1 - u));
            assert(packed[4 * u] == spec_be32_byte(w, 0));
            assert(packed[4 * u + 1] == spec_be32_byte(w, 1));
            assert(packed[4 * u + 2] == spec_be32_byte(w, 2));
            assert(packed[4 * u + 3] == spec_be32_byte(w, 3));
            lemma_word_at_be32(packed, 4 * u, w);
        }
    }

    assert(bits.subrange(0, bits.len() as int) =~= spec_pack_bits(x));

    lemma_depack_runs(packed, bits, x, 0, ctx0, out0);

    let res = spec_depack_loop(ctx0, packed, out0);
    let (ctxf, outf) = res->Some_0;
    assert(outf =~= x);
}


/// Re-deriving a bitmap from the same packed input always yields
/// byte-identical output: the de-planarized form is a function of the input
/// bytes alone, with no hidden state.
pub proof fn lemma_unswizzle_deterministic(a: Seq<u8>, b: Seq<u8>)
    requires
        a == b,
    ensures
        spec_unswizzle(a) == spec_unswizzle(b),
{
}

} // verus!
