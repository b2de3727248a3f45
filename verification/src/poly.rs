//! Decoding and filling of hierarchical vector polygons.
//!
//! A polygon record starts with a descriptor byte: values `>= 0xc0` are leaf
//! polygons (bounding box, vertex count, then (dx, dy) pairs, all scaled by
//! `zoom / 64`); values with low six bits `== 2` are hierarchical nodes that
//! position child records; any other descriptor is skipped. Leaves are filled
//! into one of the four pixel pages with a 16.16 fixed-point scanline walk.
//!
//! Malformed records (reads past the buffer, a vertex count that is zero, odd
//! or over the limit) abandon the remaining part of the draw and leave the
//! pages as they are at that point; well-formed polygon tables never hold
//! them.

use vstd::prelude::*;
use crate::defines::{FRAME_BUFFER_WIDTH, FRAME_BUFFER_HEIGHT, PAGE_SIZE};

verus! {

/// Most vertices a leaf polygon can carry.
pub const MAX_NUM_VERTICES: usize = 50;

/// Bound on the nesting depth of hierarchical records; the data format stays
/// within a few levels, and the bound keeps malformed self-referencing data
/// from recursing forever.
const MAX_POLY_DEPTH: u32 = 16;

/// The four fixed-size pixel pages, one byte per pixel.
pub open spec fn spec_pages_wf(pages: Seq<Vec<u8>>) -> bool {
    &&& pages.len() == 4
    &&& forall|i: int| 0 <= i < 4 ==> (#[trigger] pages[i])@.len() == PAGE_SIZE
}

/// Truncating (toward zero) division, as hardware division rounds.
pub open spec fn spec_div_trunc(a: int, b: int) -> int
    recommends
        b != 0,
{
    let q = (if a >= 0 { a } else { -a }) / (if b >= 0 { b } else { -b });
    if (a < 0) != (b < 0) {
        -q
    } else {
        q
    }
}

/// A coordinate byte scaled by `zoom / 64`, truncated to 16 bits.
pub open spec fn spec_scale(v: u8, zoom: i16) -> i16 {
    spec_div_trunc(v * zoom, 64) as i16
}

/// The per-scanline 16.16 fixed-point x step for a chain edge of horizontal
/// run `dx` over `h` scanlines; `h == 0` stands for an infinite slope, and a
/// product beyond 16 bits saturates.
pub open spec fn spec_step(dx: i16, h: i16) -> i16 {
    let div = if h == 0 {
        0x4000
    } else {
        spec_div_trunc(0x4000, h as int)
    };
    let p = dx * div * 4;
    if p > i16::MAX {
        i16::MAX
    } else if p < i16::MIN {
        i16::MIN
    } else {
        p as i16
    }
}

/// What a span pixel becomes: a direct color below `0x10`, a copy-through
/// from the background page above `0x10`, and exactly `0x10` highlights the
/// destination by keeping its low three bits and setting bit three.
pub open spec fn spec_span_pixel(color: u8, dst: u8, bg: u8) -> u8 {
    if color < 0x10 {
        color
    } else if color > 0x10 {
        bg
    } else {
        ((dst & 7) + 8) as u8
    }
}

/// What a single-point polygon writes: `0x10` forces the fixed highlight
/// index, `0x11` copies through from the background page, anything else is
/// written directly.
pub open spec fn spec_point_pixel(color: u8, bg: u8) -> u8 {
    if color == 0x10 {
        8
    } else if color == 0x11 {
        bg
    } else {
        color
    }
}

/// Truncating division for `b > 0`, matching [`spec_div_trunc`].
fn div_trunc_pos(a: i32, b: i32) -> (r: i32)
    requires
        b > 0,
        a > i32::MIN,
    ensures
        r == spec_div_trunc(a as int, b as int),
        a >= 0 ==> 0 <= r <= a,
        a < 0 ==> a <= r <= 0,
{
    proof {
        vstd::arithmetic::div_mod::lemma_div_basics_4(if a >= 0 { a as int } else { -a as int }, b as int);
        vstd::arithmetic::div_mod::lemma_div_basics_5(if a >= 0 { a as int } else { -a as int }, b as int);
    }
    if a >= 0 {
        let q = (a as u32) / (b as u32);
        #[verifier::truncate] (q as i32)
    } else {
        let q = ((-a) as u32) / (b as u32);
        -(#[verifier::truncate] (q as i32))
    }
}

/// Scales coordinate byte `v` by `zoom / 64`.
fn scale(v: u8, zoom: i16) -> (r: i16)
    ensures
        r == spec_scale(v, zoom),
{
    proof {
        assert((v as int) * (zoom as int) <= 255 * 32767 && (v as int) * (zoom as int) >= 255
            * -32768) by (nonlinear_arith)
            requires
                0 <= v <= 255,
                -32768 <= zoom <= 32767,
        ;
    }
    let p: i32 = (v as i32) * (zoom as i32);
    let q = div_trunc_pos(p, 64);
    #[verifier::truncate] (q as i16)
}

/// The fixed-point x step of one chain edge.
fn fixed_step(dx: i16, h: i16) -> (r: i16)
    ensures
        r == spec_step(dx, h),
{
    let div: i32 = if h == 0 {
        0x4000
    } else if h > 0 {
        div_trunc_pos(0x4000, h as i32)
    } else {
        -div_trunc_pos(0x4000, -(h as i32))
    };
    proof {
        assert(h != 0 ==> div == spec_div_trunc(0x4000, h as int));
        assert(-0x4000 <= div <= 0x4000);
        assert((dx as int) * (div as int) <= 32768 * 0x4000 && (dx as int) * (div as int)
            >= -(32768 * 0x4000)) by (nonlinear_arith)
            requires
                -32768 <= dx <= 32767,
                -0x4000 <= div <= 0x4000,
        ;
    }
    let p: i64 = (dx as i64) * (div as i64) * 4;
    if p > i16::MAX as i64 {
        i16::MAX
    } else if p < i16::MIN as i64 {
        i16::MIN
    } else {
        p as i16
    }
}


/// One filled span: the pixels between the ends (either order, both ends
/// included) of scanline `y` take the span color rule; the rest stay.
pub open spec fn spec_hline_page(
    page: Seq<u8>,
    bg: Seq<u8>,
    x1: i16,
    x2: i16,
    y: i16,
    color: u8,
) -> Seq<u8> {
    let lo = if x1 < x2 {
        x1 as int
    } else {
        x2 as int
    };
    let hi = if x1 < x2 {
        x2 as int
    } else {
        x1 as int
    };
    Seq::new(
        page.len(),
        |k: int|
            if y * 320 + lo <= k <= y * 320 + hi {
                spec_span_pixel(color, page[k], bg[k])
            } else {
                page[k]
            },
    )
}

/// The scanlines of one chain-pair segment: `n` rows from `hliney` down,
/// each span clipped to the page and filled, the two 16.16 edge cursors
/// stepped per row. The last component is false when the walk ran off the
/// bottom of the page, which ends the whole fill.
pub open spec fn spec_span_rows(
    page: Seq<u8>,
    bg: Seq<u8>,
    samepage: bool,
    color: u8,
    step1: i16,
    step2: i16,
    cpt1: u32,
    cpt2: u32,
    hliney: i16,
    n: u16,
) -> (Seq<u8>, u32, u32, i16, bool)
    decreases n,
{
    if n == 0 {
        (page, cpt1, cpt2, hliney, true)
    } else {
        let page1 = if hliney >= 0 {
            let sx1 = (cpt1 >> 16) as i16;
            let sx2 = (cpt2 >> 16) as i16;
            if sx1 <= 319 && sx2 >= 0 {
                let cx1: i16 = if sx1 < 0 {
                    0
                } else {
                    sx1
                };
                let cx2: i16 = if sx2 > 319 {
                    319
                } else {
                    sx2
                };
                spec_hline_page(
                    page,
                    if samepage {
                        page
                    } else {
                        bg
                    },
                    cx1,
                    cx2,
                    hliney,
                    color,
                )
            } else {
                page
            }
        } else {
            page
        };
        let c1 = vstd::wrapping::u32_specs::wrapping_add_signed(cpt1, step1 as i32);
        let c2 = vstd::wrapping::u32_specs::wrapping_add_signed(cpt2, step2 as i32);
        let h1 = (hliney + 1) as i16;
        if h1 > 199 {
            (page1, c1, c2, h1, false)
        } else {
            spec_span_rows(page1, bg, samepage, color, step1, step2, c1, c2, h1, (n - 1) as u16)
        }
    }
}

/// The whole scanline fill: the two vertex chains are walked from both ends
/// toward the middle, two vertices per turn, each edge pair painting its
/// scanlines; running off the bottom of the page ends the fill.
pub open spec fn spec_fill_walk(
    page: Seq<u8>,
    bg: Seq<u8>,
    samepage: bool,
    color: u8,
    vertices: Seq<(i16, i16)>,
    i: int,
    j: int,
    cpt1: u32,
    cpt2: u32,
    hliney: i16,
    rem: int,
) -> Seq<u8>
    decreases rem,
{
    if rem <= 2 {
        page
    } else {
        let rem1 = rem - 2;
        let h1 = vstd::wrapping::i16_specs::wrapping_sub(vertices[j].1, vertices[j + 1].1);
        let step1 = spec_step(
            vstd::wrapping::i16_specs::wrapping_sub(vertices[j].0, vertices[j + 1].0),
            h1,
        );
        let h = vstd::wrapping::i16_specs::wrapping_sub(vertices[i].1, vertices[i - 1].1);
        let step2 = spec_step(
            vstd::wrapping::i16_specs::wrapping_sub(vertices[i].0, vertices[i - 1].0),
            h,
        );
        let c1 = (cpt1 & 0xFFFF0000) | 0x7FFF;
        let c2 = (cpt2 & 0xFFFF0000) | 0x8000;
        if h == 0 {
            spec_fill_walk(
                page,
                bg,
                samepage,
                color,
                vertices,
                i + 1,
                j - 1,
                vstd::wrapping::u32_specs::wrapping_add_signed(c1, step1 as i32),
                vstd::wrapping::u32_specs::wrapping_add_signed(c2, step2 as i32),
                hliney,
                rem1,
            )
        } else {
            let walked = spec_span_rows(
                page,
                bg,
                samepage,
                color,
                step1,
                step2,
                c1,
                c2,
                hliney,
                (h as u16),
            );
            if walked.4 {
                spec_fill_walk(
                    walked.0,
                    bg,
                    samepage,
                    color,
                    vertices,
                    i + 1,
                    j - 1,
                    walked.1,
                    walked.2,
                    walked.3,
                    rem1,
                )
            } else {
                walked.0
            }
        }
    }
}


/// What filling polygon `p` at `(x, y)` does to the pages: a single-point
/// polygon writes exactly one on-screen pixel or nothing, a general polygon
/// whose box misses the screen writes nothing, and an on-screen general
/// polygon's back-buffer page takes the scanline fill of
/// [`Poly::spec_fill_result`]; the other pages never move.
pub open spec fn spec_poly_draw_rel(
    p: Poly,
    x: i16,
    y: i16,
    color: u8,
    pre: Seq<Vec<u8>>,
    post: Seq<Vec<u8>>,
    bb: int,
) -> bool {
    &&& (forall|j: int| 0 <= j < 4 && j != bb ==> post[j] == pre[j])
    &&& (p.spec_is_point() ==> (if 0 <= x < FRAME_BUFFER_WIDTH && 0 <= y
        < FRAME_BUFFER_HEIGHT {
        post[bb]@ == pre[bb]@.update(
            y * FRAME_BUFFER_WIDTH + x,
            spec_point_pixel(color, pre[0]@[y * FRAME_BUFFER_WIDTH + x]),
        )
    } else {
        post[bb] == pre[bb]
    }))
    &&& (!p.spec_is_point() && p.spec_bbox_offscreen(x, y) ==> post == pre)
    &&& (!p.spec_is_point() && !p.spec_bbox_offscreen(x, y) ==> post[bb]@
        == p.spec_fill_result(pre[bb]@, pre[0]@, bb == 0, x, y, color))
}


/// What decoding and drawing the record at `offset` does to the pages. A
/// record that runs out of buffer, or a leaf with a bad vertex count, is
/// abandoned with nothing drawn; a skip descriptor draws nothing; a leaf
/// decodes its box and vertices, scaled by `zoom / 64`, picks the explicit
/// or derived color into the scratch polygon `dec`, and fills per
/// [`spec_poly_draw_rel`]. A hierarchical
/// node only promises that drawing stays inside the back-buffer page, which
/// the frame clauses beside this relation say.
pub open spec fn spec_decode_draw_rel(
    buf: Seq<u8>,
    offset: int,
    x: i16,
    y: i16,
    zoom: i16,
    color_idx: u8,
    dec: Poly,
    pre: Seq<Vec<u8>>,
    post: Seq<Vec<u8>>,
    bb: int,
) -> bool {
    if offset < 0 || offset >= buf.len() {
        post == pre
    } else {
        let info = buf[offset];
        let di = offset + 1;
        if info >= 0xc0 {
            let fc: u8 = if color_idx & 0x80 != 0 {
                (info & 0x3f) as u8
            } else {
                color_idx
            };
            if buf.len() - di < 3 {
                post == pre
            } else {
                let nvv = buf[di + 2];
                if nvv < 2 || nvv % 2 != 0 || nvv > 50 {
                    post == pre
                } else if buf.len() - (di + 3) < 2 * nvv {
                    post == pre
                } else {
                    &&& spec_poly_draw_rel(dec, x, y, fc, pre, post, bb)
                    &&& dec.wf()
                    &&& dec.bounding_box_width == spec_scale(buf[di], zoom)
                    &&& dec.bounding_box_height == spec_scale(buf[di + 1], zoom)
                    &&& dec.num_vertices == nvv
                    &&& (forall|k: int|
                        0 <= k < nvv ==> dec.vertices@[k] == (
                            spec_scale(buf[di + 3 + 2 * k], zoom),
                            spec_scale(buf[di + 3 + 2 * k + 1], zoom),
                        ))
                }
            }
        } else if info & 0x3f == 2 {
            true
        } else {
            post == pre
        }
    }
}

/// A decoded leaf polygon: a bounding box, and up to [`MAX_NUM_VERTICES`]
/// vertices stored as (dx, dy) pairs. The vertex buffer always holds
/// [`MAX_NUM_VERTICES`] slots; `num_vertices` says how many are meaningful.
pub struct Poly {
    pub bounding_box_width: i16,
    pub bounding_box_height: i16,
    pub num_vertices: u8,
    pub vertices: Vec<(i16, i16)>,
}

impl Poly {
    /// The vertex buffer holds exactly [`MAX_NUM_VERTICES`] slots.
    pub open spec fn wf(self) -> bool {
        self.vertices@.len() == MAX_NUM_VERTICES
    }

    /// Whether the decoded shape is the degenerate single-point polygon.
    pub open spec fn spec_is_point(self) -> bool {
        self.bounding_box_width == 0 && self.bounding_box_height == 1 && self.num_vertices == 4
    }

    pub fn new() -> (r: Poly)
        ensures
            r.wf(),
            r.bounding_box_width == 0,
            r.bounding_box_height == 0,
            r.num_vertices == 0,
            forall|k: int| 0 <= k < MAX_NUM_VERTICES ==> r.vertices@[k] == (0i16, 0i16),
    {
        let mut vertices: Vec<(i16, i16)> = Vec::new();
        let mut i: usize = 0;
        while i < MAX_NUM_VERTICES
            invariant
                vertices@.len() == i,
                i <= MAX_NUM_VERTICES,
                forall|k: int| 0 <= k < i ==> vertices@[k] == (0i16, 0i16),
            decreases MAX_NUM_VERTICES - i,
        {
            vertices.push((0i16, 0i16));
            i = i + 1;
        }
        Poly { bounding_box_width: 0, bounding_box_height: 0, num_vertices: 0, vertices }
    }

    /// Fills the polygon into the back-buffer page, centered at `(x, y)`.
    ///
    /// A single-point polygon writes exactly one pixel when `(x, y)` is on
    /// screen and nothing otherwise. A general polygon whose bounding box
    /// lies entirely off screen writes nothing; otherwise it fills clipped
    /// horizontal spans, touching only the back-buffer page.
    pub fn draw(
        &self,
        x: i16,
        y: i16,
        color: u8,
        output_pages: &mut Vec<Vec<u8>>,
        backbuffer_page_idx: usize,
    )
        requires
            self.wf(),
            spec_pages_wf(old(output_pages)@),
            backbuffer_page_idx < 4,
            self.num_vertices >= 2,
            self.num_vertices % 2 == 0,
            self.num_vertices <= MAX_NUM_VERTICES,
        ensures
            spec_pages_wf(final(output_pages)@),
            spec_poly_draw_rel(
                *self,
                x,
                y,
                color,
                old(output_pages)@,
                final(output_pages)@,
                backbuffer_page_idx as int,
            ),
    {
        let bb = backbuffer_page_idx;
        if self.bounding_box_width == 0 && self.bounding_box_height == 1 && self.num_vertices
            == 4 {
            // A single point.
            if x < 0 || x >= FRAME_BUFFER_WIDTH as i16 || y < 0 || y >= FRAME_BUFFER_HEIGHT as i16 {
                return ;
            }
            let wide: usize = FRAME_BUFFER_WIDTH as usize;
            proof {
                assert(wide == 320 && y <= 199 && x <= 319);
            }
            let offset = (y as usize) * wide + (x as usize);
            if color == 0x10 {
                output_pages[bb][offset] = 0x8;
            } else if color == 0x11 {
                let v = output_pages[0][offset];
                output_pages[bb][offset] = v;
            } else {
                output_pages[bb][offset] = color;
            }
            return ;
        }
        let bbwh = div_trunc_pos(self.bounding_box_width as i32, 2);
        let bbhh = div_trunc_pos(self.bounding_box_height as i32, 2);

        let mut x1: i16 = #[verifier::truncate] (((x as i32) - bbwh) as i16);
        let mut x2: i16 = #[verifier::truncate] (((x as i32) + bbwh) as i16);
        let y1: i16 = #[verifier::truncate] (((y as i32) - bbhh) as i16);
        let y2: i16 = #[verifier::truncate] (((y as i32) + bbhh) as i16);

        if x2 < 0 {
            return ;
        }
        if x1 >= FRAME_BUFFER_WIDTH as i16 {
            return ;
        }
        if y2 < 0 {
            return ;
        }
        if y1 >= FRAME_BUFFER_HEIGHT as i16 {
            return ;
        }
        proof {
            assert(!self.spec_bbox_offscreen(x, y));
        }

        let mut hliney: i16 = y1;
        let nv = self.num_vertices as usize;

        let mut i: usize = 0;
        let mut j: usize = nv - 1;

        x2 = self.vertices[i].0.wrapping_add(x1);
        x1 = self.vertices[j].0.wrapping_add(x1);

        i = 1;
        j = j - 1;

        let mut cpt1: u32 = (#[verifier::truncate] (x1 as u32)) << 16u32;
        let mut cpt2: u32 = (#[verifier::truncate] (x2 as u32)) << 16u32;

        let mut remaining: u8 = self.num_vertices;

        let ghost p0old = old(output_pages)@[0]@;
        let ghost bb0 = bb == 0;
        let ghost target = self.spec_fill_result(
            old(output_pages)@[bb as int]@,
            p0old,
            bb0,
            x,
            y,
            color,
        );
        proof {
            assert(target == spec_fill_walk(
                old(output_pages)@[bb as int]@,
                p0old,
                bb0,
                color,
                self.vertices@,
                1,
                nv as int - 2,
                cpt1,
                cpt2,
                hliney,
                nv as int,
            ));
        }

        loop
            invariant_except_break
                nv == self.num_vertices,
                2 <= nv <= MAX_NUM_VERTICES,
                nv % 2 == 0,
                1 <= i,
                i + j == nv - 1,
                remaining == nv - 2 * (i - 1),
                remaining >= 2,
                hliney <= FRAME_BUFFER_HEIGHT - 1,
            invariant
                self.wf(),
                spec_pages_wf(output_pages@),
                forall|k: int|
                    0 <= k < 4 && k != bb ==> output_pages@[k] == old(output_pages)@[k],
                bb == backbuffer_page_idx,
                bb < 4,
                !self.spec_is_point(),
                !self.spec_bbox_offscreen(x, y),
                bb0 == (bb == 0),
                p0old == old(output_pages)@[0]@,
                target == self.spec_fill_result(
                    old(output_pages)@[bb as int]@,
                    p0old,
                    bb0,
                    x,
                    y,
                    color,
                ),
                spec_fill_walk(
                    output_pages@[bb as int]@,
                    p0old,
                    bb0,
                    color,
                    self.vertices@,
                    i as int,
                    j as int,
                    cpt1,
                    cpt2,
                    hliney,
                    remaining as int,
                ) == target,
            ensures
                spec_pages_wf(output_pages@),
                forall|k: int| 0 <= k < 4 && k != bb ==> output_pages@[k] == old(output_pages)@[k],
                output_pages@[bb as int]@ == target,
            decreases remaining,
        {
            remaining = remaining - 2;
            if remaining == 0 {
                break ;
            }
            let h1 = self.vertices[j].1.wrapping_sub(self.vertices[j + 1].1);
            let step1 = fixed_step(self.vertices[j].0.wrapping_sub(self.vertices[j + 1].0), h1);
            let h = self.vertices[i].1.wrapping_sub(self.vertices[i - 1].1);
            let step2 = fixed_step(self.vertices[i].0.wrapping_sub(self.vertices[i - 1].0), h);

            i = i + 1;
            j = j - 1;

            cpt1 = (cpt1 & 0xFFFF0000) | 0x7FFF;
            cpt2 = (cpt2 & 0xFFFF0000) | 0x8000;

            if h == 0 {
                cpt1 = cpt1.wrapping_add_signed(step1 as i32);
                cpt2 = cpt2.wrapping_add_signed(step2 as i32);
            } else {
                // `h` counts down with 16-bit wraparound, so a negative `h`
                // runs for its unsigned bit pattern's worth of scanlines.
                let mut n: u16 = #[verifier::truncate] (h as u16);
                while n != 0
                    invariant
                        self.wf(),
                        spec_pages_wf(output_pages@),
                        forall|k: int|
                            0 <= k < 4 && k != bb ==> output_pages@[k] == old(output_pages)@[k],
                        bb == backbuffer_page_idx,
                        bb < 4,
                        !self.spec_is_point(),
                        !self.spec_bbox_offscreen(x, y),
                        hliney <= FRAME_BUFFER_HEIGHT - 1,
                        bb0 == (bb == 0),
                        p0old == old(output_pages)@[0]@,
                        target == self.spec_fill_result(
                            old(output_pages)@[bb as int]@,
                            p0old,
                            bb0,
                            x,
                            y,
                            color,
                        ),
                        ({
                            let w = spec_span_rows(
                                output_pages@[bb as int]@,
                                p0old,
                                bb0,
                                color,
                                step1,
                                step2,
                                cpt1,
                                cpt2,
                                hliney,
                                n,
                            );
                            if w.4 {
                                target == spec_fill_walk(
                                    w.0,
                                    p0old,
                                    bb0,
                                    color,
                                    self.vertices@,
                                    i as int,
                                    j as int,
                                    w.1,
                                    w.2,
                                    w.3,
                                    remaining as int,
                                )
                            } else {
                                target == w.0
                            }
                        }),
                    ensures
                        spec_pages_wf(output_pages@),
                        forall|k: int|
                            0 <= k < 4 && k != bb ==> output_pages@[k] == old(output_pages)@[k],
                        hliney <= FRAME_BUFFER_HEIGHT - 1,
                        spec_fill_walk(
                            output_pages@[bb as int]@,
                            p0old,
                            bb0,
                            color,
                            self.vertices@,
                            i as int,
                            j as int,
                            cpt1,
                            cpt2,
                            hliney,
                            remaining as int,
                        ) == target,
                    decreases n,
                {
                    let ghost page_top = output_pages@[bb as int]@;
                    let ghost c1t = cpt1;
                    let ghost c2t = cpt2;
                    let ghost ht = hliney;
                    let ghost nt = n;
                    if hliney >= 0 {
                        let sx1 = #[verifier::truncate] ((cpt1 >> 16u32) as i16);
                        let sx2 = #[verifier::truncate] ((cpt2 >> 16u32) as i16);

                        if sx1 <= (FRAME_BUFFER_WIDTH - 1) as i16 && sx2 >= 0 {
                            let cx1 = if sx1 < 0 {
                                0
                            } else {
                                sx1
                            };
                            let cx2 = if sx2 > (FRAME_BUFFER_WIDTH - 1) as i16 {
                                (FRAME_BUFFER_WIDTH - 1) as i16
                            } else {
                                sx2
                            };
                            self.draw_hor_line(cx1, cx2, hliney, color, output_pages, bb);
                        }
                    }

                    cpt1 = cpt1.wrapping_add_signed(step1 as i32);
                    cpt2 = cpt2.wrapping_add_signed(step2 as i32);
                    hliney = hliney + 1;

                    proof {
                        let w = spec_span_rows(
                            page_top,
                            p0old,
                            bb0,
                            color,
                            step1,
                            step2,
                            c1t,
                            c2t,
                            ht,
                            nt,
                        );
                        assert(nt != 0);
                        assert(output_pages@[bb as int]@ == (if ht >= 0 {
                            let sx1 = (c1t >> 16) as i16;
                            let sx2 = (c2t >> 16) as i16;
                            if sx1 <= 319 && sx2 >= 0 {
                                spec_hline_page(
                                    page_top,
                                    if bb0 {
                                        page_top
                                    } else {
                                        p0old
                                    },
                                    if sx1 < 0 {
                                        0
                                    } else {
                                        sx1
                                    },
                                    if sx2 > 319 {
                                        319
                                    } else {
                                        sx2
                                    },
                                    ht,
                                    color,
                                )
                            } else {
                                page_top
                            }
                        } else {
                            page_top
                        }));
                        if hliney > 199 {
                            assert(w == (output_pages@[bb as int]@, cpt1, cpt2, hliney, false));
                            assert(target == output_pages@[bb as int]@);
                        } else {
                            assert(w == spec_span_rows(
                                output_pages@[bb as int]@,
                                p0old,
                                bb0,
                                color,
                                step1,
                                step2,
                                cpt1,
                                cpt2,
                                hliney,
                                (nt - 1) as u16,
                            ));
                        }
                    }

                    if hliney > (FRAME_BUFFER_HEIGHT - 1) as i16 {
                        return ;
                    }

                    n = n - 1;
                }
            }
        }
    }

    /// The back-buffer page after this polygon's general scanline fill at
    /// `(x, y)`: the chain walk of [`spec_fill_walk`] from the decoded
    /// bounding box's top edge, with both edge cursors seeded from the
    /// outermost vertices.
    pub open spec fn spec_fill_result(
        self,
        page: Seq<u8>,
        bg: Seq<u8>,
        samepage: bool,
        x: i16,
        y: i16,
        color: u8,
    ) -> Seq<u8> {
        let nv = self.num_vertices as int;
        let bbwh = spec_div_trunc(self.bounding_box_width as int, 2);
        let bbhh = spec_div_trunc(self.bounding_box_height as int, 2);
        let x1b = (x - bbwh) as i16;
        let y1 = (y - bbhh) as i16;
        let x2i = vstd::wrapping::i16_specs::wrapping_add(self.vertices@[0].0, x1b);
        let x1i = vstd::wrapping::i16_specs::wrapping_add(self.vertices@[nv - 1].0, x1b);
        spec_fill_walk(
            page,
            bg,
            samepage,
            color,
            self.vertices@,
            1,
            nv - 2,
            ((x1i as u32) << 16u32) as u32,
            ((x2i as u32) << 16u32) as u32,
            y1,
            nv,
        )
    }

    /// Whether the screen-space bounding box misses the screen entirely, as
    /// the fill's rejection test computes it (halved extents, wrapping 16-bit
    /// arithmetic).
    pub open spec fn spec_bbox_offscreen(self, x: i16, y: i16) -> bool {
        let bbwh = spec_div_trunc(self.bounding_box_width as int, 2);
        let bbhh = spec_div_trunc(self.bounding_box_height as int, 2);
        let x1 = (x - bbwh) as i16;
        let x2 = (x + bbwh) as i16;
        let y1 = (y - bbhh) as i16;
        let y2 = (y + bbhh) as i16;
        x2 < 0 || x1 >= FRAME_BUFFER_WIDTH || y2 < 0 || y1 >= FRAME_BUFFER_HEIGHT
    }

    /// Fills one horizontal span of the back-buffer page, inclusive of both
    /// ends in either order, with the span color rule of
    /// [`spec_span_pixel`], exactly as [`spec_hline_page`] says.
    fn draw_hor_line(
        &self,
        x1: i16,
        x2: i16,
        y: i16,
        color: u8,
        output_pages: &mut Vec<Vec<u8>>,
        backbuffer_page_idx: usize,
    )
        requires
            spec_pages_wf(old(output_pages)@),
            backbuffer_page_idx < 4,
            0 <= x1 < FRAME_BUFFER_WIDTH,
            0 <= x2 < FRAME_BUFFER_WIDTH,
            0 <= y < FRAME_BUFFER_HEIGHT,
        ensures
            spec_pages_wf(final(output_pages)@),
            forall|j: int|
                0 <= j < 4 && j != backbuffer_page_idx ==> final(output_pages)@[j] == old(
                    output_pages,
                )@[j],
            final(output_pages)@[backbuffer_page_idx as int]@ == spec_hline_page(
                old(output_pages)@[backbuffer_page_idx as int]@,
                old(output_pages)@[0]@,
                x1,
                x2,
                y,
                color,
            ),
    {
        let bb = backbuffer_page_idx;
        let xmin = if x1 < x2 {
            x1
        } else {
            x2
        };
        let xmax = if x1 < x2 {
            x2
        } else {
            x1
        };

        let wide: usize = FRAME_BUFFER_WIDTH as usize;
        proof {
            assert(wide == 320 && 0 <= y <= 199 && 0 <= xmin <= 319);
        }
        let start_idx = (y as usize) * wide + (xmin as usize);
        let count = (xmax - xmin) as usize + 1;

        let mut inc: usize = 0;
        while inc < count
            invariant
                spec_pages_wf(output_pages@),
                forall|j: int|
                    0 <= j < 4 && j != bb ==> output_pages@[j] == old(output_pages)@[j],
                bb == backbuffer_page_idx,
                bb < 4,
                inc <= count,
                start_idx == y * 320 + (if x1 < x2 {
                    x1 as int
                } else {
                    x2 as int
                }),
                count == (if x1 < x2 {
                    x2 - x1
                } else {
                    x1 - x2
                }) + 1,
                start_idx + count <= PAGE_SIZE,
                forall|k: int|
                    0 <= k < PAGE_SIZE ==> #[trigger] output_pages@[bb as int]@[k] == (
                    if start_idx <= k < start_idx + inc {
                        spec_span_pixel(
                            color,
                            old(output_pages)@[bb as int]@[k],
                            old(output_pages)@[0]@[k],
                        )
                    } else {
                        old(output_pages)@[bb as int]@[k]
                    }),
            decreases count - inc,
        {
            let idx = start_idx + inc;
            if color < 0x10 {
                output_pages[bb][idx] = color;
            } else if color > 0x10 {
                let v = output_pages[0][idx];
                output_pages[bb][idx] = v;
            } else {
                let v = output_pages[bb][idx];
                proof {
                    assert((v & 7) < 8) by (bit_vector);
                }
                output_pages[bb][idx] = (v & 7) + 8;
            }
            inc = inc + 1;
        }
        proof {
            assert(output_pages@[bb as int]@ =~= spec_hline_page(
                old(output_pages)@[bb as int]@,
                old(output_pages)@[0]@,
                x1,
                x2,
                y,
                color,
            ));
        }
    }
}

/// Decodes the polygon record at `offset` of `poly_buffer` and draws it into
/// the back-buffer page: a leaf record is filled directly (the caller's
/// `color_idx` is used unless its top bit asks to derive the color from the
/// record), a hierarchical record positions and draws its children. `poly` is
/// the scratch decode buffer.
pub fn draw_poly_to_buffer(
    poly: &mut Poly,
    poly_buffer: &[u8],
    offset: u16,
    x: i16,
    y: i16,
    zoom: i16,
    color_idx: u8,
    output_pages: &mut Vec<Vec<u8>>,
    backbuffer_page_idx: usize,
)
    requires
        old(poly).wf(),
        spec_pages_wf(old(output_pages)@),
        backbuffer_page_idx < 4,
    ensures
        final(poly).wf(),
        spec_pages_wf(final(output_pages)@),
        forall|j: int|
            0 <= j < 4 && j != backbuffer_page_idx ==> final(output_pages)@[j] == old(
                output_pages,
            )@[j],
        spec_decode_draw_rel(
            poly_buffer@,
            offset as int,
            x,
            y,
            zoom,
            color_idx,
            *final(poly),
            old(output_pages)@,
            final(output_pages)@,
            backbuffer_page_idx as int,
        ),
{
    draw_poly_rec(
        poly,
        poly_buffer,
        offset as usize,
        x,
        y,
        zoom,
        color_idx,
        output_pages,
        backbuffer_page_idx,
        MAX_POLY_DEPTH,
    );
}

#[verifier::rlimit(100)]
fn draw_poly_rec(
    poly: &mut Poly,
    poly_buffer: &[u8],
    offset: usize,
    x: i16,
    y: i16,
    zoom: i16,
    color_idx: u8,
    output_pages: &mut Vec<Vec<u8>>,
    backbuffer_page_idx: usize,
    depth: u32,
)
    requires
        old(poly).wf(),
        spec_pages_wf(old(output_pages)@),
        backbuffer_page_idx < 4,
    ensures
        final(poly).wf(),
        spec_pages_wf(final(output_pages)@),
        forall|j: int|
            0 <= j < 4 && j != backbuffer_page_idx ==> final(output_pages)@[j] == old(
                output_pages,
            )@[j],
        spec_decode_draw_rel(
            poly_buffer@,
            offset as int,
            x,
            y,
            zoom,
            color_idx,
            *final(poly),
            old(output_pages)@,
            final(output_pages)@,
            backbuffer_page_idx as int,
        ),
    decreases depth, 1int,
{
    let mut data_index = offset;
    if data_index >= poly_buffer.len() {
        return ;
    }
    let info = poly_buffer[data_index];
    data_index = data_index + 1;

    if info >= 0xc0 {
        let mut final_color_idx = color_idx;
        if final_color_idx & 0x80 != 0 {
            final_color_idx = info & 0x3f;
        }

        if poly_buffer.len() - data_index < 3 {
            return ;
        }
        poly.bounding_box_width = scale(poly_buffer[data_index], zoom);
        poly.bounding_box_height = scale(poly_buffer[data_index + 1], zoom);
        let nv = poly_buffer[data_index + 2];
        poly.num_vertices = nv;
        data_index = data_index + 3;

        if nv < 2 || nv % 2 != 0 || nv as usize > MAX_NUM_VERTICES {
            return ;
        }
        if poly_buffer.len() - data_index < 2 * (nv as usize) {
            return ;
        }

        let mut i: usize = 0;
        while i < nv as usize
            invariant
                poly.wf(),
                poly.num_vertices == nv,
                poly.bounding_box_width == spec_scale(poly_buffer@[data_index - 3], zoom),
                poly.bounding_box_height == spec_scale(poly_buffer@[data_index - 2], zoom),
                2 <= nv <= MAX_NUM_VERTICES,
                i <= nv as usize,
                data_index >= 3,
                data_index + 2 * (nv as usize) <= poly_buffer@.len(),
                poly_buffer@.len() <= usize::MAX,
                forall|k: int|
                    0 <= k < i ==> #[trigger] poly.vertices@[k] == (
                        spec_scale(poly_buffer@[data_index + 2 * k], zoom),
                        spec_scale(poly_buffer@[data_index + 2 * k + 1], zoom),
                    ),
            decreases nv as usize - i,
        {
            let vx = scale(poly_buffer[data_index + 2 * i], zoom);
            let vy = scale(poly_buffer[data_index + 2 * i + 1], zoom);
            poly.vertices[i] = (vx, vy);
            i = i + 1;
        }

        poly.draw(x, y, final_color_idx, output_pages, backbuffer_page_idx);
        proof {
            assert(spec_poly_draw_rel(
                *poly,
                x,
                y,
                final_color_idx,
                old(output_pages)@,
                output_pages@,
                backbuffer_page_idx as int,
            ));
            assert(spec_decode_draw_rel(
                poly_buffer@,
                offset as int,
                x,
                y,
                zoom,
                color_idx,
                *poly,
                old(output_pages)@,
                output_pages@,
                backbuffer_page_idx as int,
            ));
        }
    } else {
        let kind = info & 0x3f;
        if kind == 2 && depth > 0 {
            draw_hierarchy_poly_to_buffer(
                poly,
                poly_buffer,
                data_index,
                x,
                y,
                zoom,
                output_pages,
                backbuffer_page_idx,
                depth - 1,
            );
        }
    }
}

/// Draws a hierarchical node: shifts the local origin, then decodes each
/// child at its table offset, with an optional explicit color byte.
fn draw_hierarchy_poly_to_buffer(
    poly: &mut Poly,
    poly_buffer: &[u8],
    offset: usize,
    x: i16,
    y: i16,
    zoom: i16,
    output_pages: &mut Vec<Vec<u8>>,
    backbuffer_page_idx: usize,
    depth: u32,
)
    requires
        old(poly).wf(),
        spec_pages_wf(old(output_pages)@),
        backbuffer_page_idx < 4,
    ensures
        final(poly).wf(),
        spec_pages_wf(final(output_pages)@),
        forall|j: int|
            0 <= j < 4 && j != backbuffer_page_idx ==> final(output_pages)@[j] == old(
                output_pages,
            )@[j],
    decreases depth, 2int,
{
    let mut data_index = offset;
    if data_index >= poly_buffer.len() || poly_buffer.len() - data_index < 3 {
        return ;
    }
    let nx = x.wrapping_sub(scale(poly_buffer[data_index], zoom));
    let ny = y.wrapping_sub(scale(poly_buffer[data_index + 1], zoom));
    let num_children = poly_buffer[data_index + 2] as usize + 1;
    data_index = data_index + 3;

    let mut c: usize = 0;
    while c < num_children
        invariant
            poly.wf(),
            spec_pages_wf(output_pages@),
            forall|j: int|
                0 <= j < 4 && j != backbuffer_page_idx ==> output_pages@[j] == old(
                    output_pages,
                )@[j],
            backbuffer_page_idx < 4,
            data_index <= poly_buffer@.len() + 2,
        decreases num_children - c,
    {
        if data_index >= poly_buffer.len() || poly_buffer.len() - data_index < 4 {
            return ;
        }
        let word = ((poly_buffer[data_index] as u16) << 8) | (poly_buffer[data_index + 1] as u16);
        let cx = nx.wrapping_add(scale(poly_buffer[data_index + 2], zoom));
        let cy = ny.wrapping_add(scale(poly_buffer[data_index + 3], zoom));
        data_index = data_index + 4;

        let mut final_color_idx: u8 = 0xff;
        let off = word & 0x7fff;

        if word & 0x8000 != 0 {
            if data_index >= poly_buffer.len() {
                return ;
            }
            final_color_idx = poly_buffer[data_index] & 0x7f;
            if poly_buffer.len() - data_index < 2 {
                // The skipped byte runs past the buffer; the next turn stops.
                data_index = poly_buffer.len();
            } else {
                data_index = data_index + 2;
            }
        }

        proof {
            assert(word & 0x7fff <= 0x7fff) by (bit_vector);
        }
        draw_poly_rec(
            poly,
            poly_buffer,
            (off as usize) * 2,
            cx,
            cy,
            zoom,
            final_color_idx,
            output_pages,
            backbuffer_page_idx,
            depth,
        );
        c = c + 1;
    }
}

} // verus!
