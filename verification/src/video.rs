//! The page and palette manager: four fixed-size index-color pixel pages with
//! front / back-builder role indirection, page fill and copy, staged palette
//! switching committed at blit time, bitmap and text drawing, and the
//! palette-to-RGBA resolve used to present a page.

use std::collections::HashMap;
use vstd::prelude::*;
use crate::defines::{FRAME_BUFFER_WIDTH, FRAME_BUFFER_HEIGHT, PAGE_SIZE, INVALID_PALETTE};
use crate::font::glyph;
use crate::game_strings::init_game_strings;
use crate::poly::{Poly, draw_poly_to_buffer, spec_pages_wf};
use vstd::string::StringSliceAdditionalSpecFns;

verus! {

pub struct Video {
    /// The four pixel pages, one byte (a palette index) per pixel.
    pub pages: Vec<Vec<u8>>,
    /// Page currently shown by the host.
    pub frontbuffer_page_idx: usize,
    /// Page that drawing operations target.
    pub backbuffer_page_idx: usize,
    /// Page the scripts compose the next background in.
    pub background_builder_page_idx: usize,
    /// Palette used when the front page is presented.
    pub palette_id: u8,
    /// Staged palette, committed by the next blit; [`INVALID_PALETTE`] means
    /// no change is pending.
    pub next_palette_id: u8,
    /// The built-in text table.
    pub game_strings: HashMap<u16, &'static str>,
}

impl Video {
    /// Four full pages and in-range role indices.
    pub open spec fn wf(self) -> bool {
        &&& spec_pages_wf(self.pages@)
        &&& self.frontbuffer_page_idx < 4
        &&& self.backbuffer_page_idx < 4
        &&& self.background_builder_page_idx < 4
    }

    /// How a page id resolves to a page index: `0..=3` directly, `0xff` the
    /// back-builder page, `0xfe` the front page, anything else page 0.
    pub open spec fn spec_page_idx(self, page_id: u8) -> int {
        if page_id <= 3 {
            page_id as int
        } else if page_id == 0xff {
            self.background_builder_page_idx as int
        } else if page_id == 0xfe {
            self.frontbuffer_page_idx as int
        } else {
            0
        }
    }

    /// Whether a copy's source id names a direct full-page copy (a sentinel
    /// id or one without the scroll flag) rather than a scrolled copy.
    pub open spec fn spec_copy_direct(src_page_id: u8) -> bool {
        src_page_id >= 0xfe || ((src_page_id & 0xbf) & 0x80) == 0
    }

    /// The page a copy reads, as `copy_page` resolves its source id.
    pub open spec fn spec_copy_src(self, src_page_id: u8) -> int {
        if src_page_id >= 0xfe {
            self.spec_page_idx(src_page_id)
        } else if ((src_page_id & 0xbf) & 0x80) == 0 {
            self.spec_page_idx(src_page_id & 0xbf)
        } else {
            self.spec_page_idx((src_page_id & 0xbf) & 3)
        }
    }

    /// Everything but the pixel pages and the role indices is unchanged.
    pub open spec fn spec_same_roles_and_palette(self, other: Video) -> bool {
        &&& self.frontbuffer_page_idx == other.frontbuffer_page_idx
        &&& self.backbuffer_page_idx == other.backbuffer_page_idx
        &&& self.background_builder_page_idx == other.background_builder_page_idx
        &&& self.palette_id == other.palette_id
        &&& self.next_palette_id == other.next_palette_id
        &&& self.game_strings == other.game_strings
    }

    pub fn new() -> (r: Video)
        ensures
            r.wf(),
            r.frontbuffer_page_idx == 2,
            r.backbuffer_page_idx == 2,
            r.background_builder_page_idx == 1,
            r.palette_id == 0,
            r.next_palette_id == INVALID_PALETTE,
            forall|p: int, k: int| 0 <= p < 4 && 0 <= k < PAGE_SIZE ==> r.pages@[p]@[k] == 0,
            forall|id: u16|
                #[trigger] r.game_strings@.contains_key(id)
                    <==> crate::game_strings::spec_is_game_string_id(id),
    {
        let mut game_strings: HashMap<u16, &'static str> = HashMap::new();
        init_game_strings(&mut game_strings);

        let mut pages: Vec<Vec<u8>> = Vec::new();
        let mut p: usize = 0;
        while p < 4
            invariant
                pages@.len() == p,
                p <= 4,
                forall|i: int| 0 <= i < p ==> (#[trigger] pages@[i])@.len() == PAGE_SIZE,
                forall|i: int, k: int|
                    0 <= i < p && 0 <= k < PAGE_SIZE ==> pages@[i]@[k] == 0,
            decreases 4 - p,
        {
            pages.push(blank_page());
            p = p + 1;
        }

        Video {
            pages,
            frontbuffer_page_idx: 2,
            backbuffer_page_idx: 2,
            background_builder_page_idx: 1,
            palette_id: 0,
            next_palette_id: INVALID_PALETTE,
            game_strings,
        }
    }

    /// The palette the presented frame is resolved with.
    pub fn get_active_palette_id(&self) -> (r: u8)
        ensures
            r == self.palette_id,
    {
        self.palette_id
    }

    /// The page the host reads pixels from.
    pub fn get_screen_page(&self) -> (r: &Vec<u8>)
        requires
            self.wf(),
        ensures
            r == self.pages@[self.backbuffer_page_idx as int],
    {
        &self.pages[self.backbuffer_page_idx]
    }

    /// Presents a page: `0xff` swaps the front and back-builder roles (a
    /// pointer swap, no pixels move), `0xfe` keeps the front page, any other
    /// id makes that page the front page. A pending palette change is
    /// committed here and only here.
    pub fn blit(&mut self, page_id: u8)
        requires
            old(self).wf(),
        ensures
            final(self).wf(),
            spec_blit_rel(*old(self), *final(self), page_id),
    {
        if page_id == 0xff {
            let tmp = self.frontbuffer_page_idx;
            self.frontbuffer_page_idx = self.background_builder_page_idx;
            self.background_builder_page_idx = tmp;
        } else if page_id != 0xfe {
            self.frontbuffer_page_idx = self.get_page_idx(page_id);
        }

        if self.next_palette_id != INVALID_PALETTE {
            self.palette_id = self.next_palette_id;
            self.next_palette_id = INVALID_PALETTE;
        }
    }

    /// Overwrites every pixel of the resolved page with `color_idx`.
    pub fn fill_page(&mut self, page_id: u8, color_idx: u8)
        requires
            old(self).wf(),
        ensures
            final(self).wf(),
            spec_fill_page_rel(*old(self), *final(self), page_id, color_idx),
    {
        let page_idx = self.get_page_idx(page_id);
        let mut i: usize = 0;
        while i < PAGE_SIZE
            invariant
                self.wf(),
                self.spec_same_roles_and_palette(*old(self)),
                page_idx == old(self).spec_page_idx(page_id),
                page_idx < 4,
                i <= PAGE_SIZE,
                forall|j: int|
                    0 <= j < 4 && j != page_idx ==> self.pages@[j] == old(self).pages@[j],
                forall|k: int| 0 <= k < i ==> self.pages@[page_idx as int]@[k] == color_idx,
            decreases PAGE_SIZE - i,
        {
            self.pages[page_idx][i] = color_idx;
            i = i + 1;
        }
    }

    /// Copies pixels from the resolved source page to the resolved
    /// destination page. A direct or sentinel source id copies the whole
    /// page; a source id with the scroll flag set copies the rows that
    /// remain visible after scrolling vertically by `vscroll` pixels.
    pub fn copy_page(&mut self, src_page_id: u8, dst_page_id: u8, vscroll: i16)
        requires
            old(self).wf(),
        ensures
            final(self).wf(),
            spec_copy_page_rel(*old(self), *final(self), src_page_id, dst_page_id, vscroll),
    {
        if src_page_id == dst_page_id {
            return ;
        }

        let spage = src_page_id & 0xbf;

        if src_page_id >= 0xfe || (spage & 0x80) == 0 {
            let s = self.get_page_idx(if src_page_id >= 0xfe {
                src_page_id
            } else {
                spage
            });
            let d = self.get_page_idx(dst_page_id);

            if s == d {
                return ;
            }

            let mut i: usize = 0;
            while i < PAGE_SIZE
                invariant
                    self.wf(),
                    self.spec_same_roles_and_palette(*old(self)),
                    s < 4,
                    d < 4,
                    s != d,
                    i <= PAGE_SIZE,
                    forall|j: int|
                        0 <= j < 4 && j != d ==> self.pages@[j] == old(self).pages@[j],
                    forall|k: int|
                        0 <= k < i ==> self.pages@[d as int]@[k] == self.pages@[s as int]@[k],
                    forall|k: int|
                        i <= k < PAGE_SIZE ==> self.pages@[d as int]@[k] == old(
                            self,
                        ).pages@[d as int]@[k],
                decreases PAGE_SIZE - i,
            {
                let v = self.pages[s][i];
                self.pages[d][i] = v;
                i = i + 1;
            }
            proof {
                assert(self.pages@[d as int]@ =~= old(self).pages@[s as int]@);
            }
        } else {
            let s = self.get_page_idx(spage & 3);
            let d = self.get_page_idx(dst_page_id);

            let vabs: i16 = if vscroll < 0 {
                if vscroll == i16::MIN {
                    // Not reachable for scroll amounts the scripts produce;
                    // the magnitude saturates rather than wrap.
                    i16::MAX
                } else {
                    -vscroll
                }
            } else {
                vscroll
            };

            if vabs < FRAME_BUFFER_HEIGHT as i16 {
                let source_y: usize = vabs as usize;
                let dest_y: usize = if vscroll < 0 {
                    0
                } else {
                    vscroll as usize
                };
                let height: usize = (FRAME_BUFFER_HEIGHT as usize) - source_y;

                let mut y: usize = 0;
                while y < height
                    invariant
                        self.wf(),
                        self.spec_same_roles_and_palette(*old(self)),
                        s < 4,
                        d < 4,
                        y <= height,
                        source_y + height == FRAME_BUFFER_HEIGHT,
                        dest_y <= source_y,
                        vscroll < 0 ==> source_y == -(vscroll as int) && dest_y == 0,
                        vscroll >= 0 ==> source_y == vscroll && dest_y == vscroll,
                        forall|j: int|
                            0 <= j < 4 && j != d ==> self.pages@[j] == old(self).pages@[j],
                        s != d ==> forall|row: int, col: int|
                            0 <= row < FRAME_BUFFER_HEIGHT && 0 <= col < FRAME_BUFFER_WIDTH
                                ==> #[trigger] self.pages@[d as int]@[row * 320 + col] == (
                                if source_y <= row < source_y + y {
                                old(self).pages@[s as int]@[(dest_y + (row - source_y)) * 320
                                    + col]
                            } else {
                                old(self).pages@[d as int]@[row * 320 + col]
                            }),
                    decreases height - y,
                {
                    let wide: usize = FRAME_BUFFER_WIDTH as usize;
                    proof {
                        assert(wide == 320 && source_y + y <= 199 && dest_y + y <= 199);
                    }
                    let ix = (source_y + y) * wide;
                    let iy = (dest_y + y) * wide;

                    let mut xx: usize = 0;
                    while xx < FRAME_BUFFER_WIDTH as usize
                        invariant
                            self.wf(),
                            self.spec_same_roles_and_palette(*old(self)),
                            s < 4,
                            d < 4,
                            xx <= FRAME_BUFFER_WIDTH,
                            y < height,
                            source_y + height == FRAME_BUFFER_HEIGHT,
                            ix == (source_y + y) * 320,
                            iy == (dest_y + y) * 320,
                            ix + FRAME_BUFFER_WIDTH <= PAGE_SIZE,
                            iy + FRAME_BUFFER_WIDTH <= PAGE_SIZE,
                            forall|j: int|
                                0 <= j < 4 && j != d ==> self.pages@[j] == old(self).pages@[j],
                            s != d ==> forall|row: int, col: int|
                                0 <= row < FRAME_BUFFER_HEIGHT && 0 <= col < FRAME_BUFFER_WIDTH
                                    ==> #[trigger] self.pages@[d as int]@[row * 320 + col] == (
                                    if (source_y <= row < source_y + y) || (row == source_y + y
                                    && col < xx) {
                                    old(self).pages@[s as int]@[(dest_y + (row - source_y)) * 320
                                        + col]
                                } else {
                                    old(self).pages@[d as int]@[row * 320 + col]
                                }),
                        decreases FRAME_BUFFER_WIDTH - xx,
                    {
                        let v = self.pages[s][iy + xx];
                        self.pages[d][ix + xx] = v;
                        xx = xx + 1;
                    }
                    y = y + 1;
                }
            }
        }
    }

    /// Stages a palette change; the active palette is untouched until the
    /// next blit commits it.
    pub fn set_palette(&mut self, palette_id: u8)
        ensures
            *final(self) == (Video { next_palette_id: palette_id, ..*old(self) }),
            final(self).palette_id == old(self).palette_id,
    {
        self.next_palette_id = palette_id;
    }

    /// Makes the resolved page the target of drawing operations.
    pub fn set_backbuffer_page(&mut self, page_id: u8)
        requires
            old(self).wf(),
        ensures
            final(self).wf(),
            *final(self) == (Video {
                backbuffer_page_idx: old(self).spec_page_idx(page_id) as usize,
                ..*old(self)
            }),
    {
        self.backbuffer_page_idx = self.get_page_idx(page_id);
    }

    /// Decodes the polygon record at `offset` of `poly_buffer` and draws it
    /// into the back-buffer page, deriving leaf colors from the data.
    pub fn draw_poly(&mut self, poly_buffer: &[u8], offset: u16, x: i16, y: i16, zoom: i16)
        requires
            old(self).wf(),
        ensures
            final(self).wf(),
            spec_draw_confined_rel(*old(self), *final(self)),
            exists|dec: Poly|
                #[trigger] crate::poly::spec_decode_draw_rel(
                    poly_buffer@,
                    offset as int,
                    x,
                    y,
                    zoom,
                    0xff,
                    dec,
                    old(self).pages@,
                    final(self).pages@,
                    old(self).backbuffer_page_idx as int,
                ),
    {
        let mut poly = Poly::new();
        let bb = self.backbuffer_page_idx;
        draw_poly_to_buffer(&mut poly, poly_buffer, offset, x, y, zoom, 0xff, &mut self.pages, bb);
        proof {
            assert(crate::poly::spec_decode_draw_rel(
                poly_buffer@,
                offset as int,
                x,
                y,
                zoom,
                0xff,
                poly,
                old(self).pages@,
                self.pages@,
                bb as int,
            ));
        }
    }

    /// Replaces the contents of page 0 with an already de-planarized bitmap.
    pub fn draw_bitmap(&mut self, bitmap: &[u8])
        requires
            old(self).wf(),
            bitmap@.len() == PAGE_SIZE,
        ensures
            final(self).wf(),
            final(self).spec_same_roles_and_palette(*old(self)),
            final(self).pages@[0]@ == bitmap@,
            forall|j: int| 1 <= j < 4 ==> final(self).pages@[j] == old(self).pages@[j],
    {
        let mut i: usize = 0;
        while i < PAGE_SIZE
            invariant
                self.wf(),
                self.spec_same_roles_and_palette(*old(self)),
                bitmap@.len() == PAGE_SIZE,
                i <= PAGE_SIZE,
                forall|j: int| 1 <= j < 4 ==> self.pages@[j] == old(self).pages@[j],
                forall|k: int| 0 <= k < i ==> self.pages@[0]@[k] == bitmap@[k],
            decreases PAGE_SIZE - i,
        {
            let v = bitmap[i];
            self.pages[0][i] = v;
            i = i + 1;
        }
        proof {
            assert(final(self).pages@[0]@ =~= bitmap@);
        }
    }

    /// Draws built-in string `string_id` at tile coordinates (8-pixel
    /// columns) into the back-buffer page. An id outside the table draws
    /// nothing; glyph pixels that fall off screen are skipped.
    pub fn draw_string(&mut self, string_id: u16, x: i16, y: i16, color_idx: u8)
        requires
            old(self).wf(),
        ensures
            final(self).wf(),
            spec_draw_confined_rel(*old(self), *final(self)),
            spec_draw_string_rel(*old(self), *final(self), string_id, x, y, color_idx),
    {
        broadcast use vstd::std_specs::hash::group_hash_axioms;

        let string: &str = match self.game_strings.get(&string_id) {
            Some(s) => *s,
            None => {
                return ;
            },
        };
        let bytes = string.as_bytes();
        let ghost bb = self.backbuffer_page_idx as int;
        let ghost target = spec_string_walk(
            self.pages@[bb]@,
            bytes@,
            0,
            vstd::wrapping::i16_specs::wrapping_mul(x, 8),
            y,
            vstd::wrapping::i16_specs::wrapping_mul(x, 8),
            color_idx,
        );

        let mut wx: i16 = x.wrapping_mul(8);
        let mut wy: i16 = y;

        let mut i: usize = 0;
        let n = bytes.len();
        while i < n
            invariant
                self.wf(),
                self.spec_same_roles_and_palette(*old(self)),
                n == bytes@.len(),
                i <= n,
                bb == old(self).backbuffer_page_idx,
                forall|j: int|
                    0 <= j < 4 && j != bb ==> self.pages@[j] == old(self).pages@[j],
                self.backbuffer_page_idx == old(self).backbuffer_page_idx,
                target == spec_string_walk(
                    old(self).pages@[bb]@,
                    bytes@,
                    0,
                    vstd::wrapping::i16_specs::wrapping_mul(x, 8),
                    y,
                    vstd::wrapping::i16_specs::wrapping_mul(x, 8),
                    color_idx,
                ),
                spec_string_walk(
                    self.pages@[bb]@,
                    bytes@,
                    i as int,
                    wx,
                    wy,
                    vstd::wrapping::i16_specs::wrapping_mul(x, 8),
                    color_idx,
                ) == target,
            decreases n - i,
        {
            let c = bytes[i];
            if c == 0x0a {
                wx = x.wrapping_mul(8);
                wy = wy.wrapping_add(8);
            } else {
                self.draw_char(c, wx, wy, color_idx);
                wx = wx.wrapping_add(8);
            }
            i = i + 1;
        }
        proof {
            assert(self.pages@[bb]@ == target);
        }
    }

    /// Blits one 8×8 glyph into the back-buffer page, writing `color_idx`
    /// where the glyph has a set bit. Pixels off screen are skipped.
    fn draw_char(&mut self, c: u8, x: i16, y: i16, color_idx: u8)
        requires
            old(self).wf(),
        ensures
            final(self).wf(),
            final(self).spec_same_roles_and_palette(*old(self)),
            forall|j: int|
                0 <= j < 4 && j != old(self).backbuffer_page_idx ==> final(self).pages@[j] == old(
                    self,
                ).pages@[j],
            final(self).backbuffer_page_idx == old(self).backbuffer_page_idx,
            final(self).pages@[old(self).backbuffer_page_idx as int]@ == spec_char_rows(
                old(self).pages@[old(self).backbuffer_page_idx as int]@,
                c,
                x,
                y,
                color_idx,
                0,
            ),
    {
        let rows = glyph(c);
        let bb = self.backbuffer_page_idx;
        let ghost target = spec_char_rows(
            old(self).pages@[bb as int]@,
            c,
            x,
            y,
            color_idx,
            0,
        );

        let mut row: usize = 0;
        while row < 8
            invariant
                self.wf(),
                self.spec_same_roles_and_palette(*old(self)),
                rows@.len() == 8,
                rows@ == crate::font::spec_glyph(c),
                bb == old(self).backbuffer_page_idx,
                bb < 4,
                row <= 8,
                forall|j: int|
                    0 <= j < 4 && j != bb ==> self.pages@[j] == old(self).pages@[j],
                target == spec_char_rows(
                    old(self).pages@[bb as int]@,
                    c,
                    x,
                    y,
                    color_idx,
                    0,
                ),
                spec_char_rows(self.pages@[bb as int]@, c, x, y, color_idx, row as int)
                    == target,
            decreases 8 - row,
        {
            let bits = rows[row];
            let py = y.wrapping_add(row as i16);
            let mut col: usize = 0;
            while col < 8
                invariant
                    self.wf(),
                    self.spec_same_roles_and_palette(*old(self)),
                    bb == old(self).backbuffer_page_idx,
                    bb < 4,
                    col <= 8,
                    row < 8,
                    bits == crate::font::spec_glyph(c)[row as int],
                    py == vstd::wrapping::i16_specs::wrapping_add(y, row as i16),
                    forall|j: int|
                        0 <= j < 4 && j != bb ==> self.pages@[j] == old(self).pages@[j],
                    target == spec_char_rows(
                        old(self).pages@[bb as int]@,
                        c,
                        x,
                        y,
                        color_idx,
                        0,
                    ),
                    spec_char_rows(
                        spec_char_cols(
                            self.pages@[bb as int]@,
                            bits,
                            x,
                            py,
                            color_idx,
                            col as int,
                        ),
                        c,
                        x,
                        y,
                        color_idx,
                        row as int + 1,
                    ) == target,
                decreases 8 - col,
            {
                if bits & (0x80u8 >> (col as u32)) != 0 {
                    let px = x.wrapping_add(col as i16);
                    if px >= 0 && px < FRAME_BUFFER_WIDTH as i16 && py >= 0 && py
                        < FRAME_BUFFER_HEIGHT as i16 {
                        let wide: usize = FRAME_BUFFER_WIDTH as usize;
                        proof {
                            assert(wide == 320 && py <= 199 && px <= 319);
                        }
                        let idx = (py as usize) * wide + (px as usize);
                        self.pages[bb][idx] = color_idx;
                    }
                }
                col = col + 1;
            }
            row = row + 1;
        }
    }

    /// Resolves a page id to a page index, as [`Video::spec_page_idx`] says.
    fn get_page_idx(&self, page_id: u8) -> (r: usize)
        requires
            self.wf(),
        ensures
            r == self.spec_page_idx(page_id),
            r < 4,
    {
        if page_id <= 3 {
            return page_id as usize;
        }
        if page_id == 0xff {
            return self.background_builder_page_idx;
        } else if page_id == 0xfe {
            return self.frontbuffer_page_idx;
        }
        0
    }
}


/// What a blit does to the page roles and the palette, as a relation
/// between the state before and after.
pub open spec fn spec_blit_rel(pre: Video, post: Video, page_id: u8) -> bool {
    &&& post.pages == pre.pages
    &&& post.backbuffer_page_idx == pre.backbuffer_page_idx
    &&& post.game_strings == pre.game_strings
    &&& (page_id == 0xff ==> post.frontbuffer_page_idx == pre.background_builder_page_idx
        && post.background_builder_page_idx == pre.frontbuffer_page_idx)
    &&& (page_id == 0xfe ==> post.frontbuffer_page_idx == pre.frontbuffer_page_idx
        && post.background_builder_page_idx == pre.background_builder_page_idx)
    &&& (page_id != 0xff && page_id != 0xfe ==> post.frontbuffer_page_idx == pre.spec_page_idx(
        page_id,
    ) && post.background_builder_page_idx == pre.background_builder_page_idx)
    &&& (pre.next_palette_id != INVALID_PALETTE ==> post.palette_id == pre.next_palette_id
        && post.next_palette_id == INVALID_PALETTE)
    &&& (pre.next_palette_id == INVALID_PALETTE ==> post.palette_id == pre.palette_id
        && post.next_palette_id == INVALID_PALETTE)
}

/// What a page fill does: the resolved page takes the color, pixel for
/// pixel; nothing else moves.
pub open spec fn spec_fill_page_rel(pre: Video, post: Video, page_id: u8, color_idx: u8) -> bool {
    &&& post.spec_same_roles_and_palette(pre)
    &&& (forall|j: int|
        0 <= j < 4 && j != pre.spec_page_idx(page_id) ==> post.pages@[j] == pre.pages@[j])
    &&& (forall|k: int|
        0 <= k < PAGE_SIZE ==> post.pages@[pre.spec_page_idx(page_id)]@[k] == color_idx)
}

/// What a page copy does, for each way the source id resolves.
pub open spec fn spec_copy_page_rel(
    pre: Video,
    post: Video,
    src_page_id: u8,
    dst_page_id: u8,
    vscroll: i16,
) -> bool {
    let s = pre.spec_copy_src(src_page_id);
    let d = pre.spec_page_idx(dst_page_id);
    &&& post.spec_same_roles_and_palette(pre)
    &&& (src_page_id == dst_page_id ==> post.pages == pre.pages)
    &&& (src_page_id != dst_page_id ==> {
        &&& (forall|j: int| 0 <= j < 4 && j != d ==> post.pages@[j] == pre.pages@[j])
        &&& (Video::spec_copy_direct(src_page_id) && s == d ==> post.pages == pre.pages)
        &&& (Video::spec_copy_direct(src_page_id) && s != d ==> post.pages@[d]@
            == pre.pages@[s]@)
        &&& (!Video::spec_copy_direct(src_page_id) && s != d ==> forall|row: int, col: int|
            0 <= row < FRAME_BUFFER_HEIGHT && 0 <= col < FRAME_BUFFER_WIDTH
                ==> #[trigger] post.pages@[d]@[row * 320 + col] == spec_scrolled_pixel(
                pre.pages@[d]@,
                pre.pages@[s]@,
                vscroll as int,
                row,
                col,
            ))
    })
}

/// A drawing operation confined to the back-buffer page: the roles, the
/// palette state and the three other pages are untouched.
pub open spec fn spec_draw_confined_rel(pre: Video, post: Video) -> bool {
    &&& post.spec_same_roles_and_palette(pre)
    &&& (forall|j: int|
        0 <= j < 4 && j != pre.backbuffer_page_idx ==> post.pages@[j] == pre.pages@[j])
}

/// What one destination pixel holds after a scrolled copy by `vscroll`
/// rows: the rows from the scroll magnitude down take the source page's rows
/// starting at the scroll offset, the rows above keep their pixels, and a
/// magnitude reaching the page height moves nothing.
pub open spec fn spec_scrolled_pixel(
    dst: Seq<u8>,
    src: Seq<u8>,
    vscroll: int,
    row: int,
    col: int,
) -> u8 {
    let sy = if vscroll < 0 {
        -vscroll
    } else {
        vscroll
    };
    let dy = if vscroll < 0 {
        0
    } else {
        vscroll
    };
    if sy < FRAME_BUFFER_HEIGHT && sy <= row {
        src[(dy + (row - sy)) * 320 + col]
    } else {
        dst[row * 320 + col]
    }
}


/// One glyph row blitted from bit `col` on: each set bit whose pixel lands
/// on screen takes the color, the leftmost bit first.
pub open spec fn spec_char_cols(
    page: Seq<u8>,
    bits: u8,
    x: i16,
    py: i16,
    color: u8,
    col: int,
) -> Seq<u8>
    decreases 8 - col,
{
    if col < 0 || col >= 8 {
        page
    } else {
        let px = vstd::wrapping::i16_specs::wrapping_add(x, col as i16);
        let page1 = if bits & (0x80u8 >> (col as u32)) != 0 && 0 <= px < FRAME_BUFFER_WIDTH && 0
            <= py < FRAME_BUFFER_HEIGHT {
            page.update(py * 320 + px, color)
        } else {
            page
        };
        spec_char_cols(page1, bits, x, py, color, col + 1)
    }
}

/// An 8×8 glyph blitted from row `row` on, rows top to bottom.
pub open spec fn spec_char_rows(
    page: Seq<u8>,
    c: u8,
    x: i16,
    y: i16,
    color: u8,
    row: int,
) -> Seq<u8>
    decreases 8 - row,
{
    if row < 0 || row >= 8 {
        page
    } else {
        spec_char_rows(
            spec_char_cols(
                page,
                crate::font::spec_glyph(c)[row],
                x,
                vstd::wrapping::i16_specs::wrapping_add(y, row as i16),
                color,
                0,
            ),
            c,
            x,
            y,
            color,
            row + 1,
        )
    }
}

/// A string walked from byte `i` on: a newline returns to the left margin
/// and moves down a glyph row, any other byte blits its glyph and advances
/// the 8-pixel pitch.
pub open spec fn spec_string_walk(
    page: Seq<u8>,
    bytes: Seq<u8>,
    i: int,
    wx: i16,
    wy: i16,
    left: i16,
    color: u8,
) -> Seq<u8>
    decreases bytes.len() - i,
{
    if i < 0 || i >= bytes.len() {
        page
    } else if bytes[i] == 0x0a {
        spec_string_walk(
            page,
            bytes,
            i + 1,
            left,
            vstd::wrapping::i16_specs::wrapping_add(wy, 8),
            left,
            color,
        )
    } else {
        spec_string_walk(
            spec_char_rows(page, bytes[i], wx, wy, color, 0),
            bytes,
            i + 1,
            vstd::wrapping::i16_specs::wrapping_add(wx, 8),
            wy,
            left,
            color,
        )
    }
}


/// What drawing built-in string `string_id` at tile coordinates does: an id
/// outside the table draws nothing; otherwise the back-buffer page takes
/// the glyph walk of [`spec_string_walk`] from pixel column `x * 8`.
pub open spec fn spec_draw_string_rel(
    pre: Video,
    post: Video,
    string_id: u16,
    x: i16,
    y: i16,
    color_idx: u8,
) -> bool {
    &&& (!pre.game_strings@.contains_key(string_id) ==> post == pre)
    &&& (pre.game_strings@.contains_key(string_id) ==> post.pages@[
        pre.backbuffer_page_idx as int]@ == spec_string_walk(
        pre.pages@[pre.backbuffer_page_idx as int]@,
        pre.game_strings@[string_id].spec_bytes(),
        0,
        vstd::wrapping::i16_specs::wrapping_mul(x, 8),
        y,
        vstd::wrapping::i16_specs::wrapping_mul(x, 8),
        color_idx,
    ))
}

/// One all-zero pixel page.
fn blank_page() -> (r: Vec<u8>)
    ensures
        r@.len() == PAGE_SIZE,
        forall|k: int| 0 <= k < PAGE_SIZE ==> r@[k] == 0,
{
    let mut page: Vec<u8> = Vec::new();
    let mut i: usize = 0;
    while i < PAGE_SIZE
        invariant
            page@.len() == i,
            i <= PAGE_SIZE,
            forall|k: int| 0 <= k < i ==> page@[k] == 0,
        decreases PAGE_SIZE - i,
    {
        page.push(0);
        i = i + 1;
    }
    page
}

/// The red channel of a packed palette color: the low nibble of its first
/// byte, expanded from 4 to 8 bits.
pub open spec fn spec_channel_r(c1: u8) -> u8 {
    (((c1 & 0x0f) << 2) | ((c1 & 0x0f) >> 2)) << 2
}

/// The green channel: the high nibble of the second byte, expanded.
pub open spec fn spec_channel_g(c2: u8) -> u8 {
    (((c2 & 0xf0) >> 2) | ((c2 & 0xf0) >> 6)) << 2
}

/// The blue channel: the low nibble of the second byte, expanded.
pub open spec fn spec_channel_b(c2: u8) -> u8 {
    (((c2 & 0x0f) >> 2) | ((c2 & 0x0f) << 2)) << 2
}

/// Resolves an index-color page to packed RGBA bytes (alpha 0) through a
/// palette record of two packed bytes per color, big-endian. A pixel whose
/// color falls outside the palette bytes resolves to black.
pub fn resolve_frame_buffer(page: &[u8], palette: &[u8]) -> (r: Vec<u8>)
    ensures
        r@.len() == 4 * page@.len(),
        forall|k: int|
            0 <= k < page@.len() && 2 * (#[trigger] page@[k] as int) + 1 < palette@.len() ==> {
                &&& r@[4 * k] == spec_channel_r(palette@[2 * page@[k]])
                &&& r@[4 * k + 1] == spec_channel_g(palette@[2 * page@[k] + 1])
                &&& r@[4 * k + 2] == spec_channel_b(palette@[2 * page@[k] + 1])
                &&& r@[4 * k + 3] == 0
            },
        forall|k: int|
            0 <= k < page@.len() && 2 * (#[trigger] page@[k] as int) + 1 >= palette@.len() ==> {
                &&& r@[4 * k] == 0
                &&& r@[4 * k + 1] == 0
                &&& r@[4 * k + 2] == 0
                &&& r@[4 * k + 3] == 0
            },
{
    let n = page.len();
    let m = palette.len();
    let mut out: Vec<u8> = Vec::new();
    let mut k: usize = 0;
    while k < n
        invariant
            n == page@.len(),
            m == palette@.len(),
            k <= n,
            out@.len() == 4 * k,
            forall|t: int|
                0 <= t < k && 2 * (#[trigger] page@[t] as int) + 1 < palette@.len() ==> {
                    &&& out@[4 * t] == spec_channel_r(palette@[2 * page@[t]])
                    &&& out@[4 * t + 1] == spec_channel_g(palette@[2 * page@[t] + 1])
                    &&& out@[4 * t + 2] == spec_channel_b(palette@[2 * page@[t] + 1])
                    &&& out@[4 * t + 3] == 0
                },
            forall|t: int|
                0 <= t < k && 2 * (#[trigger] page@[t] as int) + 1 >= palette@.len() ==> {
                    &&& out@[4 * t] == 0
                    &&& out@[4 * t + 1] == 0
                    &&& out@[4 * t + 2] == 0
                    &&& out@[4 * t + 3] == 0
                },
        decreases n - k,
    {
        let color = page[k] as usize;
        if 2 * color + 1 < m {
            let c1 = palette[2 * color];
            let c2 = palette[2 * color + 1];
            out.push((((c1 & 0x0f) << 2u32) | ((c1 & 0x0f) >> 2u32)) << 2u32);
            out.push((((c2 & 0xf0) >> 2u32) | ((c2 & 0xf0) >> 6u32)) << 2u32);
            out.push((((c2 & 0x0f) >> 2u32) | ((c2 & 0x0f) << 2u32)) << 2u32);
            out.push(0);
        } else {
            out.push(0);
            out.push(0);
            out.push(0);
            out.push(0);
        }
        k = k + 1;
    }
    out
}

} // verus!
