//! Tests of the page manager and the polygon rasterizer: staged palette
//! switching, page roles, clipping, and the RGBA resolve.

use std::collections::HashMap;

use awlib::defines::{INVALID_PALETTE, PAGE_SIZE};
use awlib::game_strings::init_game_strings;
use awlib::poly::Poly;
use awlib::video::{resolve_frame_buffer, Video};

fn blank_pages() -> Vec<Vec<u8>> {
    (0..4).map(|_| vec![0u8; PAGE_SIZE]).collect()
}

fn quad(width: i16, height: i16) -> Poly {
    let mut p = Poly::new();
    p.bounding_box_width = width;
    p.bounding_box_height = height;
    p.num_vertices = 4;
    p.vertices[0] = (width, 0);
    p.vertices[1] = (width, height);
    p.vertices[2] = (0, height);
    p.vertices[3] = (0, 0);
    p
}

#[test]
fn palette_change_waits_for_the_blit() {
    let mut video = Video::new();
    assert_eq!(video.get_active_palette_id(), 0);
    video.set_palette(3);
    // Drawing between the stage and the blit still uses the old palette.
    video.fill_page(0xff, 5);
    assert_eq!(video.get_active_palette_id(), 0);
    video.blit(0xfe);
    assert_eq!(video.get_active_palette_id(), 3);
    assert_eq!(video.next_palette_id, INVALID_PALETTE);
}

#[test]
fn blit_of_the_builder_swaps_roles() {
    let mut video = Video::new();
    let front = video.frontbuffer_page_idx;
    let builder = video.background_builder_page_idx;
    video.blit(0xff);
    assert_eq!(video.frontbuffer_page_idx, builder);
    assert_eq!(video.background_builder_page_idx, front);
    video.blit(0x01);
    assert_eq!(video.frontbuffer_page_idx, 1);
}

#[test]
fn fill_page_overwrites_every_pixel() {
    let mut video = Video::new();
    video.fill_page(1, 9);
    assert!(video.pages[1].iter().all(|&p| p == 9));
    assert!(video.pages[0].iter().all(|&p| p == 0));
}

#[test]
fn copy_page_moves_the_pixels() {
    let mut video = Video::new();
    video.fill_page(0, 4);
    video.copy_page(0, 2, 0);
    assert!(video.pages[2].iter().all(|&p| p == 4));
}

#[test]
fn fully_offscreen_polygon_writes_nothing() {
    let mut pages = blank_pages();
    let p = quad(10, 8);
    p.draw(-300, 100, 3, &mut pages, 2);
    p.draw(400, 100, 3, &mut pages, 2);
    p.draw(100, -200, 3, &mut pages, 2);
    p.draw(100, 400, 3, &mut pages, 2);
    for page in &pages {
        assert!(page.iter().all(|&px| px == 0));
    }
}

#[test]
fn onscreen_polygon_fills_its_box() {
    let mut pages = blank_pages();
    let p = quad(10, 8);
    p.draw(100, 100, 3, &mut pages, 2);
    // The center of the box is painted, and only the target page changed.
    assert_eq!(pages[2][100 * 320 + 100], 3);
    assert!(pages[0].iter().all(|&px| px == 0));
    assert!(pages[1].iter().all(|&px| px == 0));
    assert!(pages[3].iter().all(|&px| px == 0));
}

#[test]
fn straddling_polygon_is_clipped_at_the_edge() {
    let mut pages = blank_pages();
    let p = quad(40, 8);
    // The box straddles the left edge; the fill must stay in range (an
    // out-of-range write would abort the test) and paint the visible part.
    p.draw(0, 100, 6, &mut pages, 1);
    assert_eq!(pages[1][100 * 320], 6);
    assert_eq!(pages[1][100 * 320 + 19], 6);
    assert_eq!(pages[1][100 * 320 + 100], 0);
}

#[test]
fn point_polygon_writes_one_pixel() {
    let mut pages = blank_pages();
    let mut p = quad(0, 1);
    p.num_vertices = 4;
    p.draw(5, 7, 9, &mut pages, 0);
    assert_eq!(pages[0][7 * 320 + 5], 9);
    let painted = pages[0].iter().filter(|&&px| px != 0).count();
    assert_eq!(painted, 1);
    // Off screen, the point is discarded.
    p.draw(-1, 7, 9, &mut pages, 0);
    p.draw(5, 200, 9, &mut pages, 0);
    assert_eq!(pages[0].iter().filter(|&&px| px != 0).count(), 1);
}

#[test]
fn point_polygon_color_codes() {
    let mut pages = blank_pages();
    pages[0][3 * 320 + 3] = 0xab; // the background pixel
    let p = quad(0, 1);
    let mut poly = p;
    poly.num_vertices = 4;
    // 0x10 forces the fixed highlight index.
    poly.draw(2, 3, 0x10, &mut pages, 1);
    assert_eq!(pages[1][3 * 320 + 2], 0x8);
    // 0x11 copies through from page 0.
    poly.draw(3, 3, 0x11, &mut pages, 1);
    assert_eq!(pages[1][3 * 320 + 3], 0xab);
}

#[test]
fn encoded_polygon_draws_through_the_video() {
    let mut video = Video::new();
    video.set_backbuffer_page(2);
    // A leaf record: descriptor with the derived color 5, a 10 by 8 box,
    // four vertices.
    let record = [0xc5u8, 10, 8, 4, 10, 0, 10, 8, 0, 8, 0, 0];
    video.draw_poly(&record, 0, 100, 100, 0x40);
    assert_eq!(video.pages[2][100 * 320 + 100], 5);
}

#[test]
fn bad_polygon_offset_draws_nothing() {
    let mut video = Video::new();
    let record = [0xc5u8, 10, 8, 4];
    video.draw_poly(&record, 200, 100, 100, 0x40);
    assert!(video.pages[2].iter().all(|&px| px == 0));
}

#[test]
fn draw_string_skips_unknown_ids() {
    let mut video = Video::new();
    video.draw_string(0x7777, 2, 2, 5);
    for page in &video.pages {
        assert!(page.iter().all(|&px| px == 0));
    }
}

#[test]
fn draw_string_paints_into_the_back_buffer() {
    let mut video = Video::new();
    video.set_backbuffer_page(3);
    video.draw_string(0x006, 2, 10, 5); // the single letter A
    let painted = video.pages[3].iter().filter(|&&px| px == 5).count();
    assert!(painted > 0);
    assert!(video.pages[0].iter().all(|&px| px == 0));
    // A blank string paints nothing.
    video.draw_string(0x184, 4, 20, 7);
    assert!(!video.pages[3].iter().any(|&px| px == 7));
}

#[test]
fn game_strings_table_holds_the_known_ids() {
    let mut table: HashMap<u16, &'static str> = HashMap::new();
    init_game_strings(&mut table);
    assert_eq!(table.get(&0x190).copied(), Some("Good evening professor."));
    assert_eq!(table.get(&0x193).copied(), Some("AU BOULOT !!!\n")); // the later entry wins
    assert!(table.get(&0x020).is_none());
}

#[test]
fn frame_buffer_resolve_expands_the_channels() {
    let page = [0u8, 1];
    let palette = [0x0f, 0xf0, 0x01, 0x10];
    let rgba = resolve_frame_buffer(&page, &palette);
    assert_eq!(rgba.len(), 8);
    assert_eq!(&rgba[0..4], &[0xfc, 0xfc, 0x00, 0x00]);
    assert_eq!(&rgba[4..8], &[0x10, 0x10, 0x00, 0x00]);
}

#[test]
fn frame_buffer_resolve_clips_short_palettes() {
    let page = [5u8];
    let palette = [0x0f, 0xf0]; // only color 0 exists
    let rgba = resolve_frame_buffer(&page, &palette);
    assert_eq!(&rgba[0..4], &[0, 0, 0, 0]);
}

#[test]
fn scrolled_copy_shifts_rows() {
    let mut video = Video::new();
    // Paint row 0 of page 1, then copy page 1 onto page 2 scrolled down.
    for x in 0..320 {
        video.pages[1][x] = 7;
    }
    // A source id with the scroll flag set and the page bits naming page 1;
    // a negative scroll moves the rows down.
    video.copy_page(0xc1, 2, -3);
    assert_eq!(video.pages[2][3 * 320 + 5], 7);
    assert_eq!(video.pages[2][5], 0);
}
