//! The fixed 8×8 bitmap font used by the draw-string instruction.
//!
//! Each printable character from `0x20` (space) to `0x7f` has eight rows, one
//! byte per row, the most significant bit being the leftmost pixel.

use vstd::prelude::*;

verus! {

/// The eight rows of each glyph, top to bottom, most significant bit left.
pub open spec fn spec_glyph(c: u8) -> Seq<u8> {
    match c {
        0x21 => seq![0x10, 0x10, 0x10, 0x10, 0x10, 0x00, 0x10, 0x00], // !
        0x22 => seq![0x28, 0x28, 0x28, 0x00, 0x00, 0x00, 0x00, 0x00], // "
        0x23 => seq![0x24, 0x7e, 0x24, 0x24, 0x7e, 0x24, 0x00, 0x00], // #
        0x24 => seq![0x08, 0x3e, 0x48, 0x3c, 0x12, 0x7c, 0x10, 0x00], // $
        0x25 => seq![0x42, 0xa4, 0x48, 0x10, 0x24, 0x4a, 0x84, 0x00], // %
        0x26 => seq![0x60, 0x90, 0x90, 0x70, 0x8a, 0x84, 0x7a, 0x00], // &
        0x27 => seq![0x08, 0x08, 0x10, 0x00, 0x00, 0x00, 0x00, 0x00], // '
        0x28 => seq![0x06, 0x08, 0x10, 0x10, 0x10, 0x08, 0x06, 0x00], // (
        0x29 => seq![0xc0, 0x20, 0x10, 0x10, 0x10, 0x20, 0xc0, 0x00], // )
        0x2a => seq![0x00, 0x44, 0x28, 0x10, 0x28, 0x44, 0x00, 0x00], // *
        0x2b => seq![0x00, 0x10, 0x10, 0x7c, 0x10, 0x10, 0x00, 0x00], // +
        0x2c => seq![0x00, 0x00, 0x00, 0x00, 0x00, 0x10, 0x10, 0x20], // ,
        0x2d => seq![0x00, 0x00, 0x00, 0x7c, 0x00, 0x00, 0x00, 0x00], // -
        0x2e => seq![0x00, 0x00, 0x00, 0x00, 0x00, 0x18, 0x18, 0x00], // .
        0x2f => seq![0x02, 0x04, 0x08, 0x10, 0x20, 0x40, 0x80, 0x00], // /
        0x30 => seq![0x3c, 0x46, 0x4a, 0x52, 0x62, 0x42, 0x3c, 0x00], // 0
        0x31 => seq![0x08, 0x18, 0x08, 0x08, 0x08, 0x08, 0x1c, 0x00], // 1
        0x32 => seq![0x3c, 0x42, 0x02, 0x0c, 0x30, 0x40, 0x7e, 0x00], // 2
        0x33 => seq![0x3c, 0x42, 0x02, 0x1c, 0x02, 0x42, 0x3c, 0x00], // 3
        0x34 => seq![0x04, 0x0c, 0x14, 0x24, 0x7e, 0x04, 0x04, 0x00], // 4
        0x35 => seq![0x7e, 0x40, 0x7c, 0x02, 0x02, 0x42, 0x3c, 0x00], // 5
        0x36 => seq![0x3c, 0x40, 0x7c, 0x42, 0x42, 0x42, 0x3c, 0x00], // 6
        0x37 => seq![0x7e, 0x02, 0x04, 0x08, 0x10, 0x20, 0x20, 0x00], // 7
        0x38 => seq![0x3c, 0x42, 0x42, 0x3c, 0x42, 0x42, 0x3c, 0x00], // 8
        0x39 => seq![0x3c, 0x42, 0x42, 0x3e, 0x02, 0x02, 0x3c, 0x00], // 9
        0x3a => seq![0x00, 0x18, 0x18, 0x00, 0x18, 0x18, 0x00, 0x00], // :
        0x3b => seq![0x00, 0x18, 0x18, 0x00, 0x18, 0x18, 0x30, 0x00], // ;
        0x3c => seq![0x06, 0x18, 0x60, 0x80, 0x60, 0x18, 0x06, 0x00], // <
        0x3d => seq![0x00, 0x7e, 0x00, 0x00, 0x7e, 0x00, 0x00, 0x00], // =
        0x3e => seq![0xc0, 0x30, 0x0c, 0x02, 0x0c, 0x30, 0xc0, 0x00], // >
        0x3f => seq![0x3c, 0x42, 0x04, 0x08, 0x08, 0x00, 0x08, 0x00], // ?
        0x40 => seq![0x3c, 0x42, 0x5e, 0x52, 0x5e, 0x40, 0x3c, 0x00], // @
        0x41 => seq![0x18, 0x24, 0x42, 0x42, 0x7e, 0x42, 0x42, 0x00], // A
        0x42 => seq![0x7c, 0x42, 0x42, 0x7c, 0x42, 0x42, 0x7c, 0x00], // B
        0x43 => seq![0x3c, 0x42, 0x40, 0x40, 0x40, 0x42, 0x3c, 0x00], // C
        0x44 => seq![0x78, 0x44, 0x42, 0x42, 0x42, 0x44, 0x78, 0x00], // D
        0x45 => seq![0x7e, 0x40, 0x40, 0x78, 0x40, 0x40, 0x7e, 0x00], // E
        0x46 => seq![0x7e, 0x40, 0x40, 0x78, 0x40, 0x40, 0x40, 0x00], // F
        0x47 => seq![0x3c, 0x42, 0x40, 0x4e, 0x42, 0x42, 0x3e, 0x00], // G
        0x48 => seq![0x42, 0x42, 0x42, 0x7e, 0x42, 0x42, 0x42, 0x00], // H
        0x49 => seq![0x38, 0x10, 0x10, 0x10, 0x10, 0x10, 0x38, 0x00], // I
        0x4a => seq![0x0e, 0x04, 0x04, 0x04, 0x44, 0x44, 0x38, 0x00], // J
        0x4b => seq![0x42, 0x44, 0x48, 0x70, 0x48, 0x44, 0x42, 0x00], // K
        0x4c => seq![0x40, 0x40, 0x40, 0x40, 0x40, 0x40, 0x7e, 0x00], // L
        0x4d => seq![0x42, 0x66, 0x5a, 0x42, 0x42, 0x42, 0x42, 0x00], // M
        0x4e => seq![0x42, 0x62, 0x52, 0x4a, 0x46, 0x42, 0x42, 0x00], // N
        0x4f => seq![0x3c, 0x42, 0x42, 0x42, 0x42, 0x42, 0x3c, 0x00], // O
        0x50 => seq![0x7c, 0x42, 0x42, 0x7c, 0x40, 0x40, 0x40, 0x00], // P
        0x51 => seq![0x3c, 0x42, 0x42, 0x42, 0x4a, 0x44, 0x3a, 0x00], // Q
        0x52 => seq![0x7c, 0x42, 0x42, 0x7c, 0x48, 0x44, 0x42, 0x00], // R
        0x53 => seq![0x3c, 0x42, 0x40, 0x3c, 0x02, 0x42, 0x3c, 0x00], // S
        0x54 => seq![0xfe, 0x10, 0x10, 0x10, 0x10, 0x10, 0x10, 0x00], // T
        0x55 => seq![0x42, 0x42, 0x42, 0x42, 0x42, 0x42, 0x3c, 0x00], // U
        0x56 => seq![0x42, 0x42, 0x42, 0x42, 0x44, 0x48, 0x30, 0x00], // V
        0x57 => seq![0x42, 0x42, 0x42, 0x42, 0x5a, 0x66, 0x42, 0x00], // W
        0x58 => seq![0x42, 0x24, 0x18, 0x18, 0x18, 0x24, 0x42, 0x00], // X
        0x59 => seq![0x44, 0x44, 0x44, 0x38, 0x10, 0x10, 0x10, 0x00], // Y
        0x5a => seq![0x7e, 0x04, 0x08, 0x10, 0x20, 0x40, 0x7e, 0x00], // Z
        0x5b => seq![0x1e, 0x10, 0x10, 0x10, 0x10, 0x10, 0x1e, 0x00], // [
        0x5c => seq![0x80, 0x40, 0x20, 0x10, 0x08, 0x04, 0x02, 0x00], // backslash
        0x5d => seq![0xf0, 0x10, 0x10, 0x10, 0x10, 0x10, 0xf0, 0x00], // ]
        0x5e => seq![0x10, 0x28, 0x44, 0x00, 0x00, 0x00, 0x00, 0x00], // ^
        0x5f => seq![0x00, 0x00, 0x00, 0x00, 0x00, 0x00, 0x00, 0xff], // _
        0x60 => seq![0x20, 0x10, 0x08, 0x00, 0x00, 0x00, 0x00, 0x00], // `
        0x61 => seq![0x00, 0x00, 0x38, 0x04, 0x3c, 0x44, 0x3c, 0x00], // a
        0x62 => seq![0x40, 0x40, 0x78, 0x44, 0x44, 0x44, 0x78, 0x00], // b
        0x63 => seq![0x00, 0x00, 0x3c, 0x40, 0x40, 0x40, 0x3c, 0x00], // c
        0x64 => seq![0x04, 0x04, 0x3c, 0x44, 0x44, 0x44, 0x3c, 0x00], // d
        0x65 => seq![0x00, 0x00, 0x38, 0x44, 0x7c, 0x40, 0x3c, 0x00], // e
        0x66 => seq![0x0c, 0x10, 0x38, 0x10, 0x10, 0x10, 0x10, 0x00], // f
        0x67 => seq![0x00, 0x00, 0x3c, 0x44, 0x44, 0x3c, 0x04, 0x38], // g
        0x68 => seq![0x40, 0x40, 0x78, 0x44, 0x44, 0x44, 0x44, 0x00], // h
        0x69 => seq![0x10, 0x00, 0x30, 0x10, 0x10, 0x10, 0x38, 0x00], // i
        0x6a => seq![0x08, 0x00, 0x18, 0x08, 0x08, 0x08, 0x48, 0x30], // j
        0x6b => seq![0x40, 0x40, 0x44, 0x48, 0x70, 0x48, 0x44, 0x00], // k
        0x6c => seq![0x30, 0x10, 0x10, 0x10, 0x10, 0x10, 0x38, 0x00], // l
        0x6d => seq![0x00, 0x00, 0x68, 0x54, 0x54, 0x54, 0x54, 0x00], // m
        0x6e => seq![0x00, 0x00, 0x78, 0x44, 0x44, 0x44, 0x44, 0x00], // n
        0x6f => seq![0x00, 0x00, 0x38, 0x44, 0x44, 0x44, 0x38, 0x00], // o
        0x70 => seq![0x00, 0x00, 0x78, 0x44, 0x44, 0x78, 0x40, 0x40], // p
        0x71 => seq![0x00, 0x00, 0x3c, 0x44, 0x44, 0x3c, 0x04, 0x04], // q
        0x72 => seq![0x00, 0x00, 0x5c, 0x60, 0x40, 0x40, 0x40, 0x00], // r
        0x73 => seq![0x00, 0x00, 0x3c, 0x40, 0x38, 0x04, 0x78, 0x00], // s
        0x74 => seq![0x10, 0x10, 0x38, 0x10, 0x10, 0x10, 0x0c, 0x00], // t
        0x75 => seq![0x00, 0x00, 0x44, 0x44, 0x44, 0x44, 0x38, 0x00], // u
        0x76 => seq![0x00, 0x00, 0x44, 0x44, 0x44, 0x28, 0x10, 0x00], // v
        0x77 => seq![0x00, 0x00, 0x54, 0x54, 0x54, 0x54, 0x28, 0x00], // w
        0x78 => seq![0x00, 0x00, 0x44, 0x28, 0x10, 0x28, 0x44, 0x00], // x
        0x79 => seq![0x00, 0x00, 0x44, 0x44, 0x44, 0x3c, 0x04, 0x38], // y
        0x7a => seq![0x00, 0x00, 0x7c, 0x08, 0x10, 0x20, 0x7c, 0x00], // z
        0x7b => seq![0x0c, 0x10, 0x10, 0x20, 0x10, 0x10, 0x0c, 0x00], // {
        0x7c => seq![0x10, 0x10, 0x10, 0x10, 0x10, 0x10, 0x10, 0x00], // |
        0x7d => seq![0x60, 0x10, 0x10, 0x08, 0x10, 0x10, 0x60, 0x00], // }
        0x7e => seq![0x32, 0x4c, 0x00, 0x00, 0x00, 0x00, 0x00, 0x00], // ~
        0x7f => seq![0xff, 0x81, 0x81, 0x81, 0x81, 0x81, 0xff, 0x00],
        _ => seq![0x00, 0x00, 0x00, 0x00, 0x00, 0x00, 0x00, 0x00],
    }
}

/// Eight rows as one vector.
fn rows(r0: u8, r1: u8, r2: u8, r3: u8, r4: u8, r5: u8, r6: u8, r7: u8) -> (r: Vec<u8>)
    ensures
        r@ == seq![r0, r1, r2, r3, r4, r5, r6, r7],
{
    let mut v: Vec<u8> = Vec::new();
    v.push(r0);
    v.push(r1);
    v.push(r2);
    v.push(r3);
    v.push(r4);
    v.push(r5);
    v.push(r6);
    v.push(r7);
    proof {
        assert(v@ =~= seq![r0, r1, r2, r3, r4, r5, r6, r7]);
    }
    v
}

/// The eight font rows of character `c`, top to bottom, as
/// [`spec_glyph`] fixes them. Characters outside `0x20..=0x7f` render as the
/// blank glyph.
pub fn glyph(c: u8) -> (r: Vec<u8>)
    ensures
        r@.len() == 8,
        r@ == spec_glyph(c),
{
    match c {
        0x21 => rows(0x10, 0x10, 0x10, 0x10, 0x10, 0x00, 0x10, 0x00), // !
        0x22 => rows(0x28, 0x28, 0x28, 0x00, 0x00, 0x00, 0x00, 0x00), // "
        0x23 => rows(0x24, 0x7e, 0x24, 0x24, 0x7e, 0x24, 0x00, 0x00), // #
        0x24 => rows(0x08, 0x3e, 0x48, 0x3c, 0x12, 0x7c, 0x10, 0x00), // $
        0x25 => rows(0x42, 0xa4, 0x48, 0x10, 0x24, 0x4a, 0x84, 0x00), // %
        0x26 => rows(0x60, 0x90, 0x90, 0x70, 0x8a, 0x84, 0x7a, 0x00), // &
        0x27 => rows(0x08, 0x08, 0x10, 0x00, 0x00, 0x00, 0x00, 0x00), // '
        0x28 => rows(0x06, 0x08, 0x10, 0x10, 0x10, 0x08, 0x06, 0x00), // (
        0x29 => rows(0xc0, 0x20, 0x10, 0x10, 0x10, 0x20, 0xc0, 0x00), // )
        0x2a => rows(0x00, 0x44, 0x28, 0x10, 0x28, 0x44, 0x00, 0x00), // *
        0x2b => rows(0x00, 0x10, 0x10, 0x7c, 0x10, 0x10, 0x00, 0x00), // +
        0x2c => rows(0x00, 0x00, 0x00, 0x00, 0x00, 0x10, 0x10, 0x20), // ,
        0x2d => rows(0x00, 0x00, 0x00, 0x7c, 0x00, 0x00, 0x00, 0x00), // -
        0x2e => rows(0x00, 0x00, 0x00, 0x00, 0x00, 0x18, 0x18, 0x00), // .
        0x2f => rows(0x02, 0x04, 0x08, 0x10, 0x20, 0x40, 0x80, 0x00), // /
        0x30 => rows(0x3c, 0x46, 0x4a, 0x52, 0x62, 0x42, 0x3c, 0x00), // 0
        0x31 => rows(0x08, 0x18, 0x08, 0x08, 0x08, 0x08, 0x1c, 0x00), // 1
        0x32 => rows(0x3c, 0x42, 0x02, 0x0c, 0x30, 0x40, 0x7e, 0x00), // 2
        0x33 => rows(0x3c, 0x42, 0x02, 0x1c, 0x02, 0x42, 0x3c, 0x00), // 3
        0x34 => rows(0x04, 0x0c, 0x14, 0x24, 0x7e, 0x04, 0x04, 0x00), // 4
        0x35 => rows(0x7e, 0x40, 0x7c, 0x02, 0x02, 0x42, 0x3c, 0x00), // 5
        0x36 => rows(0x3c, 0x40, 0x7c, 0x42, 0x42, 0x42, 0x3c, 0x00), // 6
        0x37 => rows(0x7e, 0x02, 0x04, 0x08, 0x10, 0x20, 0x20, 0x00), // 7
        0x38 => rows(0x3c, 0x42, 0x42, 0x3c, 0x42, 0x42, 0x3c, 0x00), // 8
        0x39 => rows(0x3c, 0x42, 0x42, 0x3e, 0x02, 0x02, 0x3c, 0x00), // 9
        0x3a => rows(0x00, 0x18, 0x18, 0x00, 0x18, 0x18, 0x00, 0x00), // :
        0x3b => rows(0x00, 0x18, 0x18, 0x00, 0x18, 0x18, 0x30, 0x00), // ;
        0x3c => rows(0x06, 0x18, 0x60, 0x80, 0x60, 0x18, 0x06, 0x00), // <
        0x3d => rows(0x00, 0x7e, 0x00, 0x00, 0x7e, 0x00, 0x00, 0x00), // =
        0x3e => rows(0xc0, 0x30, 0x0c, 0x02, 0x0c, 0x30, 0xc0, 0x00), // >
        0x3f => rows(0x3c, 0x42, 0x04, 0x08, 0x08, 0x00, 0x08, 0x00), // ?
        0x40 => rows(0x3c, 0x42, 0x5e, 0x52, 0x5e, 0x40, 0x3c, 0x00), // @
        0x41 => rows(0x18, 0x24, 0x42, 0x42, 0x7e, 0x42, 0x42, 0x00), // A
        0x42 => rows(0x7c, 0x42, 0x42, 0x7c, 0x42, 0x42, 0x7c, 0x00), // B
        0x43 => rows(0x3c, 0x42, 0x40, 0x40, 0x40, 0x42, 0x3c, 0x00), // C
        0x44 => rows(0x78, 0x44, 0x42, 0x42, 0x42, 0x44, 0x78, 0x00), // D
        0x45 => rows(0x7e, 0x40, 0x40, 0x78, 0x40, 0x40, 0x7e, 0x00), // E
        0x46 => rows(0x7e, 0x40, 0x40, 0x78, 0x40, 0x40, 0x40, 0x00), // F
        0x47 => rows(0x3c, 0x42, 0x40, 0x4e, 0x42, 0x42, 0x3e, 0x00), // G
        0x48 => rows(0x42, 0x42, 0x42, 0x7e, 0x42, 0x42, 0x42, 0x00), // H
        0x49 => rows(0x38, 0x10, 0x10, 0x10, 0x10, 0x10, 0x38, 0x00), // I
        0x4a => rows(0x0e, 0x04, 0x04, 0x04, 0x44, 0x44, 0x38, 0x00), // J
        0x4b => rows(0x42, 0x44, 0x48, 0x70, 0x48, 0x44, 0x42, 0x00), // K
        0x4c => rows(0x40, 0x40, 0x40, 0x40, 0x40, 0x40, 0x7e, 0x00), // L
        0x4d => rows(0x42, 0x66, 0x5a, 0x42, 0x42, 0x42, 0x42, 0x00), // M
        0x4e => rows(0x42, 0x62, 0x52, 0x4a, 0x46, 0x42, 0x42, 0x00), // N
        0x4f => rows(0x3c, 0x42, 0x42, 0x42, 0x42, 0x42, 0x3c, 0x00), // O
        0x50 => rows(0x7c, 0x42, 0x42, 0x7c, 0x40, 0x40, 0x40, 0x00), // P
        0x51 => rows(0x3c, 0x42, 0x42, 0x42, 0x4a, 0x44, 0x3a, 0x00), // Q
        0x52 => rows(0x7c, 0x42, 0x42, 0x7c, 0x48, 0x44, 0x42, 0x00), // R
        0x53 => rows(0x3c, 0x42, 0x40, 0x3c, 0x02, 0x42, 0x3c, 0x00), // S
        0x54 => rows(0xfe, 0x10, 0x10, 0x10, 0x10, 0x10, 0x10, 0x00), // T
        0x55 => rows(0x42, 0x42, 0x42, 0x42, 0x42, 0x42, 0x3c, 0x00), // U
        0x56 => rows(0x42, 0x42, 0x42, 0x42, 0x44, 0x48, 0x30, 0x00), // V
        0x57 => rows(0x42, 0x42, 0x42, 0x42, 0x5a, 0x66, 0x42, 0x00), // W
        0x58 => rows(0x42, 0x24, 0x18, 0x18, 0x18, 0x24, 0x42, 0x00), // X
        0x59 => rows(0x44, 0x44, 0x44, 0x38, 0x10, 0x10, 0x10, 0x00), // Y
        0x5a => rows(0x7e, 0x04, 0x08, 0x10, 0x20, 0x40, 0x7e, 0x00), // Z
        0x5b => rows(0x1e, 0x10, 0x10, 0x10, 0x10, 0x10, 0x1e, 0x00), // [
        0x5c => rows(0x80, 0x40, 0x20, 0x10, 0x08, 0x04, 0x02, 0x00), // backslash
        0x5d => rows(0xf0, 0x10, 0x10, 0x10, 0x10, 0x10, 0xf0, 0x00), // ]
        0x5e => rows(0x10, 0x28, 0x44, 0x00, 0x00, 0x00, 0x00, 0x00), // ^
        0x5f => rows(0x00, 0x00, 0x00, 0x00, 0x00, 0x00, 0x00, 0xff), // _
        0x60 => rows(0x20, 0x10, 0x08, 0x00, 0x00, 0x00, 0x00, 0x00), // `
        0x61 => rows(0x00, 0x00, 0x38, 0x04, 0x3c, 0x44, 0x3c, 0x00), // a
        0x62 => rows(0x40, 0x40, 0x78, 0x44, 0x44, 0x44, 0x78, 0x00), // b
        0x63 => rows(0x00, 0x00, 0x3c, 0x40, 0x40, 0x40, 0x3c, 0x00), // c
        0x64 => rows(0x04, 0x04, 0x3c, 0x44, 0x44, 0x44, 0x3c, 0x00), // d
        0x65 => rows(0x00, 0x00, 0x38, 0x44, 0x7c, 0x40, 0x3c, 0x00), // e
        0x66 => rows(0x0c, 0x10, 0x38, 0x10, 0x10, 0x10, 0x10, 0x00), // f
        0x67 => rows(0x00, 0x00, 0x3c, 0x44, 0x44, 0x3c, 0x04, 0x38), // g
        0x68 => rows(0x40, 0x40, 0x78, 0x44, 0x44, 0x44, 0x44, 0x00), // h
        0x69 => rows(0x10, 0x00, 0x30, 0x10, 0x10, 0x10, 0x38, 0x00), // i
        0x6a => rows(0x08, 0x00, 0x18, 0x08, 0x08, 0x08, 0x48, 0x30), // j
        0x6b => rows(0x40, 0x40, 0x44, 0x48, 0x70, 0x48, 0x44, 0x00), // k
        0x6c => rows(0x30, 0x10, 0x10, 0x10, 0x10, 0x10, 0x38, 0x00), // l
        0x6d => rows(0x00, 0x00, 0x68, 0x54, 0x54, 0x54, 0x54, 0x00), // m
        0x6e => rows(0x00, 0x00, 0x78, 0x44, 0x44, 0x44, 0x44, 0x00), // n
        0x6f => rows(0x00, 0x00, 0x38, 0x44, 0x44, 0x44, 0x38, 0x00), // o
        0x70 => rows(0x00, 0x00, 0x78, 0x44, 0x44, 0x78, 0x40, 0x40), // p
        0x71 => rows(0x00, 0x00, 0x3c, 0x44, 0x44, 0x3c, 0x04, 0x04), // q
        0x72 => rows(0x00, 0x00, 0x5c, 0x60, 0x40, 0x40, 0x40, 0x00), // r
        0x73 => rows(0x00, 0x00, 0x3c, 0x40, 0x38, 0x04, 0x78, 0x00), // s
        0x74 => rows(0x10, 0x10, 0x38, 0x10, 0x10, 0x10, 0x0c, 0x00), // t
        0x75 => rows(0x00, 0x00, 0x44, 0x44, 0x44, 0x44, 0x38, 0x00), // u
        0x76 => rows(0x00, 0x00, 0x44, 0x44, 0x44, 0x28, 0x10, 0x00), // v
        0x77 => rows(0x00, 0x00, 0x54, 0x54, 0x54, 0x54, 0x28, 0x00), // w
        0x78 => rows(0x00, 0x00, 0x44, 0x28, 0x10, 0x28, 0x44, 0x00), // x
        0x79 => rows(0x00, 0x00, 0x44, 0x44, 0x44, 0x3c, 0x04, 0x38), // y
        0x7a => rows(0x00, 0x00, 0x7c, 0x08, 0x10, 0x20, 0x7c, 0x00), // z
        0x7b => rows(0x0c, 0x10, 0x10, 0x20, 0x10, 0x10, 0x0c, 0x00), // {
        0x7c => rows(0x10, 0x10, 0x10, 0x10, 0x10, 0x10, 0x10, 0x00), // |
        0x7d => rows(0x60, 0x10, 0x10, 0x08, 0x10, 0x10, 0x60, 0x00), // }
        0x7e => rows(0x32, 0x4c, 0x00, 0x00, 0x00, 0x00, 0x00, 0x00), // ~
        0x7f => rows(0xff, 0x81, 0x81, 0x81, 0x81, 0x81, 0xff, 0x00),
        _ => rows(0x00, 0x00, 0x00, 0x00, 0x00, 0x00, 0x00, 0x00),
    }
}

} // verus!
