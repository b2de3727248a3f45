//! Fixed constants of the machine model.

use vstd::prelude::*;

verus! {

/// Size of the flat register bank shared by all threads.
pub const NUM_REGISTERS: usize = 256;

/// Number of cooperative thread slots.
pub const NUM_THREADS: usize = 64;

/// Sentinel program counter: the thread currently executes nothing. In the
/// staged `next_pc` field the same value means "no pending change", and
/// `INACTIVE_THREAD - 1` means "deactivate at the next round boundary".
pub const INACTIVE_THREAD: u16 = 0xffff;

/// Resource ids at or above this value name a game part rather than a file;
/// the part id is the difference.
pub const BASE_PART_ID: u16 = 0x3e80;

/// Highest valid game-part id (`0` is the protection screen).
pub const MAX_PART_ID: u8 = 6;

/// Width of one pixel page, in pixels (one byte per pixel).
pub const FRAME_BUFFER_WIDTH: u16 = 320;

/// Height of one pixel page, in pixels.
pub const FRAME_BUFFER_HEIGHT: u16 = 200;

/// Number of bytes in one pixel page: width times height.
pub const PAGE_SIZE: usize = 64000;

/// Palette-id sentinel: no palette change is pending.
pub const INVALID_PALETTE: u8 = 0xff;

} // verus!
