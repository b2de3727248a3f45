//! Execution engine for a 16-bit bytecode-driven 2D vector-graphics game.
//!
//! The crate is organised in dependency order, leaves first:
//!
//! * [`defines`] — the fixed constants of the machine model (register bank and
//!   thread pool sizes, sentinels, framebuffer geometry).
//! * [`utils`] — big-endian byte readers over raw buffers.
//! * [`resources_manager`] — parses the packed asset container (index blob plus
//!   banks), reverses the bit-oriented backward compression scheme, and
//!   de-planarizes bitmap resources into linear 4-bit-per-pixel pairs.
//! * [`font`] / [`game_strings`] — the fixed 8×8 glyph table and the built-in
//!   text table used by the draw-string instruction.
//! * [`poly`] — the hierarchical vector-polygon decoder and scanline filler.
//! * [`video`] — four index-color pages with front/back-builder role
//!   indirection, page fill/copy/blit, staged palette switching, and the
//!   palette-to-RGBA resolve used to present a page.
//! * [`opcodes`] — the instruction set: decode and length computation.
//! * [`virtual_machine`] — registers, the cooperative thread pool with
//!   double-buffered scheduling state, instruction execution, and level/part
//!   transitions.

pub mod defines;
pub mod utils;
pub mod font;
pub mod game_strings;
pub mod poly;
pub mod resources_manager;
pub mod video;
pub mod opcodes;
pub mod virtual_machine;
