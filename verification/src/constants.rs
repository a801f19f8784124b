//! Layout constants of the machine and the built-in font.

use vstd::prelude::*;

verus! {

/// Number of addressable bytes.
pub const MEMORY_SIZE: usize = 4096;

/// Address at which a program image starts.
pub const START_ADDRESS: u16 = 0x200;

/// Address of the first byte of the built-in font.
pub const FONTSET_START_ADDRESS: u16 = 0x50;

/// Number of bytes in the built-in font: sixteen glyphs of five bytes.
pub const FONTSET_SIZE: u8 = 80;

/// Number of bytes per glyph.
pub const GLYPH_SIZE: u8 = 5;

/// Display width in pixels.
pub const VIDEO_WIDTH: u8 = 64;

/// Display height in pixels.
pub const VIDEO_HEIGHT: u8 = 32;

/// Number of display cells.
pub const VIDEO_CELLS: usize = 2048;

/// Value of a display cell that is off.
pub const PIXEL_OFF: u32 = 0;

/// Value of a display cell that is on.
pub const PIXEL_ON: u32 = 0xFFFF_FFFF;

/// Number of general-purpose registers, of keys, and of stack slots.
pub const REGISTER_COUNT: usize = 16;

/// Index of the flag register.
pub const FLAG_REGISTER: usize = 0xF;

/// Glyphs for the hexadecimal digits `0` to `F`, five rows each, one row per
/// byte, the leftmost pixel in the most significant bit.
pub const FONTSET: [u8; 80] = [
    0xF0, 0x90, 0x90, 0x90, 0xF0,
    0x20, 0x60, 0x20, 0x20, 0x70,
    0xF0, 0x10, 0xF0, 0x80, 0xF0,
    0xF0, 0x10, 0xF0, 0x10, 0xF0,
    0x90, 0x90, 0xF0, 0x10, 0x10,
    0xF0, 0x80, 0xF0, 0x10, 0xF0,
    0xF0, 0x80, 0xF0, 0x90, 0xF0,
    0xF0, 0x10, 0x20, 0x40, 0x40,
    0xF0, 0x90, 0xF0, 0x90, 0xF0,
    0xF0, 0x90, 0xF0, 0x10, 0xF0,
    0xF0, 0x90, 0xF0, 0x90, 0x90,
    0xE0, 0x90, 0xE0, 0x90, 0xE0,
    0xF0, 0x80, 0x80, 0x80, 0xF0,
    0xE0, 0x90, 0x90, 0x90, 0xE0,
    0xF0, 0x80, 0xF0, 0x80, 0xF0,
    0xF0, 0x80, 0xF0, 0x80, 0x80,
];

} // verus!
