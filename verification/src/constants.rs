//! Sizes and fixed addresses of the machine.

use vstd::prelude::*;

verus! {

/// Number of addressable bytes of memory.
pub const MEMORY_SIZE: usize = 4096;

/// Number of general registers, `V0` to `VF`.
pub const GP_REGISTER_SIZE: usize = 16;

/// Deepest nesting of subroutine calls.
pub const STACK_SIZE: usize = 16;

/// Number of keys of the keypad.
pub const KEYPAD_SIZE: usize = 16;

/// Address at which a program image is loaded and execution starts.
pub const PROGRAM_START: u16 = 0x200;

/// Longest program image that fits between `PROGRAM_START` and the end of memory.
pub const MAX_ROM_SIZE: usize = 3584;

/// Highest address at which a two-byte instruction lies wholly in memory.
pub const LAST_INSTRUCTION: u16 = 0xFFE;

/// Address of the first glyph of the font.
pub const FONT_START: u16 = 0x000;

/// Bytes per glyph of the font.
pub const GLYPH_SIZE: u16 = 5;

/// Rows of the display grid.
pub const DISPLAY_HEIGHT: usize = 32;

/// Columns of the display grid.
pub const DISPLAY_WIDTH: usize = 64;

/// Side, in screen pixels, of the square that shows one cell of the grid.
pub const DISPLAY_SCALE: usize = 10;

/// Title of the window that shows the display.
pub const WINDOW_TITLE: &'static str = "CHIP-8";

/// The glyphs of the hexadecimal digits `0` to `F`, five rows each, one byte
/// per row with the pixels in the high nibble.
pub const FONT_SET: [u8; 80] = [
    0xF0, 0x90, 0x90, 0x90, 0xF0,
    0x20, 0x60, 0x20, 0x20, 0x70,
    0xF0, 0x10, 0xF0, 0x80, 0xF0,
    0xF0, 0x10, 0xF0, 0x10, 0xF0,
    0x90, 0x90, 0xF0, 0x10, 0x10,
    0xF0, 0x80, 0xF0, 0x10, 0xF0,
    0xF0, 0x80, 0xF0, 0x90, 0xF0,
    0xF0, 0x10, 0x20, 0x40, 0x40,
    0xF0, 0x90, 0xF0, 0x90, 0xF0,
    0xF0, 0x90, 0xF0, 0x10, 0xF0,
    0xF0, 0x90, 0xF0, 0x90, 0x90,
    0xE0, 0x90, 0xE0, 0x90, 0xE0,
    0xF0, 0x80, 0x80, 0x80, 0xF0,
    0xE0, 0x90, 0x90, 0x90, 0xE0,
    0xF0, 0x80, 0xF0, 0x80, 0xF0,
    0xF0, 0x80, 0xF0, 0x80, 0x80,
];

} // verus!
