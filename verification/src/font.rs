use vstd::prelude::*;

verus! {

/// Number of bytes in the built-in glyph table: sixteen glyphs of five rows.
pub const FONTSET_SIZE: usize = 80;

/// Rows of one glyph.
pub const GLYPH_HEIGHT: u16 = 5;

/// The built-in glyphs for the hexadecimal digits `0` to `F`, five bytes
/// each, one byte per row, the leftmost pixel in the most significant bit.
pub const FONTSET: [u8; 80] = [
    0xF0, 0x90, 0x90, 0x90, 0xF0,
    0x20, 0x60, 0x20, 0x20, 0x70,
    0xF0, 0x10, 0xF0, 0x80, 0xF0,
    0xF0, 0x10, 0xF0, 0x10, 0xF0,
    0x90, 0x90, 0xF0, 0x10, 0x10,
    0xF0, 0x80, 0xF0, 0x10, 0xF0,
    0xF0, 0x80, 0xF0, 0x90, 0xF0,
    0xF0, 0x10, 0x20, 0x40, 0x40,
    0xF0, 0x90, 0xF0, 0x90, 0xF0,
    0xF0, 0x90, 0xF0, 0x10, 0xF0,
    0xF0, 0x90, 0xF0, 0x90, 0x90,
    0xE0, 0x90, 0xE0, 0x90, 0xE0,
    0xF0, 0x80, 0x80, 0x80, 0xF0,
    0xE0, 0x90, 0x90, 0x90, 0xE0,
    0xF0, 0x80, 0xF0, 0x80, 0xF0,
    0xF0, 0x80, 0xF0, 0x80, 0x80,
];

/// Memory offset of the glyph for the low nibble of `value`.
pub open spec fn glyph_offset_spec(value: u8) -> u16 {
    ((value % 16) * 5) as u16
}

/// Computes the memory offset of the glyph that shows the low nibble of
/// `value`.
pub fn glyph_offset(value: u8) -> (offset: u16)
    ensures
        offset == glyph_offset_spec(value),
        offset + GLYPH_HEIGHT <= FONTSET_SIZE,
{
    let digit: u16 = (value % 16) as u16;
    digit * GLYPH_HEIGHT
}

} // verus!
