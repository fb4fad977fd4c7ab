//! Decoding of the VIC-II video chip registers that the debugger displays.

use vstd::prelude::*;

verus! {

/// Offset of the screen (video matrix) within the VIC bank: register $D018,
/// bits 4-7, in units of 1 KiB.
pub open spec fn screen_offset_spec(d018: u8) -> int {
    0x400 * (d018 / 16)
}

/// Offset of the character set within the VIC bank: register $D018, bits 1-3,
/// in units of 2 KiB.
pub open spec fn char_offset_spec(d018: u8) -> int {
    0x800 * ((d018 / 2) % 8)
}

/// Offset of the bitmap within the VIC bank: register $D018, bit 3, in units of 8 KiB.
pub open spec fn bitmap_offset_spec(d018: u8) -> int {
    0x2000 * ((d018 / 8) % 2)
}

/// Base address of the 16 KiB bank the VIC sees: CIA 2 port A ($DD00), bits 0-1,
/// inverted: 3 selects $0000, 0 selects $C000.
pub open spec fn bank_base_spec(dd00: u8) -> int {
    0xC000 - 0x4000 * (dd00 % 4)
}

/// The screen offset selected by register $D018.
pub fn screen_offset(d018: u8) -> (r: u16)
    ensures
        r == screen_offset_spec(d018),
{
    assert((d018 >> 4u8) & 0xFu8 == d018 / 16) by (bit_vector);
    0x400 * ((d018 >> 4) & 0xF) as u16
}

/// The character set offset selected by register $D018.
pub fn char_offset(d018: u8) -> (r: u16)
    ensures
        r == char_offset_spec(d018),
{
    assert((d018 >> 1u8) & 0x07u8 == (d018 / 2) % 8) by (bit_vector);
    0x800 * ((d018 >> 1) & 0x07) as u16
}

/// The bitmap offset selected by register $D018.
pub fn bitmap_offset(d018: u8) -> (r: u16)
    ensures
        r == bitmap_offset_spec(d018),
{
    assert((d018 >> 3u8) & 0x01u8 == (d018 / 8) % 2) by (bit_vector);
    0x2000 * ((d018 >> 3) & 0x01) as u16
}

/// The VIC bank base selected by register $DD00.
pub fn bank_base(dd00: u8) -> (r: u16)
    ensures
        r == bank_base_spec(dd00),
{
    assert(dd00 & 0x03u8 == dd00 % 4) by (bit_vector);
    0xC000 - 0x4000 * (dd00 & 0x03) as u16
}

/// The graphics mode bits the debugger shows.
#[derive(Clone, Copy, Debug, PartialEq, Eq)]
pub struct GfxMode {
    /// Extended colour mode: $D011 bit 6.
    pub ecm: bool,
    /// Multicolour mode: $D016 bit 4.
    pub mcm: bool,
    /// Bitmap mode: $D011 bit 5.
    pub bmp: bool,
}

/// Decodes the graphics mode bits from registers $D011 and $D016.
pub fn gfx_mode(d011: u8, d016: u8) -> (m: GfxMode)
    ensures
        m.ecm == ((d011 / 64) % 2 == 1),
        m.mcm == ((d016 / 16) % 2 == 1),
        m.bmp == ((d011 / 32) % 2 == 1),
        m.ecm == (d011 & 0x40 == 0x40),
        m.mcm == (d016 & 0x10 == 0x10),
        m.bmp == (d011 & 0x20 == 0x20),
{
    assert((d011 & 0x40u8 == 0x40u8) == ((d011 / 64) % 2 == 1)) by (bit_vector);
    assert((d016 & 0x10u8 == 0x10u8) == ((d016 / 16) % 2 == 1)) by (bit_vector);
    assert((d011 & 0x20u8 == 0x20u8) == ((d011 / 32) % 2 == 1)) by (bit_vector);
    assert((d011 & 0x40u8 != 0u8) == ((d011 / 64) % 2 == 1)) by (bit_vector);
    assert((d016 & 0x10u8 != 0u8) == ((d016 / 16) % 2 == 1)) by (bit_vector);
    assert((d011 & 0x20u8 != 0u8) == ((d011 / 32) % 2 == 1)) by (bit_vector);
    GfxMode { ecm: (d011 & 0x40) != 0, mcm: (d016 & 0x10) != 0, bmp: (d011 & 0x20) != 0 }
}

/// The VIC memory layout always names places the VIC can see: the screen is a
/// whole KiB of the 16 KiB bank, the character set a whole 2 KiB below 16 KiB,
/// the bitmap one of the bank's two halves, and the bank one of the four
/// quarters of memory.
pub proof fn law_layout_in_bank(d018: u8, dd00: u8)
    ensures
        0 <= screen_offset_spec(d018) <= 0x3C00,
        screen_offset_spec(d018) % 0x400 == 0,
        0 <= char_offset_spec(d018) <= 0x3800,
        char_offset_spec(d018) % 0x800 == 0,
        bitmap_offset_spec(d018) == 0 || bitmap_offset_spec(d018) == 0x2000,
        bank_base_spec(dd00) == 0 || bank_base_spec(dd00) == 0x4000 || bank_base_spec(dd00)
            == 0x8000 || bank_base_spec(dd00) == 0xC000,
{
}

/// Each part of the layout is the register field the VIC-II defines: the screen
/// is bits 4-7 of $D018 in KiB, the character set bits 1-3 of $D018 in units of
/// 2 KiB, the bitmap is the upper 8 KiB exactly when bit 3 of $D018 is set
/// (whatever the other bits), and the bank is the 16 KiB quarter numbered by
/// the inverse of bits 0-1 of $DD00.
pub proof fn law_layout_register_bits(d018: u8, dd00: u8)
    ensures
        screen_offset_spec(d018) == 0x400 * (d018 >> 4u8),
        char_offset_spec(d018) == 0x800 * ((d018 >> 1u8) & 7u8),
        bitmap_offset_spec(d018) == (if d018 & 0x08 == 0x08 {
            0x2000int
        } else {
            0int
        }),
        bank_base_spec(dd00) == 0x4000 * (3 - (dd00 & 3u8)),
{
    assert(d018 >> 4u8 == d018 / 16) by (bit_vector);
    assert((d018 >> 1u8) & 7u8 == (d018 / 2) % 8) by (bit_vector);
    assert((d018 & 0x08u8 == 0x08u8) == ((d018 / 8) % 2 == 1)) by (bit_vector);
    assert(dd00 & 3u8 == dd00 % 4) by (bit_vector);
}

} // verus!
