use rust64_debug::vic::{bank_base, bitmap_offset, char_offset, gfx_mode, screen_offset, GfxMode};

#[test]
fn d018_layout() {
    assert_eq!(screen_offset(0x15), 0x0400);
    assert_eq!(char_offset(0x15), 0x1000);
    assert_eq!(bitmap_offset(0x15), 0x0000);
    assert_eq!(bitmap_offset(0x38), 0x2000);
    assert_eq!(screen_offset(0xF0), 0x3C00);
    assert_eq!(char_offset(0x0E), 0x3800);
}

#[test]
fn dd00_bank() {
    assert_eq!(bank_base(0x97), 0x0000);
    assert_eq!(bank_base(0x94), 0xC000);
    assert_eq!(bank_base(0x95), 0x8000);
    assert_eq!(bank_base(0x96), 0x4000);
}

#[test]
fn graphics_mode_bits() {
    assert_eq!(gfx_mode(0x1B, 0xC8), GfxMode { ecm: false, mcm: false, bmp: false });
    assert_eq!(gfx_mode(0x3B, 0xD8), GfxMode { ecm: false, mcm: true, bmp: true });
    assert_eq!(gfx_mode(0x5B, 0x08), GfxMode { ecm: true, mcm: false, bmp: false });
}
