use rust64_debug::debugger::{
    draw_hex, next_draw_mode, next_mempage_offset, Blend, CpuRegisters, Debugger, DumpPlan,
    MemSource, Overlay, RasterBeam, VicRegisters,
};
use rust64_debug::draw::DrawCmd;

const PALETTE: [u32; 16] = [
    0x000000, 0xFFFFFF, 0x68372B, 0x70A4B2, 0x6F3D86, 0x588D43, 0x352879, 0xB8C76F, 0x6F4F25,
    0x433900, 0x9A6759, 0x444444, 0x6C6C6C, 0x9AD284, 0x6C5EB5, 0x959595,
];

fn text(col: usize, row: usize, s: &str, color: u8) -> DrawCmd {
    DrawCmd::Text { col, row, text: s.as_bytes().to_vec(), color }
}

fn vic_regs() -> VicRegisters {
    VicRegisters { d011: 0x1B, d016: 0xC8, d018: 0x15, dd00: 0x97 }
}

fn cpu_regs() -> CpuRegisters {
    CpuRegisters { pc: 0xFCE2, a: 0x00, x: 0xFF, y: 0x12, sp: 0xFD, p: 0x24 }
}

#[test]
fn new_debugger_shows_ram_page_zero() {
    let d = Debugger::new();
    assert_eq!(d.draw_mode(), 0);
    assert_eq!(d.mempage_offset(), 0);
    assert!(d.polls_page_keys(false));
    assert!(!d.polls_page_keys(true));
    assert_eq!(d.dump_plan(false, false, false), DumpPlan { source: MemSource::Ram, start: 0, len: 1000 });
}

#[test]
fn end_key_cycles_views() {
    assert_eq!(next_draw_mode(0, true), 1);
    assert_eq!(next_draw_mode(1, true), 2);
    assert_eq!(next_draw_mode(2, true), 3);
    assert_eq!(next_draw_mode(3, true), 0);
    assert_eq!(next_draw_mode(2, false), 2);
}

#[test]
fn page_keys_move_and_wrap() {
    assert_eq!(next_mempage_offset(0, true, false), 0x400);
    assert_eq!(next_mempage_offset(0xFC00, true, false), 0);
    assert_eq!(next_mempage_offset(0, false, true), 0xFC00);
    assert_eq!(next_mempage_offset(0x800, false, true), 0x400);
    assert_eq!(next_mempage_offset(0x800, true, true), 0x800);
    assert_eq!(next_mempage_offset(0xFC00, true, true), 0xFC00);
}

#[test]
fn dump_plans_of_each_view() {
    let d = Debugger::new();
    assert_eq!(d.dump_plan(false, false, true), DumpPlan { source: MemSource::Ram, start: 0xFC00, len: 1000 });
    assert_eq!(d.dump_plan(true, false, false), DumpPlan { source: MemSource::Io, start: 0xD000, len: 64 });
    let mut d = Debugger::new();
    let bytes = vec![0u8; 64];
    d.render(true, false, false, &bytes, &vic_regs(), &cpu_regs(), &PALETTE);
    assert_eq!(d.dump_plan(true, true, true), DumpPlan { source: MemSource::Cpu, start: 0xDC00, len: 512 });
    let bytes = vec![0u8; 512];
    d.render(true, false, false, &bytes, &vic_regs(), &cpu_regs(), &PALETTE);
    assert_eq!(d.dump_plan(true, false, false), DumpPlan { source: MemSource::Io, start: 0xD800, len: 1000 });
    assert_eq!(d.dump_plan(false, true, false), DumpPlan { source: MemSource::Cpu, start: 0xDC00, len: 512 });
}

#[test]
fn hex_cell_colours() {
    let mut out = Vec::new();
    draw_hex(&mut out, 4, 30, 0x00, &PALETTE);
    draw_hex(&mut out, 6, 30, 0x01, &PALETTE);
    draw_hex(&mut out, 8, 30, 0x12, &PALETTE);
    draw_hex(&mut out, 10, 30, 0xE7, &PALETTE);
    assert_eq!(out[0], DrawCmd::TextRgb { col: 4, row: 30, text: b"00".to_vec(), rgb: 0x00101010 });
    assert_eq!(out[1], DrawCmd::TextRgb { col: 6, row: 30, text: b"01".to_vec(), rgb: 0x00333333 });
    assert_eq!(out[2], DrawCmd::TextRgb { col: 8, row: 30, text: b"12".to_vec(), rgb: 0xFFFFFF });
    assert_eq!(out[3], DrawCmd::TextRgb { col: 10, row: 30, text: b"E7".to_vec(), rgb: 0x6C5EB5 });
}

#[test]
fn frame_after_end_shows_vic_registers() {
    let mut d = Debugger::new();
    let bytes: Vec<u8> = (0u8..64).collect();
    let cmds = d.render(true, false, false, &bytes, &vic_regs(), &cpu_regs(), &PALETTE);
    assert_eq!(d.draw_mode(), 1);
    assert_eq!(cmds.len(), 187 + 2920 + 2 + 128 + 4 + 8 + 12);
    // border
    assert_eq!(cmds[0], DrawCmd::Char { px: 0, py: 0, code: 64, color: 0x0B });
    assert_eq!(cmds[1], DrawCmd::Char { px: 0, py: 208, code: 64, color: 0x0B });
    assert_eq!(cmds[158], DrawCmd::Char { px: 632, py: 0, code: 64, color: 0x0B });
    assert_eq!(cmds[160], DrawCmd::Char { px: 320, py: 8, code: 66, color: 0x0B });
    assert_eq!(cmds[184], DrawCmd::Char { px: 320, py: 200, code: 66, color: 0x0B });
    assert_eq!(cmds[185], DrawCmd::Char { px: 320, py: 0, code: 114, color: 0x0B });
    assert_eq!(cmds[186], DrawCmd::Char { px: 320, py: 208, code: 113, color: 0x0B });
    // clearing
    assert_eq!(cmds[187], text(0, 1, " ", 0));
    assert_eq!(cmds[187 + 999], text(39, 25, " ", 0));
    assert_eq!(cmds[187 + 1000], text(0, 28, " ", 0));
    assert_eq!(cmds[187 + 2919], text(79, 51, " ", 0));
    // title
    assert_eq!(cmds[3107], text(0, 0, "VIC $d000-$d03f", 0x0A));
    assert_eq!(cmds[3108], text(34, 0, "*VIC*", 0x0E));
    // cells
    assert_eq!(cmds[3109], DrawCmd::Char { px: 0, py: 8, code: 0, color: 0x05 });
    assert_eq!(cmds[3110], DrawCmd::TextRgb { col: 0, row: 27, text: b"00".to_vec(), rgb: 0x101010 });
    assert_eq!(cmds[3109 + 2 * 63], DrawCmd::Char { px: 184, py: 16, code: 63, color: 0x05 });
    assert_eq!(cmds[3110 + 2 * 63], DrawCmd::TextRgb { col: 46, row: 28, text: b"3F".to_vec(), rgb: 0x70A4B2 });
    // graphics mode
    assert_eq!(cmds[3237], text(52, 1, "ECM", 0x0B));
    assert_eq!(cmds[3238], text(57, 1, "CHR", 0x0A));
    assert_eq!(cmds[3239], text(62, 1, "BMP", 0x0B));
    assert_eq!(cmds[3240], text(67, 1, "MCM", 0x0B));
    // memory layout
    assert_eq!(cmds[3241], text(43, 3, "Screen: ", 0x0F));
    assert_eq!(cmds[3242], text(51, 3, "$0400", 0x0E));
    assert_eq!(cmds[3244], text(51, 4, "$1000", 0x0E));
    assert_eq!(cmds[3246], text(51, 5, "$0000", 0x0E));
    assert_eq!(cmds[3247], text(41, 6, "VIC Bank: ", 0x0F));
    assert_eq!(cmds[3248], text(51, 6, "$0000", 0x0E));
    // registers
    assert_eq!(cmds[3249], text(44, 23, "PC:", 0x0F));
    assert_eq!(cmds[3250], text(47, 23, "$FCE2", 0x0E));
    assert_eq!(cmds[3252], text(55, 23, "$00", 0x0E));
    assert_eq!(cmds[3254], text(61, 23, "$FF", 0x0E));
    assert_eq!(cmds[3256], text(67, 23, "$12", 0x0E));
    assert_eq!(cmds[3258], text(74, 23, "$FD", 0x0E));
    assert_eq!(cmds[3259], text(51, 24, "NV-BDIZC:", 0x0F));
    assert_eq!(cmds[3260], text(61, 24, "[00100100]", 0x0E));
}

#[test]
fn ram_view_pages_down_and_titles_the_page() {
    let mut d = Debugger::new();
    let bytes = vec![0x41u8; 1000];
    let cmds = d.render(false, false, true, &bytes, &vic_regs(), &cpu_regs(), &PALETTE);
    assert_eq!(d.mempage_offset(), 0xFC00);
    assert_eq!(cmds.len(), 187 + 2 + 2000 + 4 + 8 + 12);
    assert_eq!(cmds[187], text(0, 0, "Memory page $fc00-$ffff", 0x0A));
    assert_eq!(cmds[188], text(34, 0, "*RAM*", 0x0E));
    // last byte: row 24, column 39
    assert_eq!(cmds[189 + 2 * 999], DrawCmd::Char { px: 312, py: 200, code: 0x41, color: 0x05 });
    assert_eq!(
        cmds[190 + 2 * 999],
        DrawCmd::TextRgb { col: 78, row: 51, text: b"41".to_vec(), rgb: 0x6F3D86 }
    );
}

#[test]
fn page_keys_ignored_outside_ram_view() {
    let mut d = Debugger::new();
    let bytes = vec![0u8; 64];
    d.render(true, true, false, &bytes, &vic_regs(), &cpu_regs(), &PALETTE);
    assert_eq!(d.mempage_offset(), 0);
    assert_eq!(d.draw_mode(), 1);
}

#[test]
fn colour_ram_and_cia_titles() {
    let mut d = Debugger::new();
    d.render(true, false, false, &vec![0u8; 64], &vic_regs(), &cpu_regs(), &PALETTE);
    let cmds = d.render(true, false, false, &vec![0u8; 512], &vic_regs(), &cpu_regs(), &PALETTE);
    assert_eq!(cmds[3107], text(0, 0, "CIA $dc00-$ddff", 0x0A));
    assert_eq!(cmds[3108], text(34, 0, "*CIA*", 0x0E));
    let cmds = d.render(true, false, false, &vec![0u8; 1000], &vic_regs(), &cpu_regs(), &PALETTE);
    assert_eq!(cmds[3107], text(0, 0, "COLOR $d800-$dbff", 0x0A));
    assert_eq!(cmds[3108], text(28, 0, "*COLOR RAM*", 0x0E));
    let cmds = d.render(true, false, false, &vec![0u8; 1000], &vic_regs(), &cpu_regs(), &PALETTE);
    assert_eq!(d.draw_mode(), 0);
    assert_eq!(cmds[3107], text(0, 0, "Memory page $0000-$03ff", 0x0A));
}

#[test]
fn graphics_mode_indicators() {
    let mut d = Debugger::new();
    let regs = VicRegisters { d011: 0x7B, d016: 0xD8, d018: 0xF8, dd00: 0x94 };
    let cmds = d.render(false, false, false, &vec![0u8; 1000], &regs, &cpu_regs(), &PALETTE);
    let base = 187 + 2 + 2000;
    assert_eq!(cmds[base], text(52, 1, "ECM", 0x0A));
    assert_eq!(cmds[base + 1], text(57, 1, "CHR", 0x0B));
    assert_eq!(cmds[base + 2], text(62, 1, "BMP", 0x0A));
    assert_eq!(cmds[base + 3], text(67, 1, "MCM", 0x0A));
    assert_eq!(cmds[base + 5], text(51, 3, "$3C00", 0x0E));
    assert_eq!(cmds[base + 7], text(51, 4, "$2000", 0x0E));
    assert_eq!(cmds[base + 9], text(51, 5, "$2000", 0x0E));
    assert_eq!(cmds[base + 11], text(51, 6, "$C000", 0x0E));
}

fn beam(cycle: u16, line: u16) -> RasterBeam {
    RasterBeam { cycle, line, irq_line: 300, bad_line: false, border_on: false, reg_written: false }
}

#[test]
fn raster_pixel_position_and_background() {
    let mut d = Debugger::new();
    let px = d.update_raster_window(&beam(1, 0));
    assert_eq!(px.index, 0);
    assert_eq!(px.base, 0);
    assert!(px.overlays.is_empty());
    let px = d.update_raster_window(&RasterBeam { border_on: true, ..beam(63, 311) });
    assert_eq!(px.index, 63 * 312 - 1);
    assert_eq!(px.base, 0x00404040);
    let px = d.update_raster_window(&beam(10, 2));
    assert_eq!(px.index, 9 + 126);
}

#[test]
fn raster_highlights_in_order() {
    let mut d = Debugger::new();
    let px = d.update_raster_window(&RasterBeam {
        cycle: 5,
        line: 300,
        irq_line: 300,
        bad_line: true,
        border_on: false,
        reg_written: true,
    });
    assert_eq!(
        px.overlays,
        vec![
            Overlay { color: 0x00FF0000, blend: Blend::Strong },
            Overlay { color: 0x000000FF, blend: Blend::Strong },
            Overlay { color: 0x0000FF00, blend: Blend::Half },
        ]
    );
    // the register flag has not changed since the last update
    let px = d.update_raster_window(&RasterBeam { reg_written: true, ..beam(6, 300) });
    assert_eq!(px.overlays, vec![Overlay { color: 0x000000FF, blend: Blend::Strong }]);
    // it changes back
    let px = d.update_raster_window(&beam(7, 10));
    assert_eq!(px.overlays, vec![Overlay { color: 0x00FF0000, blend: Blend::Strong }]);
}

#[test]
fn sixty_four_page_ups_return_to_page_zero() {
    let mut o = 0u32;
    for k in 1..=64u32 {
        o = next_mempage_offset(o, true, false);
        assert_eq!(o, if k == 64 { 0 } else { k * 0x400 });
    }
}

#[test]
fn four_end_presses_return_to_ram_view() {
    let mut d = Debugger::new();
    for len in [64usize, 512, 1000, 1000] {
        d.render(true, false, false, &vec![0u8; len], &vic_regs(), &cpu_regs(), &PALETTE);
    }
    assert_eq!(d.draw_mode(), 0);
}
