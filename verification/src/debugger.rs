//! The memory debugger: its view state, the keys that change it, and the exact
//! drawing commands of one frame of the debug window and of the raster window.
//!
//! The debug window is 80 x 52 character cells. Rows 1-25, columns 0-39 show the
//! bytes of a memory region as glyphs, and rows 27-51 show the same bytes in
//! hexadecimal, two columns per byte. The right half of the top rows shows the
//! graphics mode, the VIC memory layout and the CPU registers. Four views cycle
//! with the End key: a 1 KiB page of RAM (paged with Page Up / Page Down), the
//! VIC registers, the CIA registers and the colour RAM.

use vstd::prelude::*;
use vstd::string::StringSliceAdditionalSpecFns;
use crate::draw::{Draw, DrawCmd, draws, push_char, push_text, push_text_rgb};
use crate::text::{
    ascii, bin, bin_digits, bin_value, hex, hex_digits, hex_value, law_bin_round_trip,
    law_hex_round_trip, pow16, pow2,
};
use crate::vic::{
    bank_base, bank_base_spec, bitmap_offset, bitmap_offset_spec, char_offset, char_offset_spec,
    gfx_mode, screen_offset, screen_offset_spec,
};

verus! {

/// Width of the debug window in pixels.
pub const DEBUG_W: usize = 640;

/// Height of the debug window in pixels.
pub const DEBUG_H: usize = 416;

/// Width of the raster window in pixels: one per cycle of a PAL raster line.
pub const RASTER_W: usize = 63;

/// Height of the raster window in pixels: one per PAL raster line.
pub const RASTER_H: usize = 312;

/// Where the bytes of a memory dump are read from.
#[derive(PartialEq, Eq, Structural, Clone, Copy, Debug)]
pub enum MemSource {
    /// The RAM bank of the memory.
    Ram,
    /// The I/O bank of the memory.
    Io,
    /// The CPU's bus (reads reach the CIA chips).
    Cpu,
}

/// The memory region a frame of the debug window shows.
#[derive(PartialEq, Eq, Structural, Clone, Copy, Debug)]
pub struct DumpPlan {
    pub source: MemSource,
    /// Address of the first byte shown.
    pub start: u16,
    /// Number of consecutive bytes shown.
    pub len: usize,
}

/// The registers of the VIC and CIA 2 that the debugger decodes.
#[derive(Clone, Copy, Debug)]
pub struct VicRegisters {
    pub d011: u8,
    pub d016: u8,
    pub d018: u8,
    pub dd00: u8,
}

/// The CPU registers the debugger shows.
#[derive(Clone, Copy, Debug)]
pub struct CpuRegisters {
    pub pc: u16,
    pub a: u8,
    pub x: u8,
    pub y: u8,
    pub sp: u8,
    pub p: u8,
}


/// The state of the VIC's raster beam at one cycle.
#[derive(Clone, Copy, Debug)]
pub struct RasterBeam {
    /// The cycle within the raster line, from 1.
    pub cycle: u16,
    /// The raster line.
    pub line: u16,
    /// The raster line that raises the raster interrupt.
    pub irq_line: u16,
    /// Whether this line is a bad line (the VIC stalls the CPU to fetch).
    pub bad_line: bool,
    /// Whether the border is being drawn.
    pub border_on: bool,
    /// The VIC's flag of whether one of its registers was written.
    pub reg_written: bool,
}

/// How strongly a highlight covers the colour beneath it.
#[derive(PartialEq, Eq, Structural, Clone, Copy, Debug)]
pub enum Blend {
    /// Eight tenths highlight, two tenths what lies beneath.
    Strong,
    /// Half and half.
    Half,
}

/// A highlight laid over a raster window pixel.
#[derive(PartialEq, Eq, Structural, Clone, Copy, Debug)]
pub struct Overlay {
    /// The highlight colour, 0x00RRGGBB.
    pub color: u32,
    pub blend: Blend,
}

/// What the raster window shows for one cycle: the pixel, its background, and
/// the highlights to blend over it, first to last.
#[derive(Clone, Debug, PartialEq, Eq)]
pub struct RasterPixel {
    /// Index of the pixel in the raster window buffer, row by row.
    pub index: usize,
    /// Dark grey in the border, black elsewhere.
    pub base: u32,
    pub overlays: Vec<Overlay>,
}

/// The highlights of a raster window pixel: red where a VIC register write was
/// noticed, blue on the raster interrupt line, green (half) on a bad line.
pub open spec fn raster_overlays(state_changed: bool, raster_irq: bool, bad_line: bool) -> Seq<Overlay> {
    (if state_changed {
        seq![Overlay { color: 0x00FF0000, blend: Blend::Strong }]
    } else {
        Seq::empty()
    }) + (if raster_irq {
        seq![Overlay { color: 0x000000FF, blend: Blend::Strong }]
    } else {
        Seq::empty()
    }) + (if bad_line {
        seq![Overlay { color: 0x0000FF00, blend: Blend::Half }]
    } else {
        Seq::empty()
    })
}

/// The raster window pixel of a cycle of a line: 63 a line, cycles numbered from 1.
pub open spec fn raster_index(cycle: int, line: int) -> int {
    cycle - 1 + line * 63
}

/// Whether a beam position has a pixel in the raster window.
pub open spec fn on_raster(cycle: int, line: int) -> bool {
    1 <= cycle && 0 <= line && raster_index(cycle, line) < (RASTER_W * RASTER_H) as int
}

/// The view state of the memory debugger.
pub struct Debugger {
    mempage_offset: u32,
    vic_display_state: bool,
    draw_mode: u8,
}

/// A RAM page offset the debugger can show: a multiple of 1 KiB below 64 KiB.
pub open spec fn valid_page(offset: int) -> bool {
    0 <= offset <= 0xFC00 && offset % 0x400 == 0
}

/// The view after the End key: the next of the four, wrapping around.
pub open spec fn mode_after_end(mode: u8) -> u8 {
    if mode + 1 > 3 {
        0
    } else {
        (mode + 1) as u8
    }
}

/// The view of a frame, given whether End was pressed.
pub open spec fn next_mode(mode: u8, end_pressed: bool) -> u8 {
    if end_pressed {
        mode_after_end(mode)
    } else {
        mode
    }
}

/// The RAM page after Page Up: the next 1 KiB, wrapping from the last to the first.
pub open spec fn page_up(offset: u32) -> u32 {
    if offset + 0x400 > 0xFC00 {
        0
    } else {
        (offset + 0x400) as u32
    }
}

/// The RAM page after Page Down: the previous 1 KiB, wrapping from the first to the last.
pub open spec fn page_down(offset: u32) -> u32 {
    if offset == 0 {
        0xFC00
    } else {
        (offset - 0x400) as u32
    }
}

/// The RAM page after the page keys of one frame: Page Up is handled before Page Down.
pub open spec fn next_page(offset: u32, up: bool, down: bool) -> u32 {
    let o = if up {
        page_up(offset)
    } else {
        offset
    };
    if down {
        page_down(o)
    } else {
        o
    }
}

/// The first address of each view's dump.
pub open spec fn dump_start(mode: u8, offset: u32) -> u16 {
    if mode == 0 {
        offset as u16
    } else if mode == 1 {
        0xD000
    } else if mode == 2 {
        0xDC00
    } else {
        0xD800
    }
}

/// The number of bytes each view dumps: a full screen of 25 rows of 40, except
/// the VIC ($D000-$D03F) and the CIAs ($DC00-$DDFF), which end earlier.
pub open spec fn dump_len(mode: u8) -> nat {
    if mode == 1 {
        64
    } else if mode == 2 {
        512
    } else {
        1000
    }
}

/// Where each view's bytes are read from.
pub open spec fn dump_source(mode: u8) -> MemSource {
    if mode == 0 {
        MemSource::Ram
    } else if mode == 2 {
        MemSource::Cpu
    } else {
        MemSource::Io
    }
}


/// The glyph command of dumped byte number `i`: 40 glyphs a row, from row 1.
pub open spec fn glyph_cell(i: nat, b: u8) -> Draw {
    Draw::Char { px: 8 * (i % 40), py: 8 + 8 * (i / 40), code: b, color: 0x05 }
}

/// The colour of a byte's hexadecimal cell: the palette colour of its high
/// nibble, dark grey where that is black, and near-black for a zero byte.
pub open spec fn hex_color(b: u8, palette: Seq<u32>) -> u32 {
    if b == 0 {
        0x00101010
    } else if palette[(b / 16) as int] == 0 {
        0x00333333
    } else {
        palette[(b / 16) as int]
    }
}

/// The hexadecimal command of dumped byte number `i`: two cells a byte, from row 27.
pub open spec fn hex_cell(i: nat, b: u8, palette: Seq<u32>) -> Draw {
    Draw::TextRgb {
        col: 2 * (i % 40),
        row: 27 + i / 40,
        text: hex_digits(b as nat, 2, true),
        rgb: hex_color(b, palette),
    }
}

/// The commands for the first `n` dumped bytes: for each, its glyph, then its hexadecimal.
pub open spec fn dump_cells(bytes: Seq<u8>, palette: Seq<u32>, n: nat) -> Seq<Draw>
    decreases n,
{
    if n == 0 {
        Seq::empty()
    } else {
        dump_cells(bytes, palette, (n - 1) as nat) + seq![
            glyph_cell((n - 1) as nat, bytes[n - 1]),
            hex_cell((n - 1) as nat, bytes[n - 1], palette),
        ]
    }
}

/// The label that starts each view's title.
pub open spec fn dump_label(mode: u8) -> Seq<u8> {
    if mode == 0 {
        "Memory page $".spec_bytes()
    } else if mode == 1 {
        "VIC $".spec_bytes()
    } else if mode == 2 {
        "CIA $".spec_bytes()
    } else {
        "COLOR $".spec_bytes()
    }
}

/// The last address each view's title names, less the first.
pub open spec fn dump_span(mode: u8) -> nat {
    if mode == 1 {
        0x03F
    } else if mode == 2 {
        0x1FF
    } else {
        0x3FF
    }
}

/// The tag each view shows at the right of its title.
pub open spec fn dump_tag(mode: u8) -> Seq<u8> {
    if mode == 0 {
        "*RAM*".spec_bytes()
    } else if mode == 1 {
        "*VIC*".spec_bytes()
    } else if mode == 2 {
        "*CIA*".spec_bytes()
    } else {
        "*COLOR RAM*".spec_bytes()
    }
}

/// The column of each view's tag.
pub open spec fn dump_tag_col(mode: u8) -> nat {
    if mode == 3 {
        28
    } else {
        34
    }
}

/// The title of a view whose dump starts at `start`: the label and the
/// address range in lower-case hexadecimal, then the tag.
pub open spec fn dump_title(mode: u8, start: u16) -> Seq<Draw> {
    seq![
        Draw::Text {
            col: 0,
            row: 0,
            text: dump_label(mode) + hex_digits(start as nat, 4, false) + "-$".spec_bytes()
                + hex_digits((start + dump_span(mode)) as nat, 4, false),
            color: 0x0A,
        },
        Draw::Text { col: dump_tag_col(mode), row: 0, text: dump_tag(mode), color: 0x0E },
    ]
}

/// The commands of a view's dump.
pub open spec fn dump_draws(mode: u8, start: u16, bytes: Seq<u8>, palette: Seq<u32>) -> Seq<Draw> {
    dump_title(mode, start) + dump_cells(bytes, palette, bytes.len())
}

/// The top and bottom border glyphs of the first `n` columns, top then bottom for each.
pub open spec fn border_rows(n: nat) -> Seq<Draw>
    decreases n,
{
    if n == 0 {
        Seq::empty()
    } else {
        border_rows((n - 1) as nat) + seq![
            Draw::Char { px: 8 * (n - 1) as nat, py: 0, code: 64, color: 0x0B },
            Draw::Char { px: 8 * (n - 1) as nat, py: 8 * 26, code: 64, color: 0x0B },
        ]
    }
}

/// The vertical border glyphs of the first `n` rows, from row 1.
pub open spec fn border_side(n: nat) -> Seq<Draw>
    decreases n,
{
    if n == 0 {
        Seq::empty()
    } else {
        border_side((n - 1) as nat).push(Draw::Char { px: 8 * 40, py: 8 * n, code: 66, color: 0x0B })
    }
}

/// The frame around the dump: horizontal lines above row 1 and at row 26, a
/// vertical line at column 40 between them, and the two junctions.
pub open spec fn border_draws() -> Seq<Draw> {
    border_rows(80) + border_side(25) + seq![
        Draw::Char { px: 8 * 40, py: 0, code: 114, color: 0x0B },
        Draw::Char { px: 8 * 40, py: 8 * 26, code: 113, color: 0x0B },
    ]
}

/// A blank painted over character cell (`col`, `row`).
pub open spec fn blank(col: int, row: int) -> Draw {
    Draw::Text { col: col as nat, row: row as nat, text: " ".spec_bytes(), color: 0 }
}

/// What a change of view paints first: blanks over the glyph area (rows 1-25,
/// columns 0-39) and over rows 28-51 of the hexadecimal area, row by row.
pub open spec fn clear_draws() -> Seq<Draw> {
    blanks(1000, 40, 1) + blanks(1920, 80, 28)
}

/// Blanks over the first `n` cells of an area `width` cells wide whose first row
/// is `row0`, row by row.
pub open spec fn blanks(n: nat, width: nat, row0: nat) -> Seq<Draw>
    decreases n,
{
    if n == 0 {
        Seq::empty()
    } else {
        let i = (n - 1) as nat;
        blanks(i, width, row0).push(blank((i % width) as int, (row0 + i / width) as int))
    }
}

/// The colour of a graphics mode indicator: light red when on, dark grey when off.
pub open spec fn flag_color(on: bool) -> u8 {
    if on {
        0x0A
    } else {
        0x0B
    }
}

/// The graphics mode indicators of row 1: ECM, CHR (neither bitmap nor extended
/// colour mode), BMP and MCM.
pub open spec fn gfx_mode_draws(d011: u8, d016: u8) -> Seq<Draw> {
    let ecm = (d011 / 64) % 2 == 1;
    let mcm = (d016 / 16) % 2 == 1;
    let bmp = (d011 / 32) % 2 == 1;
    seq![
        Draw::Text { col: 52, row: 1, text: "ECM".spec_bytes(), color: flag_color(ecm) },
        Draw::Text { col: 57, row: 1, text: "CHR".spec_bytes(), color: flag_color(!bmp && !ecm) },
        Draw::Text { col: 62, row: 1, text: "BMP".spec_bytes(), color: flag_color(bmp) },
        Draw::Text { col: 67, row: 1, text: "MCM".spec_bytes(), color: flag_color(mcm) },
    ]
}

/// `$` and four upper-case hexadecimal digits.
pub open spec fn word_text(v: int) -> Seq<u8> {
    "$".spec_bytes() + hex_digits(v as nat, 4, true)
}

/// `$` and two upper-case hexadecimal digits.
pub open spec fn byte_text(v: u8) -> Seq<u8> {
    "$".spec_bytes() + hex_digits(v as nat, 2, true)
}

/// The VIC memory layout, rows 3-6: screen, character set and bitmap offsets
/// from $D018, and the bank from $DD00.
pub open spec fn data_draws(d018: u8, dd00: u8) -> Seq<Draw> {
    seq![
        Draw::Text { col: 43, row: 3, text: "Screen: ".spec_bytes(), color: 0x0F },
        Draw::Text { col: 51, row: 3, text: word_text(screen_offset_spec(d018)), color: 0x0E },
        Draw::Text { col: 45, row: 4, text: "Char: ".spec_bytes(), color: 0x0F },
        Draw::Text { col: 51, row: 4, text: word_text(char_offset_spec(d018)), color: 0x0E },
        Draw::Text { col: 43, row: 5, text: "Bitmap: ".spec_bytes(), color: 0x0F },
        Draw::Text { col: 51, row: 5, text: word_text(bitmap_offset_spec(d018)), color: 0x0E },
        Draw::Text { col: 41, row: 6, text: "VIC Bank: ".spec_bytes(), color: 0x0F },
        Draw::Text { col: 51, row: 6, text: word_text(bank_base_spec(dd00)), color: 0x0E },
    ]
}

/// The CPU registers, rows 23-24: PC, A, X, Y and SP in hexadecimal, the status
/// flags in binary.
pub open spec fn cpu_draws(cpu: CpuRegisters) -> Seq<Draw> {
    seq![
        Draw::Text { col: 44, row: 23, text: "PC:".spec_bytes(), color: 0x0F },
        Draw::Text { col: 47, row: 23, text: word_text(cpu.pc as int), color: 0x0E },
        Draw::Text { col: 53, row: 23, text: "A:".spec_bytes(), color: 0x0F },
        Draw::Text { col: 55, row: 23, text: byte_text(cpu.a), color: 0x0E },
        Draw::Text { col: 59, row: 23, text: "X:".spec_bytes(), color: 0x0F },
        Draw::Text { col: 61, row: 23, text: byte_text(cpu.x), color: 0x0E },
        Draw::Text { col: 65, row: 23, text: "Y:".spec_bytes(), color: 0x0F },
        Draw::Text { col: 67, row: 23, text: byte_text(cpu.y), color: 0x0E },
        Draw::Text { col: 71, row: 23, text: "SP:".spec_bytes(), color: 0x0F },
        Draw::Text { col: 74, row: 23, text: byte_text(cpu.sp), color: 0x0E },
        Draw::Text { col: 51, row: 24, text: "NV-BDIZC:".spec_bytes(), color: 0x0F },
        Draw::Text {
            col: 61,
            row: 24,
            text: "[".spec_bytes() + bin_digits(cpu.p as nat, 8) + "]".spec_bytes(),
            color: 0x0E,
        },
    ]
}

impl Debugger {
    #[verifier::type_invariant]
    spec fn inv(self) -> bool {
        &&& self.draw_mode <= 3
        &&& valid_page(self.mempage_offset as int)
    }

    /// The current view: 0 RAM, 1 VIC, 2 CIA, 3 colour RAM.
    pub closed spec fn mode(self) -> u8 {
        self.draw_mode
    }

    /// The RAM page the RAM view shows.
    pub closed spec fn page(self) -> u32 {
        self.mempage_offset
    }

    /// Whether the VIC's debug register flag was set at the last raster update.
    pub closed spec fn display_state(self) -> bool {
        self.vic_display_state
    }

    /// The view of the next frame.
    pub open spec fn frame_mode(self, end_pressed: bool) -> u8 {
        next_mode(self.mode(), end_pressed)
    }

    /// The RAM page of the next frame: the page keys count only in the RAM view.
    pub open spec fn frame_page(self, end_pressed: bool, up: bool, down: bool) -> u32 {
        if self.frame_mode(end_pressed) == 0 {
            next_page(self.page(), up, down)
        } else {
            self.page()
        }
    }

    /// The dump of the next frame.
    pub open spec fn frame_plan(self, end_pressed: bool, up: bool, down: bool) -> DumpPlan {
        let mode = self.frame_mode(end_pressed);
        DumpPlan {
            source: dump_source(mode),
            start: dump_start(mode, self.frame_page(end_pressed, up, down)),
            len: dump_len(mode) as usize,
        }
    }

    /// Every command of the next frame of the debug window, in order: the
    /// border; the blanks of a change of view; the dump of the view; the
    /// graphics mode; the VIC memory layout; the CPU registers.
    pub open spec fn frame_draws(
        self,
        end_pressed: bool,
        up: bool,
        down: bool,
        bytes: Seq<u8>,
        vic: VicRegisters,
        cpu: CpuRegisters,
        palette: Seq<u32>,
    ) -> Seq<Draw> {
        let mode = self.frame_mode(end_pressed);
        let start = dump_start(mode, self.frame_page(end_pressed, up, down));
        border_draws() + (if end_pressed {
            clear_draws()
        } else {
            Seq::empty()
        }) + dump_draws(mode, start, bytes, palette) + gfx_mode_draws(vic.d011, vic.d016)
            + data_draws(vic.d018, vic.dd00) + cpu_draws(cpu)
    }

    /// A debugger showing RAM page 0.
    pub fn new() -> (d: Debugger)
        ensures
            d.mode() == 0,
            d.page() == 0,
            d.display_state() == false,
    {
        Debugger { mempage_offset: 0, vic_display_state: false, draw_mode: 0 }
    }

    /// The current view.
    pub fn draw_mode(&self) -> (m: u8)
        ensures
            m == self.mode(),
            m <= 3,
    {
        proof {
            use_type_invariant(self);
        }
        self.draw_mode
    }

    /// The RAM page the RAM view shows.
    pub fn mempage_offset(&self) -> (o: u32)
        ensures
            o == self.page(),
            valid_page(o as int),
    {
        proof {
            use_type_invariant(self);
        }
        self.mempage_offset
    }

    /// Whether the next frame shows RAM, and so reads the page keys.
    pub fn polls_page_keys(&self, end_pressed: bool) -> (b: bool)
        ensures
            b == (self.frame_mode(end_pressed) == 0),
    {
        proof {
            use_type_invariant(self);
        }
        next_draw_mode(self.draw_mode, end_pressed) == 0
    }

    /// The memory region the next frame shows, given the keys of that frame.
    pub fn dump_plan(&self, end_pressed: bool, page_up: bool, page_down: bool) -> (p: DumpPlan)
        ensures
            p == self.frame_plan(end_pressed, page_up, page_down),
    {
        proof {
            use_type_invariant(self);
        }
        let mode = next_draw_mode(self.draw_mode, end_pressed);
        let offset = if mode == 0 {
            next_mempage_offset(self.mempage_offset, page_up, page_down)
        } else {
            self.mempage_offset
        };
        if mode == 0 {
            DumpPlan { source: MemSource::Ram, start: offset as u16, len: 1000 }
        } else if mode == 1 {
            DumpPlan { source: MemSource::Io, start: 0xD000, len: 64 }
        } else if mode == 2 {
            DumpPlan { source: MemSource::Cpu, start: 0xDC00, len: 512 }
        } else {
            DumpPlan { source: MemSource::Io, start: 0xD800, len: 1000 }
        }
    }

    /// Draws a frame of the debug window: handles the End key (next view, and
    /// the dump area cleared) and, in the RAM view, the page keys; then draws
    /// the border, the dump of `dump` (the bytes of `self.dump_plan(..)`, read
    /// after the keys), the graphics mode and memory layout from `vic`, and the
    /// registers `cpu`. `palette` holds the sixteen C64 colours as 0x00RRGGBB.
    pub fn render(
        &mut self,
        end_pressed: bool,
        page_up: bool,
        page_down: bool,
        dump: &[u8],
        vic: &VicRegisters,
        cpu: &CpuRegisters,
        palette: &[u32],
    ) -> (cmds: Vec<DrawCmd>)
        requires
            dump@.len() == dump_len(old(self).frame_mode(end_pressed)),
            palette@.len() == 16,
        ensures
            final(self).mode() == old(self).frame_mode(end_pressed),
            final(self).mode() == (if end_pressed {
                (old(self).mode() + 1) % 4
            } else {
                old(self).mode() as int
            }),
            final(self).mode() <= 3,
            final(self).page() == old(self).frame_page(end_pressed, page_up, page_down),
            valid_page(final(self).page() as int),
            page_up && page_down ==> final(self).page() == old(self).page(),
            final(self).display_state() == old(self).display_state(),
            draws(cmds@) == old(self).frame_draws(
                end_pressed,
                page_up,
                page_down,
                dump@,
                *vic,
                *cpu,
                palette@,
            ),
    {
        proof {
            use_type_invariant(&*self);
        }
        let mut out: Vec<DrawCmd> = Vec::new();
        draw_border(&mut out);
        if end_pressed {
            self.draw_mode = next_draw_mode(self.draw_mode, true);
            clear_dump(&mut out);
        }
        if self.draw_mode == 0 {
            self.draw_ram(&mut out, page_up, page_down, dump, palette);
        } else if self.draw_mode == 1 {
            self.draw_vic(&mut out, dump, palette);
        } else if self.draw_mode == 2 {
            self.draw_cia(&mut out, dump, palette);
        } else {
            self.draw_color_ram(&mut out, dump, palette);
        }
        draw_gfx_mode(&mut out, vic.d011, vic.d016);
        draw_data(&mut out, vic.d018, vic.dd00);
        draw_cpu(&mut out, cpu);
        assert(draws(out@) =~= old(self).frame_draws(
            end_pressed,
            page_up,
            page_down,
            dump@,
            *vic,
            *cpu,
            palette@,
        ));
        out
    }

    /// The RAM view: moves the page by the page keys, then dumps the 1000
    /// bytes `bytes` read from the RAM bank at the new page.
    pub fn draw_ram(
        &mut self,
        out: &mut Vec<DrawCmd>,
        page_up: bool,
        page_down: bool,
        bytes: &[u8],
        palette: &[u32],
    )
        requires
            bytes@.len() == 1000,
            palette@.len() == 16,
        ensures
            final(self).page() == next_page(old(self).page(), page_up, page_down),
            valid_page(final(self).page() as int),
            page_up && page_down ==> final(self).page() == old(self).page(),
            final(self).mode() == old(self).mode(),
            final(self).display_state() == old(self).display_state(),
            draws(final(out)@) == draws(old(out)@) + dump_draws(
                0,
                final(self).page() as u16,
                bytes@,
                palette@,
            ),
    {
        proof {
            use_type_invariant(&*self);
        }
        self.mempage_offset = next_mempage_offset(self.mempage_offset, page_up, page_down);
        let start = self.mempage_offset as u16;
        let ghost pre = draws(out@);
        draw_dump_title(out, 0, start);
        draw_dump_cells(out, bytes, palette);
        assert(draws(out@) =~= pre + dump_draws(0, start, bytes@, palette@));
    }

    /// The VIC view: dumps the 64 bytes `bytes` read from the I/O bank at $D000.
    pub fn draw_vic(&self, out: &mut Vec<DrawCmd>, bytes: &[u8], palette: &[u32])
        requires
            bytes@.len() == 64,
            palette@.len() == 16,
        ensures
            draws(final(out)@) == draws(old(out)@) + dump_draws(1, 0xD000, bytes@, palette@),
    {
        let ghost pre = draws(out@);
        draw_dump_title(out, 1, 0xD000);
        draw_dump_cells(out, bytes, palette);
        assert(draws(out@) =~= pre + dump_draws(1, 0xD000, bytes@, palette@));
    }

    /// The CIA view: dumps the 512 bytes `bytes` read through the CPU at $DC00.
    pub fn draw_cia(&self, out: &mut Vec<DrawCmd>, bytes: &[u8], palette: &[u32])
        requires
            bytes@.len() == 512,
            palette@.len() == 16,
        ensures
            draws(final(out)@) == draws(old(out)@) + dump_draws(2, 0xDC00, bytes@, palette@),
    {
        let ghost pre = draws(out@);
        draw_dump_title(out, 2, 0xDC00);
        draw_dump_cells(out, bytes, palette);
        assert(draws(out@) =~= pre + dump_draws(2, 0xDC00, bytes@, palette@));
    }

    /// The colour RAM view: dumps the 1000 bytes `bytes` read from the I/O bank at $D800.
    pub fn draw_color_ram(&self, out: &mut Vec<DrawCmd>, bytes: &[u8], palette: &[u32])
        requires
            bytes@.len() == 1000,
            palette@.len() == 16,
        ensures
            draws(final(out)@) == draws(old(out)@) + dump_draws(3, 0xD800, bytes@, palette@),
    {
        let ghost pre = draws(out@);
        draw_dump_title(out, 3, 0xD800);
        draw_dump_cells(out, bytes, palette);
        assert(draws(out@) =~= pre + dump_draws(3, 0xD800, bytes@, palette@));
    }

    /// Marks the beam's position in the raster window: notes whether the VIC's
    /// register-written flag changed since the last call, and returns the pixel
    /// with its background and highlights.
    pub fn update_raster_window(&mut self, beam: &RasterBeam) -> (px: RasterPixel)
        requires
            on_raster(beam.cycle as int, beam.line as int),
        ensures
            final(self).display_state() == beam.reg_written,
            final(self).mode() == old(self).mode(),
            final(self).page() == old(self).page(),
            px.index == raster_index(beam.cycle as int, beam.line as int),
            px.base == (if beam.border_on {
                0x00404040u32
            } else {
                0u32
            }),
            px.overlays@ == raster_overlays(
                old(self).display_state() != beam.reg_written,
                beam.irq_line == beam.line,
                beam.bad_line,
            ),
    {
        proof {
            use_type_invariant(&*self);
        }
        let x = beam.cycle;
        let y = beam.line;
        let is_bad_line = beam.bad_line;
        let is_raster_irq = beam.irq_line == y;
        let is_border = beam.border_on;
        let is_state_changed = self.vic_display_state != beam.reg_written;
        self.vic_display_state = beam.reg_written;
        let border_color: u32 = 0x00404040;
        let bg_color: u32 = 0x00000000;
        let state_color: u32 = 0x00FF0000;
        let raster_color: u32 = 0x000000FF;
        let badline_color: u32 = 0x0000FF00;

        let base = if is_border { border_color } else { bg_color };
        let mut overlays: Vec<Overlay> = Vec::new();
        if is_state_changed {
            overlays.push(Overlay { color: state_color, blend: Blend::Strong });
        }
        if is_raster_irq {
            overlays.push(Overlay { color: raster_color, blend: Blend::Strong });
        }
        if is_bad_line {
            overlays.push(Overlay { color: badline_color, blend: Blend::Half });
        }
        assert(overlays@ =~= raster_overlays(is_state_changed, is_raster_irq, is_bad_line));
        RasterPixel { index: (x - 1 + y * 63) as usize, base, overlays }
    }
}

/// The dump of `n` bytes is two commands a byte: byte `i` is painted as its own
/// glyph (code equal to the byte, for every byte value) in colour 5 at pixel
/// column 8 * (i mod 40), pixel row 8 + 8 * (i div 40), followed by two
/// hexadecimal digits that read back as the byte, at cell column 2 * (i mod 40)
/// of row 27 + i div 40.
pub proof fn law_dump_shows_bytes(bytes: Seq<u8>, palette: Seq<u32>, n: nat)
    requires
        n <= bytes.len(),
    ensures
        dump_cells(bytes, palette, n).len() == 2 * n,
        forall|i: int|
            #![trigger bytes[i]]
            0 <= i < n ==> {
                &&& dump_cells(bytes, palette, n)[2 * i] == Draw::Char {
                    px: (8 * (i % 40)) as nat,
                    py: (8 + 8 * (i / 40)) as nat,
                    code: bytes[i],
                    color: 0x05,
                }
                &&& dump_cells(bytes, palette, n)[2 * i + 1] is TextRgb
                &&& dump_cells(bytes, palette, n)[2 * i + 1]->TextRgb_col == 2 * (i % 40)
                &&& dump_cells(bytes, palette, n)[2 * i + 1]->TextRgb_row == 27 + i / 40
                &&& dump_cells(bytes, palette, n)[2 * i + 1]->TextRgb_text.len() == 2
                &&& hex_value(dump_cells(bytes, palette, n)[2 * i + 1]->TextRgb_text) == bytes[i]
            },
    decreases n,
{
    if n > 0 {
        let m = (n - 1) as nat;
        law_dump_shows_bytes(bytes, palette, m);
        law_hex_cell_reads_back(m, bytes[m as int], palette);
        let c = dump_cells(bytes, palette, n);
        assert forall|i: int|
            #![trigger bytes[i]]
            0 <= i < n implies {
                &&& c[2 * i] == Draw::Char {
                    px: (8 * (i % 40)) as nat,
                    py: (8 + 8 * (i / 40)) as nat,
                    code: bytes[i],
                    color: 0x05,
                }
                &&& c[2 * i + 1] is TextRgb
                &&& c[2 * i + 1]->TextRgb_col == 2 * (i % 40)
                &&& c[2 * i + 1]->TextRgb_row == 27 + i / 40
                &&& c[2 * i + 1]->TextRgb_text.len() == 2
                &&& hex_value(c[2 * i + 1]->TextRgb_text) == bytes[i]
            } by {
            if i < m {
                assert(c[2 * i] == dump_cells(bytes, palette, m)[2 * i]);
                assert(c[2 * i + 1] == dump_cells(bytes, palette, m)[2 * i + 1]);
            }
        }
    }
}

/// Lengths of the recursive command lists.
proof fn lemma_command_lengths(n: nat, width: nat, row0: nat)
    ensures
        border_rows(n).len() == 2 * n,
        border_side(n).len() == n,
        blanks(n, width, row0).len() == n,
    decreases n,
{
    if n > 0 {
        lemma_command_lengths((n - 1) as nat, width, row0);
    }
}

/// In every frame of the debug window, dumped byte `i` is painted as its own
/// glyph (code equal to the byte) and as two hexadecimal digits that read back
/// as the byte: they come right after the border (187 commands), the blanks of
/// a change of view (2920) and the title (2), two commands a byte.
pub proof fn law_frame_shows_dump(
    d: Debugger,
    end_pressed: bool,
    up: bool,
    down: bool,
    bytes: Seq<u8>,
    vic: VicRegisters,
    cpu: CpuRegisters,
    palette: Seq<u32>,
)
    ensures
        forall|i: int|
            #![trigger bytes[i]]
            0 <= i < bytes.len() ==> {
                let f = d.frame_draws(end_pressed, up, down, bytes, vic, cpu, palette);
                let base = 189 + (if end_pressed {
                    2920int
                } else {
                    0int
                });
                &&& f[base + 2 * i] == Draw::Char {
                    px: (8 * (i % 40)) as nat,
                    py: (8 + 8 * (i / 40)) as nat,
                    code: bytes[i],
                    color: 0x05,
                }
                &&& f[base + 2 * i + 1] is TextRgb
                &&& hex_value(f[base + 2 * i + 1]->TextRgb_text) == bytes[i]
            },
{
    let mode = d.frame_mode(end_pressed);
    let start = dump_start(mode, d.frame_page(end_pressed, up, down));
    let head = border_draws() + (if end_pressed {
        clear_draws()
    } else {
        Seq::empty()
    });
    let title = dump_title(mode, start);
    let cells = dump_cells(bytes, palette, bytes.len());
    let tail = gfx_mode_draws(vic.d011, vic.d016) + data_draws(vic.d018, vic.dd00) + cpu_draws(cpu);
    assert(head.len() == 187 + (if end_pressed { 2920int } else { 0int })) by {
        lemma_command_lengths(80, 40, 1);
        lemma_command_lengths(25, 40, 1);
        lemma_command_lengths(1000, 40, 1);
        lemma_command_lengths(1920, 80, 28);
    }
    assert(d.frame_draws(end_pressed, up, down, bytes, vic, cpu, palette) =~= head + (title + cells) + tail);
    law_dump_shows_bytes(bytes, palette, bytes.len());
    assert forall|i: int|
        #![trigger bytes[i]]
        0 <= i < bytes.len() implies {
            &&& (head + (title + cells) + tail)[head.len() + 2 + 2 * i] == cells[2 * i]
            &&& (head + (title + cells) + tail)[head.len() + 2 + 2 * i + 1] == cells[2 * i + 1]
        } by {
        lemma_index_in_middle(head, title, cells, tail, 2 * i);
        lemma_index_in_middle(head, title, cells, tail, 2 * i + 1);
    }
}

/// Indexing into the middle part of a concatenation.
proof fn lemma_index_in_middle(x: Seq<Draw>, t: Seq<Draw>, c: Seq<Draw>, z: Seq<Draw>, j: int)
    requires
        t.len() == 2,
        0 <= j < c.len(),
    ensures
        (x + (t + c) + z)[x.len() + 2 + j] == c[j],
{
}

/// The graphics mode indicators light (colour 0x0A, else 0x0B) exactly when
/// their register bit says so: ECM when $D011 bit 6 is set, BMP when $D011 bit
/// 5 is set, MCM when $D016 bit 4 is set, and CHR when neither bit 5 nor bit 6
/// of $D011 is set.
pub proof fn law_gfx_indicators(d011: u8, d016: u8)
    ensures
        gfx_mode_draws(d011, d016).len() == 4,
        gfx_mode_draws(d011, d016)[0] == (Draw::Text {
            col: 52,
            row: 1,
            text: "ECM".spec_bytes(),
            color: if d011 & 0x40 == 0x40 { 0x0Au8 } else { 0x0Bu8 },
        }),
        gfx_mode_draws(d011, d016)[1] == (Draw::Text {
            col: 57,
            row: 1,
            text: "CHR".spec_bytes(),
            color: if d011 & 0x60 == 0 { 0x0Au8 } else { 0x0Bu8 },
        }),
        gfx_mode_draws(d011, d016)[2] == (Draw::Text {
            col: 62,
            row: 1,
            text: "BMP".spec_bytes(),
            color: if d011 & 0x20 == 0x20 { 0x0Au8 } else { 0x0Bu8 },
        }),
        gfx_mode_draws(d011, d016)[3] == (Draw::Text {
            col: 67,
            row: 1,
            text: "MCM".spec_bytes(),
            color: if d016 & 0x10 == 0x10 { 0x0Au8 } else { 0x0Bu8 },
        }),
{
    assert((d011 & 0x40u8 == 0x40u8) == ((d011 / 64) % 2 == 1)) by (bit_vector);
    assert((d011 & 0x20u8 == 0x20u8) == ((d011 / 32) % 2 == 1)) by (bit_vector);
    assert((d016 & 0x10u8 == 0x10u8) == ((d016 / 16) % 2 == 1)) by (bit_vector);
    assert((d011 & 0x60u8 == 0u8) == ((d011 / 64) % 2 == 0 && (d011 / 32) % 2 == 0)) by (bit_vector);
}

/// The register texts read back as the registers: PC as `$` and four
/// hexadecimal digits, A, X, Y and SP as `$` and two, and the status flags as
/// `[`, the eight bits of P from bit 7 (N) down to bit 0 (C), and `]`.
pub proof fn law_cpu_texts_read_back(cpu: CpuRegisters)
    ensures
        cpu_draws(cpu).len() == 12,
        cpu_draws(cpu)[1]->Text_text.len() == 5,
        cpu_draws(cpu)[1]->Text_text[0] == 36,
        hex_value(cpu_draws(cpu)[1]->Text_text.subrange(1, 5)) == cpu.pc,
        hex_value(cpu_draws(cpu)[3]->Text_text.subrange(1, 3)) == cpu.a,
        hex_value(cpu_draws(cpu)[5]->Text_text.subrange(1, 3)) == cpu.x,
        hex_value(cpu_draws(cpu)[7]->Text_text.subrange(1, 3)) == cpu.y,
        hex_value(cpu_draws(cpu)[9]->Text_text.subrange(1, 3)) == cpu.sp,
        cpu_draws(cpu)[11]->Text_col == 61,
        cpu_draws(cpu)[11]->Text_row == 24,
        cpu_draws(cpu)[11]->Text_text.len() == 10,
        cpu_draws(cpu)[11]->Text_text[0] == 91,
        cpu_draws(cpu)[11]->Text_text[9] == 93,
        bin_value(cpu_draws(cpu)[11]->Text_text.subrange(1, 9)) == cpu.p,
        forall|k: int| 1 <= k < 9 ==> #[trigger] cpu_draws(cpu)[11]->Text_text[k] == 48u8
            || cpu_draws(cpu)[11]->Text_text[k] == 49u8,
{
    reveal_strlit("$");
    reveal_strlit("[");
    reveal_strlit("]");
    assert(pow16(4) == 65536 && pow16(2) == 256) by {
        reveal_with_fuel(pow16, 5);
    }
    assert(pow2(8) == 256) by {
        reveal_with_fuel(pow2, 9);
    }
    law_hex_round_trip(cpu.pc as nat, 4, true);
    law_hex_round_trip(cpu.a as nat, 2, true);
    law_hex_round_trip(cpu.x as nat, 2, true);
    law_hex_round_trip(cpu.y as nat, 2, true);
    law_hex_round_trip(cpu.sp as nat, 2, true);
    law_bin_round_trip(cpu.p as nat, 8);
    vstd::utf8::is_ascii_chars_encode_utf8("$"@);
    vstd::utf8::is_ascii_chars_encode_utf8("["@);
    vstd::utf8::is_ascii_chars_encode_utf8("]"@);
    assert("$".spec_bytes() =~= seq![36u8]);
    assert("[".spec_bytes() =~= seq![91u8]);
    assert("]".spec_bytes() =~= seq![93u8]);
    let w = word_text(cpu.pc as int);
    assert(w.subrange(1, 5) =~= hex_digits(cpu.pc as nat, 4, true));
    assert(byte_text(cpu.a).subrange(1, 3) =~= hex_digits(cpu.a as nat, 2, true));
    assert(byte_text(cpu.x).subrange(1, 3) =~= hex_digits(cpu.x as nat, 2, true));
    assert(byte_text(cpu.y).subrange(1, 3) =~= hex_digits(cpu.y as nat, 2, true));
    assert(byte_text(cpu.sp).subrange(1, 3) =~= hex_digits(cpu.sp as nat, 2, true));
    let t = "[".spec_bytes() + bin_digits(cpu.p as nat, 8) + "]".spec_bytes();
    assert(t.subrange(1, 9) =~= bin_digits(cpu.p as nat, 8));
}

/// The colour of a byte's hexadecimal cell comes from its high nibble (the
/// byte shifted right by four): the palette colour of that nibble, dark grey
/// (0x333333) in place of black, and near-black (0x101010) for a zero byte.
pub proof fn law_hex_cell_color(b: u8, palette: Seq<u32>)
    requires
        palette.len() == 16,
    ensures
        b == 0 ==> hex_color(b, palette) == 0x00101010,
        b != 0 && palette[(b >> 4u8) as int] == 0 ==> hex_color(b, palette) == 0x00333333,
        b != 0 && palette[(b >> 4u8) as int] != 0 ==> hex_color(b, palette) == palette[(b >> 4u8) as int],
{
    assert(b >> 4u8 == b / 16) by (bit_vector);
}

/// The hexadecimal cell of a dumped byte reads back as that byte, in two digits.
pub proof fn law_hex_cell_reads_back(i: nat, b: u8, palette: Seq<u32>)
    ensures
        hex_cell(i, b, palette)->TextRgb_text.len() == 2,
        hex_value(hex_cell(i, b, palette)->TextRgb_text) == b,
{
    assert(pow16(2) == 256) by {
        reveal_with_fuel(pow16, 3);
    }
    law_hex_round_trip(b as nat, 2, true);
}

/// Each view dumps no more bytes than the address range its title names, and
/// the range fits below 64 KiB for every page the RAM view can show.
pub proof fn law_dump_within_title(mode: u8, offset: u32)
    requires
        mode <= 3,
        valid_page(offset as int),
    ensures
        dump_len(mode) <= dump_span(mode) + 1,
        dump_start(mode, offset) + dump_span(mode) <= u16::MAX,
{
}

/// Every frame keeps the debugger's state valid, whatever keys are pressed:
/// End moves to the next of the four views modulo 4; the RAM page stays a whole
/// 1 KiB page below 64 KiB, with its title range below 64 KiB; Page Up and
/// Page Down in one frame cancel out.
pub proof fn law_frame_state(d: Debugger, end_pressed: bool, up: bool, down: bool)
    requires
        d.mode() <= 3,
        valid_page(d.page() as int),
    ensures
        d.frame_mode(end_pressed) == (if end_pressed {
            (d.mode() + 1) % 4
        } else {
            d.mode() as int
        }),
        d.frame_mode(end_pressed) <= 3,
        valid_page(d.frame_page(end_pressed, up, down) as int),
        d.frame_page(end_pressed, up, down) + 0x3FF <= u16::MAX,
        up && down ==> d.frame_page(end_pressed, up, down) == d.page(),
{
}

/// The End key cycles through the four views: each press changes the view, and
/// four presses come back to the start.
pub proof fn law_views_cycle(mode: u8)
    requires
        mode <= 3,
    ensures
        mode_after_end(mode) <= 3,
        mode_after_end(mode) != mode,
        mode_after_end(mode_after_end(mode_after_end(mode_after_end(mode)))) == mode,
{
}

/// Page Up and Page Down undo each other and keep the page a whole page of RAM;
/// pressing both in one frame leaves the page where it was.
pub proof fn law_pages_undo(offset: u32)
    requires
        valid_page(offset as int),
    ensures
        valid_page(page_up(offset) as int),
        valid_page(page_down(offset) as int),
        page_down(page_up(offset)) == offset,
        page_up(page_down(offset)) == offset,
        next_page(offset, true, true) == offset,
{
}

/// The 64 pages of RAM are reached by Page Up from page 0 one after another:
/// the page after `k` presses is `k` KiB, and the 64th press wraps to page 0.
pub proof fn law_pages_wrap(k: nat)
    requires
        k < 64,
    ensures
        page_up((k * 0x400) as u32) == (if k == 63 {
            0
        } else {
            (k + 1) * 0x400
        }),
{
}

/// Each of the first 1000 dumped bytes has a glyph cell of its own in rows
/// 1-25, columns 0-39, and a hexadecimal cell of its own in rows 27-51, and
/// both lie within the debug window.
pub proof fn law_dump_cells_in_place(i: nat, j: nat, b: u8, palette: Seq<u32>)
    requires
        i < 1000,
        j < 1000,
        i != j,
    ensures
        glyph_cell(i, b)->px + 8 <= DEBUG_W,
        8 <= glyph_cell(i, b)->py,
        glyph_cell(i, b)->py + 8 <= 8 * 26,
        (glyph_cell(i, b)->px, glyph_cell(i, b)->py) != (glyph_cell(j, b)->px, glyph_cell(j, b)->py),
        27 <= hex_cell(i, b, palette)->TextRgb_row <= 51,
        hex_cell(i, b, palette)->TextRgb_col + 2 <= 80,
        (hex_cell(i, b, palette)->TextRgb_col, hex_cell(i, b, palette)->TextRgb_row) != (
            hex_cell(j, b, palette)->TextRgb_col,
            hex_cell(j, b, palette)->TextRgb_row,
        ),
{
}

/// Each raster window pixel stands for one beam position: the pixel of cycle
/// `cycle` (1-63) of line `line` lies in row `line`, column `cycle - 1`.
pub proof fn law_raster_pixel_position(cycle: int, line: int)
    requires
        on_raster(cycle, line),
        cycle <= 63,
    ensures
        raster_index(cycle, line) / 63 == line,
        raster_index(cycle, line) % 63 == cycle - 1,
        line < RASTER_H,
{
    assert((cycle - 1 + line * 63) / 63 == line && (cycle - 1 + line * 63) % 63 == cycle - 1)
        by (nonlinear_arith)
        requires
            0 <= cycle - 1 < 63,
            0 <= line,
    ;
}

/// Whether a beam position has a pixel in the raster window.
pub fn on_raster_window(cycle: u16, line: u16) -> (b: bool)
    ensures
        b == on_raster(cycle as int, line as int),
{
    1 <= cycle && (cycle as u32 - 1) + (line as u32) * 63 < (RASTER_W * RASTER_H) as u32
}

/// Appends the hexadecimal command of `byte` at cell (`x_pos`, `y_pos`), coloured
/// from `palette`, the sixteen C64 colours as 0x00RRGGBB.
pub fn draw_hex(out: &mut Vec<DrawCmd>, x_pos: usize, y_pos: usize, byte: u8, palette: &[u32])
    requires
        palette@.len() == 16,
    ensures
        draws(final(out)@) == draws(old(out)@).push(
            Draw::TextRgb {
                col: x_pos as nat,
                row: y_pos as nat,
                text: hex_digits(byte as nat, 2, true),
                rgb: hex_color(byte, palette@),
            },
        ),
{
    let hex_value = hex(byte as u32, 2, true);
    assert(byte >> 4u8 == byte / 16) by (bit_vector);
    let mut base_color = palette[(byte >> 4) as usize];
    if base_color == 0 {
        base_color = 0x00333333;
    }
    if byte == 0 {
        base_color = 0x00101010;
    }
    push_text_rgb(out, x_pos, y_pos, hex_value, base_color);
}

/// Appends the glyph and hexadecimal commands of `bytes`, the dump of a view.
pub fn draw_dump_cells(out: &mut Vec<DrawCmd>, bytes: &[u8], palette: &[u32])
    requires
        bytes@.len() <= 1000,
        palette@.len() == 16,
    ensures
        draws(final(out)@) == draws(old(out)@) + dump_cells(bytes@, palette@, bytes@.len()),
{
    let ghost pre = draws(out@);
    let n = bytes.len();
    for i in 0..n
        invariant
            n == bytes@.len(),
            n <= 1000,
            palette@.len() == 16,
            draws(out@) == pre + dump_cells(bytes@, palette@, i as nat),
    {
        let x = i % 40;
        let y = i / 40;
        push_char(out, 8 * x, 8 + 8 * y, bytes[i], 0x05);
        draw_hex(out, 2 * x, 27 + y, bytes[i], palette);
        assert(dump_cells(bytes@, palette@, (i + 1) as nat) =~= dump_cells(bytes@, palette@, i as nat)
            + seq![glyph_cell(i as nat, bytes@[i as int]), hex_cell(i as nat, bytes@[i as int], palette@)]);
    }
}

/// Appends the title commands of view `mode` whose dump starts at `start`.
pub fn draw_dump_title(out: &mut Vec<DrawCmd>, mode: u8, start: u16)
    requires
        mode <= 3,
        start + dump_span(mode) <= u16::MAX,
    ensures
        draws(final(out)@) == draws(old(out)@) + dump_title(mode, start),
{
    let ghost pre = draws(out@);
    let (label, span, tag, tag_col): (&str, u16, &str, usize) = if mode == 0 {
        ("Memory page $", 0x3FF, "*RAM*", 34)
    } else if mode == 1 {
        ("VIC $", 0x03F, "*VIC*", 34)
    } else if mode == 2 {
        ("CIA $", 0x1FF, "*CIA*", 34)
    } else {
        ("COLOR $", 0x3FF, "*COLOR RAM*", 28)
    };
    let mut title = ascii(label);
    let mut first = hex(start as u32, 4, false);
    title.append(&mut first);
    let mut dash = ascii("-$");
    title.append(&mut dash);
    let mut last = hex((start + span) as u32, 4, false);
    title.append(&mut last);
    push_text(out, 0, 0, title, 0x0A);
    push_text(out, tag_col, 0, ascii(tag), 0x0E);
    assert(draws(out@) =~= pre + dump_title(mode, start));
}


/// Appends the frame around the dump.
pub fn draw_border(out: &mut Vec<DrawCmd>)
    ensures
        draws(final(out)@) == draws(old(out)@) + border_draws(),
{
    let ghost pre = draws(out@);
    for x in 0..80usize
        invariant
            draws(out@) == pre + border_rows(x as nat),
    {
        push_char(out, 8 * x, 0, 64, 0x0B);
        push_char(out, 8 * x, 8 * 26, 64, 0x0B);
        assert(border_rows((x + 1) as nat) =~= border_rows(x as nat) + seq![
            Draw::Char { px: 8 * x as nat, py: 0, code: 64, color: 0x0B },
            Draw::Char { px: 8 * x as nat, py: 8 * 26, code: 64, color: 0x0B },
        ]);
    }
    for y in 1..26usize
        invariant
            draws(out@) == pre + border_rows(80) + border_side((y - 1) as nat),
    {
        push_char(out, 8 * 40, 8 * y, 66, 0x0B);
        assert(draws(out@) =~= pre + border_rows(80) + border_side(y as nat));
    }
    push_char(out, 8 * 40, 0, 114, 0x0B);
    push_char(out, 8 * 40, 8 * 26, 113, 0x0B);
    assert(draws(out@) =~= pre + border_draws());
}

/// Appends a blank over character cell (`x_pos`, `y_pos`).
pub fn clear_char(out: &mut Vec<DrawCmd>, x_pos: usize, y_pos: usize)
    ensures
        draws(final(out)@) == draws(old(out)@).push(blank(x_pos as int, y_pos as int)),
{
    push_text(out, x_pos, y_pos, ascii(" "), 0x00);
}

/// Appends the blanks that clear the dump when the view changes.
pub fn clear_dump(out: &mut Vec<DrawCmd>)
    ensures
        draws(final(out)@) == draws(old(out)@) + clear_draws(),
{
    let ghost pre = draws(out@);
    for i in 0..1000usize
        invariant
            draws(out@) == pre + blanks(i as nat, 40, 1),
    {
        clear_char(out, i % 40, 1 + i / 40);
        assert(draws(out@) =~= pre + blanks((i + 1) as nat, 40, 1));
    }
    for i in 0..1920usize
        invariant
            draws(out@) == pre + blanks(1000, 40, 1) + blanks(i as nat, 80, 28),
    {
        clear_char(out, i % 80, 28 + i / 80);
        assert(draws(out@) =~= pre + blanks(1000, 40, 1) + blanks((i + 1) as nat, 80, 28));
    }
    assert(draws(out@) =~= pre + clear_draws());
}

/// Appends the graphics mode indicators for registers $D011 and $D016.
pub fn draw_gfx_mode(out: &mut Vec<DrawCmd>, d011: u8, d016: u8)
    ensures
        draws(final(out)@) == draws(old(out)@) + gfx_mode_draws(d011, d016),
{
    let ghost pre = draws(out@);
    let m = gfx_mode(d011, d016);
    push_text(out, 52, 1, ascii("ECM"), if m.ecm { 0x0A } else { 0x0B });
    push_text(out, 57, 1, ascii("CHR"), if !m.bmp && !m.ecm { 0x0A } else { 0x0B });
    push_text(out, 62, 1, ascii("BMP"), if m.bmp { 0x0A } else { 0x0B });
    push_text(out, 67, 1, ascii("MCM"), if m.mcm { 0x0A } else { 0x0B });
    assert(draws(out@) =~= pre + gfx_mode_draws(d011, d016));
}

/// `$` and four upper-case hexadecimal digits of `v`.
pub fn word_hex(v: u16) -> (t: Vec<u8>)
    ensures
        t@ == word_text(v as int),
{
    let mut t = ascii("$");
    let mut digits = hex(v as u32, 4, true);
    t.append(&mut digits);
    t
}

/// `$` and two upper-case hexadecimal digits of `v`.
pub fn byte_hex(v: u8) -> (t: Vec<u8>)
    ensures
        t@ == byte_text(v),
{
    let mut t = ascii("$");
    let mut digits = hex(v as u32, 2, true);
    t.append(&mut digits);
    t
}

/// Appends the VIC memory layout for registers $D018 and $DD00.
pub fn draw_data(out: &mut Vec<DrawCmd>, d018: u8, dd00: u8)
    ensures
        draws(final(out)@) == draws(old(out)@) + data_draws(d018, dd00),
{
    let ghost pre = draws(out@);
    push_text(out, 43, 3, ascii("Screen: "), 0x0F);
    push_text(out, 51, 3, word_hex(screen_offset(d018)), 0x0E);
    push_text(out, 45, 4, ascii("Char: "), 0x0F);
    push_text(out, 51, 4, word_hex(char_offset(d018)), 0x0E);
    push_text(out, 43, 5, ascii("Bitmap: "), 0x0F);
    push_text(out, 51, 5, word_hex(bitmap_offset(d018)), 0x0E);
    push_text(out, 41, 6, ascii("VIC Bank: "), 0x0F);
    push_text(out, 51, 6, word_hex(bank_base(dd00)), 0x0E);
    assert(draws(out@) =~= pre + data_draws(d018, dd00));
}

/// Appends the CPU registers.
pub fn draw_cpu(out: &mut Vec<DrawCmd>, cpu: &CpuRegisters)
    ensures
        draws(final(out)@) == draws(old(out)@) + cpu_draws(*cpu),
{
    let ghost pre = draws(out@);
    push_text(out, 44, 23, ascii("PC:"), 0x0F);
    push_text(out, 47, 23, word_hex(cpu.pc), 0x0E);
    push_text(out, 53, 23, ascii("A:"), 0x0F);
    push_text(out, 55, 23, byte_hex(cpu.a), 0x0E);
    push_text(out, 59, 23, ascii("X:"), 0x0F);
    push_text(out, 61, 23, byte_hex(cpu.x), 0x0E);
    push_text(out, 65, 23, ascii("Y:"), 0x0F);
    push_text(out, 67, 23, byte_hex(cpu.y), 0x0E);
    push_text(out, 71, 23, ascii("SP:"), 0x0F);
    push_text(out, 74, 23, byte_hex(cpu.sp), 0x0E);
    push_text(out, 51, 24, ascii("NV-BDIZC:"), 0x0F);
    let mut flags = ascii("[");
    let mut bits = bin(cpu.p as u32, 8);
    flags.append(&mut bits);
    let mut close = ascii("]");
    flags.append(&mut close);
    push_text(out, 61, 24, flags, 0x0E);
    assert(draws(out@) =~= pre + cpu_draws(*cpu));
}

/// The view of a frame, given whether End was pressed.
pub fn next_draw_mode(mode: u8, end_pressed: bool) -> (m: u8)
    requires
        mode <= 3,
    ensures
        m == next_mode(mode, end_pressed),
        m <= 3,
{
    if end_pressed {
        if mode + 1 > 3 {
            0
        } else {
            mode + 1
        }
    } else {
        mode
    }
}

/// The RAM page after the page keys of one frame.
pub fn next_mempage_offset(offset: u32, page_up: bool, page_down: bool) -> (o: u32)
    requires
        valid_page(offset as int),
    ensures
        o == next_page(offset, page_up, page_down),
        valid_page(o as int),
{
    let mut o = offset;
    if page_up {
        o = o + 0x400;
        if o > 0xFC00 {
            o = 0;
        }
    }
    if page_down {
        if o == 0 {
            o = 0x10000;
        }
        o = o - 0x400;
    }
    o
}

} // verus!
