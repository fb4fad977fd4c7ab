//! Drawing commands: what the debugger asks its bitmap font to paint into the
//! debug window's pixel buffer.

use vstd::prelude::*;

verus! {

/// One drawing command, in the units the font takes.
#[derive(Clone, Debug, PartialEq, Eq)]
pub enum DrawCmd {
    /// Paint glyph `code` with its top left corner at pixel (`px`, `py`) in
    /// palette colour `color`.
    Char { px: usize, py: usize, code: u8, color: u8 },
    /// Paint the ASCII `text` starting at character cell (`col`, `row`) in
    /// palette colour `color`.
    Text { col: usize, row: usize, text: Vec<u8>, color: u8 },
    /// Paint the ASCII `text` starting at character cell (`col`, `row`) in the
    /// 0x00RRGGBB colour `rgb`.
    TextRgb { col: usize, row: usize, text: Vec<u8>, rgb: u32 },
}

/// The mathematical value of a drawing command: its text as a sequence.
pub enum Draw {
    Char { px: nat, py: nat, code: u8, color: u8 },
    Text { col: nat, row: nat, text: Seq<u8>, color: u8 },
    TextRgb { col: nat, row: nat, text: Seq<u8>, rgb: u32 },
}

impl View for DrawCmd {
    type V = Draw;

    open spec fn view(&self) -> Draw {
        match self {
            DrawCmd::Char { px, py, code, color } => Draw::Char {
                px: *px as nat,
                py: *py as nat,
                code: *code,
                color: *color,
            },
            DrawCmd::Text { col, row, text, color } => Draw::Text {
                col: *col as nat,
                row: *row as nat,
                text: text@,
                color: *color,
            },
            DrawCmd::TextRgb { col, row, text, rgb } => Draw::TextRgb {
                col: *col as nat,
                row: *row as nat,
                text: text@,
                rgb: *rgb,
            },
        }
    }
}

/// The values of a list of drawing commands.
pub open spec fn draws(cmds: Seq<DrawCmd>) -> Seq<Draw> {
    cmds.map_values(|c: DrawCmd| c@)
}

/// Appending a command appends its value.
pub proof fn lemma_draws_push(cmds: Seq<DrawCmd>, c: DrawCmd)
    ensures
        draws(cmds.push(c)) == draws(cmds).push(c@),
{
    assert(draws(cmds.push(c)) =~= draws(cmds).push(c@));
}

/// Appends a glyph command.
pub fn push_char(out: &mut Vec<DrawCmd>, px: usize, py: usize, code: u8, color: u8)
    ensures
        draws(final(out)@) == draws(old(out)@).push(
            Draw::Char { px: px as nat, py: py as nat, code: code, color: color },
        ),
{
    let c = DrawCmd::Char { px, py, code, color };
    proof {
        lemma_draws_push(out@, c);
    }
    out.push(c);
}

/// Appends a palette-coloured text command.
pub fn push_text(out: &mut Vec<DrawCmd>, col: usize, row: usize, text: Vec<u8>, color: u8)
    ensures
        draws(final(out)@) == draws(old(out)@).push(
            Draw::Text { col: col as nat, row: row as nat, text: text@, color: color },
        ),
{
    let c = DrawCmd::Text { col, row, text, color };
    proof {
        lemma_draws_push(out@, c);
    }
    out.push(c);
}

/// Appends an RGB-coloured text command.
pub fn push_text_rgb(out: &mut Vec<DrawCmd>, col: usize, row: usize, text: Vec<u8>, rgb: u32)
    ensures
        draws(final(out)@) == draws(old(out)@).push(
            Draw::TextRgb { col: col as nat, row: row as nat, text: text@, rgb: rgb },
        ),
{
    let c = DrawCmd::TextRgb { col, row, text, rgb };
    proof {
        lemma_draws_push(out@, c);
    }
    out.push(c);
}

} // verus!
