//! The byte encoding of draw operations for the terminal: each operation
//! becomes the ANSI sequence crossterm defines for it. An empty list of
//! operations encodes to no bytes at all, which is what makes an unchanged
//! frame cost nothing on the wire.

use vstd::prelude::*;

use crate::frame::Frame;
use crate::frame::NUM_CELLS;
use crate::render::cell_changed;
use crate::render::ops_upto;
use crate::render::render;
use crate::render::step_ops;
use crate::render::switch_ops;
use crate::render::Color;
use crate::render::DrawOp;

verus! {

/// The ANSI sequence that moves the cursor to column x, row y.
pub uninterp spec fn move_to_ansi(x: u16, y: u16) -> Seq<u8>;

/// Relies on crossterm's MoveTo command: its ANSI encoding is plain
/// formatting of the two coordinates and depends on them alone. The
/// command prints each coordinate plus one, so the largest value is
/// excluded.
#[verifier::external_body]
fn ansi_move_to(x: u16, y: u16) -> (r: Vec<u8>)
    requires
        x < u16::MAX,
        y < u16::MAX,
    ensures
        r@ == move_to_ansi(x, y),
        r@.len() > 0,
{
    let mut s = String::new();
    crossterm::Command::write_ansi(&crossterm::cursor::MoveTo(x, y), &mut s).unwrap();
    s.into_bytes()
}

/// Relies on crossterm's Clear command: clearing the whole screen writes
/// the fixed control sequence ESC [ 2 J.
#[verifier::external_body]
fn ansi_clear_all() -> (r: Vec<u8>)
    ensures
        r@ == seq![27u8, 91u8, 50u8, 74u8],
{
    let mut s = String::new();
    crossterm::Command::write_ansi(
        &crossterm::terminal::Clear(crossterm::terminal::ClearType::All),
        &mut s,
    ).unwrap();
    s.into_bytes()
}

/// Relies on crossterm's ResetColor command: it writes the fixed control
/// sequence ESC [ 0 m.
#[verifier::external_body]
fn ansi_reset_color() -> (r: Vec<u8>)
    ensures
        r@ == seq![27u8, 91u8, 48u8, 109u8],
{
    let mut s = String::new();
    crossterm::Command::write_ansi(&crossterm::style::ResetColor, &mut s).unwrap();
    s.into_bytes()
}

/// Relies on crossterm's SetForegroundColor command. Nothing is claimed of
/// the bytes: the encoding consults the environment and is empty when ANSI
/// colors are disabled there.
#[verifier::external_body]
fn ansi_set_foreground(c: Color) -> Vec<u8> {
    let tc = match c {
        Color::Green => crossterm::style::Color::Green,
        Color::Red => crossterm::style::Color::Red,
        Color::Cyan => crossterm::style::Color::Cyan,
        Color::Yellow => crossterm::style::Color::Yellow,
        Color::DarkGrey => crossterm::style::Color::DarkGrey,
        Color::Grey => crossterm::style::Color::Grey,
        Color::Black => crossterm::style::Color::Black,
    };
    let mut s = String::new();
    crossterm::Command::write_ansi(&crossterm::style::SetForegroundColor(tc), &mut s).unwrap();
    s.into_bytes()
}

/// Relies on crossterm's SetBackgroundColor command. Nothing is claimed of
/// the bytes, as for the foreground.
#[verifier::external_body]
fn ansi_set_background(c: Color) -> Vec<u8> {
    let tc = match c {
        Color::Green => crossterm::style::Color::Green,
        Color::Red => crossterm::style::Color::Red,
        Color::Cyan => crossterm::style::Color::Cyan,
        Color::Yellow => crossterm::style::Color::Yellow,
        Color::DarkGrey => crossterm::style::Color::DarkGrey,
        Color::Grey => crossterm::style::Color::Grey,
        Color::Black => crossterm::style::Color::Black,
    };
    let mut s = String::new();
    crossterm::Command::write_ansi(&crossterm::style::SetBackgroundColor(tc), &mut s).unwrap();
    s.into_bytes()
}

/// Relies on String::push and str::as_bytes: the bytes of a one-glyph
/// string are exactly the glyph's UTF-8 encoding.
#[verifier::external_body]
fn char_bytes(c: char) -> (r: Vec<u8>)
    ensures
        r@ == vstd::utf8::encode_utf8(seq![c]),
{
    let mut s = String::new();
    s.push(c);
    s.into_bytes()
}

/// Append one buffer to another.
fn append_bytes(dst: &mut Vec<u8>, src: Vec<u8>)
    ensures
        final(dst)@ == old(dst)@ + src@,
{
    let mut src = src;
    let mut k: usize = 0;
    let len: usize = src.len();
    while k < len
        invariant
            k <= len,
            len == src@.len(),
            dst@ == old(dst)@ + src@.subrange(0, k as int),
        decreases len - k,
    {
        let b = src[k];
        dst.push(b);
        proof {
            assert(src@.subrange(0, k + 1).drop_last() =~= src@.subrange(0, k as int));
            assert(dst@ =~= old(dst)@ + src@.subrange(0, k + 1));
        }
        k = k + 1;
    }
    proof {
        assert(src@.subrange(0, len as int) =~= src@);
        assert(dst@ =~= old(dst)@ + src@);
    }
}

/// Encode a render pass for the terminal, operation by operation in order.
/// No operations encode to no bytes: a render pass that painted nothing
/// writes nothing.
pub fn encode_ops(ops: &Vec<DrawOp>) -> (r: Vec<u8>)
    requires
        forall|k: int|
            0 <= k < ops@.len() && (#[trigger] ops@[k]) is MoveTo ==> ops@[k]->MoveTo_0
                < u16::MAX && ops@[k]->MoveTo_1 < u16::MAX,
    ensures
        ops@.len() == 0 ==> r@.len() == 0,
{
    let mut out: Vec<u8> = Vec::new();
    let mut k: usize = 0;
    while k < ops.len()
        invariant
            k <= ops@.len(),
            forall|q: int|
                0 <= q < ops@.len() && (#[trigger] ops@[q]) is MoveTo ==> ops@[q]->MoveTo_0
                    < u16::MAX && ops@[q]->MoveTo_1 < u16::MAX,
            ops@.len() == 0 ==> out@.len() == 0,
        decreases ops@.len() - k,
    {
        let chunk = match ops[k] {
            DrawOp::SetBackground(c) => ansi_set_background(c),
            DrawOp::ClearAll => ansi_clear_all(),
            DrawOp::SetForeground(c) => ansi_set_foreground(c),
            DrawOp::MoveTo(x, y) => ansi_move_to(x, y),
            DrawOp::Print(g) => char_bytes(g),
            DrawOp::ResetColor => ansi_reset_color(),
        };
        append_bytes(&mut out, chunk);
        k = k + 1;
    }
    out
}

/// Every cursor move a scan emits stays inside the grid, so its
/// coordinates are far from the largest screen position.
proof fn lemma_ops_upto_coords(last: Seq<char>, curr: Seq<char>, force: bool, p: int)
    requires
        0 <= p <= NUM_CELLS,
    ensures
        forall|k: int|
            0 <= k < ops_upto(last, curr, force, p).len() && (#[trigger] ops_upto(
                last,
                curr,
                force,
                p,
            )[k]) is MoveTo ==> ops_upto(last, curr, force, p)[k]->MoveTo_0 < u16::MAX
                && ops_upto(last, curr, force, p)[k]->MoveTo_1 < u16::MAX,
    decreases p,
{
    if p > 0 {
        lemma_ops_upto_coords(last, curr, force, p - 1);
        let prefix = ops_upto(last, curr, force, p - 1);
        let step = step_ops(last, curr, force, p - 1);
        let whole = ops_upto(last, curr, force, p);
        assert forall|k: int|
            0 <= k < whole.len() && (#[trigger] whole[k]) is MoveTo implies whole[k]->MoveTo_0
            < u16::MAX && whole[k]->MoveTo_1 < u16::MAX by {
            if k < prefix.len() {
                assert(whole[k] == prefix[k]);
            } else {
                assert(whole[k] == step[k - prefix.len()]);
                if cell_changed(last, curr, force, p - 1) {
                    let sw = switch_ops(last, curr, force, p - 1);
                    if k - prefix.len() < sw.len() {
                        assert(step[k - prefix.len()] == sw[k - prefix.len()]);
                    }
                }
            }
        }
    }
}

/// Render two frames straight to terminal bytes: the diff pass, encoded.
/// When nothing changed and the pass is not forced, zero bytes are written.
pub fn render_bytes(last: &Frame, curr: &Frame, force: bool) -> (r: Vec<u8>)
    requires
        last.wf(),
        curr.wf(),
    ensures
        (!force && last@ == curr@) ==> r@.len() == 0,
{
    let ops = render(last, curr, force);
    proof {
        lemma_ops_upto_coords(last@, curr@, force, NUM_CELLS as int);
        let body = ops_upto(last@, curr@, force, NUM_CELLS as int);
        assert forall|k: int|
            0 <= k < ops@.len() && (#[trigger] ops@[k]) is MoveTo implies ops@[k]->MoveTo_0
            < u16::MAX && ops@[k]->MoveTo_1 < u16::MAX by {
            let pro: int = if force {
                3
            } else {
                0
            };
            if pro <= k < pro + body.len() {
                assert(ops@[k] == body[k - pro]);
            } else if k < pro {
                assert(!(ops@[k] is MoveTo));
            } else {
                assert(ops@[k] == DrawOp::ResetColor);
            }
        }
        if !force && last@ == curr@ {
            crate::render::lemma_render_identical(last@);
        }
    }
    encode_ops(&ops)
}

} // verus!
