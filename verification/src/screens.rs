//! The state-specific frame content: menu, pause and end-screen overlays,
//! and the score line at the top of a playing frame. Each builder overlays
//! its text on whatever the frame already holds; later writes win.

use vstd::prelude::*;

use crate::frame::Frame;
use crate::frame::NUM_COLS;
use crate::frame::NUM_ROWS;
use crate::score::dec_digits;

verus! {

/// The menu overlay: the title and the start/exit instructions.
pub fn draw_menu(frame: &mut Frame)
    requires
        old(frame).wf(),
    ensures
        final(frame).wf(),
        forall|i: int, j: int|
            #![trigger final(frame).at(i, j)]
            0 <= i < NUM_COLS && 0 <= j < NUM_ROWS ==> final(frame).at(i, j) == (
            if j == 8 && 8 <= i && i - 8 < "INVADERS"@.len() {
                "INVADERS"@[i - 8]
            } else if j == 10 && 4 <= i && i - 4 < "+----------------------+"@.len() {
                "+----------------------+"@[i - 4]
            } else if j == 11 && 4 <= i && i - 4 < "|  Press SPACE/ENTER  |"@.len() {
                "|  Press SPACE/ENTER  |"@[i - 4]
            } else if j == 12 && 4 <= i && i - 4 < "|        to start      |"@.len() {
                "|        to start      |"@[i - 4]
            } else if j == 13 && 4 <= i && i - 4 < "|   ESC or Q to exit   |"@.len() {
                "|   ESC or Q to exit   |"@[i - 4]
            } else if j == 14 && 4 <= i && i - 4 < "+----------------------+"@.len() {
                "+----------------------+"@[i - 4]
            } else {
                old(frame).at(i, j)
            }),
{
    frame.write_text(8, 8, "INVADERS");
    frame.write_text(4, 10, "+----------------------+");
    frame.write_text(4, 11, "|  Press SPACE/ENTER  |");
    frame.write_text(4, 12, "|        to start      |");
    frame.write_text(4, 13, "|   ESC or Q to exit   |");
    frame.write_text(4, 14, "+----------------------+");
}

/// The pause overlay.
pub fn draw_paused(frame: &mut Frame)
    requires
        old(frame).wf(),
    ensures
        final(frame).wf(),
        forall|i: int, j: int|
            #![trigger final(frame).at(i, j)]
            0 <= i < NUM_COLS && 0 <= j < NUM_ROWS ==> final(frame).at(i, j) == (
            if j == 9 && 12 <= i && i - 12 < "[ PAUSED ]"@.len() {
                "[ PAUSED ]"@[i - 12]
            } else if j == 10 && 5 <= i && i - 5 < "Press P to resume"@.len() {
                "Press P to resume"@[i - 5]
            } else {
                old(frame).at(i, j)
            }),
{
    frame.write_text(12, 9, "[ PAUSED ]");
    frame.write_text(5, 10, "Press P to resume");
}

/// The end-screen overlay: the announcement and the retry/exit line.
pub fn draw_end(frame: &mut Frame, won: bool)
    requires
        old(frame).wf(),
    ensures
        final(frame).wf(),
        forall|i: int, j: int|
            #![trigger final(frame).at(i, j)]
            0 <= i < NUM_COLS && 0 <= j < NUM_ROWS ==> final(frame).at(i, j) == (
            {
                let msg = if won {
                    "YOU WIN!"@
                } else {
                    "GAME OVER"@
                };
                if j == 8 && 10 <= i && i - 10 < msg.len() {
                    msg[i - 10]
                } else if j == 10 && 6 <= i && i - 6 < "Press SPACE to retry, ESC to exit"@.len() {
                    "Press SPACE to retry, ESC to exit"@[i - 6]
                } else {
                    old(frame).at(i, j)
                }
            }),
{
    let msg = if won {
        "YOU WIN!"
    } else {
        "GAME OVER"
    };
    frame.write_text(10, 8, msg);
    frame.write_text(6, 10, "Press SPACE to retry, ESC to exit");
}

/// The score line of a playing frame.
pub open spec fn hud_seq(score: u32, high: u32) -> Seq<char> {
    "Score: "@ + dec_digits(score as int) + "  High: "@ + dec_digits(high as int)
}

/// The decimal digits of the hostile count, zero-padded to two places.
pub open spec fn padded2(n: int) -> Seq<char> {
    if n < 10 {
        seq!['0'] + dec_digits(n)
    } else {
        dec_digits(n)
    }
}

/// The hostile-count line of a playing frame.
pub open spec fn invaders_seq(count: u32) -> Seq<char> {
    "Invaders: "@ + padded2(count as int)
}

/// Append a text's glyphs to a character buffer.
fn append_str(v: &mut Vec<char>, s: &str)
    ensures
        final(v)@ == old(v)@ + s@,
{
    let len: usize = s.unicode_len();
    let mut k: usize = 0;
    while k < len
        invariant
            k <= len,
            len == s@.len(),
            v@ == old(v)@ + s@.subrange(0, k as int),
        decreases len - k,
    {
        let c = s.get_char(k);
        v.push(c);
        proof {
            assert(s@.subrange(0, k + 1).drop_last() =~= s@.subrange(0, k as int));
            assert(v@ =~= old(v)@ + s@.subrange(0, k + 1));
        }
        k = k + 1;
    }
    proof {
        assert(s@.subrange(0, len as int) =~= s@);
        assert(v@ =~= old(v)@ + s@);
    }
}

/// Build the score line.
pub fn build_hud(score: u32, high: u32) -> (v: Vec<char>)
    ensures
        v@ == hud_seq(score, high),
{
    let mut v: Vec<char> = Vec::new();
    append_str(&mut v, "Score: ");
    let mut d = crate::score::decimal_chars(score);
    v.append(&mut d);
    append_str(&mut v, "  High: ");
    let mut h = crate::score::decimal_chars(high);
    v.append(&mut h);
    proof {
        assert(v@ =~= hud_seq(score, high));
    }
    v
}

/// Build the hostile-count line.
pub fn build_invader_count(count: u32) -> (v: Vec<char>)
    ensures
        v@ == invaders_seq(count),
{
    let mut v: Vec<char> = Vec::new();
    append_str(&mut v, "Invaders: ");
    if count < 10 {
        v.push('0');
    }
    let mut d = crate::score::decimal_chars(count);
    v.append(&mut d);
    proof {
        assert(v@ =~= invaders_seq(count));
    }
    v
}

/// Overlay the heads-up display on a playing frame: the score line from
/// column 1 and the hostile count from column 26, the latter overwriting
/// the former where the two overlap.
pub fn draw_hud(frame: &mut Frame, score: u32, high: u32, count: u32)
    requires
        old(frame).wf(),
    ensures
        final(frame).wf(),
        forall|i: int, j: int|
            #![trigger final(frame).at(i, j)]
            0 <= i < NUM_COLS && 0 <= j < NUM_ROWS ==> final(frame).at(i, j) == (
            if j == 0 && 26 <= i && i - 26 < invaders_seq(count).len() {
                invaders_seq(count)[i - 26]
            } else if j == 0 && 1 <= i && i - 1 < hud_seq(score, high).len() {
                hud_seq(score, high)[i - 1]
            } else {
                old(frame).at(i, j)
            }),
{
    let hud = build_hud(score, high);
    frame.write_chars(1, 0, &hud);
    let inv = build_invader_count(count);
    frame.write_chars(26, 0, &inv);
}

} // verus!
