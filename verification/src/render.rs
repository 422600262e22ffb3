//! The diff renderer: comparing two frames cell by cell in a fixed
//! column-major order, it emits a draw operation only for the cells that
//! changed (or for all of them when forced), switches the foreground color
//! only when the glyph's color class differs from the active one, and emits
//! nothing at all when nothing changed.

use vstd::prelude::*;

use crate::frame::Frame;
use crate::frame::NUM_CELLS;
use crate::frame::NUM_ROWS;

verus! {

/// The discrete color classes a glyph can be drawn in.
#[derive(Clone, Copy, PartialEq, Eq, Structural, Debug)]
pub enum Color {
    Green,
    Red,
    Cyan,
    Yellow,
    DarkGrey,
    Grey,
    Black,
}

/// One terminal draw operation, in the order the renderer emits them.
#[derive(Clone, Copy, PartialEq, Eq, Structural, Debug)]
pub enum DrawOp {
    SetBackground(Color),
    ClearAll,
    SetForeground(Color),
    MoveTo(u16, u16),
    Print(char),
    ResetColor,
}

/// Whether a character is an ASCII letter or digit.
pub open spec fn is_alnum(c: char) -> bool {
    (48 <= c as u32 && c as u32 <= 57) || (65 <= c as u32 && c as u32 <= 90) || (97 <= c as u32
        && c as u32 <= 122)
}

/// The total glyph-to-color classification: friendly glyphs are green,
/// projectiles red, the boomerang cyan, hits and score text yellow, the
/// decorative stars dark grey, and anything unclassified falls back to grey.
pub open spec fn color_of(c: char) -> Color {
    if c == 'M' || c == 'W' {
        Color::Green
    } else if c == '|' || c == '!' || c == '*' {
        Color::Red
    } else if c == '🪃' {
        Color::Cyan
    } else if c == 'X' || c == '+' {
        Color::Yellow
    } else if c == '.' || c == '\'' {
        Color::DarkGrey
    } else if c == '[' || c == ']' || c == '-' || c == '=' {
        Color::Grey
    } else if is_alnum(c) {
        Color::Yellow
    } else {
        Color::Grey
    }
}

/// Classify one glyph into its color class.
pub fn color_for_cell(c: char) -> (r: Color)
    ensures
        r == color_of(c),
{
    let u = c as u32;
    if c == 'M' || c == 'W' {
        Color::Green
    } else if c == '|' || c == '!' || c == '*' {
        Color::Red
    } else if c == '🪃' {
        Color::Cyan
    } else if c == 'X' || c == '+' {
        Color::Yellow
    } else if c == '.' || c == '\'' {
        Color::DarkGrey
    } else if c == '[' || c == ']' || c == '-' || c == '=' {
        Color::Grey
    } else if (48 <= u && u <= 57) || (65 <= u && u <= 90) || (97 <= u && u <= 122) {
        Color::Yellow
    } else {
        Color::Grey
    }
}

/// Whether the cell at flat position p is to be painted.
pub open spec fn cell_changed(last: Seq<char>, curr: Seq<char>, force: bool, p: int) -> bool {
    force || curr[p] != last[p]
}

/// Column of the flat position p.
pub open spec fn cell_x(p: int) -> int {
    p / (NUM_ROWS as int)
}

/// Row of the flat position p.
pub open spec fn cell_y(p: int) -> int {
    p % (NUM_ROWS as int)
}

/// The foreground color active after the first p cells were scanned: the
/// color of the last painted cell among them, if any.
pub open spec fn fg_after(last: Seq<char>, curr: Seq<char>, force: bool, p: int) -> Option<Color>
    decreases p,
{
    if p <= 0 {
        None
    } else if cell_changed(last, curr, force, p - 1) {
        Some(color_of(curr[p - 1]))
    } else {
        fg_after(last, curr, force, p - 1)
    }
}

/// A cursor move to the cell at flat position p.
pub open spec fn move_op(p: int) -> DrawOp {
    DrawOp::MoveTo(cell_x(p) as u16, cell_y(p) as u16)
}

/// The operation that paints one glyph.
pub open spec fn print_op(c: char) -> DrawOp {
    DrawOp::Print(c)
}

/// The operation that switches the foreground to a glyph's color class.
pub open spec fn switch_op(c: char) -> DrawOp {
    DrawOp::SetForeground(color_of(c))
}

/// The grid position of the cell at flat position p, as the renderer
/// addresses it.
pub open spec fn pos_of(p: int) -> (u16, u16) {
    (cell_x(p) as u16, cell_y(p) as u16)
}

/// The target of a cursor move.
pub open spec fn target_of(op: DrawOp) -> (u16, u16) {
    (op->MoveTo_0, op->MoveTo_1)
}

/// The color switch emitted before painting cell p: empty exactly when the
/// cell's class is already the active color.
pub open spec fn switch_ops(last: Seq<char>, curr: Seq<char>, force: bool, p: int) -> Seq<DrawOp> {
    if fg_after(last, curr, force, p) == Some(color_of(curr[p])) {
        Seq::empty()
    } else {
        seq![switch_op(curr[p])]
    }
}

/// What the scan emits at cell p: nothing when the cell is kept; otherwise
/// the color switch, a cursor move, and the glyph.
pub open spec fn step_ops(last: Seq<char>, curr: Seq<char>, force: bool, p: int) -> Seq<DrawOp> {
    if cell_changed(last, curr, force, p) {
        switch_ops(last, curr, force, p) + seq![move_op(p), print_op(curr[p])]
    } else {
        Seq::empty()
    }
}

/// The draw operations the scan of the first p cells emits, in scan order.
pub open spec fn ops_upto(last: Seq<char>, curr: Seq<char>, force: bool, p: int) -> Seq<DrawOp>
    decreases p,
{
    if p <= 0 {
        Seq::empty()
    } else {
        ops_upto(last, curr, force, p - 1) + step_ops(last, curr, force, p - 1)
    }
}

/// Everything one render pass emits: on force, a screen clear over a base
/// background first; then the per-cell scan; and a final color reset exactly
/// when at least one cell was painted.
pub open spec fn render_spec(last: Seq<char>, curr: Seq<char>, force: bool) -> Seq<DrawOp> {
    let body = ops_upto(last, curr, force, NUM_CELLS as int);
    let prologue: Seq<DrawOp> = if force {
        seq![
            DrawOp::SetBackground(Color::Green),
            DrawOp::ClearAll,
            DrawOp::SetBackground(Color::Black),
        ]
    } else {
        Seq::empty()
    };
    let epilogue: Seq<DrawOp> = if body.len() == 0 {
        Seq::empty()
    } else {
        seq![DrawOp::ResetColor]
    };
    prologue + body + epilogue
}

/// Diff two frames and emit the draw operations that bring the terminal
/// from the last frame to the current one.
pub fn render(last: &Frame, curr: &Frame, force: bool) -> (ops: Vec<DrawOp>)
    requires
        last.wf(),
        curr.wf(),
    ensures
        ops@ == render_spec(last@, curr@, force),
{
    let ghost prologue: Seq<DrawOp> = if force {
        seq![
            DrawOp::SetBackground(Color::Green),
            DrawOp::ClearAll,
            DrawOp::SetBackground(Color::Black),
        ]
    } else {
        Seq::empty()
    };
    let mut ops: Vec<DrawOp> = Vec::new();
    if force {
        ops.push(DrawOp::SetBackground(Color::Green));
        ops.push(DrawOp::ClearAll);
        ops.push(DrawOp::SetBackground(Color::Black));
    }
    proof {
        assert(ops@ =~= prologue + ops_upto(last@, curr@, force, 0));
    }
    let mut current_fg: Option<Color> = None;
    let mut wrote: bool = false;
    let mut p: usize = 0;
    while p < NUM_CELLS
        invariant
            last.wf(),
            curr.wf(),
            p <= NUM_CELLS,
            ops@ == prologue + ops_upto(last@, curr@, force, p as int),
            current_fg == fg_after(last@, curr@, force, p as int),
            wrote == (ops_upto(last@, curr@, force, p as int).len() != 0),
            prologue == (if force {
                seq![
                    DrawOp::SetBackground(Color::Green),
                    DrawOp::ClearAll,
                    DrawOp::SetBackground(Color::Black),
                ]
            } else {
                Seq::<DrawOp>::empty()
            }),
        decreases NUM_CELLS - p,
    {
        let lc = last.cells[p];
        let cc = curr.cells[p];
        if force || cc != lc {
            let desired = color_for_cell(cc);
            let need_switch = match current_fg {
                Option::None => true,
                Option::Some(col) => col != desired,
            };
            if need_switch {
                ops.push(DrawOp::SetForeground(desired));
            }
            ops.push(DrawOp::MoveTo((p / NUM_ROWS) as u16, (p % NUM_ROWS) as u16));
            ops.push(DrawOp::Print(cc));
            current_fg = Some(desired);
            wrote = true;
            proof {
                let pi = p as int;
                assert(cell_changed(last@, curr@, force, pi));
                assert(ops_upto(last@, curr@, force, pi + 1) == ops_upto(
                    last@,
                    curr@,
                    force,
                    pi,
                ) + step_ops(last@, curr@, force, pi));
                assert(ops@ =~= prologue + ops_upto(last@, curr@, force, pi + 1));
            }
        } else {
            proof {
                let pi = p as int;
                assert(!cell_changed(last@, curr@, force, pi));
                assert(ops_upto(last@, curr@, force, pi + 1) =~= ops_upto(
                    last@,
                    curr@,
                    force,
                    pi,
                ));
            }
        }
        p = p + 1;
    }
    if wrote {
        ops.push(DrawOp::ResetColor);
    }
    proof {
        assert(ops@ =~= render_spec(last@, curr@, force));
    }
    ops
}

/// The sequence of positions the emitted operations paint, in order.
pub open spec fn draw_positions(ops: Seq<DrawOp>) -> Seq<(u16, u16)>
    decreases ops.len(),
{
    if ops.len() == 0 {
        Seq::empty()
    } else {
        (if ops[0] is MoveTo {
            seq![target_of(ops[0])]
        } else {
            Seq::<(u16, u16)>::empty()
        }) + draw_positions(ops.drop_first())
    }
}

/// The positions of the first p cells whose glyph differs between the two
/// frames, in scan order.
pub open spec fn changed_positions(last: Seq<char>, curr: Seq<char>, p: int) -> Seq<(u16, u16)>
    decreases p,
{
    if p <= 0 {
        Seq::empty()
    } else {
        changed_positions(last, curr, p - 1) + (if curr[p - 1] != last[p - 1] {
            seq![pos_of(p - 1)]
        } else {
            Seq::<(u16, u16)>::empty()
        })
    }
}

/// The painted positions of a single operation: its target for a cursor
/// move, nothing otherwise.
proof fn lemma_draw_positions_single(op: DrawOp)
    ensures
        draw_positions(seq![op]) == (if op is MoveTo {
            seq![target_of(op)]
        } else {
            Seq::<(u16, u16)>::empty()
        }),
{
    reveal_with_fuel(draw_positions, 2);
    assert(seq![op].drop_first() =~= Seq::<DrawOp>::empty());
    assert(draw_positions(seq![op]) =~= (if op is MoveTo {
        seq![target_of(op)]
    } else {
        Seq::<(u16, u16)>::empty()
    }));
}

/// Painted positions distribute over concatenation of operation sequences.
proof fn lemma_draw_positions_add(a: Seq<DrawOp>, b: Seq<DrawOp>)
    ensures
        draw_positions(a + b) == draw_positions(a) + draw_positions(b),
    decreases a.len(),
{
    if a.len() == 0 {
        assert(a + b =~= b);
        assert(draw_positions(a) + draw_positions(b) =~= draw_positions(b));
    } else {
        assert((a + b).drop_first() =~= a.drop_first() + b);
        lemma_draw_positions_add(a.drop_first(), b);
        assert((a + b)[0] == a[0]);
        assert(draw_positions(a + b) =~= draw_positions(a) + draw_positions(b));
    }
}

/// Without force, what the scan emits at one cell paints exactly that cell
/// if it differs, and nothing otherwise.
proof fn lemma_step_draws(last: Seq<char>, curr: Seq<char>, p: int)
    ensures
        draw_positions(step_ops(last, curr, false, p)) == (if curr[p] != last[p] {
            seq![pos_of(p)]
        } else {
            Seq::<(u16, u16)>::empty()
        }),
{
    reveal_with_fuel(draw_positions, 2);
    if cell_changed(last, curr, false, p) {
        let sw = switch_ops(last, curr, false, p);
        let mv = move_op(p);
        let pr = print_op(curr[p]);
        assert(step_ops(last, curr, false, p) =~= sw + (seq![mv] + seq![pr]));
        lemma_draw_positions_add(sw, seq![mv] + seq![pr]);
        lemma_draw_positions_add(seq![mv], seq![pr]);
        lemma_draw_positions_single(mv);
        lemma_draw_positions_single(pr);
        if sw.len() != 0 {
            lemma_draw_positions_single(switch_op(curr[p]));
            assert(sw =~= seq![switch_op(curr[p])]);
        }
        assert(target_of(mv) == pos_of(p));
        assert(draw_positions(step_ops(last, curr, false, p)) =~= seq![pos_of(p)]);
    } else {
        assert(step_ops(last, curr, false, p) =~= Seq::<DrawOp>::empty());
    }
}

/// Without force, the scan of the first p cells paints exactly the cells
/// that differ, in scan order.
proof fn lemma_ops_upto_draws(last: Seq<char>, curr: Seq<char>, p: int)
    ensures
        draw_positions(ops_upto(last, curr, false, p)) == changed_positions(last, curr, p),
    decreases p,
{
    if p <= 0 {
    } else {
        lemma_ops_upto_draws(last, curr, p - 1);
        lemma_draw_positions_add(
            ops_upto(last, curr, false, p - 1),
            step_ops(last, curr, false, p - 1),
        );
        lemma_step_draws(last, curr, p - 1);
        assert(draw_positions(ops_upto(last, curr, false, p)) =~= changed_positions(
            last,
            curr,
            p,
        ));
    }
}

/// Diffing a frame against itself without force emits nothing at all.
pub proof fn lemma_render_identical(f: Seq<char>)
    ensures
        render_spec(f, f, false) == Seq::<DrawOp>::empty(),
{
    lemma_ops_upto_identical(f, NUM_CELLS as int);
    assert(render_spec(f, f, false) =~= Seq::<DrawOp>::empty());
}

proof fn lemma_ops_upto_identical(f: Seq<char>, p: int)
    ensures
        ops_upto(f, f, false, p) == Seq::<DrawOp>::empty(),
    decreases p,
{
    if p > 0 {
        lemma_ops_upto_identical(f, p - 1);
        assert(step_ops(f, f, false, p - 1) =~= Seq::<DrawOp>::empty());
        assert(ops_upto(f, f, false, p) =~= Seq::<DrawOp>::empty());
    }
}

/// Without force, a render pass paints exactly the positions at which the
/// two frames differ: one cursor move per differing cell, in scan order,
/// and no others.
pub proof fn lemma_render_paints_exactly_diff(last: Seq<char>, curr: Seq<char>)
    ensures
        draw_positions(render_spec(last, curr, false)) == changed_positions(
            last,
            curr,
            NUM_CELLS as int,
        ),
{
    let body = ops_upto(last, curr, false, NUM_CELLS as int);
    lemma_ops_upto_draws(last, curr, NUM_CELLS as int);
    let epilogue: Seq<DrawOp> = if body.len() == 0 {
        Seq::empty()
    } else {
        seq![DrawOp::ResetColor]
    };
    lemma_draw_positions_add(body, epilogue);
    if epilogue.len() != 0 {
        lemma_draw_positions_single(DrawOp::ResetColor);
        assert(epilogue =~= seq![DrawOp::ResetColor]);
    }
    assert(draw_positions(epilogue) =~= Seq::<(u16, u16)>::empty());
    assert(render_spec(last, curr, false) =~= body + epilogue);
    assert(draw_positions(render_spec(last, curr, false)) =~= changed_positions(
        last,
        curr,
        NUM_CELLS as int,
    ));
}

} // verus!
