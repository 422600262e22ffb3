//! The frame model: a fixed 40 x 20 grid of glyph cells, column-major, blank
//! by default. Text overlays clip silently at the grid edges, and the starry
//! background is a pure function of cell position and tick counter, so equal
//! ticks always reproduce equal backgrounds.

use vstd::prelude::*;

verus! {

/// Width of the grid in columns.
pub const NUM_COLS: usize = 40;

/// Height of the grid in rows.
pub const NUM_ROWS: usize = 20;

/// Number of cells of a frame.
pub const NUM_CELLS: usize = 800;

/// The flat, column-major position of grid cell (x, y).
pub open spec fn idx(x: int, y: int) -> int {
    x * (NUM_ROWS as int) + y
}

/// Distinct grid positions have distinct flat positions.
pub proof fn lemma_idx_injective(i: int, j: int, i2: int, j2: int)
    requires
        0 <= j < NUM_ROWS,
        0 <= j2 < NUM_ROWS,
        idx(i, j) == idx(i2, j2),
    ensures
        i == i2,
        j == j2,
{
}

/// One full grid snapshot of glyph cells, stored column-major.
pub struct Frame {
    pub cells: Vec<char>,
}

impl View for Frame {
    type V = Seq<char>;

    open spec fn view(&self) -> Seq<char> {
        self.cells@
    }
}

impl Frame {
    /// A frame is well formed when it holds exactly one cell per grid
    /// position.
    pub open spec fn wf(self) -> bool {
        self.cells@.len() == NUM_CELLS
    }

    /// The glyph at grid position (x, y).
    pub open spec fn at(self, x: int, y: int) -> char {
        self.cells@[idx(x, y)]
    }

    /// A fresh frame of blank cells.
    pub fn new() -> (f: Frame)
        ensures
            f.wf(),
            forall|p: int| 0 <= p < NUM_CELLS ==> f@[p] == ' ',
    {
        let mut cells: Vec<char> = Vec::new();
        let mut p: usize = 0;
        while p < NUM_CELLS
            invariant
                p <= NUM_CELLS,
                cells@.len() == p,
                forall|q: int| 0 <= q < p ==> cells@[q] == ' ',
            decreases NUM_CELLS - p,
        {
            cells.push(' ');
            p = p + 1;
        }
        Frame { cells }
    }

    /// Read the glyph at (x, y).
    pub fn get(&self, x: usize, y: usize) -> (c: char)
        requires
            self.wf(),
            x < NUM_COLS,
            y < NUM_ROWS,
        ensures
            c == self.at(x as int, y as int),
    {
        self.cells[x * NUM_ROWS + y]
    }

    /// Write the glyph at (x, y); later writes overwrite earlier ones.
    pub fn set(&mut self, x: usize, y: usize, c: char)
        requires
            old(self).wf(),
            x < NUM_COLS,
            y < NUM_ROWS,
        ensures
            final(self).wf(),
            final(self)@ == old(self)@.update(idx(x as int, y as int), c),
            forall|i: int, j: int|
                #![trigger final(self).at(i, j)]
                0 <= i < NUM_COLS && 0 <= j < NUM_ROWS ==> final(self).at(i, j) == (
                if i == x && j == y {
                    c
                } else {
                    old(self).at(i, j)
                }),
    {
        let p: usize = x * NUM_ROWS + y;
        self.cells[p] = c;
        proof {
            assert forall|i: int, j: int|
                0 <= i < NUM_COLS && 0 <= j < NUM_ROWS implies self.at(i, j) == (
            if i == x && j == y {
                c
            } else {
                old(self).at(i, j)
            }) by {
                assert(0 <= idx(i, j) < NUM_CELLS);
                if idx(i, j) == idx(x as int, y as int) {
                    lemma_idx_injective(i, j, x as int, y as int);
                }
            }
        }
    }

    /// Overlay text glyph-by-glyph from (x, y) rightward, silently clipped
    /// at the grid edges: exactly the cells of row y covered by the text and
    /// lying on the grid take the text's glyphs, every other cell is kept.
    pub fn write_text(&mut self, x: usize, y: usize, text: &str)
        requires
            old(self).wf(),
        ensures
            final(self).wf(),
            forall|i: int, j: int|
                #![trigger final(self).at(i, j)]
                0 <= i < NUM_COLS && 0 <= j < NUM_ROWS ==> final(self).at(i, j) == (
                if j == y && x <= i && i - x < text@.len() {
                    text@[i - x]
                } else {
                    old(self).at(i, j)
                }),
    {
        if y >= NUM_ROWS || x >= NUM_COLS {
            return;
        }
        let len: usize = text.unicode_len();
        let room: usize = NUM_COLS - x;
        let mut k: usize = 0;
        while k < len && k < room
            invariant
                old(self).wf(),
                self.wf(),
                x < NUM_COLS,
                y < NUM_ROWS,
                room == NUM_COLS - x,
                len == text@.len(),
                k <= len,
                k <= room,
                forall|i: int, j: int|
                    #![trigger self.at(i, j)]
                    0 <= i < NUM_COLS && 0 <= j < NUM_ROWS ==> self.at(i, j) == (
                    if j == y && x <= i && i - x < k {
                        text@[i - x]
                    } else {
                        old(self).at(i, j)
                    }),
            decreases len - k,
        {
            let c = text.get_char(k);
            self.set(x + k, y, c);
            k = k + 1;
        }
        proof {
            assert forall|i: int, j: int|
                0 <= i < NUM_COLS && 0 <= j < NUM_ROWS implies self.at(i, j) == (
            if j == y && x <= i && i - x < text@.len() {
                text@[i - x]
            } else {
                old(self).at(i, j)
            }) by {
                if j == y && x <= i && i - x < text@.len() && i - x >= k {
                    assert(i >= x + room);
                    assert(false);
                }
            }
        }
    }

    /// Overlay glyphs from (x, y) rightward, exactly as text is overlaid.
    pub fn write_chars(&mut self, x: usize, y: usize, text: &Vec<char>)
        requires
            old(self).wf(),
        ensures
            final(self).wf(),
            forall|i: int, j: int|
                #![trigger final(self).at(i, j)]
                0 <= i < NUM_COLS && 0 <= j < NUM_ROWS ==> final(self).at(i, j) == (
                if j == y && x <= i && i - x < text@.len() {
                    text@[i - x]
                } else {
                    old(self).at(i, j)
                }),
    {
        if y >= NUM_ROWS || x >= NUM_COLS {
            return;
        }
        let len: usize = text.len();
        let room: usize = NUM_COLS - x;
        let mut k: usize = 0;
        while k < len && k < room
            invariant
                old(self).wf(),
                self.wf(),
                x < NUM_COLS,
                y < NUM_ROWS,
                room == NUM_COLS - x,
                len == text@.len(),
                k <= len,
                k <= room,
                forall|i: int, j: int|
                    #![trigger self.at(i, j)]
                    0 <= i < NUM_COLS && 0 <= j < NUM_ROWS ==> self.at(i, j) == (
                    if j == y && x <= i && i - x < k {
                        text@[i - x]
                    } else {
                        old(self).at(i, j)
                    }),
            decreases len - k,
        {
            let c = text[k];
            self.set(x + k, y, c);
            k = k + 1;
        }
        proof {
            assert forall|i: int, j: int|
                0 <= i < NUM_COLS && 0 <= j < NUM_ROWS implies self.at(i, j) == (
            if j == y && x <= i && i - x < text@.len() {
                text@[i - x]
            } else {
                old(self).at(i, j)
            }) by {
                if j == y && x <= i && i - x < text@.len() && i - x >= k {
                    assert(i >= x + room);
                    assert(false);
                }
            }
        }
    }
}

/// The decorative glyph the starry background puts at (x, y) on the given
/// tick: a pure function of position and tick, with no entropy source.
pub open spec fn star_glyph(x: int, y: int, tick: u64) -> char {
    let m = (x * 7 + y * 13 + ((tick % 97) as int) * 3) % 31;
    if m == 0 {
        '.'
    } else if m == 7 {
        '\''
    } else {
        ' '
    }
}

/// Compute the starry-background glyph for one cell.
pub fn star_cell(x: usize, y: usize, tick: u64) -> (c: char)
    requires
        x < NUM_COLS,
        y < NUM_ROWS,
    ensures
        c == star_glyph(x as int, y as int, tick),
{
    let t: usize = (tick % 97) as usize;
    let m: usize = (x * 7 + y * 13 + t * 3) % 31;
    if m == 0 {
        '.'
    } else if m == 7 {
        '\''
    } else {
        ' '
    }
}

/// Fill the whole frame with the deterministic starry background for the
/// given tick: every cell becomes exactly the glyph the pure placement
/// function assigns to its position.
pub fn fill_starry_background(frame: &mut Frame, tick: u64)
    requires
        old(frame).wf(),
    ensures
        final(frame).wf(),
        forall|i: int, j: int|
            0 <= i < NUM_COLS && 0 <= j < NUM_ROWS ==> final(frame).at(i, j) == star_glyph(
                i,
                j,
                tick,
            ),
{
    let mut x: usize = 0;
    while x < NUM_COLS
        invariant
            frame.wf(),
            x <= NUM_COLS,
            forall|i: int, j: int|
                0 <= i < x && 0 <= j < NUM_ROWS ==> frame.at(i, j) == star_glyph(i, j, tick),
        decreases NUM_COLS - x,
    {
        let mut y: usize = 0;
        while y < NUM_ROWS
            invariant
                frame.wf(),
                x < NUM_COLS,
                y <= NUM_ROWS,
                forall|i: int, j: int|
                    0 <= i < x && 0 <= j < NUM_ROWS ==> frame.at(i, j) == star_glyph(i, j, tick),
                forall|j: int| 0 <= j < y ==> frame.at(x as int, j) == star_glyph(
                    x as int,
                    j,
                    tick,
                ),
            decreases NUM_ROWS - y,
        {
            let c = star_cell(x, y, tick);
            frame.set(x, y, c);
            y = y + 1;
        }
        x = x + 1;
    }
}

} // verus!
