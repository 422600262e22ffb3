//! The projectile entity: a shot travels one cell toward the top of the grid
//! every 50 ms, flipping its animation glyph on each travel tick, and once
//! told to explode it burns a single 250 ms fuse that is never reset. It is
//! dead once the fuse has burnt down, or once it sits on the top row.

use vstd::prelude::*;

use crate::frame::Frame;
use crate::frame::NUM_COLS;
use crate::frame::NUM_ROWS;
use crate::timer::Timer;

verus! {

/// Milliseconds between two travel steps of a shot.
pub const TRAVEL_MS: u64 = 50;

/// Milliseconds an explosion stays on screen before the shot is dead.
pub const EXPLOSION_MS: u64 = 250;

/// A projectile at grid position (x, y), travelling upward until it explodes.
pub struct Shot {
    pub x: usize,
    pub y: usize,
    pub exploding: bool,
    pub timer: Timer,
    pub anim_flip: bool,
}

impl Shot {
    /// While travelling the timer runs 50 ms periods; once exploding it runs
    /// a single 250 ms period.
    pub open spec fn wf(self) -> bool {
        &&& self.timer.wf()
        &&& self.timer.duration_ms == if self.exploding { EXPLOSION_MS } else { TRAVEL_MS }
    }

    pub open spec fn new_spec(x: usize, y: usize) -> Shot {
        Shot {
            x,
            y,
            exploding: false,
            timer: Timer::new_spec(TRAVEL_MS),
            anim_flip: false,
        }
    }

    pub fn new(x: usize, y: usize) -> (s: Shot)
        ensures
            s == Shot::new_spec(x, y),
            s.wf(),
    {
        Shot {
            x,
            y,
            exploding: false,
            timer: Timer::new(TRAVEL_MS),
            anim_flip: false,
        }
    }

    /// What one update does: the timer advances; if it just ran out while the
    /// shot was still travelling, the animation flips, the shot moves one
    /// cell up (clamped at the top row) and the travel period starts over.
    pub open spec fn update_spec(self, delta_ms: u64) -> Shot {
        let ticked = self.timer.tick_spec(delta_ms);
        if ticked.just_finished && !self.exploding {
            Shot {
                anim_flip: !self.anim_flip,
                y: if self.y > 0 { (self.y - 1) as usize } else { 0 },
                timer: ticked.reset_spec(),
                ..self
            }
        } else {
            Shot { timer: ticked, ..self }
        }
    }

    pub fn update(&mut self, delta_ms: u64)
        ensures
            *final(self) == old(self).update_spec(delta_ms),
            old(self).wf() ==> final(self).wf(),
    {
        self.timer.tick(delta_ms);
        if self.timer.has_just_finished() && !self.exploding {
            self.anim_flip = !self.anim_flip;
            if self.y > 0 {
                self.y = self.y - 1;
            }
            self.timer.reset();
        }
    }

    /// The state after entering the exploding sub-state: a fresh single-shot
    /// 250 ms fuse that is never reset again.
    pub open spec fn explode_spec(self) -> Shot {
        Shot { exploding: true, timer: Timer::new_spec(EXPLOSION_MS), ..self }
    }

    pub fn explode(&mut self)
        ensures
            *final(self) == old(self).explode_spec(),
            final(self).wf(),
    {
        self.exploding = true;
        self.timer = Timer::new(EXPLOSION_MS);
    }

    /// A shot is dead once its explosion has burnt down, or once it reached
    /// the top row.
    pub open spec fn dead_spec(self) -> bool {
        (self.exploding && self.timer.finished) || self.y == 0
    }

    pub fn dead(&self) -> (r: bool)
        ensures
            r == self.dead_spec(),
    {
        (self.exploding && self.timer.is_finished()) || self.y == 0
    }

    /// The glyph the shot currently shows: `*` while exploding, otherwise
    /// `!` and `|` alternating on each travel tick.
    pub open spec fn glyph_spec(self) -> char {
        if self.exploding {
            '*'
        } else if self.anim_flip {
            '!'
        } else {
            '|'
        }
    }

    pub fn glyph(&self) -> (c: char)
        ensures
            c == self.glyph_spec(),
    {
        if self.exploding {
            '*'
        } else if self.anim_flip {
            '!'
        } else {
            '|'
        }
    }

    /// Put the shot's current glyph at its grid position; every other cell
    /// of the frame is kept.
    pub fn draw(&self, frame: &mut Frame)
        requires
            old(frame).wf(),
            self.x < NUM_COLS,
            self.y < NUM_ROWS,
        ensures
            final(frame).wf(),
            forall|i: int, j: int|
                #![trigger final(frame).at(i, j)]
                0 <= i < NUM_COLS && 0 <= j < NUM_ROWS ==> final(frame).at(i, j) == (
                if i == self.x && j == self.y {
                    self.glyph_spec()
                } else {
                    old(frame).at(i, j)
                }),
    {
        let c = self.glyph();
        frame.set(self.x, self.y, c);
    }
}

/// The shot that results from a sequence of updates with the given elapsed
/// times, applied in order.
pub open spec fn run_updates(s: Shot, deltas: Seq<u64>) -> Shot
    decreases deltas.len(),
{
    if deltas.len() == 0 {
        s
    } else {
        run_updates(s.update_spec(deltas[0]), deltas.drop_first())
    }
}

/// The sum of a sequence of elapsed times.
pub open spec fn sum_of(deltas: Seq<u64>) -> int
    decreases deltas.len(),
{
    if deltas.len() == 0 {
        0
    } else {
        deltas[0] + sum_of(deltas.drop_first())
    }
}

/// How often the animation flag toggles over a sequence of updates.
pub open spec fn toggle_count(s: Shot, deltas: Seq<u64>) -> int
    decreases deltas.len(),
{
    if deltas.len() == 0 {
        0
    } else {
        (if s.timer.tick_spec(deltas[0]).just_finished && !s.exploding { 1int } else { 0int })
            + toggle_count(s.update_spec(deltas[0]), deltas.drop_first())
    }
}

/// No elapsed-time increment overshoots the period boundary it completes:
/// each increment is at most the time the current period still has to run.
pub open spec fn aligned(s: Shot, deltas: Seq<u64>) -> bool
    decreases deltas.len(),
{
    deltas.len() == 0 || {
        &&& deltas[0] <= s.timer.remaining_ms
        &&& aligned(s.update_spec(deltas[0]), deltas.drop_first())
    }
}

/// A travelling shot toggles its animation flag exactly once per 50 ms of
/// accumulated elapsed time, no matter how finely the increments are split,
/// as long as no single increment overshoots a period boundary. Counting
/// from the time already consumed of the current period, the number of
/// toggles is the number of whole 50 ms periods the accumulated time
/// completes, and the flag ends up flipped exactly when that number is odd.
pub proof fn lemma_travel_animation(s: Shot, deltas: Seq<u64>)
    requires
        s.wf(),
        !s.exploding,
        !s.timer.finished,
        s.timer.remaining_ms > 0,
        aligned(s, deltas),
    ensures
        ({
            let consumed = TRAVEL_MS - s.timer.remaining_ms;
            let total = consumed + sum_of(deltas);
            &&& toggle_count(s, deltas) == total / (TRAVEL_MS as int)
            &&& run_updates(s, deltas).anim_flip == if total / (TRAVEL_MS as int) % 2 == 0 {
                s.anim_flip
            } else {
                !s.anim_flip
            }
            &&& !run_updates(s, deltas).exploding
            &&& !run_updates(s, deltas).timer.finished
            &&& run_updates(s, deltas).timer.remaining_ms > 0
            &&& run_updates(s, deltas).wf()
        }),
    decreases deltas.len(),
{
    let consumed = TRAVEL_MS - s.timer.remaining_ms;
    if deltas.len() == 0 {
        assert(consumed / (TRAVEL_MS as int) == 0) by {
            vstd::arithmetic::div_mod::lemma_basic_div(consumed, TRAVEL_MS as int);
        }
    } else {
        let d = deltas[0];
        let s1 = s.update_spec(d);
        let rest = deltas.drop_first();
        lemma_travel_animation(s1, rest);
        let consumed1 = TRAVEL_MS - s1.timer.remaining_ms;
        let total = consumed + sum_of(deltas);
        let total1 = consumed1 + sum_of(rest);
        if d >= s.timer.remaining_ms {
            // the increment lands exactly on the period boundary: one toggle,
            // and the next period starts from zero consumed time
            assert(d == s.timer.remaining_ms);
            assert(consumed1 == 0);
            assert(total == total1 + TRAVEL_MS);
            assert(total / (TRAVEL_MS as int) == total1 / (TRAVEL_MS as int) + 1) by {
                vstd::arithmetic::div_mod::lemma_div_plus_one(total1, TRAVEL_MS as int);
            }
        } else {
            // the increment stays inside the current period: no toggle
            assert(consumed1 == consumed + d);
            assert(total == total1);
        }
    }
}

/// Once `explode` has been called, accumulating 250 ms or more of elapsed
/// time makes the shot dead; at exactly 249 ms it is still alive (as long as
/// it is not sitting on the top row, which kills a shot by itself).
pub proof fn lemma_explosion_fuse(s: Shot, deltas: Seq<u64>)
    ensures
        ({
            let after = run_updates(s.explode_spec(), deltas);
            &&& sum_of(deltas) >= EXPLOSION_MS ==> after.dead_spec()
            &&& (s.y > 0 && sum_of(deltas) < EXPLOSION_MS) ==> !after.dead_spec()
        }),
{
    lemma_fuse_invariant(s.explode_spec(), deltas, 0);
}

/// Invariant of an exploding shot under updates: the remaining fuse time is
/// the full fuse minus the accumulated elapsed time, clamped at zero, the
/// fuse is burnt exactly when the accumulated time has reached it, and the
/// position never changes.
proof fn lemma_fuse_invariant(s: Shot, deltas: Seq<u64>, burnt: int)
    requires
        s.exploding,
        s.timer.duration_ms == EXPLOSION_MS,
        burnt >= 0,
        s.timer.remaining_ms == if burnt >= EXPLOSION_MS { 0int } else { EXPLOSION_MS - burnt },
        s.timer.finished == (burnt >= EXPLOSION_MS),
    ensures
        ({
            let after = run_updates(s, deltas);
            &&& after.exploding
            &&& after.y == s.y
            &&& after.timer.finished == (burnt + sum_of(deltas) >= EXPLOSION_MS)
            &&& after.dead_spec() == (burnt + sum_of(deltas) >= EXPLOSION_MS || s.y == 0)
        }),
    decreases deltas.len(),
{
    if deltas.len() > 0 {
        let d = deltas[0];
        let s1 = s.update_spec(d);
        lemma_fuse_invariant(s1, deltas.drop_first(), burnt + d);
    }
}

} // verus!
