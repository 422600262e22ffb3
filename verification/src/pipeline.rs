//! The render actor's half of the frame pipeline: it consumes completed
//! frames in production order, keeps exactly one frame as its diff
//! baseline, diffs each arriving frame against that baseline, and then
//! retains the new frame. The handoff itself is a strictly ordered,
//! ownership-transferring channel; this type holds everything the render
//! actor does with what arrives.

use vstd::prelude::*;

use crate::frame::Frame;
use crate::render::DrawOp;
use crate::render::render;
use crate::render::render_spec;

verus! {

/// The state the render actor carries between frames: its diff baseline.
pub struct RenderPipeline {
    pub last: Frame,
}

impl RenderPipeline {
    /// Start the render actor: the baseline is a blank frame, and the first
    /// pass is forced, clearing the screen and painting every cell.
    pub fn start() -> (r: (RenderPipeline, Vec<DrawOp>))
        ensures
            r.0.last.wf(),
            forall|p: int| 0 <= p < crate::frame::NUM_CELLS ==> r.0.last@[p] == ' ',
            r.1@ == render_spec(r.0.last@, r.0.last@, true),
    {
        let blank = Frame::new();
        let ops = render(&blank, &blank, true);
        (RenderPipeline { last: blank }, ops)
    }

    /// Consume the next frame in production order: diff it against the
    /// retained baseline, and make it the new baseline.
    pub fn consume(&mut self, frame: Frame) -> (ops: Vec<DrawOp>)
        requires
            old(self).last.wf(),
            frame.wf(),
        ensures
            final(self).last == frame,
            ops@ == render_spec(old(self).last@, frame@, false),
    {
        let ops = render(&self.last, &frame, false);
        self.last = frame;
        ops
    }
}

} // verus!
