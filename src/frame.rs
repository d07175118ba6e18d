//! Decisions of the per-frame draw protocol and of surface configuration.
use vstd::prelude::*;
use crate::geometry::{quad_index_seq, quad_indices};

verus! {

/// How acquiring the next presentable image went.
#[derive(Clone, Copy, Debug, PartialEq, Eq, Structural)]
pub enum AcquireOutcome {
    Ready,
    Lost,
    Outdated,
    OutOfMemory,
    Timeout,
}

/// One indexed draw over the quad.
#[derive(Clone, Copy, Debug, PartialEq, Eq, Structural)]
pub struct DrawCall {
    pub first_index: u32,
    pub index_count: u32,
    pub instance_count: u32,
}

/// What the host must do next.
#[derive(Clone, Copy, Debug, PartialEq, Eq, Structural)]
pub enum FrameAction {
    /// Configure the surface to this size.
    Configure { width: u32, height: u32 },
    /// Upload the camera, clear, draw, submit and present.
    Draw(DrawCall),
    /// Stop the run loop.
    Exit,
    /// Report the failure and drop this frame.
    Skip,
    Nothing,
}

/// The presentation surface as last configured, and whether the run goes on.
#[derive(Clone, Copy, Debug, PartialEq, Eq, Structural)]
pub struct Presenter {
    pub width: u32,
    pub height: u32,
    pub running: bool,
}

/// The draw that covers the whole quad once.
pub open spec fn quad_draw_spec() -> DrawCall {
    DrawCall { first_index: 0, index_count: quad_index_seq().len() as u32, instance_count: 1 }
}

pub fn quad_draw() -> (r: DrawCall)
    ensures
        r == quad_draw_spec(),
        r.index_count == 6,
{
    let indices = quad_indices();
    DrawCall { first_index: 0, index_count: indices.len() as u32, instance_count: 1 }
}

/// The action that follows an acquisition from a presenter whose surface was
/// last configured to `width` by `height`.
pub open spec fn acquire_action(p: Presenter, o: AcquireOutcome) -> FrameAction {
    match o {
        AcquireOutcome::Ready => FrameAction::Draw(quad_draw_spec()),
        AcquireOutcome::Lost => FrameAction::Configure { width: p.width, height: p.height },
        AcquireOutcome::Outdated => FrameAction::Configure { width: p.width, height: p.height },
        AcquireOutcome::OutOfMemory => FrameAction::Exit,
        AcquireOutcome::Timeout => FrameAction::Skip,
    }
}

impl Presenter {
    /// A presenter for a surface of the window's size; the host configures the
    /// surface with the returned action.
    pub fn new(width: u32, height: u32) -> (r: (Presenter, FrameAction))
        ensures
            r.0 == (Presenter { width, height, running: true }),
            r.1 == (FrameAction::Configure { width, height }),
    {
        (Presenter { width, height, running: true }, FrameAction::Configure { width, height })
    }

    /// A new surface size. Both sides positive: the surface is configured to
    /// it. A zero side (a minimised window) is ignored.
    pub fn resize(&mut self, width: u32, height: u32) -> (r: FrameAction)
        ensures
            width > 0 && height > 0 ==> *final(self) == (Presenter { width, height, ..*old(self) })
                && r == (FrameAction::Configure { width, height }),
            !(width > 0 && height > 0) ==> *final(self) == *old(self) && r == FrameAction::Nothing,
    {
        if width > 0 && height > 0 {
            self.width = width;
            self.height = height;
            FrameAction::Configure { width, height }
        } else {
            FrameAction::Nothing
        }
    }

    /// The outcome of acquiring the next image. A lost or outdated surface is
    /// configured again at the last known size and the frame retried next
    /// time; running out of memory ends the run; any other failure skips the
    /// frame.
    pub fn after_acquire(&mut self, outcome: AcquireOutcome) -> (r: FrameAction)
        ensures
            r == acquire_action(*old(self), outcome),
            *final(self) == (Presenter { running: old(self).running && outcome != AcquireOutcome::OutOfMemory, ..*old(self) }),
    {
        match outcome {
            AcquireOutcome::Ready => FrameAction::Draw(quad_draw()),
            AcquireOutcome::Lost | AcquireOutcome::Outdated => FrameAction::Configure {
                width: self.width,
                height: self.height,
            },
            AcquireOutcome::OutOfMemory => {
                self.running = false;
                FrameAction::Exit
            },
            AcquireOutcome::Timeout => FrameAction::Skip,
        }
    }
}

} // verus!
