use vstd::prelude::*;
use crate::grid::{RenderConfig, TilePos, frame_plan_spec};

verus! {

/// Time from one wake of the loop to the next: a cap of about 60 frames a second.
pub const FRAME_INTERVAL_NANOS: u64 = 16_666_000;

/// One second, in nanoseconds.
pub const NANOS_PER_SECOND: u64 = 1_000_000_000;

/// What the window system hands the loop.
#[derive(Clone, Copy, Debug, PartialEq, Eq, Structural)]
pub enum LoopEvent {
    /// The user asked to close the window.
    CloseRequested,
    /// Any other event addressed to the window.
    OtherWindowEvent,
    /// Any event not addressed to the window, such as a wake at the deadline.
    Wake,
}

/// What the loop asks of its host after an event.
#[derive(Clone, Copy, Debug, PartialEq, Eq, Structural)]
pub enum LoopAction {
    /// Stop the loop and release the GPU resources.
    Exit,
    /// Draw nothing; sleep until the given time.
    Wait { until_nanos: u64 },
    /// Draw a frame and present it, then sleep until the given time.
    Redraw { until_nanos: u64 },
}

/// The decisions of the frame loop. Times are in nanoseconds on a clock that
/// does not go backward.
#[derive(Clone, Copy, Debug, PartialEq, Eq, Structural)]
pub struct FrameLoop {
    pub config: RenderConfig,
    /// The scene needs a redraw.
    pub dirty: bool,
    /// The loop has ended; it draws nothing more.
    pub closed: bool,
    /// Frames presented within the first second.
    pub frames: u64,
    /// When the loop started.
    pub started_nanos: u64,
}

pub open spec fn saturating_add_spec(a: u64, b: u64) -> u64 {
    if a + b > u64::MAX {
        u64::MAX
    } else {
        (a + b) as u64
    }
}

pub open spec fn elapsed_spec(started: u64, now: u64) -> nat {
    if now >= started {
        (now - started) as nat
    } else {
        0
    }
}

impl FrameLoop {
    /// A loop that has drawn nothing yet, so its first wake draws a frame.
    pub fn new(config: RenderConfig, started_nanos: u64) -> (r: Self)
        ensures
            r == (FrameLoop { config, dirty: true, closed: false, frames: 0, started_nanos }),
    {
        FrameLoop { config, dirty: true, closed: false, frames: 0, started_nanos }
    }

    /// Decides what to do with one event at time `now_nanos`. A close request
    /// ends the loop for good; any other event schedules the next wake one
    /// frame interval ahead, and a wake redraws when the scene is dirty.
    pub fn step(&mut self, event: LoopEvent, now_nanos: u64) -> (r: LoopAction)
        requires
            now_nanos <= u64::MAX - FRAME_INTERVAL_NANOS,
        ensures
            final(self).config == old(self).config,
            final(self).dirty == old(self).dirty,
            final(self).frames == old(self).frames,
            final(self).started_nanos == old(self).started_nanos,
            final(self).closed == (old(self).closed || event == LoopEvent::CloseRequested),
            old(self).closed || event == LoopEvent::CloseRequested ==> r == LoopAction::Exit,
            !old(self).closed && event == LoopEvent::OtherWindowEvent ==> r == (LoopAction::Wait {
                until_nanos: (now_nanos + FRAME_INTERVAL_NANOS) as u64,
            }),
            !old(self).closed && event == LoopEvent::Wake ==> r == if old(self).dirty {
                LoopAction::Redraw { until_nanos: (now_nanos + FRAME_INTERVAL_NANOS) as u64 }
            } else {
                LoopAction::Wait { until_nanos: (now_nanos + FRAME_INTERVAL_NANOS) as u64 }
            },
    {
        if self.closed {
            return LoopAction::Exit;
        }
        let until_nanos = now_nanos + FRAME_INTERVAL_NANOS;
        match event {
            LoopEvent::CloseRequested => {
                self.closed = true;
                LoopAction::Exit
            },
            LoopEvent::OtherWindowEvent => LoopAction::Wait { until_nanos },
            LoopEvent::Wake => {
                if self.dirty {
                    LoopAction::Redraw { until_nanos }
                } else {
                    LoopAction::Wait { until_nanos }
                }
            },
        }
    }

    /// Records that a frame was presented at `now_nanos`: the scene is clean.
    /// Once a second has passed since the start, returns the number of frames
    /// to report (those counted so far and this one); before that, counts the
    /// frame and returns `None`.
    pub fn presented(&mut self, now_nanos: u64) -> (r: Option<u64>)
        ensures
            final(self).config == old(self).config,
            final(self).closed == old(self).closed,
            final(self).started_nanos == old(self).started_nanos,
            !final(self).dirty,
            elapsed_spec(old(self).started_nanos, now_nanos) >= NANOS_PER_SECOND ==> r == Some(
                saturating_add_spec(old(self).frames, 1),
            ) && final(self).frames == old(self).frames,
            elapsed_spec(old(self).started_nanos, now_nanos) < NANOS_PER_SECOND ==> r.is_none()
                && final(self).frames == saturating_add_spec(old(self).frames, 1),
    {
        self.dirty = false;
        let elapsed = now_nanos.saturating_sub(self.started_nanos);
        if elapsed >= NANOS_PER_SECOND {
            Some(self.frames.saturating_add(1))
        } else {
            self.frames = self.frames.saturating_add(1);
            None
        }
    }

    /// Marks the scene as needing a redraw at the next wake.
    pub fn invalidate(&mut self)
        ensures
            *final(self) == (FrameLoop { dirty: true, ..*old(self) }),
    {
        self.dirty = true;
    }

    /// The tiles to draw for a frame.
    pub fn frame_plan(&self) -> (r: Vec<TilePos>)
        requires
            self.config.wf(),
        ensures
            r@ == frame_plan_spec(self.config),
    {
        self.config.frame_plan()
    }
}

/// Two frames drawn with the same configuration submit the same tiles in the
/// same order.
pub proof fn lemma_steady_frames_identical(a: FrameLoop, b: FrameLoop)
    requires
        a.config == b.config,
    ensures
        frame_plan_spec(a.config) == frame_plan_spec(b.config),
{
}

} // verus!
