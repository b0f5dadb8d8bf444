//! The frame submitter's state machine.
//!
//! The GPU device, surface and pipeline live outside the verified core;
//! what is verified here is the state the submitter keeps about them and
//! the per-frame decisions: when the surface must be (re)configured, which
//! batches are submitted, and which are skipped. The backend drives this
//! core and performs on the GPU exactly the action each transition
//! returns.

use vstd::prelude::*;

verus! {

/// Where the submitter stands in its lifecycle: before the GPU device and
/// surface exist, while frames can be drawn, and after the window closed
/// and every GPU resource was released.
#[derive(Clone, Copy, Debug, PartialEq, Eq, Structural)]
pub enum FramePhase {
    Uninitialized,
    Configured,
    TornDown,
}

/// What the backend must do for one draw request: skip it wholesale, or
/// upload the batch and issue one indexed draw call over `index_count`
/// indices.
#[derive(Clone, Copy, Debug, PartialEq, Eq, Structural)]
pub enum DrawPlan {
    Skip,
    Render { index_count: u32 },
}

/// The decision for one draw request: a batch is rendered only in the
/// configured phase and only when it has both vertices and indices —
/// empty batches are skipped wholesale so that no zero-length GPU buffer
/// is ever created.
pub open spec fn draw_plan(phase: FramePhase, n_vertices: int, n_indices: int) -> DrawPlan {
    if phase == FramePhase::Configured && n_vertices > 0 && n_indices > 0 {
        DrawPlan::Render { index_count: n_indices as u32 }
    } else {
        DrawPlan::Skip
    }
}

/// The submitter's verified state: its lifecycle phase and the window size
/// the surface is configured at.
pub struct FrameCore {
    phase: FramePhase,
    width: u32,
    height: u32,
}

impl FrameCore {
    /// The lifecycle phase.
    pub closed spec fn phase(&self) -> FramePhase {
        self.phase
    }

    /// The current window size in pixels.
    pub closed spec fn size(&self) -> (u32, u32) {
        (self.width, self.height)
    }

    /// A new, unconfigured submitter holding the initial window size.
    pub fn new(width: u32, height: u32) -> (c: FrameCore)
        ensures
            c.phase() == FramePhase::Uninitialized,
            c.size() == (width, height),
    {
        FrameCore { phase: FramePhase::Uninitialized, width, height }
    }

    /// The lifecycle phase, for the backend to branch on.
    pub fn current_phase(&self) -> (p: FramePhase)
        ensures
            p == self.phase(),
    {
        self.phase
    }

    /// The current window size, for the backend's surface configuration.
    pub fn current_size(&self) -> (s: (u32, u32))
        ensures
            s == self.size(),
    {
        (self.width, self.height)
    }

    /// Records that the backend acquired the device and configured the
    /// surface at the current size: the submitter accepts draw requests
    /// from here on.
    pub fn configure(&mut self)
        requires
            old(self).phase() == FramePhase::Uninitialized,
        ensures
            final(self).phase() == FramePhase::Configured,
            final(self).size() == old(self).size(),
    {
        self.phase = FramePhase::Configured;
    }

    /// Records a window resize. The new size replaces the stored one in
    /// every phase; the result says whether the backend must reconfigure
    /// the surface now — only a configured surface exists to reconfigure.
    pub fn resize(&mut self, width: u32, height: u32) -> (reconfigure: bool)
        ensures
            final(self).phase() == old(self).phase(),
            final(self).size() == (width, height),
            reconfigure == (old(self).phase() == FramePhase::Configured),
    {
        self.width = width;
        self.height = height;
        match self.phase {
            FramePhase::Configured => true,
            _ => false,
        }
    }

    /// Records the window closing: all GPU resources are released and no
    /// further draw request is accepted.
    pub fn close(&mut self)
        ensures
            final(self).phase() == FramePhase::TornDown,
            final(self).size() == old(self).size(),
    {
        self.phase = FramePhase::TornDown;
    }

    /// Decides one draw request, given the batch's vertex and index
    /// counts: render only when configured and the batch is non-empty.
    /// Surface acquisition comes after this decision and may still fail;
    /// the backend then skips the frame and retries on the next one.
    pub fn plan_draw(&self, n_vertices: usize, n_indices: usize) -> (p: DrawPlan)
        requires
            n_indices <= 0xFFFF_FFFF,
        ensures
            p == draw_plan(self.phase(), n_vertices as int, n_indices as int),
    {
        match self.phase {
            FramePhase::Configured => {
                if n_vertices == 0 || n_indices == 0 {
                    DrawPlan::Skip
                } else {
                    DrawPlan::Render { index_count: n_indices as u32 }
                }
            },
            _ => DrawPlan::Skip,
        }
    }
}

} // verus!
