//! The render pass orchestrator: a target identifier and a logical size.
//!
//! The renderer owns no graphics resources between calls; each render request
//! starts a fresh pass of the state machine in `pass`, whose first action
//! asks the shell to acquire the target's graphics context.

use crate::pass::{RenderAction, RenderState};
use vstd::prelude::*;

verus! {

/// Renders one regular polygon into the render target named by
/// `element_id`, with the given logical viewport size.
#[derive(Debug)]
pub struct TriangleRenderer {
    pub element_id: String,
    pub width: i32,
    pub height: i32,
}

impl TriangleRenderer {
    /// A renderer for the named target and logical size.
    pub fn new(element_id: String, width: i32, height: i32) -> (r: TriangleRenderer)
        ensures
            r.element_id@ == element_id@,
            r.width == width,
            r.height == height,
    {
        TriangleRenderer { element_id, width, height }
    }

    /// Starts one render pass: the initial state of the machine and the first
    /// action for the shell to perform.
    pub fn render_begin(&self) -> (r: (RenderState, RenderAction))
        ensures
            r.0 == (RenderState::AcquiringContext { width: self.width, height: self.height }),
            r.1 is AcquireContext,
            crate::pass::state_inv(r.0),
    {
        (
            RenderState::AcquiringContext { width: self.width, height: self.height },
            RenderAction::AcquireContext,
        )
    }
}

} // verus!
