//! The phases of a rendered frame, in the order they run.
use vstd::prelude::*;

verus! {

/// A phase of one displayed frame.
#[derive(Clone, Copy, Debug, PartialEq, Eq, Hash, Structural)]
pub enum RenderSystems {
    /// Select the frame slot, wait for its fence and acquire an image.
    Begin,
    /// Record the dispatch and the blit.
    Render,
    /// Submit and present.
    End,
}

/// The label of the per-frame render schedule.
#[derive(Clone, Copy, Debug, PartialEq, Eq, Hash, Structural)]
pub struct Render;

impl Render {
    /// The schedule's phases, chained in the order they run.
    pub fn schedule() -> (r: Vec<RenderSystems>)
        ensures
            r@ == seq![RenderSystems::Begin, RenderSystems::Render, RenderSystems::End],
    {
        let mut r: Vec<RenderSystems> = Vec::new();
        r.push(RenderSystems::Begin);
        r.push(RenderSystems::Render);
        r.push(RenderSystems::End);
        assert(r@ =~= seq![RenderSystems::Begin, RenderSystems::Render, RenderSystems::End]);
        r
    }
}

} // verus!
