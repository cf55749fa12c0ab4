//! The render surface holder.
//!
//! The holder stands for the pair of GPU handles (backend instance and
//! drawable surface) that the application acquires once, bound to its
//! window. Acquiring the real handles is the host's work; the core records
//! the binding and the diagnostic reports that `resize` and `draw` make.

use vstd::prelude::*;

use crate::events::Action;

verus! {

/// The render surface holder: bound to one window for the whole run.
///
/// `window` is the identity of the window the drawable surface targets.
/// The holder is created once, on first resume, and never recreated.
#[derive(Clone, Copy, Debug, PartialEq, Eq, Structural)]
pub struct State {
    /// Identity of the window the surface is bound to.
    pub window: u64,
}

impl State {
    /// Create a holder bound to the given window.
    pub fn new(window: u64) -> (s: State)
        ensures
            s.window == window,
    {
        State { window }
    }

    /// Accept new physical pixel dimensions.
    ///
    /// The current scope only reports the dimensions; the holder itself is
    /// left unchanged, and the returned action carries the report.
    pub fn resize(&mut self, width: u32, height: u32) -> (r: Action)
        ensures
            *final(self) == *old(self),
            r == (Action::Resize { width, height }),
    {
        Action::Resize { width, height }
    }

    /// Perform one rendering pass.
    ///
    /// The current scope only reports the invocation.
    pub fn draw(&self) -> (r: Action)
        ensures
            r == Action::Draw,
    {
        Action::Draw
    }
}

} // verus!
