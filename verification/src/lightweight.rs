//! Lightweight mode: the application runs on without its window.

use vstd::prelude::*;

verus! {

/// Whether the application runs without its window, and whether its
/// one-time action has been run.
#[derive(Debug, Clone, Copy, PartialEq, Eq)]
pub struct LightWeightState {
    /// Whether the one-time action has been run.
    pub once_done: bool,
    pub is_lightweight: bool,
}

impl LightWeightState {
    /// Whether the one-time action has been run.
    pub open spec fn has_run(&self) -> bool {
        self.once_done
    }

    pub fn new() -> (state: Self)
        ensures
            !state.has_run(),
            !state.is_lightweight,
    {
        LightWeightState { once_done: false, is_lightweight: false }
    }

    /// Runs `f`, unless an action has been run through this state before.
    pub fn run_once_time<F: FnOnce()>(&mut self, f: F)
        requires
            f.requires(()),
        ensures
            final(self).has_run(),
            final(self).is_lightweight == old(self).is_lightweight,
            !old(self).has_run() ==> f.ensures((), ()),
    {
        if !self.once_done {
            self.once_done = true;
            f();
        }
    }

    /// Turns lightweight mode on or off.
    pub fn set_lightweight_mode(&mut self, value: bool)
        ensures
            final(self).is_lightweight == value,
            final(self).has_run() == old(self).has_run(),
    {
        self.is_lightweight = value;
    }
}

impl Default for LightWeightState {
    fn default() -> (state: Self)
        ensures
            !state.has_run(),
            !state.is_lightweight,
    {
        LightWeightState::new()
    }
}

} // verus!
