use vstd::prelude::*;

verus! {

/// Detects the transition of a sampled button level from released to
/// pressed. An action driven by an edge fires once per press, however
/// many frames the button is held.
#[derive(Clone, Copy, Debug, PartialEq, Eq, Structural)]
pub struct EdgeTrigger {
    /// The level sampled on the previous frame.
    pub was_pressed: bool,
}

/// Whether a sampled level is a press edge over the previous one.
pub open spec fn spec_edge(prev: bool, level: bool) -> bool {
    level && !prev
}

impl EdgeTrigger {
    /// A trigger that has not yet seen the button pressed.
    pub fn new() -> (t: EdgeTrigger)
        ensures
            !t.was_pressed,
    {
        EdgeTrigger { was_pressed: false }
    }

    /// Feeds one frame's sampled level and reports whether it is a
    /// press edge. The level is remembered for the next frame.
    pub fn sample(&mut self, level: bool) -> (edge: bool)
        ensures
            edge == spec_edge(old(self).was_pressed, level),
            final(self).was_pressed == level,
    {
        let edge = level && !self.was_pressed;
        self.was_pressed = level;
        edge
    }
}

} // verus!
