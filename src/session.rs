//! The session loop: one advance per tick, then spawning if needed, then
//! negotiation; the first failed advance ends the loop for good.
use vstd::prelude::*;

verus! {

/// What the loop does after an advance of the session.
#[derive(Clone, Copy, Debug, PartialEq, Eq, Structural)]
pub enum LoopAction {
    /// The advance failed: report it and end the loop.
    Stop,
    /// The character is absent: spawn it, then negotiate.
    Spawn,
    /// Negotiate on this tick's state.
    Negotiate,
}

pub struct SessionLoop {
    pub stopped: bool,
}

impl SessionLoop {
    pub fn new() -> (r: SessionLoop)
        ensures
            !r.stopped,
    {
        SessionLoop { stopped: false }
    }

    /// Whether the loop may advance the session again.
    pub fn may_advance(&self) -> (r: bool)
        ensures
            r == !self.stopped,
    {
        !self.stopped
    }

    /// Takes the outcome of one advance and whether the character is
    /// present after it.
    pub fn on_advance(&mut self, advanced: bool, present: bool) -> (r: LoopAction)
        ensures
            final(self).stopped == (old(self).stopped || !advanced),
            final(self).stopped ==> r == LoopAction::Stop,
            !final(self).stopped && !present ==> r == LoopAction::Spawn,
            !final(self).stopped && present ==> r == LoopAction::Negotiate,
    {
        if self.stopped || !advanced {
            self.stopped = true;
            LoopAction::Stop
        } else if !present {
            LoopAction::Spawn
        } else {
            LoopAction::Negotiate
        }
    }
}

} // verus!
