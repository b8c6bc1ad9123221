//! Animation state, its transitions, and repetition modes.

use vstd::prelude::*;

verus! {

/// State of an animation.
#[derive(Debug, Clone, Copy, PartialEq, Eq, Structural)]
pub enum AnimationState {
    Pending,
    Running,
    Paused,
    Completed,
}

impl AnimationState {
    /// The state after starting or resuming: running.
    pub fn started(self) -> (r: Self)
        ensures
            r == AnimationState::Running,
    {
        AnimationState::Running
    }

    /// The state after pausing: a running animation pauses; an animation
    /// in any other state keeps it.
    pub fn paused(self) -> (r: Self)
        ensures
            self == AnimationState::Running ==> r == AnimationState::Paused,
            self != AnimationState::Running ==> r == self,
    {
        match self {
            AnimationState::Running => AnimationState::Paused,
            other => other,
        }
    }

    /// Whether an animation in this state advances when time passes.
    pub fn advances(self) -> (r: bool)
        ensures
            r == (self == AnimationState::Running),
    {
        match self {
            AnimationState::Running => true,
            _ => false,
        }
    }
}

/// How an animation repeats.
#[derive(Debug, Clone, Copy, PartialEq, Eq, Structural)]
pub enum RepeatMode {
    Once,
    Loop,
    PingPong,
    Count(u32),
}

} // verus!
