use vstd::prelude::*;

verus! {

/// The session's stopwatch: it only runs while not paused.
#[derive(Clone, Copy, Debug, PartialEq, Eq, Structural)]
pub struct GameTimer {
    pub elapsed_ms: u64,
    pub paused: bool,
}

/// The time at which the last session ended, in milliseconds.
#[derive(Clone, Copy, Debug, PartialEq, Eq, Structural)]
pub struct FinalGameTime(pub u64);

/// The stopwatch after `dt_ms` milliseconds; it stops at the largest value.
pub open spec fn ticked_timer(t: GameTimer, dt_ms: int) -> GameTimer {
    if t.paused {
        t
    } else if t.elapsed_ms + dt_ms > u64::MAX {
        GameTimer { elapsed_ms: u64::MAX, ..t }
    } else {
        GameTimer { elapsed_ms: (t.elapsed_ms + dt_ms) as u64, ..t }
    }
}

impl GameTimer {
    /// A stopwatch at zero, paused until the game starts.
    pub fn new() -> (r: GameTimer)
        ensures
            r == (GameTimer { elapsed_ms: 0, paused: true }),
    {
        GameTimer { elapsed_ms: 0, paused: true }
    }

    pub fn pause(&mut self)
        ensures
            *final(self) == (GameTimer { paused: true, ..*old(self) }),
    {
        self.paused = true;
    }

    pub fn unpause(&mut self)
        ensures
            *final(self) == (GameTimer { paused: false, ..*old(self) }),
    {
        self.paused = false;
    }

    /// Lets `dt_ms` milliseconds pass.
    pub fn tick(&mut self, dt_ms: u32)
        ensures
            *final(self) == ticked_timer(*old(self), dt_ms as int),
    {
        if !self.paused {
            self.elapsed_ms = self.elapsed_ms.saturating_add(dt_ms as u64);
        }
    }

    /// The readout: elapsed time in whole hundredths of a second, truncated.
    pub fn hundredths(&self) -> (r: u64)
        ensures
            r == self.elapsed_ms / 10,
    {
        self.elapsed_ms / 10
    }
}

} // verus!
