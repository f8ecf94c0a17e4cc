//! A one-shot countdown clock, the shared shape of the round timer and of the
//! dash and cooldown timers. It accumulates elapsed time up to its duration
//! and reports the single tick on which the duration was reached.
use vstd::prelude::*;

verus! {

/// A non-repeating timer measured in milliseconds. Once finished it stays
/// finished until it is reset.
#[derive(Debug, Clone, Copy, PartialEq, Eq, Structural)]
pub struct GameTimer {
    pub duration_ms: u64,
    pub elapsed_ms: u64,
    pub just_finished: bool,
}

impl GameTimer {
    /// Elapsed time never runs past the duration.
    pub open spec fn wf(&self) -> bool {
        self.elapsed_ms <= self.duration_ms
    }

    pub open spec fn spec_duration_ms(&self) -> u64 {
        self.duration_ms
    }

    pub open spec fn spec_elapsed_ms(&self) -> u64 {
        self.elapsed_ms
    }

    pub open spec fn spec_finished(&self) -> bool {
        self.elapsed_ms >= self.duration_ms
    }

    pub open spec fn spec_just_finished(&self) -> bool {
        self.just_finished
    }

    /// What `tick` leaves behind: elapsed time advances by `dt_ms` but is
    /// capped at the duration.
    pub open spec fn spec_tick(self, dt_ms: u64) -> GameTimer {
        let advanced: int = self.elapsed_ms + dt_ms;
        let capped: u64 = if advanced >= self.duration_ms {
            self.duration_ms
        } else {
            advanced as u64
        };
        GameTimer {
            duration_ms: self.duration_ms,
            elapsed_ms: capped,
            just_finished: !self.spec_finished() && capped >= self.duration_ms,
        }
    }

    pub fn new(duration_ms: u64) -> (t: GameTimer)
        ensures
            t.wf(),
            t.spec_duration_ms() == duration_ms,
            t.spec_elapsed_ms() == 0,
            !t.spec_just_finished(),
    {
        GameTimer { duration_ms, elapsed_ms: 0, just_finished: false }
    }

    /// Advance the clock by `dt_ms`. `just_finished` holds exactly when this
    /// call was the one that reached the duration.
    pub fn tick(&mut self, dt_ms: u64)
        requires
            old(self).wf(),
        ensures
            final(self).wf(),
            *final(self) == old(self).spec_tick(dt_ms),
            final(self).spec_just_finished() <==> (!old(self).spec_finished()
                && final(self).spec_finished()),
    {
        let was_finished = self.elapsed_ms >= self.duration_ms;
        let room = self.duration_ms - self.elapsed_ms;
        if dt_ms >= room {
            self.elapsed_ms = self.duration_ms;
        } else {
            self.elapsed_ms = self.elapsed_ms + dt_ms;
        }
        self.just_finished = !was_finished && self.elapsed_ms >= self.duration_ms;
    }

    /// True on the tick that reached the duration, false before and after.
    pub fn just_finished(&self) -> (r: bool)
        ensures
            r == self.spec_just_finished(),
    {
        self.just_finished
    }

    pub fn finished(&self) -> (r: bool)
        ensures
            r == self.spec_finished(),
    {
        self.elapsed_ms >= self.duration_ms
    }

    pub fn elapsed_ms(&self) -> (r: u64)
        ensures
            r == self.spec_elapsed_ms(),
    {
        self.elapsed_ms
    }

    pub fn duration_ms(&self) -> (r: u64)
        ensures
            r == self.spec_duration_ms(),
    {
        self.duration_ms
    }

    /// Wind the clock back to the start.
    pub fn reset(&mut self)
        ensures
            final(self).wf(),
            final(self).spec_duration_ms() == old(self).spec_duration_ms(),
            final(self).spec_elapsed_ms() == 0,
            !final(self).spec_just_finished(),
    {
        self.elapsed_ms = 0;
        self.just_finished = false;
    }
}

} // verus!
