use vstd::prelude::*;

verus! {

/// Whether a timer stops once it has run out or starts over.
#[derive(Clone, Copy, Debug, PartialEq, Eq, Structural)]
pub enum TimerMode {
    Once,
    Repeating,
}

/// A countdown advanced by explicit time steps, in microseconds.
///
/// `finished` is set by the step on which `elapsed` reaches `duration`. A
/// one-shot timer then holds at its duration until it is reset; a repeating
/// timer keeps the remainder and reports `finished` for that step only.
#[derive(Clone, Copy, Debug, PartialEq, Eq, Structural)]
pub struct Timer {
    pub duration: u64,
    pub elapsed: u64,
    pub finished: bool,
    pub mode: TimerMode,
}

impl Timer {
    /// The timer after one step of `dt` microseconds.
    pub open spec fn spec_tick(self, dt: u64) -> Timer {
        if self.mode == TimerMode::Once && self.finished {
            self
        } else {
            let e = if self.elapsed + dt > u64::MAX {
                u64::MAX
            } else {
                (self.elapsed + dt) as u64
            };
            if e >= self.duration {
                Timer {
                    elapsed: if self.mode == TimerMode::Once {
                        self.duration
                    } else if self.duration == 0 {
                        0
                    } else {
                        e % self.duration
                    },
                    finished: true,
                    ..self
                }
            } else {
                Timer { elapsed: e, finished: false, ..self }
            }
        }
    }

    /// A timer of the given duration and mode, not yet started.
    pub open spec fn new_spec(duration: u64, mode: TimerMode) -> Timer {
        Timer { duration, elapsed: 0, finished: false, mode }
    }

    /// The timer started over, with its duration kept.
    pub open spec fn spec_reset(self) -> Timer {
        Timer { elapsed: 0, finished: false, ..self }
    }

    /// A timer of the given duration and mode, not yet started.
    pub fn new(duration: u64, mode: TimerMode) -> (r: Timer)
        ensures
            r == Timer::new_spec(duration, mode),
    {
        Timer { duration, elapsed: 0, finished: false, mode }
    }

    /// Advances the timer by `dt` microseconds.
    pub fn tick(&mut self, dt: u64)
        ensures
            *final(self) == old(self).spec_tick(dt),
    {
        if self.mode == TimerMode::Once && self.finished {
            return;
        }
        let e = self.elapsed.saturating_add(dt);
        if e >= self.duration {
            self.finished = true;
            self.elapsed = if self.mode == TimerMode::Once {
                self.duration
            } else if self.duration == 0 {
                0
            } else {
                e % self.duration
            };
        } else {
            self.elapsed = e;
            self.finished = false;
        }
    }

    /// Whether the last step ran the timer out.
    pub fn finished(&self) -> (r: bool)
        ensures
            r == self.finished,
    {
        self.finished
    }

    /// Starts the timer over.
    pub fn reset(&mut self)
        ensures
            *final(self) == old(self).spec_reset(),
    {
        self.elapsed = 0;
        self.finished = false;
    }

    /// Changes the duration; the time elapsed so far is kept.
    pub fn set_duration(&mut self, duration: u64)
        ensures
            *final(self) == (Timer { duration, ..*old(self) }),
    {
        self.duration = duration;
    }
}

} // verus!
