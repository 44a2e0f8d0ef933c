//! The repeating countdown that paces the enemy waves.

use vstd::prelude::*;

verus! {

/// A repeating timer over whole nanoseconds.
///
/// `elapsed` is the time since the period last ran out, and `finished` says
/// whether the latest tick ran it out.
#[derive(Clone, Copy, Debug, PartialEq, Eq, Structural)]
pub struct WaveTimer {
    pub period: u64,
    pub elapsed: u64,
    pub finished: bool,
}

impl WaveTimer {
    /// A timer has a period that takes time, and has not yet run it out.
    pub open spec fn wf(self) -> bool {
        0 < self.period && self.elapsed < self.period
    }

    /// Whether a tick of `delta` completes the period at least once.
    pub open spec fn fires(self, delta: u64) -> bool {
        self.elapsed + delta >= self.period
    }

    /// The timer after a tick of `delta`: the time carried over is what is
    /// left once every completed period is taken off.
    pub open spec fn ticked(self, delta: u64) -> WaveTimer {
        WaveTimer {
            period: self.period,
            elapsed: ((self.elapsed + delta) % (self.period as int)) as u64,
            finished: self.fires(delta),
        }
    }

    /// A timer at the start of its period.
    pub fn new(period: u64) -> (t: WaveTimer)
        requires
            period > 0,
        ensures
            t == (WaveTimer { period, elapsed: 0, finished: false }),
            t.wf(),
    {
        WaveTimer { period, elapsed: 0, finished: false }
    }

    /// Whether a tick of `delta` would run the period out.
    pub fn will_fire(&self, delta: u64) -> (fires: bool)
        ensures
            fires == self.fires(delta),
    {
        self.elapsed as u128 + delta as u128 >= self.period as u128
    }

    /// Advances the timer by `delta` and says whether the period ran out.
    /// However many periods `delta` spans, the timer fires once.
    pub fn tick(&mut self, delta: u64) -> (fired: bool)
        requires
            old(self).wf(),
        ensures
            *final(self) == old(self).ticked(delta),
            final(self).wf(),
            fired == old(self).fires(delta),
    {
        let total: u128 = self.elapsed as u128 + delta as u128;
        let period: u128 = self.period as u128;
        self.finished = total >= period;
        self.elapsed = (total % period) as u64;
        self.finished
    }
}

} // verus!
