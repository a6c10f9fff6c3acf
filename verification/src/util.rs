use vstd::prelude::*;

verus! {

/// Manages game tick rate: a fixed-timestep accumulator over a monotonic
/// millisecond clock, which the caller reads and passes in.
pub struct TickRate {
    /// The clock value seen by the latest `step`.
    pub previous: u64,
    /// Real time elapsed but not yet simulated, in milliseconds.
    pub lag: u64,
    /// The fixed duration of one simulation tick, in milliseconds.
    pub tick_rate: u64,
}

impl TickRate {
    pub fn new(tick_rate: u64, now: u64) -> (r: TickRate)
        ensures
            r.previous == now,
            r.lag == 0,
            r.tick_rate == tick_rate,
    {
        TickRate { previous: now, lag: 0, tick_rate }
    }

    /// The leftover fractional time, usable for render interpolation only.
    pub fn lag(&self) -> (r: u64)
        ensures
            r == self.lag,
    {
        self.lag
    }

    pub fn tick_rate(&self) -> (r: u64)
        ensures
            r == self.tick_rate,
    {
        self.tick_rate
    }

    /// Accounts the wall-clock time elapsed since the previous step. The
    /// clock is monotonic, and the accumulated lag stays within the counter.
    pub fn step(&mut self, now: u64)
        requires
            old(self).previous <= now,
            old(self).lag + (now - old(self).previous) <= u64::MAX,
        ensures
            final(self).previous == now,
            final(self).lag == old(self).lag + (now - old(self).previous),
            final(self).tick_rate == old(self).tick_rate,
    {
        let elapsed = now - self.previous;

        self.previous = now;
        self.lag = self.lag + elapsed;
    }

    /// Whether one more simulation tick is due: if a whole tick of real time
    /// has accumulated, it is consumed from the lag and the simulation must
    /// advance once.
    pub fn should_update(&mut self) -> (r: bool)
        ensures
            final(self).previous == old(self).previous,
            final(self).tick_rate == old(self).tick_rate,
            r == (old(self).lag >= old(self).tick_rate),
            final(self).lag == if old(self).lag >= old(self).tick_rate {
                old(self).lag - old(self).tick_rate
            } else {
                old(self).lag as int
            },
    {
        if self.lag < self.tick_rate {
            return false;
        }

        self.lag = self.lag - self.tick_rate;
        true
    }
}

} // verus!
