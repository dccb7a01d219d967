//! A repeating timer over accumulated time, for cadences that must not
//! depend on the frame rate.

use vstd::prelude::*;

verus! {

/// A timer that fires once per `interval` of accumulated time and carries
/// the remainder over, so that long and short ticks add up to the same
/// cadence. Times are in nanoseconds.
#[derive(Clone, Copy, Debug)]
pub struct Timer {
    interval: u64,
    elapsed: u64,
}

impl Timer {
    #[verifier::type_invariant]
    spec fn inv(self) -> bool {
        0 < self.interval && self.elapsed < self.interval
    }

    /// Time between two firings.
    pub closed spec fn interval(&self) -> nat {
        self.interval as nat
    }

    /// Time accumulated since the last firing; always less than the interval.
    pub closed spec fn elapsed(&self) -> nat {
        self.elapsed as nat
    }

    /// How often the timer fires when `delta` is added to it.
    pub open spec fn firings(&self, delta: u64) -> int {
        (self.elapsed() + delta) / (self.interval() as int)
    }

    /// What the timer has accumulated after `delta` was added to it.
    pub open spec fn carried(&self, delta: u64) -> int {
        (self.elapsed() + delta) % (self.interval() as int)
    }

    /// A timer with nothing accumulated; there is none for an interval of
    /// zero.
    pub fn new(interval: u64) -> (timer: Option<Timer>)
        ensures
            timer is None <==> interval == 0,
            timer matches Some(t) ==> t.interval() == interval && t.elapsed() == 0,
    {
        if interval == 0 {
            None
        } else {
            Some(Timer { interval, elapsed: 0 })
        }
    }

    /// Adds `delta` to the accumulated time and returns how many whole
    /// intervals that completes; what is left over stays accumulated.
    pub fn tick(&mut self, delta: u64) -> (fired: u64)
        ensures
            final(self).interval() == old(self).interval(),
            fired == old(self).firings(delta),
            final(self).elapsed() == old(self).carried(delta),
    {
        proof {
            use_type_invariant(&*self);
        }
        let interval: u128 = self.interval as u128;
        let total: u128 = self.elapsed as u128 + delta as u128;
        let fired: u128 = total / interval;
        let rest: u128 = total % interval;
        assert(fired <= u64::MAX) by (nonlinear_arith)
            requires
                fired == total / interval,
                0 < interval,
                total <= interval + 0xFFFF_FFFF_FFFF_FFFE,
        {
            if fired > 0xFFFF_FFFF_FFFF_FFFF {
                assert(total >= fired * interval);
                assert(fired * interval >= 0x1_0000_0000_0000_0000 * interval);
            }
        }
        self.elapsed = rest as u64;
        fired as u64
    }

    /// The accumulated time.
    pub fn accumulated(&self) -> (elapsed: u64)
        ensures
            elapsed == self.elapsed(),
            elapsed < self.interval(),
    {
        proof {
            use_type_invariant(self);
        }
        self.elapsed
    }

    /// The interval the timer was made with.
    pub fn period(&self) -> (interval: u64)
        ensures
            interval == self.interval(),
            interval > 0,
    {
        proof {
            use_type_invariant(self);
        }
        self.interval
    }
}

} // verus!
