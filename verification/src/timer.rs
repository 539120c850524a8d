//! The clock of a unit: a stopwatch that can be paused.
//!
//! The stopwatch reads no clock itself. It is handed readings of a
//! monotonic clock, in nanoseconds since the start of the run, and tells
//! from them how long the unit has been at what it is doing, not counting
//! the time for which the run was paused.

use vstd::prelude::*;

verus! {

/// A stopwatch over the readings of a monotonic clock.
#[derive(Copy, Clone, Debug, PartialEq, Eq, Structural)]
pub struct UnitTimer {
    /// The time counted up to the reading at which the stopwatch was last
    /// started or paused.
    pub accumulated: u64,
    /// The reading from which the stopwatch counts, unless it is paused.
    pub counting_since: Option<u64>,
}

/// The sum of two times, as far as the machine's word goes.
pub open spec fn capped_sum(left: u64, right: u64) -> u64 {
    if left + right <= u64::MAX {
        (left + right) as u64
    } else {
        u64::MAX
    }
}

/// The time from `since` to `now`, and none if `now` is the earlier.
pub open spec fn time_between(since: u64, now: u64) -> u64 {
    if now >= since {
        (now - since) as u64
    } else {
        0
    }
}

impl UnitTimer {
    /// The stopwatch stands still.
    pub open spec fn spec_is_paused(self) -> bool {
        self.counting_since is None
    }

    /// The time that the stopwatch shows at the reading `now`.
    pub open spec fn spec_elapsed(self, now: u64) -> u64 {
        match self.counting_since {
            Some(since) => capped_sum(self.accumulated, time_between(since, now)),
            None => self.accumulated,
        }
    }

    /// What is left of `timeout` at the reading `now`.
    pub open spec fn spec_remaining(self, now: u64, timeout: u64) -> u64 {
        time_between(self.spec_elapsed(now), timeout)
    }

    /// The stopwatch once it is paused at the reading `now`.
    pub open spec fn spec_paused(self, now: u64) -> UnitTimer {
        UnitTimer { accumulated: self.spec_elapsed(now), counting_since: None }
    }

    /// The stopwatch once it goes on at the reading `now`. One that counts
    /// goes on counting as before.
    pub open spec fn spec_resumed(self, now: u64) -> UnitTimer {
        match self.counting_since {
            Some(_) => self,
            None => UnitTimer { accumulated: self.accumulated, counting_since: Some(now) },
        }
    }

    /// A stopwatch started at the reading `now`.
    pub fn start(now: u64) -> (timer: UnitTimer)
        ensures
            timer == (UnitTimer { accumulated: 0, counting_since: Some(now) }),
            timer.spec_elapsed(now) == 0,
    {
        UnitTimer { accumulated: 0, counting_since: Some(now) }
    }

    /// Returns true if the stopwatch stands still.
    #[verifier::when_used_as_spec(spec_is_paused)]
    pub fn is_paused(self) -> (paused: bool)
        ensures
            paused == self.spec_is_paused(),
    {
        self.counting_since.is_none()
    }

    /// Returns the time that the stopwatch shows at the reading `now`.
    #[verifier::when_used_as_spec(spec_elapsed)]
    pub fn elapsed(self, now: u64) -> (elapsed: u64)
        ensures
            elapsed == self.spec_elapsed(now),
    {
        match self.counting_since {
            Some(since) => {
                let counted = if now >= since {
                    now - since
                } else {
                    0
                };
                self.accumulated.saturating_add(counted)
            },
            None => self.accumulated,
        }
    }

    /// Returns what is left of `timeout` at the reading `now`: nothing once
    /// the stopwatch shows `timeout` or more.
    #[verifier::when_used_as_spec(spec_remaining)]
    pub fn remaining(self, now: u64, timeout: u64) -> (left: u64)
        ensures
            left == self.spec_remaining(now, timeout),
    {
        let elapsed = self.elapsed(now);
        if timeout >= elapsed {
            timeout - elapsed
        } else {
            0
        }
    }

    /// Returns true if the stopwatch shows `timeout` or more at the reading
    /// `now`.
    pub fn is_due(self, now: u64, timeout: u64) -> (due: bool)
        ensures
            due == (self.spec_elapsed(now) >= timeout),
            due == (self.spec_remaining(now, timeout) == 0),
    {
        self.elapsed(now) >= timeout
    }

    /// Stops the stopwatch at the reading `now`.
    pub fn pause(&mut self, now: u64)
        ensures
            *final(self) == old(self).spec_paused(now),
    {
        self.accumulated = self.elapsed(now);
        self.counting_since = None;
    }

    /// Lets the stopwatch go on at the reading `now`.
    pub fn resume(&mut self, now: u64)
        ensures
            *final(self) == old(self).spec_resumed(now),
    {
        if self.counting_since.is_none() {
            self.counting_since = Some(now);
        }
    }
}

/// A stopwatch that is paused shows the same time at every reading: the
/// time that it showed when it was paused.
pub proof fn lemma_paused_stands_still(timer: UnitTimer, paused_at: u64, now: u64)
    ensures
        timer.spec_paused(paused_at).is_paused(),
        timer.spec_paused(paused_at).elapsed(now) == timer.elapsed(paused_at),
{
}

/// A stopwatch that goes on after a pause counts on from where it left off:
/// the time for which it stood still is not counted.
pub proof fn lemma_resumed_goes_on(timer: UnitTimer, paused_at: u64, resumed_at: u64, now: u64)
    requires
        resumed_at <= now,
    ensures
        timer.spec_paused(paused_at).spec_resumed(resumed_at).elapsed(now) == capped_sum(
            timer.elapsed(paused_at),
            (now - resumed_at) as u64,
        ),
        timer.spec_paused(paused_at).spec_resumed(resumed_at).elapsed(resumed_at) == timer.elapsed(
            paused_at,
        ),
{
}

/// The time that a stopwatch shows does not go back, and what is left of a
/// timeout does not grow.
pub proof fn lemma_time_goes_on(timer: UnitTimer, earlier: u64, later: u64, timeout: u64)
    requires
        earlier <= later,
    ensures
        timer.elapsed(earlier) <= timer.elapsed(later),
        timer.remaining(later, timeout) <= timer.remaining(earlier, timeout),
        timer.elapsed(earlier) <= timeout ==> timer.elapsed(earlier) + timer.remaining(
            earlier,
            timeout,
        ) == timeout,
{
}

} // verus!
