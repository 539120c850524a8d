//! The policy that a run goes by.

use std::time::Duration;
use vstd::prelude::*;

verus! {

/// How long to wait before an attempt that follows a failed one.
#[derive(Copy, Clone, Debug)]
pub enum RetryBackoff {
    /// The same wait before every attempt.
    Fixed {
        /// The wait.
        delay: Duration,
    },
    /// A wait that doubles from attempt to attempt.
    Exponential {
        /// The wait before the second attempt.
        delay: Duration,
    },
}

/// The policy of a run. Which tests run is not part of it: discovery applies
/// the filter and notes for each test whether the filter lets it in.
#[derive(Copy, Clone, Debug)]
pub struct RunPolicy {
    /// The greatest number of tests that run at once.
    pub concurrency: usize,
    /// How often a test that failed is run again.
    pub retries: usize,
    /// How long to wait before running a test again, if at all.
    pub backoff: Option<RetryBackoff>,
    /// The time after which a unit that still runs is marked as slow, again
    /// and again.
    pub slow_timeout: Duration,
    /// After how many slow periods a unit is terminated, if ever.
    pub slow_timeout_terminate_after: Option<usize>,
    /// How long the output of a unit that has exited may stay open before
    /// the unit counts as leaky.
    pub leak_timeout: Duration,
    /// Whether the first failure keeps further tests from starting.
    pub fail_fast: bool,
    /// Whether the output of the units is captured, not passed through.
    pub capture_output: bool,
}

} // verus!
