//! Reconnect delay policy.
//!
//! The line-oriented transport retries on a fixed delay. The WebSocket
//! transport starts at a small delay, doubles it after every failed attempt,
//! caps it, and resets it to the minimum as soon as a connection is
//! established and its write handle published.
use vstd::prelude::*;

verus! {

/// Fixed reconnect delay, in seconds, for the line-oriented transport.
pub const LINE_RETRY_DELAY_SECS: u64 = 3;

/// Smallest (and initial) reconnect delay, in seconds, for the WebSocket
/// transport.
pub const WS_MIN_DELAY_SECS: u64 = 3;

/// Largest reconnect delay, in seconds, for the WebSocket transport.
pub const WS_MAX_DELAY_SECS: u64 = 30;

/// The delay that follows `d` after one more failure: doubled, capped.
pub open spec fn next_delay(d: int) -> int {
    if 2 * d <= WS_MAX_DELAY_SECS as int {
        2 * d
    } else {
        WS_MAX_DELAY_SECS as int
    }
}

/// Delay, in seconds, slept after the `n`-th consecutive failure since the
/// last successful connection (`n` counts from 0).
pub open spec fn delay_after_failures(n: nat) -> int
    decreases n,
{
    if n == 0 {
        WS_MIN_DELAY_SECS as int
    } else {
        next_delay(delay_after_failures((n - 1) as nat))
    }
}

/// Backoff state of the WebSocket supervisor: the delay to sleep on the next
/// failure, together with the number of consecutive failures it reflects.
pub struct Backoff {
    delay: u64,
    failures: Ghost<nat>,
}

impl Backoff {
    /// The delay, in seconds, that the next failure will incur.
    pub closed spec fn current(self) -> u64 {
        self.delay
    }

    /// Consecutive failures recorded since the last reset.
    pub closed spec fn failures(self) -> nat {
        self.failures@
    }

    /// The delay always equals the schedule entry for the recorded failure
    /// count; in particular it stays within the configured bounds.
    pub open spec fn wf(self) -> bool {
        self.current() == delay_after_failures(self.failures())
    }

    /// A fresh policy: next failure sleeps the minimum delay.
    pub fn new() -> (b: Backoff)
        ensures
            b.wf(),
            b.failures() == 0,
            b.current() == WS_MIN_DELAY_SECS,
    {
        Backoff { delay: WS_MIN_DELAY_SECS, failures: Ghost(0) }
    }

    /// Record one failed attempt; returns the delay to sleep before the next
    /// attempt. The schedule doubles and caps: `3, 6, 12, 24, 30, 30, ...`.
    pub fn on_failure(&mut self) -> (d: u64)
        requires
            old(self).wf(),
        ensures
            final(self).wf(),
            d == delay_after_failures(old(self).failures()),
            final(self).failures() == old(self).failures() + 1,
            final(self).current() == next_delay(d as int),
    {
        proof {
            lemma_delay_bounds(self.failures@);
        }
        let d = self.delay;
        self.delay = if 2 * d <= WS_MAX_DELAY_SECS {
            2 * d
        } else {
            WS_MAX_DELAY_SECS
        };
        proof {
            self.failures@ = self.failures@ + 1;
        }
        d
    }

    /// A connection was established and its handle published: reset to the
    /// minimum delay.
    pub fn on_connected(&mut self)
        ensures
            final(self).wf(),
            final(self).failures() == 0,
            final(self).current() == WS_MIN_DELAY_SECS,
    {
        self.delay = WS_MIN_DELAY_SECS;
        proof {
            self.failures@ = 0;
        }
    }
}

/// Every entry of the schedule lies between the minimum and maximum delay.
pub proof fn lemma_delay_bounds(n: nat)
    ensures
        WS_MIN_DELAY_SECS as int <= delay_after_failures(n) <= WS_MAX_DELAY_SECS as int,
    decreases n,
{
    if n > 0 {
        lemma_delay_bounds((n - 1) as nat);
    }
}

/// The delay schedule written out: after `n` consecutive failures the sleep
/// before attempt `n + 1` is `3, 6, 12, 24` for `n = 0..3`, and `30` for every
/// later failure — doubled each time and capped at the maximum.
pub proof fn lemma_backoff_schedule(n: nat)
    ensures
        delay_after_failures(n) == if n == 0 {
            3int
        } else if n == 1 {
            6int
        } else if n == 2 {
            12int
        } else if n == 3 {
            24int
        } else {
            30int
        },
    decreases n,
{
    if n > 0 {
        lemma_backoff_schedule((n - 1) as nat);
    }
}

} // verus!
