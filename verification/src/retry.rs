//! Exponential backoff with a ceiling.
//!
//! Time is a count of milliseconds on a monotonic clock that the caller
//! reads; delays are whole seconds.

use vstd::prelude::*;

verus! {

/// Shortest delay between two attempts, in seconds.
pub const MIN_DELAY_SECS: u64 = 1;

/// Longest delay between two attempts, in seconds.
pub const MAX_DELAY_SECS: u64 = 15;

/// The delay that follows `current` after one more failure: twice as long,
/// never under the floor and never over the ceiling.
pub open spec fn spec_next_backoff(current: u64) -> u64 {
    if current * 2 < 1 {
        1
    } else if current * 2 > 15 {
        15
    } else {
        (current * 2) as u64
    }
}

/// The instant `delay_secs` seconds after `now`, held at the end of the clock
/// where the sum would pass it.
pub open spec fn spec_deadline(now: u64, delay_secs: u64) -> u64 {
    if now + delay_secs * 1000 > u64::MAX {
        u64::MAX
    } else {
        (now + delay_secs * 1000) as u64
    }
}

/// The delay reached from `start` after `failures` consecutive failures.
pub open spec fn delay_after_failures(start: u64, failures: nat) -> u64
    decreases failures,
{
    if failures == 0 {
        start
    } else {
        spec_next_backoff(delay_after_failures(start, (failures - 1) as nat))
    }
}

/// Doubles a delay given in seconds, keeping it within `[1, 15]`.
pub fn next_backoff(current: u64) -> (next: u64)
    ensures
        next == spec_next_backoff(current),
        MIN_DELAY_SECS <= next <= MAX_DELAY_SECS,
{
    if current == 0 {
        1
    } else if current >= 8 {
        15
    } else {
        current * 2
    }
}

/// When an operation may next be tried, and how long to wait after the next
/// failure.
#[derive(Clone, Copy, Debug)]
pub struct RetryState {
    next_retry_at: u64,
    current_delay: u64,
}

impl RetryState {
    /// The retry deadline.
    pub closed spec fn deadline(&self) -> u64 {
        self.next_retry_at
    }

    /// The current delay, in seconds.
    pub closed spec fn delay(&self) -> u64 {
        self.current_delay
    }

    /// The delay is always between the floor and the ceiling.
    pub open spec fn wf(&self) -> bool {
        MIN_DELAY_SECS <= self.delay() <= MAX_DELAY_SECS
    }

    /// An attempt is allowed once the clock has reached the deadline.
    pub open spec fn eligible(&self, now: u64) -> bool {
        now >= self.deadline()
    }

    /// A fresh state: the shortest delay, and an attempt allowed at once.
    pub fn new(now: u64) -> (state: Self)
        ensures
            state.wf(),
            state.delay() == MIN_DELAY_SECS,
            state.deadline() == now,
            state.eligible(now),
    {
        RetryState { next_retry_at: now, current_delay: 1 }
    }

    /// The instant from which the next attempt is allowed.
    pub fn next_retry_at(&self) -> (at: u64)
        ensures
            at == self.deadline(),
    {
        self.next_retry_at
    }

    /// The wait, in seconds, that the next failure will impose.
    pub fn current_delay(&self) -> (secs: u64)
        ensures
            secs == self.delay(),
    {
        self.current_delay
    }

    /// Whether an attempt is allowed at `now`.
    pub fn should_retry_now(&self, now: u64) -> (eligible: bool)
        ensures
            eligible == self.eligible(now),
    {
        now >= self.next_retry_at
    }

    /// Records a failure at `now`: the next attempt waits for the current
    /// delay, and the delay after that is doubled up to the ceiling.
    pub fn schedule_retry(&mut self, now: u64)
        requires
            old(self).wf(),
        ensures
            final(self).wf(),
            final(self).deadline() == spec_deadline(now, old(self).delay()),
            final(self).delay() == spec_next_backoff(old(self).delay()),
            final(self).delay() >= old(self).delay(),
            final(self).delay() >= 2,
    {
        let wait_ms: u64 = self.current_delay * 1000;
        self.next_retry_at = if now > u64::MAX - wait_ms {
            u64::MAX
        } else {
            now + wait_ms
        };
        self.current_delay = next_backoff(self.current_delay);
    }

    /// Records a success at `now`: the shortest delay again, and an attempt
    /// allowed at once.
    pub fn reset(&mut self, now: u64)
        ensures
            final(self).wf(),
            final(self).delay() == MIN_DELAY_SECS,
            final(self).deadline() == now,
    {
        self.current_delay = 1;
        self.next_retry_at = now;
    }
}

/// However many failures follow one another, the delay stays between one and
/// fifteen seconds, never shrinks, and is never back at one second: only a
/// success brings it there.
pub proof fn lemma_delay_bounded_under_failures(start: u64, failures: nat)
    requires
        MIN_DELAY_SECS <= start <= MAX_DELAY_SECS,
    ensures
        MIN_DELAY_SECS <= delay_after_failures(start, failures) <= MAX_DELAY_SECS,
        delay_after_failures(start, failures) >= start,
        failures > 0 ==> delay_after_failures(start, failures) >= 2,
        delay_after_failures(start, failures + 1) >= delay_after_failures(start, failures),
    decreases failures,
{
    if failures > 0 {
        lemma_delay_bounded_under_failures(start, (failures - 1) as nat);
    }
    assert(delay_after_failures(start, failures + 1) == spec_next_backoff(
        delay_after_failures(start, failures),
    ));
}

/// Starting from the shortest delay, consecutive failures give 1, 2, 4, 8 and
/// then 15 seconds for ever.
pub proof fn lemma_delay_sequence(failures: nat)
    ensures
        delay_after_failures(1, 0) == 1,
        delay_after_failures(1, 1) == 2,
        delay_after_failures(1, 2) == 4,
        delay_after_failures(1, 3) == 8,
        failures >= 4 ==> delay_after_failures(1, failures) == 15,
    decreases failures,
{
    reveal_with_fuel(delay_after_failures, 5);
    if failures > 4 {
        lemma_delay_sequence((failures - 1) as nat);
    }
}

} // verus!
