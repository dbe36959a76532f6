use vstd::prelude::*;

use rand::Rng;

verus! {

/// How long a leader waits between heartbeats, in milliseconds.
pub const HEARTBEAT_MS: u64 = 100;

/// The shortest election timeout a follower or candidate draws, in milliseconds.
pub const ELECTION_MIN_MS: u64 = 150;

/// The longest election timeout a follower or candidate draws, in milliseconds.
pub const ELECTION_MAX_MS: u64 = 250;

/// A uniformly drawn number in `low..=high`, from the thread-local generator
/// of `rand` (`rand::rng().random_range(low..=high)`).
///
/// The contract claims only the range: which number comes back rests on chance.
#[verifier::external_body]
fn random_in_range(low: u64, high: u64) -> (n: u64)
    requires
        low <= high,
    ensures
        low <= n <= high,
{
    rand::rng().random_range(low..=high)
}

/// The policy of the election timer: whether the node counts down as a leader
/// (heartbeats) and how long the current countdown lasts.
///
/// The countdown itself is run by the caller, which re-arms it for
/// `duration_ms` whenever the timer is (re)set.
#[derive(Debug)]
pub struct Timeout {
    pub is_leader: bool,
    pub duration_ms: u64,
}

/// A duration that a timer in the given mode may be armed for: the heartbeat
/// interval for a leader, a draw from the election window otherwise.
pub open spec fn valid_duration(is_leader: bool, duration_ms: u64) -> bool {
    if is_leader {
        duration_ms == HEARTBEAT_MS
    } else {
        ELECTION_MIN_MS <= duration_ms <= ELECTION_MAX_MS
    }
}

/// What the reset channel of the timer yielded when it was polled.
#[derive(Debug, Clone, Copy, PartialEq, Eq, Structural)]
pub enum ResetSignal {
    /// A reset request was waiting.
    Received,
    /// Every sender is gone.
    Closed,
    /// Nothing was waiting.
    Empty,
}

/// The outcome of one poll of the timer.
#[derive(Debug, Clone, Copy, PartialEq, Eq, Structural)]
pub enum TimerPoll {
    /// The timer has run out.
    Elapsed,
    /// The timer was reset: the caller re-arms it for the new duration.
    Rearmed,
    /// Nothing happened yet.
    Pending,
}

impl Timeout {
    /// A fresh follower timer, armed for a random election timeout.
    pub fn new() -> (timeout: Self)
        ensures
            !timeout.is_leader,
            valid_duration(false, timeout.duration_ms),
    {
        let timeout_ms: u64 = random_in_range(ELECTION_MIN_MS, ELECTION_MAX_MS);
        Timeout { is_leader: false, duration_ms: timeout_ms }
    }

    /// Draws the next countdown: the heartbeat interval for a leader, a fresh
    /// random election timeout otherwise.
    pub fn reset(&mut self)
        ensures
            final(self).is_leader == old(self).is_leader,
            valid_duration(final(self).is_leader, final(self).duration_ms),
    {
        let timeout_ms: u64 = if self.is_leader {
            HEARTBEAT_MS
        } else {
            random_in_range(ELECTION_MIN_MS, ELECTION_MAX_MS)
        };
        self.duration_ms = timeout_ms;
    }

    /// One poll of the timer. `elapsed` says whether the countdown has run
    /// out; `signal` is what the reset channel yielded, and is only looked at
    /// when the countdown has not run out.
    pub fn poll_step(&mut self, elapsed: bool, signal: ResetSignal) -> (outcome: TimerPoll)
        ensures
            elapsed ==> outcome == TimerPoll::Elapsed && *final(self) == *old(self),
            !elapsed && signal == ResetSignal::Closed ==> outcome == TimerPoll::Elapsed
                && *final(self) == *old(self),
            !elapsed && signal == ResetSignal::Empty ==> outcome == TimerPoll::Pending
                && *final(self) == *old(self),
            !elapsed && signal == ResetSignal::Received ==> {
                &&& outcome == TimerPoll::Rearmed
                &&& final(self).is_leader == old(self).is_leader
                &&& valid_duration(final(self).is_leader, final(self).duration_ms)
            },
    {
        if elapsed {
            return TimerPoll::Elapsed;
        }
        match signal {
            ResetSignal::Received => {
                self.reset();
                TimerPoll::Rearmed
            },
            ResetSignal::Closed => TimerPoll::Elapsed,
            ResetSignal::Empty => TimerPoll::Pending,
        }
    }
}

} // verus!
