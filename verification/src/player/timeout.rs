//! The tick-counted timeout primitive and its lifecycle classification.
//!
//! Every waiting state owns a [`Timeout`] and advances it once per tick
//! against a caller-supplied deadline.  The advance is classified as a
//! [`Lifecycle`]: `Started` fires exactly once when the counter first runs,
//! `Ended` fires when `current` has reached the deadline, and `Updated`
//! covers every other tick.  `current` may be reset by a caller to reuse the
//! timeout for a sub-phase while `total` keeps counting the whole stay in the
//! state; the two counters are deliberately independent.

use vstd::prelude::*;

verus! {

/// A tick counter owned by the state that created it.
#[derive(Clone, Copy, Debug, PartialEq, Eq, Structural)]
pub struct Timeout {
    /// Whether the first advance has happened.
    pub started: bool,
    /// Ticks since the start, or since the owner last reset this counter.
    pub current: u32,
    /// Ticks since the start; never reset while the owner stays in its state.
    pub total: u32,
}

impl Timeout {
    /// The not-yet-started timeout every state begins with.
    pub open spec fn initial() -> Timeout {
        Timeout { started: false, current: 0, total: 0 }
    }
}

impl Default for Timeout {
    fn default() -> (r: Timeout)
        ensures
            r == Timeout::initial(),
    {
        Timeout { started: false, current: 0, total: 0 }
    }
}

/// How one advance of a [`Timeout`] against a deadline is classified.
#[derive(Clone, Copy, Debug, PartialEq, Eq, Structural)]
pub enum Lifecycle {
    /// The timeout just started; fires exactly once per fresh timeout.
    Started(Timeout),
    /// `current` reached the deadline.  The caller is responsible for
    /// replacing the timeout with a fresh default before reusing it.
    Ended,
    /// An ordinary tick: both counters moved one step.
    Updated(Timeout),
}

/// What [`next_timeout_lifecycle`] returns for a given timeout and deadline.
pub open spec fn spec_next_timeout_lifecycle(timeout: Timeout, max_timeout: u32) -> Lifecycle {
    if !timeout.started {
        Lifecycle::Started(Timeout { started: true, current: 0, total: 0 })
    } else if timeout.current >= max_timeout {
        Lifecycle::Ended
    } else {
        Lifecycle::Updated(
            Timeout {
                started: true,
                current: (timeout.current + 1) as u32,
                total: (timeout.total + 1) as u32,
            },
        )
    }
}

/// Advances `timeout` one tick against the deadline `max_timeout`.
///
/// A timeout that has not started yet starts now, with both counters at
/// zero.  A started timeout whose `current` has reached the deadline ends
/// and is returned to the caller unchanged (the caller replaces it).  On any
/// other tick both counters advance by one.
pub fn next_timeout_lifecycle(timeout: Timeout, max_timeout: u32) -> (r: Lifecycle)
    requires
        timeout.started && timeout.current < max_timeout ==> timeout.total < u32::MAX,
    ensures
        r == spec_next_timeout_lifecycle(timeout, max_timeout),
{
    if !timeout.started {
        Lifecycle::Started(Timeout { started: true, current: 0, total: 0 })
    } else if timeout.current >= max_timeout {
        Lifecycle::Ended
    } else {
        Lifecycle::Updated(
            Timeout { started: true, current: timeout.current + 1, total: timeout.total + 1 },
        )
    }
}

/// The timeout as it stands after `calls` advances against `deadline`,
/// starting from the default: not yet started before the first call, then
/// counting up.  An advance that ends leaves the timeout as it was, since
/// resetting after `Ended` is the caller's job.
pub open spec fn timeout_after_calls(deadline: u32, calls: nat) -> Timeout
    decreases calls,
{
    if calls == 0 {
        Timeout::initial()
    } else {
        let prev = timeout_after_calls(deadline, (calls - 1) as nat);
        match spec_next_timeout_lifecycle(prev, deadline) {
            Lifecycle::Started(t) => t,
            Lifecycle::Updated(t) => t,
            Lifecycle::Ended => prev,
        }
    }
}

/// A run of advances against a fixed deadline, starting from the default
/// timeout, observes: `Started` on the first call whatever the deadline is,
/// `Updated` with `current == total == k` on the `k`-th call after that
/// while `k <= deadline`, and then `Ended` — exactly once, on the call after
/// `current` reached the deadline, after which the caller resets.
pub proof fn lemma_timeout_run(deadline: u32, calls: nat)
    requires
        calls <= deadline + 1,
    ensures
        spec_next_timeout_lifecycle(timeout_after_calls(deadline, 0), deadline)
            == Lifecycle::Started(Timeout { started: true, current: 0, total: 0 }),
        calls >= 1 ==> timeout_after_calls(deadline, calls) == (Timeout {
            started: true,
            current: (calls - 1) as u32,
            total: (calls - 1) as u32,
        }),
        1 <= calls && calls <= deadline ==> spec_next_timeout_lifecycle(
            timeout_after_calls(deadline, calls),
            deadline,
        ) == Lifecycle::Updated(
            Timeout { started: true, current: calls as u32, total: calls as u32 },
        ),
        calls == deadline + 1 ==> spec_next_timeout_lifecycle(
            timeout_after_calls(deadline, calls),
            deadline,
        ) == Lifecycle::Ended,
    decreases calls,
{
    if calls >= 1 {
        lemma_timeout_run(deadline, (calls - 1) as nat);
    }
}

} // verus!
