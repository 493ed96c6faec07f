//! The detection task: a non-blocking, cancellable wrapper around a slow,
//! fallible perception call.
//!
//! A state that wants a detection owns a task slot (`Option<Task<T>>`).
//! Polling an empty slot creates a fresh in-flight task — that, and only
//! that, is the host's cue to start the perception call, so re-polling a
//! pending task never re-triggers perception.  The host reports how the
//! in-flight call went through a [`TaskEvent`]; a finished result is cached
//! in the slot and handed back on every poll until it grows older than the
//! caller's staleness budget, at which point the slot re-issues.  Dropping
//! the slot cancels interest in the result.

use vstd::prelude::*;

verus! {

/// What the host observed of the in-flight perception call this tick.
#[derive(Clone, Copy, Debug, PartialEq, Eq, Structural)]
pub enum TaskEvent<T> {
    /// The call has not finished yet.
    Pending,
    /// The call finished and produced a value.
    Completed(T),
    /// The call finished with a detection error.
    Failed,
}

/// The progress of one issued detection.
#[derive(Clone, Copy, Debug, PartialEq, Eq, Structural)]
pub enum TaskStatus<T> {
    /// The perception call is running; its result has not arrived.
    InFlight,
    /// The call finished; `Some` carries the value, `None` records an error.
    Done(Option<T>),
}

/// One issued detection, kept in its owner's task slot.
#[derive(Clone, Copy, Debug, PartialEq, Eq, Structural)]
pub struct Task<T> {
    pub status: TaskStatus<T>,
    /// Polls since the result arrived; measures how stale the cache is.
    pub age_ticks: u32,
}

impl<T> Task<T> {
    /// Whether the underlying call has finished, successfully or not.
    pub fn completed(&self) -> (r: bool)
        ensures
            r == (self.status is Done),
    {
        matches!(self.status, TaskStatus::Done(_))
    }
}

/// The consumer-visible outcome of one poll.
#[derive(Clone, Copy, Debug, PartialEq, Eq, Structural)]
pub enum Update<T> {
    /// The detection produced this value.
    Ready(T),
    /// The detection failed; callers treat this like a negative result.
    Error,
    /// Nothing to report this tick; the owner's state must stay unchanged.
    Pending,
}

/// Whether a poll of `slot` issues a fresh perception call: only an empty
/// slot, or one whose cached result outlived `budget_ticks`, issues.
pub open spec fn spec_poll_issues<T>(slot: Option<Task<T>>, budget_ticks: u32) -> bool {
    match slot {
        None => true,
        Some(task) => match task.status {
            TaskStatus::InFlight => false,
            TaskStatus::Done(_) => task.age_ticks >= budget_ticks,
        },
    }
}

/// The slot as it stands after one poll.
pub open spec fn spec_poll_slot<T>(
    slot: Option<Task<T>>,
    budget_ticks: u32,
    event: TaskEvent<T>,
) -> Option<Task<T>> {
    match slot {
        None => Some(Task { status: TaskStatus::InFlight, age_ticks: 0 }),
        Some(task) => match task.status {
            TaskStatus::InFlight => match event {
                TaskEvent::Pending => Some(task),
                TaskEvent::Completed(value) => Some(
                    Task { status: TaskStatus::Done(Some(value)), age_ticks: 0 },
                ),
                TaskEvent::Failed => Some(Task { status: TaskStatus::Done(None), age_ticks: 0 }),
            },
            TaskStatus::Done(result) => if task.age_ticks >= budget_ticks {
                Some(Task { status: TaskStatus::InFlight, age_ticks: 0 })
            } else {
                Some(
                    Task {
                        status: TaskStatus::Done(result),
                        age_ticks: (task.age_ticks + 1) as u32,
                    },
                )
            },
        },
    }
}

/// The outcome one poll reports.
pub open spec fn spec_poll_outcome<T>(
    slot: Option<Task<T>>,
    budget_ticks: u32,
    event: TaskEvent<T>,
) -> Update<T> {
    match slot {
        None => Update::Pending,
        Some(task) => match task.status {
            TaskStatus::InFlight => match event {
                TaskEvent::Pending => Update::Pending,
                TaskEvent::Completed(value) => Update::Ready(value),
                TaskEvent::Failed => Update::Error,
            },
            TaskStatus::Done(result) => if task.age_ticks >= budget_ticks {
                Update::Pending
            } else {
                match result {
                    Some(value) => Update::Ready(value),
                    None => Update::Error,
                }
            },
        },
    }
}

/// Polls the detection in `slot`, advancing it by the host's report of the
/// in-flight call.
///
/// An empty slot issues a fresh detection and reports `Pending` for this
/// tick, never blocking the control loop.  A pending task passes the host's
/// report through: still pending, or the finished result, which is cached.
/// A cached result is handed back unchanged on every poll until it has aged
/// past `budget_ticks`, when the slot abandons it and re-issues.
pub fn update_detection_task<T: Copy>(
    budget_ticks: u32,
    slot: &mut Option<Task<T>>,
    event: TaskEvent<T>,
) -> (r: Update<T>)
    ensures
        *final(slot) == spec_poll_slot(*old(slot), budget_ticks, event),
        r == spec_poll_outcome(*old(slot), budget_ticks, event),
{
    match *slot {
        None => {
            *slot = Some(Task { status: TaskStatus::InFlight, age_ticks: 0 });
            Update::Pending
        },
        Some(task) => match task.status {
            TaskStatus::InFlight => match event {
                TaskEvent::Pending => Update::Pending,
                TaskEvent::Completed(value) => {
                    *slot = Some(Task { status: TaskStatus::Done(Some(value)), age_ticks: 0 });
                    Update::Ready(value)
                },
                TaskEvent::Failed => {
                    *slot = Some(Task { status: TaskStatus::Done(None), age_ticks: 0 });
                    Update::Error
                },
            },
            TaskStatus::Done(result) => {
                if task.age_ticks >= budget_ticks {
                    *slot = Some(Task { status: TaskStatus::InFlight, age_ticks: 0 });
                    Update::Pending
                } else {
                    *slot = Some(
                        Task { status: TaskStatus::Done(result), age_ticks: task.age_ticks + 1 },
                    );
                    match result {
                        Some(value) => Update::Ready(value),
                        None => Update::Error,
                    }
                }
            },
        },
    }
}

/// The slot after `polls` polls that all report the in-flight call still
/// pending, starting from an empty slot.
pub open spec fn spec_slot_after_pending_polls<T>(budget_ticks: u32, polls: nat) -> Option<
    Task<T>,
>
    decreases polls,
{
    if polls == 0 {
        None
    } else {
        spec_poll_slot(
            spec_slot_after_pending_polls::<T>(budget_ticks, (polls - 1) as nat),
            budget_ticks,
            TaskEvent::Pending,
        )
    }
}

/// A task slot polled every tick while the underlying call never completes
/// issues the perception call exactly once: on the first poll, which fills
/// the empty slot, and never again while the task is in flight.
pub proof fn lemma_single_issue<T>(budget_ticks: u32, polls: nat)
    ensures
        spec_poll_issues(spec_slot_after_pending_polls::<T>(budget_ticks, 0), budget_ticks),
        polls >= 1 ==> spec_slot_after_pending_polls::<T>(budget_ticks, polls) == Some(
            Task::<T> { status: TaskStatus::InFlight, age_ticks: 0 },
        ),
        polls >= 1 ==> !spec_poll_issues(
            spec_slot_after_pending_polls::<T>(budget_ticks, polls),
            budget_ticks,
        ),
    decreases polls,
{
    if polls >= 1 {
        lemma_single_issue::<T>(budget_ticks, (polls - 1) as nat);
    }
}

} // verus!
