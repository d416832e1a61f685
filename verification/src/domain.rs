//! The data model: tasks, executions, and their invariants.
//!
//! Timestamps are UTC seconds since the epoch (`i64`); identifiers are
//! 128-bit values drawn at random on creation. A task is never destroyed:
//! retirement is exclusively via setting `deleted_at`.

use vstd::prelude::*;

verus! {

/// Execution mode of a task.
#[derive(Clone, Copy, Debug, PartialEq, Eq, Structural)]
pub enum TaskType {
    /// Runs only once, at or after its trigger time, then retires.
    Once,
    /// Runs at or after its trigger time, then reschedules itself by a
    /// fixed interval.
    Interval,
}

/// Status of one task execution.
#[derive(Clone, Copy, Debug, PartialEq, Eq, Structural)]
pub enum ExecutionStatus {
    /// The action completed successfully.
    Success,
    /// The action failed; the failure reason is recorded as data.
    Failure,
}

/// A scheduled unit of work.
pub struct Task {
    /// Unique 128-bit identifier, assigned on creation.
    pub id: u128,
    /// Free-form label.
    pub name: String,
    /// One-shot or recurring.
    pub task_type: TaskType,
    /// Earliest moment (UTC seconds) the task becomes eligible.
    pub trigger_at: i64,
    /// Rescheduling interval in seconds; present iff `task_type` is `Interval`.
    pub interval_seconds: Option<i64>,
    /// Opaque structured value (JSON text) passed verbatim to the action.
    pub payload: String,
    /// If set, the task is retired and ineligible for future dispatch.
    pub deleted_at: Option<i64>,
}

/// The permanent record of one dispatch attempt.
pub struct Execution {
    /// Unique 128-bit identifier.
    pub id: u128,
    /// Identifier of the task that was dispatched.
    pub task_id: u128,
    /// When the execution occurred (UTC seconds).
    pub executed_at: i64,
    /// Output produced by the action (JSON text).
    pub output: String,
    /// Outcome of the action.
    pub status: ExecutionStatus,
}

impl Task {
    /// The structural invariant of a task: an `Interval` task carries a
    /// positive interval, a `Once` task carries none.
    pub open spec fn wf(self) -> bool {
        &&& self.task_type == TaskType::Interval ==> (self.interval_seconds matches Some(s)
            && s >= 1)
        &&& self.task_type == TaskType::Once ==> self.interval_seconds is None
    }

    /// Whether the task is still eligible for dispatch.
    pub open spec fn live(self) -> bool {
        self.deleted_at is None
    }

    /// A fresh one-shot task with a random identifier.
    pub fn new_once(name: String, trigger_at: i64, payload: String) -> (t: Task)
        ensures
            t.name == name,
            t.task_type == TaskType::Once,
            t.trigger_at == trigger_at,
            t.interval_seconds is None,
            t.payload == payload,
            t.deleted_at is None,
            t.wf(),
    {
        Task {
            id: fresh_id(),
            name,
            task_type: TaskType::Once,
            trigger_at,
            interval_seconds: None,
            payload,
            deleted_at: None,
        }
    }

    /// A fresh recurring task with a random identifier.
    pub fn new_interval(name: String, trigger_at: i64, interval_seconds: i64, payload: String) -> (t:
        Task)
        requires
            interval_seconds >= 1,
        ensures
            t.name == name,
            t.task_type == TaskType::Interval,
            t.trigger_at == trigger_at,
            t.interval_seconds == Some(interval_seconds),
            t.payload == payload,
            t.deleted_at is None,
            t.wf(),
    {
        Task {
            id: fresh_id(),
            name,
            task_type: TaskType::Interval,
            trigger_at,
            interval_seconds: Some(interval_seconds),
            payload,
            deleted_at: None,
        }
    }
}

impl Clone for Task {
    fn clone(&self) -> (t: Self)
        ensures
            t == *self,
    {
        Task {
            id: self.id,
            name: self.name.clone(),
            task_type: self.task_type,
            trigger_at: self.trigger_at,
            interval_seconds: self.interval_seconds,
            payload: self.payload.clone(),
            deleted_at: self.deleted_at,
        }
    }
}

impl Execution {
    /// A fresh execution record with a random identifier, stamped with the
    /// current wall-clock time.
    pub fn new(task_id: u128, output: String, status: ExecutionStatus) -> (e: Execution)
        ensures
            e.task_id == task_id,
            e.output == output,
            e.status == status,
    {
        Execution { id: fresh_id(), task_id, executed_at: now_ts(), output, status }
    }
}

impl Clone for Execution {
    fn clone(&self) -> (e: Self)
        ensures
            e == *self,
    {
        Execution {
            id: self.id,
            task_id: self.task_id,
            executed_at: self.executed_at,
            output: self.output.clone(),
            status: self.status,
        }
    }
}

/// Relies on `uuid::Uuid::new_v4` and `Uuid::as_u128`: a freshly drawn
/// random 128-bit identifier. Nothing is assumed of its value.
#[verifier::external_body]
pub(crate) fn fresh_id() -> u128 {
    uuid::Uuid::new_v4().as_u128()
}

/// Relies on `chrono::Utc::now` and `DateTime::timestamp`: the current
/// wall-clock time in whole UTC seconds. Nothing is assumed of its value.
#[verifier::external_body]
pub(crate) fn now_ts() -> i64 {
    chrono::Utc::now().timestamp()
}

} // verus!
