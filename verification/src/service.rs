//! The task service: validates create requests, commits them, signals the
//! dispatcher, and owns the execute-record-retire/reschedule step.
//!
//! The action itself (the shipped executor is an HTTP webhook caller) is an
//! external collaborator: its outcome — a success value or a failure reason
//! — is handed in, and everything that must hold of the resulting state
//! transition is stated and proved here.

use vstd::prelude::*;

use crate::domain::{fresh_id, Execution, ExecutionStatus, Task, TaskType};
use crate::dto::CreateTaskReq;
use crate::errors::AppError;
use crate::store::{
    spec_get_task, spec_has_live_task, spec_has_task, spec_set_trigger, spec_soft_delete, Store,
    lemma_create_round_trip,
};

verus! {

/// A create request names a known task type, and a recurring task carries a
/// positive interval. A missing payload is not an error.
pub open spec fn valid_create(req: CreateTaskReq) -> bool {
    &&& (req.task_type@ == "once"@ || req.task_type@ == "interval"@)
    &&& (req.task_type@ == "interval"@ ==> (req.interval_seconds matches Some(k) && k >= 1))
}

/// The rule a rejected create request violated, checked in this order:
/// unknown task type, missing interval, non-positive interval.
pub open spec fn spec_validation_message(req: CreateTaskReq) -> Seq<char> {
    if !(req.task_type@ == "once"@ || req.task_type@ == "interval"@) {
        "Invalid task_type. Use 'once' or 'interval'"@
    } else if req.interval_seconds is None {
        "interval_seconds is required for interval tasks"@
    } else {
        "interval_seconds must be at least 1 second"@
    }
}

/// What an execution records as output: the action's value on success, the
/// serialised `{"error": reason}` object on failure.
pub open spec fn spec_output_view(outcome: Result<String, String>) -> Seq<char> {
    match outcome {
        Ok(v) => v@,
        Err(e) => error_json_of(e@),
    }
}

/// The status an execution records.
pub open spec fn spec_status(outcome: Result<String, String>) -> ExecutionStatus {
    if outcome is Ok {
        ExecutionStatus::Success
    } else {
        ExecutionStatus::Failure
    }
}

/// Validates a create request and maps it to a fresh task with a random
/// identifier. Succeeds exactly on the requests the rules admit.
pub fn prepare_task(req: CreateTaskReq) -> (r: Result<Task, AppError>)
    ensures
        r is Ok <==> valid_create(req),
        r matches Ok(t) ==> {
            &&& t.name == req.name
            &&& t.trigger_at == req.trigger_at
            &&& (req.task_type@ == "once"@ ==> t.task_type == TaskType::Once)
            &&& (req.task_type@ == "interval"@ ==> t.task_type == TaskType::Interval
                && t.interval_seconds == req.interval_seconds)
            &&& (req.payload matches Some(p) ==> t.payload == p)
            &&& (req.payload is None ==> t.payload@ == "{}"@)
            &&& t.deleted_at is None
            &&& t.wf()
        },
        r matches Err(e) ==> (e matches AppError::ValidationError(m) && m@
            == spec_validation_message(req)),
{
    proof {
        reveal_strlit("once");
        reveal_strlit("interval");
        assert("once"@.len() == 4);
        assert("interval"@.len() == 8);
    }
    let is_once = req.task_type == "once".to_owned();
    let is_interval = req.task_type == "interval".to_owned();
    if !is_once && !is_interval {
        return Err(
            AppError::ValidationError("Invalid task_type. Use 'once' or 'interval'".to_owned()),
        );
    }
    let payload = match req.payload {
        Some(p) => p,
        None => "{}".to_owned(),
    };
    if is_once {
        return Ok(Task::new_once(req.name, req.trigger_at, payload));
    }
    let seconds = match req.interval_seconds {
        Some(k) => k,
        None => {
            return Err(
                AppError::ValidationError(
                    "interval_seconds is required for interval tasks".to_owned(),
                ),
            );
        },
    };
    if seconds < 1 {
        // at least one second, to avoid tight re-fire loops
        return Err(
            AppError::ValidationError("interval_seconds must be at least 1 second".to_owned()),
        );
    }
    Ok(Task::new_interval(req.name, req.trigger_at, seconds, payload))
}

/// What becomes of a task row after one dispatch.
#[derive(Clone, Copy, Debug, PartialEq, Eq, Structural)]
pub enum TaskDisposition {
    /// A one-shot task retires: `deleted_at` is set.
    Retire,
    /// A recurring task is rescheduled to this moment (wall clock at
    /// processing time plus its interval).
    Reschedule(i64),
}

/// Maps an action outcome to the execution record to insert and the task
/// mutation to commit with it. The record carries a fresh random identifier.
pub fn plan_execution(task: &Task, outcome: Result<String, String>, now: i64) -> (r: (
    Execution,
    TaskDisposition,
))
    requires
        task.wf(),
        task.interval_seconds matches Some(k) ==> now + k <= i64::MAX,
    ensures
        r.0.task_id == task.id,
        r.0.executed_at == now,
        r.0.output@ == spec_output_view(outcome),
        r.0.status == spec_status(outcome),
        task.task_type == TaskType::Once ==> r.1 == TaskDisposition::Retire,
        task.task_type == TaskType::Interval ==> (task.interval_seconds matches Some(k) && r.1
            == TaskDisposition::Reschedule((now + k) as i64)),
{
    let (output, status) = match outcome {
        Ok(v) => (v, ExecutionStatus::Success),
        Err(e) => (error_json(e.as_str()), ExecutionStatus::Failure),
    };
    let exec = Execution { id: fresh_id(), task_id: task.id, executed_at: now, output, status };
    let disposition = match task.task_type {
        TaskType::Once => TaskDisposition::Retire,
        TaskType::Interval => match task.interval_seconds {
            Some(k) => TaskDisposition::Reschedule(now + k),
            None => vstd::pervasive::unreached(),
        },
    };
    (exec, disposition)
}

/// The task service: owns the store and the dispatcher's wake-up channel.
pub struct TaskService {
    /// The persistence model the service mutates.
    pub store: Store,
    /// The dispatcher's wake-up channel; sends are best-effort.
    pub scheduler_tx: tokio::sync::mpsc::Sender<()>,
}

impl TaskService {
    /// A service over the given store, signalling the dispatcher on the
    /// given channel.
    pub fn new(store: Store, scheduler_tx: tokio::sync::mpsc::Sender<()>) -> (s: TaskService)
        ensures
            s.store == store,
    {
        TaskService { store, scheduler_tx }
    }

    /// Shared read access to the store.
    pub fn get_store(&self) -> (r: &Store)
        ensures
            *r == self.store,
    {
        &self.store
    }

    /// Validates the request, commits the new task, and signals the
    /// dispatcher best-effort (a dropped signal is tolerated: the
    /// dispatcher's idle poll is the liveness backstop).
    ///
    /// Returns the new task's identifier. A rejected request leaves the
    /// store untouched and names the violated rule; the only other failure
    /// is the store refusing the randomly drawn identifier.
    pub fn create_task(&mut self, req: CreateTaskReq) -> (r: Result<u128, AppError>)
        requires
            old(self).store.wf(),
        ensures
            final(self).store.wf(),
            final(self).store@.executions == old(self).store@.executions,
            !valid_create(req) ==> final(self).store@.tasks == old(self).store@.tasks && (r matches
            Err(AppError::ValidationError(m)) && m@ == spec_validation_message(req)),
            valid_create(req) && r is Err ==> final(self).store@.tasks == old(self).store@.tasks
                && r matches Err(AppError::Database(_)),
            r matches Ok(id) ==> ({
                let t = final(self).store@.tasks.last();
                &&& valid_create(req)
                &&& final(self).store@.tasks == old(self).store@.tasks.push(t)
                &&& !spec_has_task(old(self).store@.tasks, id)
                &&& spec_get_task(final(self).store@.tasks, id) == Some(t)
                &&& t.id == id
                &&& t.name == req.name
                &&& t.trigger_at == req.trigger_at
                &&& (req.task_type@ == "once"@ ==> t.task_type == TaskType::Once)
                &&& (req.task_type@ == "interval"@ ==> t.task_type == TaskType::Interval
                    && t.interval_seconds == req.interval_seconds)
                &&& (req.payload matches Some(p) ==> t.payload == p)
                &&& (req.payload is None ==> t.payload@ == "{}"@)
                &&& t.deleted_at is None
            }),
    {
        let task = match prepare_task(req) {
            Ok(t) => t,
            Err(e) => {
                return Err(e);
            },
        };
        let ghost gtask = task;
        let id = task.id;
        match self.store.create_task(task) {
            Ok(()) => {
                proof {
                    lemma_create_round_trip(old(self).store@.tasks, gtask);
                }
                notify_scheduler(&self.scheduler_tx);
                Ok(id)
            },
            Err(e) => Err(e),
        }
    }

    /// Retires the task. Reports `NotFound` when no live task carries the
    /// identifier — in particular on a repeated delete.
    pub fn delete_task(&mut self, id: u128, now: i64) -> (r: Result<(), AppError>)
        requires
            old(self).store.wf(),
        ensures
            final(self).store.wf(),
            final(self).store@.tasks == spec_soft_delete(old(self).store@.tasks, id, now),
            final(self).store@.executions == old(self).store@.executions,
            r is Ok <==> spec_has_live_task(old(self).store@.tasks, id),
            r is Err ==> r matches Err(AppError::NotFound),
    {
        let rows_affected = self.store.delete_task(id, now);
        if rows_affected == 0 {
            return Err(AppError::NotFound);
        }
        Ok(())
    }

    /// Commits the consistent state transition for one dispatch of the given
    /// task snapshot: record the outcome as an execution row and, atomically
    /// with it, retire a one-shot task or reschedule a recurring one to
    /// `now` plus its interval (wall clock at processing time).
    ///
    /// An action failure is recorded, never propagated. If the task row is
    /// gone altogether (an outside hand hard-deleted it between dispatch and
    /// this call), the whole transition is dropped and the call still
    /// succeeds: nothing is recorded.
    pub fn process_task(&mut self, task: &Task, outcome: Result<String, String>, now: i64) -> (r:
        Result<(), AppError>)
        requires
            old(self).store.wf(),
            task.wf(),
            task.interval_seconds matches Some(k) ==> now + k <= i64::MAX,
        ensures
            final(self).store.wf(),
            r is Ok,
            !spec_has_task(old(self).store@.tasks, task.id) ==> final(self).store@ == old(
                self,
            ).store@,
            spec_has_task(old(self).store@.tasks, task.id) ==> ({
                let execs0 = old(self).store@.executions;
                let execs1 = final(self).store@.executions;
                &&& execs1.len() == execs0.len() + 1
                &&& execs1.subrange(0, execs0.len() as int) == execs0
                &&& execs1.last().task_id == task.id
                &&& execs1.last().executed_at == now
                &&& execs1.last().output@ == spec_output_view(outcome)
                &&& execs1.last().status == spec_status(outcome)
                &&& (task.task_type == TaskType::Once ==> final(self).store@.tasks
                    == spec_soft_delete(old(self).store@.tasks, task.id, now))
                &&& (task.task_type == TaskType::Interval ==> (task.interval_seconds matches Some(
                    k,
                ) && final(self).store@.tasks == spec_set_trigger(
                    old(self).store@.tasks,
                    task.id,
                    (now + k) as i64,
                )))
            }),
    {
        let (exec, disposition) = plan_execution(task, outcome, now);
        if !self.store.has_task(exec.task_id) {
            // The foreign key would be violated: the row was removed by an
            // outside hand. Roll the transition back silently.
            return Ok(());
        }
        let ghost execs0 = self.store@.executions;
        self.store.insert_execution(exec);
        match disposition {
            TaskDisposition::Retire => {
                let _ = self.store.delete_task(task.id, now);
            },
            TaskDisposition::Reschedule(ts) => {
                let _ = self.store.update_trigger(task.id, ts);
            },
        }
        proof {
            assert(final(self).store@.executions.subrange(0, execs0.len() as int) =~= execs0);
        }
        Ok(())
    }
}

/// A name for what serde_json returns when serialising the object
/// `{"error": reason}`: it depends on the reason string alone.
pub uninterp spec fn error_json_of(reason: Seq<char>) -> Seq<char>;

/// Relies on serde_json (`Map::insert`, `Value::to_string`) to serialise
/// the object `{"error": reason}`.
#[verifier::external_body]
fn error_json(reason: &str) -> (r: String)
    ensures
        r@ == error_json_of(reason@),
{
    let mut body = serde_json::Map::new();
    body.insert("error".to_owned(), serde_json::Value::String(reason.to_owned()));
    serde_json::Value::Object(body).to_string()
}

#[verifier::external_type_specification]
#[verifier::external_body]
#[verifier::reject_recursive_types(T)]
pub struct ExSender<T>(tokio::sync::mpsc::Sender<T>);

/// Relies on tokio's `Sender::try_send`: a non-blocking send; on a full or
/// closed channel the signal is simply dropped, which is the intended
/// best-effort wake-up. Nothing is assumed of the outcome.
#[verifier::external_body]
fn notify_scheduler(tx: &tokio::sync::mpsc::Sender<()>) {
    let _ = tx.try_send(());
}

} // verus!
