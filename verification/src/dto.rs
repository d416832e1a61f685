//! Request and response shapes of the task API, and the mapping from stored
//! tasks to the summaries the listing endpoint returns.

use vstd::prelude::*;

use crate::domain::Task;

verus! {

/// A request to create a new task.
pub struct CreateTaskReq {
    /// Free-form label.
    pub name: String,
    /// `"once"` or `"interval"`; anything else is rejected.
    pub task_type: String,
    /// Earliest trigger moment, UTC seconds.
    pub trigger_at: i64,
    /// Required, and at least one, for `"interval"`; ignored for `"once"`.
    pub interval_seconds: Option<i64>,
    /// Opaque JSON text handed verbatim to the action; defaults to the
    /// empty object.
    pub payload: Option<String>,
}

/// Full details of one task.
pub struct TaskResponse {
    pub id: u128,
    pub name: String,
    pub task_type: String,
    pub trigger_at: i64,
    pub interval_seconds: Option<i64>,
    pub payload: String,
}

/// One line of the task listing: retired tasks are shown, flagged.
pub struct TaskSummaryResponse {
    pub id: u128,
    pub name: String,
    /// `"active"` for a live task, `"deleted"` for a retired one.
    pub status: String,
    pub deleted_at: Option<i64>,
}

/// Maps every task, retired or not, to its listing line, keeping order.
pub fn summarize_tasks(tasks: &Vec<Task>) -> (r: Vec<TaskSummaryResponse>)
    ensures
        r@.len() == tasks@.len(),
        forall|i: int|
            0 <= i < tasks@.len() ==> {
                let s = #[trigger] r@[i];
                &&& s.id == tasks@[i].id
                &&& s.name == tasks@[i].name
                &&& s.status@ == (if tasks@[i].live() {
                    "active"@
                } else {
                    "deleted"@
                })
                &&& s.deleted_at == tasks@[i].deleted_at
            },
{
    let n = tasks.len();
    let mut out: Vec<TaskSummaryResponse> = Vec::new();
    let mut i: usize = 0;
    while i < n
        invariant
            i <= n,
            n == tasks@.len(),
            out@.len() == i,
            forall|k: int|
                0 <= k < i ==> {
                    let s = #[trigger] out@[k];
                    &&& s.id == tasks@[k].id
                    &&& s.name == tasks@[k].name
                    &&& s.status@ == (if tasks@[k].live() {
                        "active"@
                    } else {
                        "deleted"@
                    })
                    &&& s.deleted_at == tasks@[k].deleted_at
                },
        decreases n - i,
    {
        let t = &tasks[i];
        let status = if t.deleted_at.is_none() {
            "active".to_owned()
        } else {
            "deleted".to_owned()
        };
        out.push(
            TaskSummaryResponse {
                id: t.id,
                name: t.name.clone(),
                status,
                deleted_at: t.deleted_at,
            },
        );
        i = i + 1;
    }
    out
}

} // verus!
