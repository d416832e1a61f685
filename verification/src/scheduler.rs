//! The dispatcher's decisions. The dispatcher itself is a single
//! cooperative loop: poll the store for the next pending task, sleep until
//! its trigger (or idle-poll when there is none), then — unless a wake-up
//! or a cancellation arrives first — re-check that the snapshot is due and
//! process it. Every wake re-queries the store, so newly inserted earlier
//! tasks are picked up without an in-memory queue.
//!
//! The loop's suspension points (the timer, the select, the store I/O) run
//! outside; what is decided between them is here, with its contract.

use vstd::prelude::*;

use crate::domain::Task;
use crate::store::{is_next_pending, spec_has_live};

verus! {

/// How long the dispatcher sleeps when no task is scheduled at all; the
/// liveness backstop against lost wake-up signals.
pub const IDLE_POLL_SECS: u64 = 3600;

/// How long the dispatcher backs off after a failed poll of the store.
pub const ERROR_BACKOFF_SECS: u64 = 5;

/// The sleep before the next dispatch attempt: zero when the fetched task
/// is already due, the exact distance to its trigger when it is not, and
/// the idle poll when nothing is scheduled.
pub fn compute_sleep(next: &Option<Task>, now: i64) -> (sleep: u64)
    ensures
        next is None ==> sleep == IDLE_POLL_SECS,
        next matches Some(t) ==> sleep == (if t.trigger_at <= now {
            0
        } else {
            t.trigger_at - now
        }),
{
    match next {
        None => IDLE_POLL_SECS,
        Some(t) => {
            if t.trigger_at <= now {
                0
            } else {
                ((t.trigger_at as i128) - (now as i128)) as u64
            }
        },
    }
}

/// The dispatcher's re-check when its timer fires: dispatch exactly when a
/// task was fetched and its trigger has passed. The snapshot may be stale —
/// retired or rescheduled meanwhile — and is deliberately not re-read.
pub fn should_dispatch(next: &Option<Task>, now: i64) -> (r: bool)
    ensures
        r <==> (next matches Some(t) && t.trigger_at <= now),
{
    match next {
        Some(t) => t.trigger_at <= now,
        None => false,
    }
}

/// Law: once a live task is due, the dispatcher's very next iteration
/// reaches it — the poll cannot come back empty, and whatever task it
/// returns is itself already due, so the computed sleep is zero and the
/// dispatch re-check passes. A task created with a past trigger is thus
/// executed within one poll round, with or without a wake-up signal.
pub proof fn lemma_due_task_dispatched(s: Seq<Task>, d: int, now: i64, polled: Option<Task>)
    requires
        0 <= d < s.len(),
        s[d].live(),
        s[d].trigger_at <= now,
        match polled {
            Some(t) => exists|i: int| #[trigger] is_next_pending(s, i) && s[i] == t,
            None => !spec_has_live(s),
        },
    ensures
        polled matches Some(t) && t.trigger_at <= now,
{
    assert(spec_has_live(s));
    let t = polled.unwrap();
    let i = choose|i: int| #[trigger] is_next_pending(s, i) && s[i] == t;
    assert(s[i].trigger_at <= s[d].trigger_at);
}

} // verus!
