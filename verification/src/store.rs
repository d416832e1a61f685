//! The store: durable persistence of tasks and executions, modelled as the
//! two append-ordered tables the service mutates. It is the sole authority
//! for both entities; every state transition the service performs is a
//! method here, with its exact effect stated over the table contents.
//!
//! A task row is never removed: retirement is exclusively via `deleted_at`,
//! and once set it is never cleared. An execution row, once inserted, is
//! immutable.

use vstd::prelude::*;

use crate::domain::{Execution, Task};
use crate::errors::AppError;

verus! {

/// No two tasks share an identifier.
pub open spec fn ids_unique(s: Seq<Task>) -> bool {
    forall|i: int, j: int|
        0 <= i < j < s.len() ==> (#[trigger] s[i]).id != (#[trigger] s[j]).id
}

/// Some task carries this identifier.
pub open spec fn spec_has_task(s: Seq<Task>, id: u128) -> bool {
    exists|i: int| 0 <= i < s.len() && (#[trigger] s[i]).id == id
}

/// Some live task carries this identifier.
pub open spec fn spec_has_live_task(s: Seq<Task>, id: u128) -> bool {
    exists|i: int| 0 <= i < s.len() && (#[trigger] s[i]).id == id && s[i].live()
}

/// Some task is live.
pub open spec fn spec_has_live(s: Seq<Task>) -> bool {
    exists|i: int| 0 <= i < s.len() && (#[trigger] s[i]).live()
}

/// The task carrying this identifier, if any.
pub open spec fn spec_get_task(s: Seq<Task>, id: u128) -> Option<Task> {
    if spec_has_task(s, id) {
        Some(s[choose|i: int| 0 <= i < s.len() && (#[trigger] s[i]).id == id])
    } else {
        None
    }
}

/// The task, retired at the given moment.
pub open spec fn retire(t: Task, now: i64) -> Task {
    Task { deleted_at: Some(now), ..t }
}

/// The task, rescheduled to the given moment.
pub open spec fn with_trigger(t: Task, ts: i64) -> Task {
    Task { trigger_at: ts, ..t }
}

/// Effect of a soft delete: the live task carrying the identifier, if any,
/// is retired at `now`; every other row is untouched.
pub open spec fn spec_soft_delete(s: Seq<Task>, id: u128, now: i64) -> Seq<Task> {
    Seq::new(
        s.len(),
        |j: int|
            if s[j].id == id && s[j].live() {
                retire(s[j], now)
            } else {
                s[j]
            },
    )
}

/// Effect of a trigger update: the task carrying the identifier, if any,
/// has its trigger overwritten; every other row is untouched.
pub open spec fn spec_set_trigger(s: Seq<Task>, id: u128, ts: i64) -> Seq<Task> {
    Seq::new(
        s.len(),
        |j: int|
            if s[j].id == id {
                with_trigger(s[j], ts)
            } else {
                s[j]
            },
    )
}

/// Index `i` holds the task the dispatcher must consider next: it is live,
/// no live task triggers earlier, and among equally early live tasks it is
/// the first inserted.
pub open spec fn is_next_pending(s: Seq<Task>, i: int) -> bool {
    &&& 0 <= i < s.len()
    &&& s[i].live()
    &&& forall|j: int| 0 <= j < s.len() && (#[trigger] s[j]).live() ==> s[i].trigger_at <= s[j].trigger_at
    &&& forall|j: int| 0 <= j < i && (#[trigger] s[j]).live() ==> s[i].trigger_at < s[j].trigger_at
}

/// The two tables, in insertion order (newest last).
pub struct StoreModel {
    pub tasks: Seq<Task>,
    pub executions: Seq<Execution>,
}

/// In-memory realization of the persistence model: the tasks table and the
/// executions table, in insertion order.
pub struct Store {
    tasks: Vec<Task>,
    executions: Vec<Execution>,
}

impl View for Store {
    type V = StoreModel;

    closed spec fn view(&self) -> StoreModel {
        StoreModel { tasks: self.tasks@, executions: self.executions@ }
    }
}

impl Store {
    /// The store's invariant: identifiers are unique, every task satisfies
    /// its structural invariant, and every execution references a task that
    /// exists (the foreign key).
    pub open spec fn wf(&self) -> bool {
        &&& ids_unique(self@.tasks)
        &&& forall|i: int| 0 <= i < self@.tasks.len() ==> (#[trigger] self@.tasks[i]).wf()
        &&& forall|i: int|
            0 <= i < self@.executions.len() ==> spec_has_task(
                self@.tasks,
                (#[trigger] self@.executions[i]).task_id,
            )
    }

    /// An empty store.
    pub fn new() -> (s: Store)
        ensures
            s@.tasks == Seq::<Task>::empty(),
            s@.executions == Seq::<Execution>::empty(),
            s.wf(),
    {
        Store { tasks: Vec::new(), executions: Vec::new() }
    }

    /// The first index holding the identifier, scanning in insertion order.
    fn index_of(&self, id: u128) -> (r: Option<usize>)
        ensures
            match r {
                Some(i) => i < self@.tasks.len() && self@.tasks[i as int].id == id && (forall|j: int|
                    0 <= j < i ==> (#[trigger] self@.tasks[j]).id != id),
                None => forall|j: int|
                    0 <= j < self@.tasks.len() ==> (#[trigger] self@.tasks[j]).id != id,
            },
    {
        let n = self.tasks.len();
        let mut i: usize = 0;
        while i < n
            invariant
                i <= n,
                n == self@.tasks.len(),
                forall|j: int| 0 <= j < i ==> (#[trigger] self@.tasks[j]).id != id,
            decreases n - i,
        {
            if self.tasks[i].id == id {
                return Some(i);
            }
            i = i + 1;
        }
        None
    }

    /// Whether a task with this identifier exists, retired or not.
    pub fn has_task(&self, id: u128) -> (r: bool)
        ensures
            r == spec_has_task(self@.tasks, id),
    {
        self.index_of(id).is_some()
    }

    /// Inserts a task; fails if the identifier is already taken (the
    /// primary-key constraint).
    pub fn create_task(&mut self, task: Task) -> (r: Result<(), AppError>)
        requires
            old(self).wf(),
            task.wf(),
            task.deleted_at is None,
        ensures
            final(self).wf(),
            r is Ok <==> !spec_has_task(old(self)@.tasks, task.id),
            r is Ok ==> final(self)@.tasks == old(self)@.tasks.push(task),
            r is Err ==> final(self)@.tasks == old(self)@.tasks && r matches Err(
                AppError::Database(_),
            ),
            final(self)@.executions == old(self)@.executions,
    {
        if self.has_task(task.id) {
            return Err(AppError::Database("duplicate task id".to_owned()));
        }
        let ghost s0 = self@.tasks;
        self.tasks.push(task);
        proof {
            let s1 = self@.tasks;
            assert forall|i: int, j: int| 0 <= i < j < s1.len() implies (#[trigger] s1[i]).id != (
            #[trigger] s1[j]).id by {
                if j == s1.len() - 1 {
                    assert(s1[i] == s0[i]);
                }
            }
            assert forall|i: int|
                0 <= i < self@.executions.len() implies spec_has_task(
                s1,
                (#[trigger] self@.executions[i]).task_id,
            ) by {
                let w = choose|k: int|
                    0 <= k < s0.len() && (#[trigger] s0[k]).id == self@.executions[i].task_id;
                assert(s1[w] == s0[w]);
            }
        }
        Ok(())
    }

    /// The task carrying the identifier, retired or not.
    pub fn get_task(&self, id: u128) -> (r: Option<Task>)
        requires
            self.wf(),
        ensures
            r == spec_get_task(self@.tasks, id),
    {
        match self.index_of(id) {
            Some(i) => {
                let t = self.tasks[i].clone();
                proof {
                    assert(spec_has_task(self@.tasks, id));
                    let w = choose|k: int|
                        0 <= k < self@.tasks.len() && (#[trigger] self@.tasks[k]).id == id;
                    assert(self@.tasks[w].id == self@.tasks[i as int].id);
                }
                Some(t)
            },
            None => {
                assert(!spec_has_task(self@.tasks, id));
                None
            },
        }
    }

    /// Soft-deletes the task: sets `deleted_at` to `now` where the
    /// identifier matches a live row. Returns the number of rows affected:
    /// one on the first call for an existing task, zero thereafter.
    pub fn delete_task(&mut self, id: u128, now: i64) -> (n: u64)
        requires
            old(self).wf(),
        ensures
            final(self).wf(),
            final(self)@.tasks == spec_soft_delete(old(self)@.tasks, id, now),
            final(self)@.executions == old(self)@.executions,
            n == if spec_has_live_task(old(self)@.tasks, id) {
                1u64
            } else {
                0u64
            },
    {
        let ghost s0 = self@.tasks;
        let n = match self.index_of(id) {
            Some(i) => {
                if self.tasks[i].deleted_at.is_none() {
                    self.tasks[i].deleted_at = Some(now);
                    1
                } else {
                    proof {
                        assert forall|k: int|
                            !(0 <= k < s0.len() && (#[trigger] s0[k]).id == id
                                && s0[k].live()) by {
                            if 0 <= k < s0.len() && s0[k].id == id {
                                assert(s0[k].id == s0[i as int].id);
                            }
                        }
                    }
                    0
                }
            },
            None => 0,
        };
        proof {
            lemma_same_ids_wf(s0, self@.tasks);
            assert(self@.tasks =~= spec_soft_delete(s0, id, now));
        }
        n
    }

    /// Overwrites the task's trigger time where the identifier matches,
    /// retired or not. Returns the number of rows affected.
    pub fn update_trigger(&mut self, id: u128, new_trigger_at: i64) -> (n: u64)
        requires
            old(self).wf(),
        ensures
            final(self).wf(),
            final(self)@.tasks == spec_set_trigger(old(self)@.tasks, id, new_trigger_at),
            final(self)@.executions == old(self)@.executions,
            n == if spec_has_task(old(self)@.tasks, id) {
                1u64
            } else {
                0u64
            },
    {
        let ghost s0 = self@.tasks;
        let n = match self.index_of(id) {
            Some(i) => {
                self.tasks[i].trigger_at = new_trigger_at;
                1
            },
            None => 0,
        };
        proof {
            lemma_same_ids_wf(s0, self@.tasks);
            assert(self@.tasks =~= spec_set_trigger(s0, id, new_trigger_at));
        }
        n
    }

    /// Inserts an execution record. The foreign key must hold: the
    /// referenced task exists (rows are soft-deleted, never removed).
    pub fn insert_execution(&mut self, exec: Execution)
        requires
            old(self).wf(),
            spec_has_task(old(self)@.tasks, exec.task_id),
        ensures
            final(self).wf(),
            final(self)@.tasks == old(self)@.tasks,
            final(self)@.executions == old(self)@.executions.push(exec),
    {
        self.executions.push(exec);
    }

    /// The live task that triggers earliest, regardless of whether it is
    /// already due; ties go to the first inserted. The dispatcher computes
    /// its sleep from this row's trigger time.
    pub fn get_next_pending_task(&self) -> (r: Option<Task>)
        ensures
            match r {
                Some(t) => exists|i: int| #[trigger] is_next_pending(self@.tasks, i)
                    && self@.tasks[i] == t,
                None => !spec_has_live(self@.tasks),
            },
    {
        let n = self.tasks.len();
        let mut best: Option<usize> = None;
        let mut i: usize = 0;
        while i < n
            invariant
                i <= n,
                n == self@.tasks.len(),
                match best {
                    Some(b) => b < i && self@.tasks[b as int].live() && (forall|j: int|
                        0 <= j < i && (#[trigger] self@.tasks[j]).live()
                            ==> self@.tasks[b as int].trigger_at <= self@.tasks[j].trigger_at) && (
                    forall|j: int|
                        0 <= j < b && (#[trigger] self@.tasks[j]).live()
                            ==> self@.tasks[b as int].trigger_at < self@.tasks[j].trigger_at),
                    None => forall|j: int| 0 <= j < i ==> !(#[trigger] self@.tasks[j]).live(),
                },
            decreases n - i,
        {
            if self.tasks[i].deleted_at.is_none() {
                let replace = match best {
                    Some(b) => self.tasks[i].trigger_at < self.tasks[b].trigger_at,
                    None => true,
                };
                if replace {
                    best = Some(i);
                }
            }
            i = i + 1;
        }
        match best {
            Some(b) => {
                let t = self.tasks[b].clone();
                assert(is_next_pending(self@.tasks, b as int));
                Some(t)
            },
            None => None,
        }
    }

    /// Every task, retired or not, newest first.
    pub fn get_all_tasks(&self) -> (r: Vec<Task>)
        ensures
            r@.len() == self@.tasks.len(),
            forall|i: int|
                0 <= i < r@.len() ==> #[trigger] r@[i] == self@.tasks[self@.tasks.len() - 1 - i],
    {
        let n = self.tasks.len();
        let mut out: Vec<Task> = Vec::new();
        let mut i: usize = 0;
        while i < n
            invariant
                i <= n,
                n == self@.tasks.len(),
                out@.len() == i,
                forall|k: int| 0 <= k < i ==> #[trigger] out@[k] == self@.tasks[n - 1 - k],
            decreases n - i,
        {
            out.push(self.tasks[n - 1 - i].clone());
            i = i + 1;
        }
        out
    }

    /// Read access to the executions table, in insertion order.
    pub fn executions(&self) -> (r: &Vec<Execution>)
        ensures
            r@ == self@.executions,
    {
        &self.executions
    }
}

/// Rewriting rows without touching their identifiers or their structural
/// invariant preserves the store invariant's task half, and keeps every
/// identifier lookup intact.
proof fn lemma_same_ids_wf(s1: Seq<Task>, s2: Seq<Task>)
    requires
        s1.len() == s2.len(),
        forall|i: int| 0 <= i < s1.len() ==> (#[trigger] s2[i]).id == s1[i].id,
        forall|i: int| 0 <= i < s1.len() ==> ((#[trigger] s2[i]).wf() <==> s1[i].wf()),
    ensures
        ids_unique(s1) ==> ids_unique(s2),
        forall|id: u128| #[trigger] spec_has_task(s2, id) == spec_has_task(s1, id),
{
    assert forall|id: u128| #[trigger] spec_has_task(s2, id) == spec_has_task(s1, id) by {
        if spec_has_task(s1, id) {
            let w = choose|i: int| 0 <= i < s1.len() && (#[trigger] s1[i]).id == id;
            assert(s2[w].id == id);
        }
        if spec_has_task(s2, id) {
            let w = choose|i: int| 0 <= i < s2.len() && (#[trigger] s2[i]).id == id;
            assert(s1[w].id == id);
        }
    }
}

/// Law: a freshly inserted task is retrieved unchanged by its identifier —
/// the create round-trip, up to the randomly assigned identifier.
pub proof fn lemma_create_round_trip(s: Seq<Task>, t: Task)
    requires
        !spec_has_task(s, t.id),
    ensures
        spec_get_task(s.push(t), t.id) == Some(t),
{
    let s2 = s.push(t);
    assert(s2[s.len() as int] == t);
    assert(spec_has_task(s2, t.id));
    let w = choose|i: int| 0 <= i < s2.len() && (#[trigger] s2[i]).id == t.id;
    if w < s.len() {
        assert(s[w] == s2[w]);
        assert(spec_has_task(s, t.id));
    }
    assert(s2[w] == t);
}

/// Law: retirement is permanent — neither a later soft delete nor a trigger
/// update ever clears or changes a `deleted_at` that is set. (Insertion
/// only appends, and executions never touch the tasks table, so these two
/// transitions are the only ones that rewrite a task row at all.)
pub proof fn lemma_retirement_permanent(s: Seq<Task>, id: u128, now: i64, ts: i64, j: int)
    requires
        0 <= j < s.len(),
        s[j].deleted_at is Some,
    ensures
        spec_soft_delete(s, id, now)[j].deleted_at == s[j].deleted_at,
        spec_set_trigger(s, id, ts)[j].deleted_at == s[j].deleted_at,
{
}

/// Law: after a soft delete of a live task, the row is still retrievable
/// with `deleted_at` set to the deletion moment, and the next-pending query
/// never returns it.
pub proof fn lemma_soft_delete_semantics(s: Seq<Task>, id: u128, now: i64)
    requires
        ids_unique(s),
        spec_has_live_task(s, id),
    ensures
        spec_get_task(spec_soft_delete(s, id, now), id) matches Some(t) && t.deleted_at == Some(
            now,
        ),
        forall|i: int| #[trigger]
            is_next_pending(spec_soft_delete(s, id, now), i) ==> spec_soft_delete(s, id, now)[i].id
                != id,
{
    let s2 = spec_soft_delete(s, id, now);
    let k = choose|i: int| 0 <= i < s.len() && (#[trigger] s[i]).id == id && s[i].live();
    assert(s2[k].id == id);
    assert(spec_has_task(s2, id));
    let w = choose|i: int| 0 <= i < s2.len() && (#[trigger] s2[i]).id == id;
    assert(s[w].id == s[k].id);
    assert(w == k);
    assert(s2[k] == retire(s[k], now));
    assert forall|i: int| #[trigger] is_next_pending(s2, i) implies s2[i].id != id by {
        if s2[i].id == id {
            assert(s[i].id == s[k].id);
            assert(i == k);
            assert(!s2[k].live());
        }
    }
}

} // verus!
