//! Tasks: the active ones and the finished ones.

use vstd::prelude::*;

use crate::collections;
use crate::collections::StrMap;
use crate::config::env::{MAX_ACTIVE_TASKS, MAX_TASK_HISTORY};
use crate::domain::deploy::{DeployStage, DeployStatus, DeployTask};
use crate::text::chars::str_eq;
use crate::time::Timestamp;

verus! {

/// Hours that a finished task is kept.
pub const RETENTION_HOURS: i64 = 24;

/// The largest number of hours that a retention can have.
pub const MAX_RETENTION_HOURS: i64 = 2_562_047_788_015;

/// The tasks of the agent.
pub struct TaskStore {
    tasks: StrMap<DeployTask>,
    history: Vec<DeployTask>,
    max_active: usize,
    max_history: usize,
    retention_hours: i64,
}

/// The first task with a name.
pub open spec fn first_named(tasks: Seq<DeployTask>, id: Seq<char>) -> Option<DeployTask>
    decreases tasks.len(),
{
    if tasks.len() == 0 {
        None
    } else if tasks[0].id@ == id {
        Some(tasks[0])
    } else {
        first_named(tasks.subrange(1, tasks.len() as int), id)
    }
}

/// The contents of an optional slice.
pub open spec fn opt_str_view(o: Option<&str>) -> Option<Seq<char>> {
    match o {
        Some(s) => Some(s@),
        None => None,
    }
}

/// The task belongs to the project and is in the state, where they are named.
pub open spec fn task_matches(
    task: DeployTask,
    project: Option<Seq<char>>,
    status: Option<Seq<char>>,
) -> bool {
    &&& project matches Some(p) ==> task.project@ == p
    &&& status matches Some(s) ==> task.status.name() == s
}

/// Whether the task belongs to the project and is in the state.
pub fn matches_filter(task: &DeployTask, project: Option<&str>, status: Option<&str>) -> (r: bool)
    ensures
        r == task_matches(*task, opt_str_view(project), opt_str_view(status)),
{
    if let Some(p) = project {
        if !str_eq(task.project.as_str(), p) {
            return false;
        }
    }
    if let Some(s) = status {
        if !str_eq(task.status.as_str(), s) {
            return false;
        }
    }
    true
}

/// The task ended no longer ago than the retention, or has no end.
pub open spec fn is_recent(task: DeployTask, now: Timestamp, retention_hours: i64) -> bool {
    match task.finished_at {
        Some(t) => now.instant() - t.instant() < retention_hours * 3_600_000_000_000,
        None => true,
    }
}

/// An active task is kept: it still runs, or it ended not long ago.
pub open spec fn is_kept(task: DeployTask, now: Timestamp, retention_hours: i64) -> bool {
    !task.status.terminal() || is_recent(task, now, retention_hours)
}

/// The first `limit` elements.
pub open spec fn at_most<T>(s: Seq<T>, limit: int) -> Seq<T> {
    if s.len() <= limit {
        s
    } else {
        s.take(limit)
    }
}

/// The values behind a list of references.
pub open spec fn referents(v: Seq<&DeployTask>) -> Seq<DeployTask> {
    v.map_values(|t: &DeployTask| *t)
}

proof fn lemma_filter_prefix<T>(s: Seq<T>, p: spec_fn(T) -> bool, i: int)
    requires
        0 <= i <= s.len(),
    ensures
        s.take(i).filter(p).len() <= s.filter(p).len(),
        s.filter(p).take(s.take(i).filter(p).len() as int) == s.take(i).filter(p),
{
    let rest = s.subrange(i, s.len() as int);
    assert(s =~= s.take(i) + rest);
    Seq::filter_distributes_over_add(s.take(i), rest, p);
    let a = s.take(i).filter(p);
    assert((a + rest.filter(p)).take(a.len() as int) =~= a);
}

impl TaskStore {
    /// The active tasks by name.
    pub closed spec fn active(&self) -> Map<Seq<char>, DeployTask> {
        self.tasks@
    }

    /// The names of the active tasks in the order in which they came.
    pub closed spec fn active_names(&self) -> Seq<Seq<char>> {
        self.tasks.keys()
    }

    /// The finished tasks, the latest first.
    pub closed spec fn past(&self) -> Seq<DeployTask> {
        self.history@
    }

    /// How many finished tasks are kept.
    pub closed spec fn history_limit(&self) -> nat {
        self.max_history as nat
    }

    /// How many active tasks there should be at most.
    pub closed spec fn active_limit(&self) -> nat {
        self.max_active as nat
    }

    /// How many hours finished tasks are kept.
    pub closed spec fn retention(&self) -> i64 {
        self.retention_hours
    }

    /// No more finished tasks are kept than should be.
    pub open spec fn wf(&self) -> bool {
        self.past().len() <= self.history_limit()
    }

    /// The limits of both stores are the same.
    pub open spec fn same_limits(&self, other: &TaskStore) -> bool {
        &&& self.history_limit() == other.history_limit()
        &&& self.active_limit() == other.active_limit()
        &&& self.retention() == other.retention()
    }

    /// An empty store with the usual limits.
    pub fn new() -> (r: TaskStore)
        ensures
            r.wf(),
            r.active() == Map::<Seq<char>, DeployTask>::empty(),
            r.past() == Seq::<DeployTask>::empty(),
            r.active_limit() == MAX_ACTIVE_TASKS,
            r.history_limit() == MAX_TASK_HISTORY,
            r.retention() == RETENTION_HOURS,
    {
        TaskStore::with_config(MAX_ACTIVE_TASKS, MAX_TASK_HISTORY, RETENTION_HOURS)
    }

    /// An empty store with limits of its own.
    pub fn with_config(max_active: usize, max_history: usize, retention_hours: i64) -> (r: TaskStore)
        requires
            -MAX_RETENTION_HOURS <= retention_hours <= MAX_RETENTION_HOURS,
        ensures
            r.wf(),
            r.active() == Map::<Seq<char>, DeployTask>::empty(),
            r.past() == Seq::<DeployTask>::empty(),
            r.active_limit() == max_active,
            r.history_limit() == max_history,
            r.retention() == retention_hours,
    {
        TaskStore {
            tasks: StrMap::new(),
            history: Vec::new(),
            max_active,
            max_history,
            retention_hours,
        }
    }

    /// How many hours finished tasks are kept.
    pub fn retention_hours(&self) -> (r: i64)
        ensures
            r == self.retention(),
    {
        self.retention_hours
    }

    /// Makes a task active, in place of an active one with the same name.
    pub fn create(&mut self, task: DeployTask) -> (r: String)
        ensures
            r == task.id,
            final(self).active() == old(self).active().insert(task.id@, task),
            final(self).past() == old(self).past(),
            final(self).same_limits(old(self)),
    {
        let id = task.id.clone();
        self.tasks.insert(id.clone(), task);
        id
    }

    /// The active task with a name.
    pub fn get(&self, task_id: &str) -> (r: Option<&DeployTask>)
        ensures
            r is Some <==> self.active().dom().contains(task_id@),
            r matches Some(t) ==> *t == self.active()[task_id@],
    {
        self.tasks.get(task_id)
    }

    /// The task that a name stands for: the active one, or else the latest
    /// finished one.
    pub open spec fn lookup(&self, id: Seq<char>) -> Option<DeployTask> {
        if self.active().dom().contains(id) {
            Some(self.active()[id])
        } else {
            first_named(self.past(), id)
        }
    }

    /// The task with a name, active or finished.
    pub fn get_any(&self, task_id: &str) -> (r: Option<&DeployTask>)
        ensures
            r is Some <==> self.lookup(task_id@) is Some,
            r matches Some(t) ==> self.lookup(task_id@) == Some(*t),
    {
        if let Some(t) = self.tasks.get(task_id) {
            return Some(t);
        }
        let n = self.history.len();
        let mut i: usize = 0;
        assert(self.history@.subrange(0, n as int) =~= self.history@);
        while i < n
            invariant
                n == self.history@.len(),
                i <= n,
                !self.active().dom().contains(task_id@),
                self.lookup(task_id@) == first_named(
                    self.history@.subrange(i as int, n as int),
                    task_id@,
                ),
            decreases n - i,
        {
            let ghost rest = self.history@.subrange(i as int, n as int);
            assert(rest[0] == self.history@[i as int]);
            if str_eq(self.history[i].id.as_str(), task_id) {
                return Some(&self.history[i]);
            }
            assert(rest.subrange(1, rest.len() as int) =~= self.history@.subrange(
                i + 1,
                n as int,
            ));
            i = i + 1;
        }
        None
    }

    /// All active tasks.
    pub fn get_all(&self) -> (r: Vec<&DeployTask>)
        ensures
            r@.len() == self.active_names().len(),
            self.active_names().no_duplicates(),
            self.active_names().to_set() == self.active().dom(),
            forall|i: int|
                0 <= i < r@.len() ==> *(#[trigger] r@[i]) == self.active()[self.active_names()[i]],
    {
        let n = self.tasks.len();
        let mut r: Vec<&DeployTask> = Vec::new();
        let mut i: usize = 0;
        while i < n
            invariant
                n == self.tasks.keys().len(),
                i <= n,
                r@.len() == i,
                forall|j: int|
                    0 <= j < i ==> *(#[trigger] r@[j]) == self.tasks@[self.tasks.keys()[j]],
            decreases n - i,
        {
            r.push(self.tasks.value_at(i));
            i = i + 1;
        }
        r
    }

    /// Whether a task is active.
    pub fn contains(&self, task_id: &str) -> (r: bool)
        ensures
            r == self.active().dom().contains(task_id@),
    {
        self.tasks.contains_key(task_id)
    }

    /// The task in another state; it has an end where the state is one.
    pub open spec fn with_status(
        task: DeployTask,
        status: DeployStatus,
        exit_code: Option<i32>,
        now: Timestamp,
    ) -> DeployTask {
        DeployTask {
            status,
            exit_code,
            finished_at: if status.terminal() {
                Some(now)
            } else {
                task.finished_at
            },
            ..task
        }
    }

    /// The active tasks after one of them came into another state.
    pub open spec fn status_updated(
        self,
        id: Seq<char>,
        status: DeployStatus,
        exit_code: Option<i32>,
        now: Timestamp,
    ) -> Map<Seq<char>, DeployTask> {
        if self.active().dom().contains(id) {
            self.active().insert(
                id,
                TaskStore::with_status(self.active()[id], status, exit_code, now),
            )
        } else {
            self.active()
        }
    }

    /// Brings an active task into another state at `now`.
    pub fn update_status_at(
        &mut self,
        task_id: &str,
        status: DeployStatus,
        exit_code: Option<i32>,
        now: Timestamp,
    )
        ensures
            final(self).active() == old(self).status_updated(task_id@, status, exit_code, now),
            final(self).past() == old(self).past(),
            final(self).same_limits(old(self)),
    {
        if let Some(task) = self.tasks.remove(task_id) {
            let mut task = task;
            task.status = status;
            task.exit_code = exit_code;
            if status.is_terminal() {
                task.finished_at = Some(now);
            }
            self.tasks.insert(task_id.to_owned(), task);
        }
        assert(self.active() =~= old(self).status_updated(task_id@, status, exit_code, now));
    }

    /// Brings an active task into another state now.
    pub fn update_status(&mut self, task_id: &str, status: DeployStatus, exit_code: Option<i32>)
        ensures
            exists|now: Timestamp|
                final(self).active() == #[trigger] old(self).status_updated(
                    task_id@,
                    status,
                    exit_code,
                    now,
                ),
            final(self).past() == old(self).past(),
            final(self).same_limits(old(self)),
    {
        let now = Timestamp::now();
        self.update_status_at(task_id, status, exit_code, now);
        assert(self.active() == old(self).status_updated(task_id@, status, exit_code, now));
    }

    /// Sets the stages of an active task.
    pub fn update_stages(&mut self, task_id: &str, stages: Vec<DeployStage>)
        ensures
            final(self).active() == if old(self).active().dom().contains(task_id@) {
                old(self).active().insert(
                    task_id@,
                    DeployTask { stages, ..old(self).active()[task_id@] },
                )
            } else {
                old(self).active()
            },
            final(self).past() == old(self).past(),
            final(self).same_limits(old(self)),
    {
        if let Some(task) = self.tasks.remove(task_id) {
            let mut task = task;
            task.stages = stages;
            self.tasks.insert(task_id.to_owned(), task);
            assert(self.active() =~= old(self).active().insert(
                task_id@,
                DeployTask { stages, ..old(self).active()[task_id@] },
            ));
        } else {
            assert(self.active() =~= old(self).active());
        }
    }

    /// The finished tasks after one more, the latest first.
    pub open spec fn history_with(self, task: DeployTask) -> Seq<DeployTask> {
        at_most(seq![task] + self.past(), self.history_limit() as int)
    }

    /// Adds a finished task at the front, and drops the oldest ones beyond the
    /// limit.
    pub fn add_to_history(&mut self, task: DeployTask)
        ensures
            final(self).active() == old(self).active(),
            final(self).active_names() == old(self).active_names(),
            final(self).past() == old(self).history_with(task),
            final(self).same_limits(old(self)),
            final(self).wf(),
    {
        self.history.insert(0, task);
        assert(self.history@ =~= seq![task] + old(self).history@);
        self.history.truncate(self.max_history);
    }

    /// What finishing a task at `now` leaves: the active tasks and the finished
    /// ones.
    pub open spec fn after_finish(
        self,
        id: Seq<char>,
        status: DeployStatus,
        exit_code: Option<i32>,
        now: Timestamp,
    ) -> (Map<Seq<char>, DeployTask>, Seq<DeployTask>) {
        if self.active().dom().contains(id) {
            (
                self.active().remove(id),
                self.history_with(self.active()[id].completed(now, status, exit_code)),
            )
        } else {
            (self.active(), self.past())
        }
    }

    /// Ends an active task at `now` and moves it to the finished ones.
    pub fn finish_at(
        &mut self,
        task_id: &str,
        status: DeployStatus,
        exit_code: Option<i32>,
        now: Timestamp,
    )
        ensures
            (final(self).active(), final(self).past()) == old(self).after_finish(
                task_id@,
                status,
                exit_code,
                now,
            ),
            final(self).same_limits(old(self)),
            old(self).wf() ==> final(self).wf(),
    {
        if let Some(task) = self.tasks.remove(task_id) {
            let mut task = task;
            task.complete_at(now, status, exit_code);
            self.add_to_history(task);
        }
        assert(self.active() =~= old(self).after_finish(task_id@, status, exit_code, now).0);
    }

    /// Ends an active task now and moves it to the finished ones.
    pub fn finish(&mut self, task_id: &str, status: DeployStatus, exit_code: Option<i32>)
        ensures
            exists|now: Timestamp|
                (final(self).active(), final(self).past()) == #[trigger] old(self).after_finish(
                    task_id@,
                    status,
                    exit_code,
                    now,
                ),
            final(self).same_limits(old(self)),
            old(self).wf() ==> final(self).wf(),
    {
        let now = Timestamp::now();
        self.finish_at(task_id, status, exit_code, now);
        assert((self.active(), self.past()) == old(self).after_finish(
            task_id@,
            status,
            exit_code,
            now,
        ));
    }

    /// The finished tasks that match, the latest first, at most `limit` of
    /// them.
    pub fn get_history(&self, limit: usize, project: Option<&str>, status: Option<&str>) -> (r: Vec<
        &DeployTask,
    >)
        ensures
            referents(r@) == at_most(
                self.past().filter(
                    |t: DeployTask| task_matches(t, opt_str_view(project), opt_str_view(status)),
                ),
                limit as int,
            ),
    {
        let ghost p = |t: DeployTask|
            task_matches(t, opt_str_view(project), opt_str_view(status));
        let ghost all = self.history@;
        let mut r: Vec<&DeployTask> = Vec::new();
        let mut i: usize = 0;
        proof {
            reveal(Seq::filter);
            assert(referents(r@) =~= all.take(0).filter(p));
        }
        while i < self.history.len() && r.len() < limit
            invariant
                i <= self.history@.len(),
                all == self.history@,
                r@.len() <= limit,
                p == (|t: DeployTask|
                    task_matches(t, opt_str_view(project), opt_str_view(status))),
                referents(r@) == all.take(i as int).filter(p),
            decreases self.history@.len() - i,
        {
            proof {
                collections::lemma_filter_step(all, p, i as int);
            }
            if matches_filter(&self.history[i], project, status) {
                let ghost before = r@;
                r.push(&self.history[i]);
                assert(referents(r@) =~= referents(before).push(all[i as int]));
            }
            i = i + 1;
        }
        proof {
            lemma_filter_prefix(all, p, i as int);
            assert(referents(r@).len() == r@.len());
            if i == self.history@.len() {
                assert(all.take(i as int) =~= all);
            }
        }
        r
    }

    /// How many finished tasks there are.
    pub fn history_count(&self) -> (r: usize)
        ensures
            r == self.past().len(),
    {
        self.history.len()
    }

    fn recent(task: &DeployTask, now: Timestamp, retention_hours: i64) -> (r: bool)
        requires
            -MAX_RETENTION_HOURS <= retention_hours <= MAX_RETENTION_HOURS,
        ensures
            r == is_recent(*task, now, retention_hours),
    {
        match task.finished_at {
            Some(t) => now.less_than_seconds_since(&t, retention_hours * 3600),
            None => true,
        }
    }

    /// What a cleanup at `now` leaves: the active tasks and the finished ones.
    pub open spec fn after_cleanup(self, now: Timestamp) -> (
        Map<Seq<char>, DeployTask>,
        Seq<DeployTask>,
    ) {
        (
            collections::kept(
                self.active(),
                |k: Seq<char>, t: DeployTask| is_kept(t, now, self.retention()),
            ),
            self.past().filter(|t: DeployTask| is_recent(t, now, self.retention())),
        )
    }

    /// Forgets, at `now`, the tasks that ended longer ago than the retention.
    pub fn cleanup_stale_at(&mut self, now: Timestamp)
        requires
            -MAX_RETENTION_HOURS <= old(self).retention() <= MAX_RETENTION_HOURS,
        ensures
            (final(self).active(), final(self).past()) == old(self).after_cleanup(now),
            final(self).same_limits(old(self)),
            old(self).wf() ==> final(self).wf(),
    {
        let n = self.tasks.len();
        let hours = self.retention_hours;
        let ghost test = |k: Seq<char>, t: DeployTask| is_kept(t, now, old(self).retention());
        let mut marks: Vec<bool> = Vec::new();
        let mut i: usize = 0;
        while i < n
            invariant
                n == self.tasks.keys().len(),
                i <= n,
                marks@.len() == i,
                *self == *old(self),
                hours == self.retention_hours,
                -MAX_RETENTION_HOURS <= hours <= MAX_RETENTION_HOURS,
                test == (|k: Seq<char>, t: DeployTask| is_kept(t, now, old(self).retention())),
                forall|j: int|
                    0 <= j < i ==> #[trigger] marks@[j] == test(
                        self.tasks.keys()[j],
                        self.tasks@[self.tasks.keys()[j]],
                    ),
            decreases n - i,
        {
            let task = self.tasks.value_at(i);
            let keep = !task.status.is_terminal() || TaskStore::recent(task, now, hours);
            marks.push(keep);
            i = i + 1;
        }
        let ghost all = self.history@;
        self.tasks.retain_marked(&marks, Ghost(test));
        let ghost p = |t: DeployTask| is_recent(t, now, old(self).retention());
        let mut kept: Vec<DeployTask> = Vec::new();
        let mut rest: Vec<DeployTask> = Vec::new();
        std::mem::swap(&mut rest, &mut self.history);
        proof {
            reveal(Seq::filter);
            assert(kept@ =~= all.take(0).filter(p));
            assert(all.subrange(0, all.len() as int) =~= all);
        }
        let mut done: usize = 0;
        let total = rest.len();
        while done < total
            invariant
                total == all.len(),
                done <= total,
                rest@ == all.subrange(done as int, all.len() as int),
                hours == old(self).retention(),
                -MAX_RETENTION_HOURS <= hours <= MAX_RETENTION_HOURS,
                p == (|t: DeployTask| is_recent(t, now, old(self).retention())),
                kept@ == all.take(done as int).filter(p),
            decreases total - done,
        {
            proof {
                collections::lemma_filter_step(all, p, done as int);
            }
            let task = rest.remove(0);
            assert(rest@ =~= all.subrange(done + 1, all.len() as int));
            if TaskStore::recent(&task, now, hours) {
                kept.push(task);
            }
            done = done + 1;
        }
        self.history = kept;
        proof {
            assert(all.take(all.len() as int) =~= all);
            all.lemma_filter_len(p);
        }
    }

    /// Forgets the tasks that ended longer ago than the retention.
    pub fn cleanup_stale(&mut self)
        requires
            -MAX_RETENTION_HOURS <= old(self).retention() <= MAX_RETENTION_HOURS,
        ensures
            exists|now: Timestamp|
                (final(self).active(), final(self).past()) == #[trigger] old(self).after_cleanup(
                    now,
                ),
            final(self).same_limits(old(self)),
            old(self).wf() ==> final(self).wf(),
    {
        let now = Timestamp::now();
        self.cleanup_stale_at(now);
        assert((self.active(), self.past()) == old(self).after_cleanup(now));
    }

    /// How many active tasks there are.
    pub fn active_count(&self) -> (r: usize)
        ensures
            r == self.active().dom().len(),
            r == self.active_names().len(),
    {
        self.tasks.len()
    }

    /// Whether there are as many active tasks as there should be at most.
    pub fn is_at_capacity(&self) -> (r: bool)
        ensures
            r == (self.active().dom().len() >= self.active_limit()),
    {
        self.active_count() >= self.max_active
    }
}

impl Default for TaskStore {
    fn default() -> (r: TaskStore)
        ensures
            r.wf(),
            r.active() == Map::<Seq<char>, DeployTask>::empty(),
            r.past() == Seq::<DeployTask>::empty(),
            r.active_limit() == MAX_ACTIVE_TASKS,
            r.history_limit() == MAX_TASK_HISTORY,
            r.retention() == RETENTION_HOURS,
    {
        TaskStore::new()
    }
}

/// A task that has been finished is no longer active, and it stands first
/// among the finished ones, where a name finds it.
pub proof fn finished_task_is_found(
    store: TaskStore,
    id: Seq<char>,
    status: DeployStatus,
    exit_code: Option<i32>,
    now: Timestamp,
)
    requires
        store.active().dom().contains(id),
        store.active()[id].id@ == id,
        store.history_limit() > 0,
    ensures
        ({
            let (active, past) = store.after_finish(id, status, exit_code, now);
            &&& !active.dom().contains(id)
            &&& past.len() > 0
            &&& past[0] == store.active()[id].completed(now, status, exit_code)
            &&& first_named(past, id) == Some(past[0])
            &&& past.len() <= store.history_limit() || past.len() <= store.past().len()
        }),
{
}

/// A cleanup forgets no task that still runs, changes none that stays, and
/// keeps the order of the finished ones.
pub proof fn cleanup_keeps_running(store: TaskStore, now: Timestamp, id: Seq<char>)
    requires
        store.active().dom().contains(id),
        !store.active()[id].status.terminal(),
    ensures
        store.after_cleanup(now).0.dom().contains(id),
        store.after_cleanup(now).0[id] == store.active()[id],
        store.after_cleanup(now).0.submap_of(store.active()),
{
}

/// Adding a finished task keeps the ones before it, in order, as far as the
/// limit allows.
pub proof fn history_keeps_order(store: TaskStore, task: DeployTask, i: int)
    requires
        0 <= i < store.past().len(),
        i + 1 < store.history_limit(),
    ensures
        store.history_with(task)[i + 1] == store.past()[i],
        store.history_with(task).len() <= store.history_limit(),
{
}

} // verus!
