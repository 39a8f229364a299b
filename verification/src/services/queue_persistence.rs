//! The deployments that wait or run, kept over a restart of the agent.

use vstd::prelude::*;

use crate::collections;
use crate::config::environment::Environment;
use crate::text::chars;
use crate::text::chars::str_eq;
use crate::time::Timestamp;

verus! {

/// The name of the file that holds the queue.
pub const QUEUE_FILE_NAME: &'static str = "queue.json";

/// The directory of the file where nothing else is known.
pub const DEFAULT_DATA_DIR: &'static str = "/opt/xjp-deploy-agent";

/// The directory of the queue file: the one that the environment names, or
/// that of the executable, or the usual one.
pub fn queue_dir(env: &Environment, exe_dir: Option<String>) -> (r: String)
    ensures
        r@ == match env.value("XJP_DATA_DIR"@) {
            Some(d) => d,
            None => match exe_dir {
                Some(d) => d@,
                None => DEFAULT_DATA_DIR@,
            },
        },
{
    match env.var("XJP_DATA_DIR") {
        Some(d) => d,
        None => match exe_dir {
            Some(d) => d,
            None => DEFAULT_DATA_DIR.to_owned(),
        },
    }
}

/// A deployment that waits or runs.
#[derive(Debug)]
pub struct PersistedTask {
    pub task_id: String,
    pub project: String,
    /// Its name at the deploy center.
    pub deploy_log_id: Option<String>,
    pub commit_hash: Option<String>,
    pub branch: Option<String>,
    /// "queued" or "running".
    pub status: String,
    pub queued_at: Timestamp,
    pub started_at: Option<Timestamp>,
}

impl Clone for PersistedTask {
    fn clone(&self) -> (r: PersistedTask)
        ensures
            r == *self,
    {
        PersistedTask {
            task_id: self.task_id.clone(),
            project: self.project.clone(),
            deploy_log_id: self.deploy_log_id.clone(),
            commit_hash: self.commit_hash.clone(),
            branch: self.branch.clone(),
            status: self.status.clone(),
            queued_at: self.queued_at,
            started_at: self.started_at,
        }
    }
}

/// The deployments that wait or run.
#[derive(Debug)]
pub struct PersistedQueue {
    /// The version of the format.
    pub version: u32,
    pub tasks: Vec<PersistedTask>,
    pub saved_at: Timestamp,
    pub agent_id: Option<String>,
}

/// The first place of a task in a list, or the length where it is not there.
pub open spec fn place_of(tasks: Seq<PersistedTask>, id: Seq<char>) -> int
    decreases tasks.len(),
{
    if tasks.len() == 0 {
        0
    } else if tasks[0].task_id@ == id {
        0
    } else {
        1 + place_of(tasks.subrange(1, tasks.len() as int), id)
    }
}

/// A list has a task.
pub open spec fn has_task(tasks: Seq<PersistedTask>, id: Seq<char>) -> bool {
    exists|i: int| 0 <= i < tasks.len() && (#[trigger] tasks[i]).task_id@ == id
}

/// No task stands twice in a list.
pub open spec fn ids_unique(tasks: Seq<PersistedTask>) -> bool {
    forall|i: int, j: int|
        0 <= i < j < tasks.len() ==> (#[trigger] tasks[i]).task_id@ != (
        #[trigger] tasks[j]).task_id@
}

/// A list after a task is added: nothing changes where it is there.
pub open spec fn with_task(tasks: Seq<PersistedTask>, task: PersistedTask) -> Seq<PersistedTask> {
    if has_task(tasks, task.task_id@) {
        tasks
    } else {
        tasks.push(task)
    }
}

/// The test for tasks with other names.
pub open spec fn named_otherwise(id: Seq<char>) -> spec_fn(PersistedTask) -> bool {
    |t: PersistedTask| t.task_id@ != id
}

/// A list after a task is removed.
pub open spec fn without_task(tasks: Seq<PersistedTask>, id: Seq<char>) -> Seq<PersistedTask> {
    tasks.filter(named_otherwise(id))
}

/// A task in another state; a point at which it began is kept where no other
/// is given.
pub open spec fn restated(
    task: PersistedTask,
    status: String,
    started_at: Option<Timestamp>,
) -> PersistedTask {
    PersistedTask {
        status,
        started_at: match started_at {
            Some(t) => Some(t),
            None => task.started_at,
        },
        ..task
    }
}

/// A list after the first task with a name came into another state.
pub open spec fn with_status(
    tasks: Seq<PersistedTask>,
    id: Seq<char>,
    status: String,
    started_at: Option<Timestamp>,
) -> Seq<PersistedTask> {
    let i = place_of(tasks, id);
    if i < tasks.len() {
        tasks.update(i, restated(tasks[i], status, started_at))
    } else {
        tasks
    }
}

/// The values behind a list of references.
pub open spec fn task_refs(v: Seq<&PersistedTask>) -> Seq<PersistedTask> {
    v.map_values(|t: &PersistedTask| *t)
}

proof fn lemma_place(tasks: Seq<PersistedTask>, id: Seq<char>)
    ensures
        0 <= place_of(tasks, id) <= tasks.len(),
        has_task(tasks, id) <==> place_of(tasks, id) < tasks.len(),
        place_of(tasks, id) < tasks.len() ==> tasks[place_of(tasks, id)].task_id@ == id,
        forall|i: int|
            0 <= i < place_of(tasks, id) ==> (#[trigger] tasks[i]).task_id@ != id,
    decreases tasks.len(),
{
    if tasks.len() > 0 {
        if tasks[0].task_id@ != id {
            let rest = tasks.subrange(1, tasks.len() as int);
            lemma_place(rest, id);
            if has_task(rest, id) {
                let i = choose|i: int|
                    0 <= i < rest.len() && (#[trigger] rest[i]).task_id@ == id;
                assert(tasks[i + 1].task_id@ == id);
            }
            if has_task(tasks, id) {
                let i = choose|i: int|
                    0 <= i < tasks.len() && (#[trigger] tasks[i]).task_id@ == id;
                assert(rest[i - 1].task_id@ == id);
            }
            let p = place_of(tasks, id);
            assert forall|i: int| 0 <= i < p implies (#[trigger] tasks[i]).task_id@ != id by {
                if i > 0 {
                    assert(rest[i - 1].task_id@ != id);
                }
            }
            if p < tasks.len() {
                assert(rest[p - 1] == tasks[p]);
            }
        }
    }
}

proof fn lemma_filter_all(s: Seq<PersistedTask>, p: spec_fn(PersistedTask) -> bool)
    requires
        forall|i: int| 0 <= i < s.len() ==> p(#[trigger] s[i]),
    ensures
        s.filter(p) == s,
    decreases s.len(),
{
    reveal(Seq::filter);
    if s.len() > 0 {
        let less = s.drop_last();
        assert forall|i: int| 0 <= i < less.len() implies p(#[trigger] less[i]) by {
            assert(less[i] == s[i]);
        }
        lemma_filter_all(less, p);
        assert(p(s[s.len() - 1]));
        assert(less.push(s.last()) =~= s);
    }
}

impl PersistedQueue {
    /// An empty queue at `now`, of the agent that the environment names.
    pub fn new_at(env: &Environment, now: Timestamp) -> (r: PersistedQueue)
        ensures
            r.version == 1,
            r.tasks@.len() == 0,
            r.saved_at == now,
            chars::opt_view(r.agent_id) == env.value("DEPLOY_AGENT_NAME"@),
    {
        PersistedQueue {
            version: 1,
            tasks: Vec::new(),
            saved_at: now,
            agent_id: env.var("DEPLOY_AGENT_NAME"),
        }
    }

    /// An empty queue of the agent that the environment names.
    pub fn new(env: &Environment) -> (r: PersistedQueue)
        ensures
            r.version == 1,
            r.tasks@.len() == 0,
            chars::opt_view(r.agent_id) == env.value("DEPLOY_AGENT_NAME"@),
    {
        PersistedQueue::new_at(env, Timestamp::now())
    }

    /// Whether a task is there.
    pub fn contains(&self, task_id: &str) -> (r: bool)
        ensures
            r == has_task(self.tasks@, task_id@),
    {
        let mut i: usize = 0;
        while i < self.tasks.len()
            invariant
                i <= self.tasks@.len(),
                forall|j: int| 0 <= j < i ==> (#[trigger] self.tasks@[j]).task_id@ != task_id@,
            decreases self.tasks@.len() - i,
        {
            if str_eq(self.tasks[i].task_id.as_str(), task_id) {
                assert(self.tasks@[i as int].task_id@ == task_id@);
                return true;
            }
            i = i + 1;
        }
        false
    }

    /// Adds a task at `now`; nothing changes where it is there.
    pub fn add_task_at(&mut self, task: PersistedTask, now: Timestamp)
        ensures
            final(self).tasks@ == with_task(old(self).tasks@, task),
            final(self).saved_at == if has_task(old(self).tasks@, task.task_id@) {
                old(self).saved_at
            } else {
                now
            },
            final(self).version == old(self).version,
            final(self).agent_id == old(self).agent_id,
    {
        if !self.contains(task.task_id.as_str()) {
            self.tasks.push(task);
            self.saved_at = now;
        }
    }

    /// Adds a task; nothing changes where it is there.
    pub fn add_task(&mut self, task: PersistedTask)
        ensures
            final(self).tasks@ == with_task(old(self).tasks@, task),
            has_task(old(self).tasks@, task.task_id@) ==> final(self).saved_at == old(
                self,
            ).saved_at,
            final(self).version == old(self).version,
            final(self).agent_id == old(self).agent_id,
    {
        let now = Timestamp::now();
        self.add_task_at(task, now);
    }

    /// Removes a task at `now`, and tells whether it was there.
    pub fn remove_task_at(&mut self, task_id: &str, now: Timestamp) -> (r: bool)
        ensures
            final(self).tasks@ == without_task(old(self).tasks@, task_id@),
            r == has_task(old(self).tasks@, task_id@),
            final(self).saved_at == if r {
                now
            } else {
                old(self).saved_at
            },
            final(self).version == old(self).version,
            final(self).agent_id == old(self).agent_id,
    {
        let ghost all = self.tasks@;
        let ghost p = named_otherwise(task_id@);
        let mut rest: Vec<PersistedTask> = Vec::new();
        std::mem::swap(&mut rest, &mut self.tasks);
        let total = rest.len();
        let mut kept: Vec<PersistedTask> = Vec::new();
        let mut removed = false;
        let mut done: usize = 0;
        proof {
            reveal(Seq::filter);
            assert(kept@ =~= all.take(0).filter(p));
            assert(all.subrange(0, all.len() as int) =~= all);
        }
        while done < total
            invariant
                total == all.len(),
                done <= total,
                rest@ == all.subrange(done as int, all.len() as int),
                p == named_otherwise(task_id@),
                kept@ == all.take(done as int).filter(p),
                removed == has_task(all.take(done as int), task_id@),
            decreases total - done,
        {
            proof {
                collections::lemma_filter_step(all, p, done as int);
                let less = all.take(done as int);
                let more = all.take(done + 1);
                if has_task(less, task_id@) {
                    let i = choose|i: int|
                        0 <= i < less.len() && (#[trigger] less[i]).task_id@ == task_id@;
                    assert(more[i].task_id@ == task_id@);
                }
                if has_task(more, task_id@) {
                    let i = choose|i: int|
                        0 <= i < more.len() && (#[trigger] more[i]).task_id@ == task_id@;
                    if i < done {
                        assert(less[i].task_id@ == task_id@);
                    }
                }
                assert(more[done as int] == all[done as int]);
            }
            let task = rest.remove(0);
            assert(rest@ =~= all.subrange(done + 1, all.len() as int));
            if str_eq(task.task_id.as_str(), task_id) {
                removed = true;
            } else {
                kept.push(task);
            }
            done = done + 1;
        }
        assert(all.take(all.len() as int) =~= all);
        self.tasks = kept;
        if removed {
            self.saved_at = now;
        }
        removed
    }

    /// Removes a task, and tells whether it was there.
    pub fn remove_task(&mut self, task_id: &str) -> (r: bool)
        ensures
            final(self).tasks@ == without_task(old(self).tasks@, task_id@),
            r == has_task(old(self).tasks@, task_id@),
            !r ==> final(self).saved_at == old(self).saved_at,
            final(self).version == old(self).version,
            final(self).agent_id == old(self).agent_id,
    {
        let now = Timestamp::now();
        self.remove_task_at(task_id, now)
    }

    /// Brings a task into another state at `now`.
    pub fn update_task_status_at(
        &mut self,
        task_id: &str,
        status: &str,
        started_at: Option<Timestamp>,
        now: Timestamp,
    )
        ensures
            exists|s: String|
                s@ == status@ && final(self).tasks@ == #[trigger] with_status(
                    old(self).tasks@,
                    task_id@,
                    s,
                    started_at,
                ),
            final(self).saved_at == if has_task(old(self).tasks@, task_id@) {
                now
            } else {
                old(self).saved_at
            },
            final(self).version == old(self).version,
            final(self).agent_id == old(self).agent_id,
    {
        let new_status = status.to_owned();
        let ghost s = new_status;
        let ghost all = self.tasks@;
        let n = self.tasks.len();
        let mut i: usize = 0;
        proof {
            lemma_place(all, task_id@);
        }
        while i < n && !str_eq(self.tasks[i].task_id.as_str(), task_id)
            invariant
                n == all.len(),
                all == self.tasks@,
                i <= n,
                forall|j: int| 0 <= j < i ==> (#[trigger] all[j]).task_id@ != task_id@,
            decreases n - i,
        {
            i = i + 1;
        }
        proof {
            let p = place_of(all, task_id@);
            if i < n {
                assert(all[i as int].task_id@ == task_id@);
                assert(has_task(all, task_id@));
            }
            if p < i {
                assert(all[p].task_id@ != task_id@);
            }
            if i < p {
                assert(all[i as int].task_id@ != task_id@);
            }
        }
        if i < n {
            let task = self.tasks[i].clone();
            let started_at = match started_at {
                Some(t) => Some(t),
                None => task.started_at,
            };
            let task = PersistedTask {
                task_id: task.task_id,
                project: task.project,
                deploy_log_id: task.deploy_log_id,
                commit_hash: task.commit_hash,
                branch: task.branch,
                status: new_status,
                queued_at: task.queued_at,
                started_at,
            };
            self.tasks.set(i, task);
            self.saved_at = now;
        }
        assert(self.tasks@ =~= with_status(all, task_id@, s, started_at));
    }

    /// Brings a task into another state.
    pub fn update_task_status(
        &mut self,
        task_id: &str,
        status: &str,
        started_at: Option<Timestamp>,
    )
        ensures
            exists|s: String|
                s@ == status@ && final(self).tasks@ == #[trigger] with_status(
                    old(self).tasks@,
                    task_id@,
                    s,
                    started_at,
                ),
            !has_task(old(self).tasks@, task_id@) ==> final(self).saved_at == old(self).saved_at,
            final(self).version == old(self).version,
            final(self).agent_id == old(self).agent_id,
    {
        let now = Timestamp::now();
        self.update_task_status_at(task_id, status, started_at, now);
    }

    fn in_state(&self, status: &str) -> (r: Vec<&PersistedTask>)
        ensures
            task_refs(r@) == self.tasks@.filter(|t: PersistedTask| t.status@ == status@),
    {
        let ghost p = |t: PersistedTask| t.status@ == status@;
        let ghost all = self.tasks@;
        let mut r: Vec<&PersistedTask> = Vec::new();
        let mut i: usize = 0;
        proof {
            reveal(Seq::filter);
            assert(task_refs(r@) =~= all.take(0).filter(p));
        }
        while i < self.tasks.len()
            invariant
                i <= self.tasks@.len(),
                all == self.tasks@,
                p == (|t: PersistedTask| t.status@ == status@),
                task_refs(r@) == all.take(i as int).filter(p),
            decreases self.tasks@.len() - i,
        {
            proof {
                collections::lemma_filter_step(all, p, i as int);
            }
            if str_eq(self.tasks[i].status.as_str(), status) {
                let ghost before = r@;
                r.push(&self.tasks[i]);
                assert(task_refs(r@) =~= task_refs(before).push(all[i as int]));
            }
            i = i + 1;
        }
        assert(all.take(all.len() as int) =~= all);
        r
    }

    /// The tasks that wait.
    pub fn get_queued_tasks(&self) -> (r: Vec<&PersistedTask>)
        ensures
            task_refs(r@) == self.tasks@.filter(|t: PersistedTask| t.status@ == "queued"@),
    {
        self.in_state("queued")
    }

    /// The tasks that run.
    pub fn get_running_tasks(&self) -> (r: Vec<&PersistedTask>)
        ensures
            task_refs(r@) == self.tasks@.filter(|t: PersistedTask| t.status@ == "running"@),
    {
        self.in_state("running")
    }

    /// Whether there is no task.
    pub fn is_empty(&self) -> (r: bool)
        ensures
            r == (self.tasks@.len() == 0),
    {
        self.tasks.len() == 0
    }
}

/// The queue together with what has to be done about its file.
#[derive(Debug)]
pub struct QueuePersistence {
    queue: PersistedQueue,
}

impl View for QueuePersistence {
    type V = PersistedQueue;

    closed spec fn view(&self) -> PersistedQueue {
        self.queue
    }
}

impl QueuePersistence {
    /// An empty queue.
    pub fn new(env: &Environment) -> (r: QueuePersistence)
        ensures
            r@.tasks@.len() == 0,
            r@.version == 1,
            chars::opt_view(r@.agent_id) == env.value("DEPLOY_AGENT_NAME"@),
    {
        QueuePersistence { queue: PersistedQueue::new(env) }
    }

    /// Takes the queue that the file holds, where it holds one. The answer
    /// tells whether it did.
    pub fn load(&mut self, loaded: Option<PersistedQueue>) -> (r: bool)
        ensures
            r == (loaded is Some),
            final(self)@ == match loaded {
                Some(q) => q,
                None => old(self)@,
            },
    {
        match loaded {
            Some(q) => {
                self.queue = q;
                true
            },
            None => false,
        }
    }

    /// Adds a task. The queue has to be saved.
    pub fn add_task(&mut self, task: PersistedTask)
        ensures
            final(self)@.tasks@ == with_task(old(self)@.tasks@, task),
            final(self)@.version == old(self)@.version,
            final(self)@.agent_id == old(self)@.agent_id,
    {
        self.queue.add_task(task);
    }

    /// Removes a task, and tells whether it was there, so that the queue has
    /// to be saved.
    pub fn remove_task(&mut self, task_id: &str) -> (r: bool)
        ensures
            r == has_task(old(self)@.tasks@, task_id@),
            final(self)@.tasks@ == without_task(old(self)@.tasks@, task_id@),
            final(self)@.version == old(self)@.version,
            final(self)@.agent_id == old(self)@.agent_id,
    {
        self.queue.remove_task(task_id)
    }

    /// Brings a task into another state. The queue has to be saved.
    pub fn update_task_status(
        &mut self,
        task_id: &str,
        status: &str,
        started_at: Option<Timestamp>,
    )
        ensures
            exists|s: String|
                s@ == status@ && final(self)@.tasks@ == #[trigger] with_status(
                    old(self)@.tasks@,
                    task_id@,
                    s,
                    started_at,
                ),
            final(self)@.version == old(self)@.version,
            final(self)@.agent_id == old(self)@.agent_id,
    {
        self.queue.update_task_status(task_id, status, started_at);
    }

    /// The queue.
    pub fn get_queue(&self) -> (r: &PersistedQueue)
        ensures
            *r == self@,
    {
        &self.queue
    }

    /// Forgets all tasks. The file has to be removed.
    pub fn clear(&mut self)
        ensures
            final(self)@.tasks@.len() == 0,
            final(self)@.version == old(self)@.version,
            final(self)@.saved_at == old(self)@.saved_at,
            final(self)@.agent_id == old(self)@.agent_id,
    {
        self.queue.tasks = Vec::new();
    }
}

/// Adding a task leaves no task twice in the queue, and adding it once more
/// changes nothing.
pub proof fn adding_keeps_ids_unique(tasks: Seq<PersistedTask>, task: PersistedTask)
    requires
        ids_unique(tasks),
    ensures
        ids_unique(with_task(tasks, task)),
        has_task(with_task(tasks, task), task.task_id@),
        with_task(with_task(tasks, task), task) == with_task(tasks, task),
{
    let more = with_task(tasks, task);
    if !has_task(tasks, task.task_id@) {
        assert(more[tasks.len() as int].task_id@ == task.task_id@);
    }
}

/// A task that has been removed is not there any more, and every other task
/// still is.
pub proof fn removing_removes(tasks: Seq<PersistedTask>, id: Seq<char>)
    ensures
        !has_task(without_task(tasks, id), id),
        forall|other: Seq<char>|
            other != id && #[trigger] has_task(tasks, other) ==> has_task(
                without_task(tasks, id),
                other,
            ),
{
    broadcast use vstd::seq_lib::group_filter_ensures;

    let p = named_otherwise(id);
    let less = tasks.filter(p);
    assert forall|i: int| 0 <= i < less.len() implies (#[trigger] less[i]).task_id@ != id by {
        assert(p(less[i]));
    }
    assert forall|other: Seq<char>| other != id && #[trigger] has_task(
        tasks,
        other,
    ) implies has_task(less, other) by {
        let i = choose|i: int|
            0 <= i < tasks.len() && (#[trigger] tasks[i]).task_id@ == other;
        assert(p(tasks[i]));
        assert(tasks.contains(tasks[i]));
        assert(less.contains(tasks[i]));
        let j = less.index_of(tasks[i]);
        assert(less[j].task_id@ == other);
    }
}

/// Removing a task that has just been added gives the queue back as it was.
pub proof fn removing_undoes_adding(tasks: Seq<PersistedTask>, task: PersistedTask)
    requires
        !has_task(tasks, task.task_id@),
    ensures
        without_task(with_task(tasks, task), task.task_id@) == tasks,
{
    let p = named_otherwise(task.task_id@);
    let more = tasks.push(task);
    reveal(Seq::filter);
    assert(more.drop_last() =~= tasks);
    assert forall|i: int| 0 <= i < tasks.len() implies p(#[trigger] tasks[i]) by {
        if tasks[i].task_id@ == task.task_id@ {
            assert(has_task(tasks, task.task_id@));
        }
    }
    lemma_filter_all(tasks, p);
    assert(more.last() == task);
}

/// Bringing a task into another state changes no name and no order.
pub proof fn updating_keeps_ids(
    tasks: Seq<PersistedTask>,
    id: Seq<char>,
    status: String,
    started_at: Option<Timestamp>,
)
    ensures
        ({
            let after = with_status(tasks, id, status, started_at);
            &&& after.len() == tasks.len()
            &&& forall|i: int|
                0 <= i < tasks.len() ==> (#[trigger] after[i]).task_id == tasks[i].task_id
            &&& has_task(tasks, id) ==> after[place_of(tasks, id)].status == status
        }),
{
    lemma_place(tasks, id);
}

} // verus!
