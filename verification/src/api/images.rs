//! Images that are fetched ahead of deployments.

use vstd::prelude::*;

use crate::collections;
use crate::collections::StrMap;
use crate::error::{ApiError, ApiResult};
use crate::infra::ids::new_id;
use crate::text::chars;
use crate::text::chars::{concat3, str_eq, to_chars};
use crate::time::Timestamp;

verus! {

/// How many tasks are kept, as far as they are over.
pub const MAX_PREFETCH_TASKS: usize = 100;

/// Seconds that a task is kept.
pub const TASK_RETENTION_SECS: i64 = 3600;

/// A request to fetch an image.
#[derive(Debug)]
pub struct PrefetchRequest {
    pub image: String,
    pub project: Option<String>,
    /// The deployment that made the image.
    pub source_deploy_log_id: Option<String>,
}

/// The answer to a request to fetch an image.
#[derive(Debug)]
pub struct PrefetchResponse {
    pub task_id: String,
    pub image: String,
    pub status: String,
    pub message: Option<String>,
}

/// An image that is or was being fetched.
#[derive(Debug)]
pub struct PrefetchTaskStatus {
    pub task_id: String,
    pub image: String,
    pub project: Option<String>,
    /// "running", "completed" or "failed".
    pub status: String,
    pub duration_ms: Option<u64>,
    pub error: Option<String>,
    pub created_at: Timestamp,
    pub completed_at: Option<Timestamp>,
}

/// The images that are or were being fetched, the latest first.
pub struct PrefetchListResponse<'a> {
    pub tasks: Vec<&'a PrefetchTaskStatus>,
    pub total: usize,
}

/// The tasks by their names.
pub type PrefetchMap = Map<Seq<char>, PrefetchTaskStatus>;

/// The images that are or were being fetched, by the names of the tasks.
pub struct PrefetchTasks {
    tasks: StrMap<PrefetchTaskStatus>,
}

impl View for PrefetchTasks {
    type V = PrefetchMap;

    closed spec fn view(&self) -> PrefetchMap {
        self.tasks@
    }
}

impl PrefetchTaskStatus {
    /// The fetch has succeeded or failed.
    pub open spec fn is_over(self) -> bool {
        self.status@ == "completed"@ || self.status@ == "failed"@
    }

    /// The fetch has begun at `now` and is not over.
    pub open spec fn is_new(
        self,
        id: Seq<char>,
        image: Seq<char>,
        project: Option<Seq<char>>,
        now: Timestamp,
    ) -> bool {
        &&& self.task_id@ == id
        &&& self.image@ == image
        &&& chars::opt_view(self.project) == project
        &&& self.status@ == "running"@
        &&& self.duration_ms is None
        &&& self.error is None
        &&& self.created_at == now
        &&& self.completed_at is None
    }

    fn over(&self) -> (r: bool)
        ensures
            r == self.is_over(),
    {
        str_eq(self.status.as_str(), "completed") || str_eq(self.status.as_str(), "failed")
    }
}

/// The task is not as old as tasks become.
pub open spec fn is_fresh(task: PrefetchTaskStatus, now: Timestamp) -> bool {
    now.instant() - task.created_at.instant() < TASK_RETENTION_SECS * 1_000_000_000
}

/// The tasks that are not too old.
pub open spec fn fresh_tasks(tasks: PrefetchMap, now: Timestamp) -> PrefetchMap {
    collections::kept(tasks, |k: Seq<char>, t: PrefetchTaskStatus| is_fresh(t, now))
}

/// What can be left of some tasks when there are too many: the ones that still
/// run stay, the ones that are over go, the oldest first, and no more go than
/// have to.
pub open spec fn is_trim_of(after: PrefetchMap, before: PrefetchMap) -> bool {
    &&& after.submap_of(before)
    &&& forall|k: Seq<char>| #[trigger]
        before.dom().contains(k) && !before[k].is_over() ==> after.dom().contains(k)
    &&& forall|gone: Seq<char>, left: Seq<char>|
        #![trigger before.dom().contains(gone), after.dom().contains(left)]
        before.dom().contains(gone) && !after.dom().contains(gone) && after.dom().contains(left)
            && after[left].is_over() ==> before[gone].created_at.instant()
            <= after[left].created_at.instant()
    &&& after == before || after.dom().len() + 1 >= MAX_PREFETCH_TASKS
}

/// As many tasks are left as may be, or all that are left still run.
pub open spec fn is_small(tasks: PrefetchMap) -> bool {
    tasks.dom().len() < MAX_PREFETCH_TASKS || forall|k: Seq<char>| #[trigger]
        tasks.dom().contains(k) ==> !tasks[k].is_over()
}

/// What a cleanup at `now` can leave.
pub open spec fn is_cleanup_of(after: PrefetchMap, before: PrefetchMap, now: Timestamp) -> bool {
    is_trim_of(after, fresh_tasks(before, now)) && is_small(after)
}

impl PrefetchTasks {
    /// The names of the tasks in the order in which they came.
    pub closed spec fn order(&self) -> Seq<Seq<char>> {
        self.tasks.keys()
    }

    /// No tasks.
    pub fn new() -> (r: PrefetchTasks)
        ensures
            r@ == PrefetchMap::empty(),
    {
        PrefetchTasks { tasks: StrMap::new() }
    }

    fn drop_old(&mut self, now: Timestamp)
        ensures
            final(self)@ == fresh_tasks(old(self)@, now),
    {
        let n = self.tasks.len();
        let ghost test = |k: Seq<char>, t: PrefetchTaskStatus| is_fresh(t, now);
        let mut marks: Vec<bool> = Vec::new();
        let mut i: usize = 0;
        while i < n
            invariant
                n == self.tasks.keys().len(),
                i <= n,
                marks@.len() == i,
                *self == *old(self),
                test == (|k: Seq<char>, t: PrefetchTaskStatus| is_fresh(t, now)),
                forall|j: int|
                    0 <= j < i ==> #[trigger] marks@[j] == test(
                        self.tasks.keys()[j],
                        self.tasks@[self.tasks.keys()[j]],
                    ),
            decreases n - i,
        {
            let task = self.tasks.value_at(i);
            marks.push(now.less_than_seconds_since(&task.created_at, TASK_RETENTION_SECS));
            i = i + 1;
        }
        self.tasks.retain_marked(&marks, Ghost(test));
    }

    /// The position of the oldest task that is over, or the number of tasks
    /// where none is.
    fn oldest_over(&self) -> (r: usize)
        ensures
            r <= self.tasks.keys().len(),
            r == self.tasks.keys().len() ==> forall|k: Seq<char>| #[trigger]
                self@.dom().contains(k) ==> !self@[k].is_over(),
            r < self.tasks.keys().len() ==> {
                let key = self.tasks.keys()[r as int];
                &&& self@.dom().contains(key)
                &&& self@[key].is_over()
                &&& forall|k: Seq<char>| #[trigger]
                    self@.dom().contains(k) && self@[k].is_over()
                        ==> self@[key].created_at.instant() <= self@[k].created_at.instant()
            },
    {
        let n = self.tasks.len();
        let ghost keys = self.tasks.keys();
        let mut best: usize = n;
        let mut i: usize = 0;
        while i < n
            invariant
                n == keys.len(),
                keys == self.tasks.keys(),
                keys.to_set() == self.tasks@.dom(),
                i <= n,
                best == n || best < i,
                best == n ==> forall|j: int| 0 <= j < i ==> !(#[trigger] self@[keys[j]]).is_over(),
                best < n ==> self@[keys[best as int]].is_over() && forall|j: int|
                    0 <= j < i && (#[trigger] self@[keys[j]]).is_over()
                        ==> self@[keys[best as int]].created_at.instant()
                        <= self@[keys[j]].created_at.instant(),
            decreases n - i,
        {
            let task = self.tasks.value_at(i);
            if task.over() {
                if best == n {
                    best = i;
                } else {
                    let held = self.tasks.value_at(best);
                    if held.created_at.more_than_seconds_since(&task.created_at, 0) {
                        best = i;
                    }
                }
            }
            i = i + 1;
        }
        proof {
            assert forall|k: Seq<char>| #[trigger] self@.dom().contains(k) implies exists|j: int|
                0 <= j < n && k == keys[j] by {
                assert(keys.to_set().contains(k));
                let j = keys.index_of(k);
                assert(keys[j] == k);
            }
            if best < n {
                assert(keys.contains(keys[best as int]));
            }
        }
        best
    }

    /// Forgets, at `now`, the tasks that are too old, and, as long as there are
    /// too many, the oldest one that is over.
    pub fn cleanup_old_tasks(&mut self, now: Timestamp)
        ensures
            is_cleanup_of(final(self)@, old(self)@, now),
    {
        self.drop_old(now);
        let ghost fresh = self@;
        let mut n = self.tasks.len();
        while n >= MAX_PREFETCH_TASKS
            invariant_except_break
                n == self.tasks.keys().len(),
                n == self@.dom().len(),
                self@.dom().finite(),
                is_trim_of(self@, fresh),
            ensures
                is_trim_of(self@, fresh),
                is_small(self@),
            decreases n,
        {
            let i = self.oldest_over();
            if i >= n {
                break;
            }
            let ghost before = self@;
            let key = self.tasks.key_at(i).clone();
            self.tasks.remove(key.as_str());
            n = self.tasks.len();
            proof {
                assert forall|gone: Seq<char>, left: Seq<char>|
                    #![trigger fresh.dom().contains(gone), self@.dom().contains(left)]
                    fresh.dom().contains(gone) && !self@.dom().contains(gone)
                        && self@.dom().contains(left) && self@[left].is_over() implies
                    fresh[gone].created_at.instant() <= self@[left].created_at.instant() by {
                    assert(before.dom().contains(left));
                    if gone == key@ {
                        assert(fresh[gone] == before[gone]);
                    } else {
                        assert(!before.dom().contains(gone));
                    }
                }
            }
        }
    }

    /// Notes, at `now`, that an image is being fetched, after a cleanup.
    pub fn begin_at(&mut self, request: &PrefetchRequest, id: String, now: Timestamp)
        ensures
            exists|left: PrefetchMap, task: PrefetchTaskStatus|
                {
                    &&& is_cleanup_of(left, old(self)@, now)
                    &&& task.is_new(id@, request.image@, chars::opt_view(request.project), now)
                    &&& final(self)@ == #[trigger] left.insert(id@, task)
                },
    {
        self.cleanup_old_tasks(now);
        let ghost left = self@;
        let task = PrefetchTaskStatus {
            task_id: id.clone(),
            image: request.image.clone(),
            project: request.project.clone(),
            status: "running".to_owned(),
            duration_ms: None,
            error: None,
            created_at: now,
            completed_at: None,
        };
        let ghost added = task;
        self.tasks.insert(id, task);
        assert(self@ == left.insert(id@, added));
    }
}

/// The name of an image is refused: it is empty or holds a space.
pub open spec fn is_bad_image(image: Seq<char>) -> bool {
    image.len() == 0 || image.contains(' ')
}

fn bad_image(image: &str) -> (r: bool)
    ensures
        r == is_bad_image(image@),
{
    let v = to_chars(image);
    let mut i: usize = 0;
    while i < v.len()
        invariant
            i <= v@.len(),
            v@ == image@,
            forall|j: int| 0 <= j < i ==> v@[j] != ' ',
        decreases v@.len() - i,
    {
        if v[i] == ' ' {
            assert(image@.contains(image@[i as int]));
            return true;
        }
        i = i + 1;
    }
    v.len() == 0
}

/// Takes a request, at `now`, to fetch an image: the task has this name.
pub fn prefetch_image_at(
    tasks: &mut PrefetchTasks,
    request: &PrefetchRequest,
    id: String,
    now: Timestamp,
) -> (r: ApiResult<PrefetchResponse>)
    ensures
        is_bad_image(request.image@) ==> {
            &&& r matches Err(e)
            &&& e is BadRequest
            &&& e.parts().1 == "Invalid image name"@
            &&& final(tasks)@ == old(tasks)@
        },
        !is_bad_image(request.image@) ==> {
            &&& r matches Ok(p)
            &&& p.task_id == id
            &&& p.image == request.image
            &&& p.status@ == "started"@
            &&& p.message is None
            &&& exists|left: PrefetchMap, task: PrefetchTaskStatus|
                {
                    &&& is_cleanup_of(left, old(tasks)@, now)
                    &&& task.is_new(id@, request.image@, chars::opt_view(request.project), now)
                    &&& final(tasks)@ == #[trigger] left.insert(id@, task)
                }
        },
{
    if bad_image(request.image.as_str()) {
        return Err(ApiError::bad_request("Invalid image name"));
    }
    tasks.begin_at(request, id.clone(), now);
    Ok(
        PrefetchResponse {
            task_id: id,
            image: request.image.clone(),
            status: "started".to_owned(),
            message: None,
        },
    )
}

/// Takes a request to fetch an image now. The task has a new name of 36
/// characters.
pub fn prefetch_image(tasks: &mut PrefetchTasks, request: &PrefetchRequest) -> (r: ApiResult<
    PrefetchResponse,
>)
    ensures
        r is Err <==> is_bad_image(request.image@),
        r matches Err(e) ==> e is BadRequest && e.parts().1 == "Invalid image name"@
            && final(tasks)@ == old(tasks)@,
        r matches Ok(p) ==> {
            &&& p.task_id@.len() == 36
            &&& p.image == request.image
            &&& p.status@ == "started"@
            &&& p.message is None
            &&& exists|left: PrefetchMap, task: PrefetchTaskStatus|
                {
                    &&& is_cleanup_of(left, old(tasks)@, task.created_at)
                    &&& task.is_new(
                        p.task_id@,
                        request.image@,
                        chars::opt_view(request.project),
                        task.created_at,
                    )
                    &&& final(tasks)@ == #[trigger] left.insert(p.task_id@, task)
                }
        },
{
    let id = new_id();
    let now = Timestamp::now();
    prefetch_image_at(tasks, request, id, now)
}

/// What became of a task: the fetch succeeded, or it failed and the error
/// says why, after `duration_ms` milliseconds at `now`.
pub open spec fn fetched(
    before: PrefetchTaskStatus,
    after: PrefetchTaskStatus,
    outcome: Result<(bool, String), String>,
    duration_ms: u64,
    now: Timestamp,
) -> bool {
    &&& after == (PrefetchTaskStatus {
        status: after.status,
        duration_ms: Some(duration_ms),
        error: after.error,
        completed_at: Some(now),
        ..before
    })
    &&& match outcome {
        Ok((true, _)) => after.status@ == "completed"@ && after.error == before.error,
        Ok((false, stderr)) => after.status@ == "failed"@ && after.error == Some(stderr),
        Err(e) => after.status@ == "failed"@ && after.error == Some(e),
    }
}

/// Takes the outcome of the command that fetches an image: whether it
/// succeeded and what it wrote to its error output, or why it did not run. A
/// task that has been forgotten stays so.
pub fn prefetch_done(
    tasks: &mut PrefetchTasks,
    task_id: &str,
    outcome: Result<(bool, String), String>,
    duration_ms: u64,
    now: Timestamp,
)
    ensures
        !old(tasks)@.dom().contains(task_id@) ==> final(tasks)@ == old(tasks)@,
        old(tasks)@.dom().contains(task_id@) ==> {
            &&& final(tasks)@ == old(tasks)@.insert(task_id@, final(tasks)@[task_id@])
            &&& fetched(
                old(tasks)@[task_id@],
                final(tasks)@[task_id@],
                outcome,
                duration_ms,
                now,
            )
        },
{
    match tasks.tasks.remove(task_id) {
        Some(task) => {
            let mut task = task;
            task.duration_ms = Some(duration_ms);
            task.completed_at = Some(now);
            match outcome {
                Ok((success, stderr)) => if success {
                    task.status = "completed".to_owned();
                } else {
                    task.status = "failed".to_owned();
                    task.error = Some(stderr);
                },
                Err(e) => {
                    task.status = "failed".to_owned();
                    task.error = Some(e);
                },
            }
            tasks.tasks.insert(task_id.to_owned(), task);
            assert(tasks@ =~= old(tasks)@.insert(task_id@, tasks@[task_id@]));
        },
        None => {
            assert(tasks@ =~= old(tasks)@);
        },
    }
}

/// The arguments of docker that fetch an image.
pub fn pull_args(image: &str) -> (r: Vec<String>)
    ensures
        chars::views(r@) == seq!["pull"@, image@],
{
    let mut r: Vec<String> = Vec::new();
    r.push("pull".to_owned());
    r.push(image.to_owned());
    assert(chars::views(r@) =~= seq!["pull"@, image@]);
    r
}

/// The task that was asked for.
pub fn get_prefetch_status<'a>(tasks: &'a PrefetchTasks, task_id: &str) -> (r: ApiResult<
    &'a PrefetchTaskStatus,
>)
    ensures
        r is Ok <==> tasks@.dom().contains(task_id@),
        r matches Ok(t) ==> *t == tasks@[task_id@],
        r matches Err(e) ==> e is NotFound && e.parts().1 == "Prefetch task '"@ + task_id@ + "'"@,
{
    match tasks.tasks.get(task_id) {
        Some(t) => Ok(t),
        None => Err(
            ApiError::not_found(concat3("Prefetch task '", task_id, "'").as_str()),
        ),
    }
}

/// The values behind a list of references.
pub open spec fn task_referents(v: Seq<&PrefetchTaskStatus>) -> Seq<PrefetchTaskStatus> {
    v.map_values(|t: &PrefetchTaskStatus| *t)
}

/// The tasks in the order in which they came.
pub open spec fn in_order(tasks: PrefetchTasks) -> Seq<PrefetchTaskStatus> {
    tasks.order().map_values(|n: Seq<char>| tasks@[n])
}

/// No task stands behind an older one.
pub open spec fn latest_first(tasks: Seq<PrefetchTaskStatus>) -> bool {
    forall|i: int, j: int|
        0 <= i < j < tasks.len() ==> (#[trigger] tasks[i]).created_at.instant() >= (
        #[trigger] tasks[j]).created_at.instant()
}

/// Puts a task into a list, behind all that are not older.
fn insert_by_time<'a>(list: &mut Vec<&'a PrefetchTaskStatus>, task: &'a PrefetchTaskStatus)
    requires
        latest_first(task_referents(old(list)@)),
    ensures
        latest_first(task_referents(final(list)@)),
        task_referents(final(list)@).to_multiset() == task_referents(
            old(list)@,
        ).to_multiset().insert(*task),
        final(list)@.len() == old(list)@.len() + 1,
{
    let n = list.len();
    let ghost before = task_referents(list@);
    let mut i: usize = 0;
    while i < n && !task.created_at.more_than_seconds_since(&list[i].created_at, 0)
        invariant
            n == list@.len(),
            before == task_referents(list@),
            i <= n,
            forall|j: int|
                0 <= j < i ==> (#[trigger] before[j]).created_at.instant()
                    >= task.created_at.instant(),
        decreases n - i,
    {
        assert(before[i as int] == *list@[i as int]);
        i = i + 1;
    }
    list.insert(i, task);
    proof {
        let after = task_referents(list@);
        assert(after =~= before.insert(i as int, *task));
        assert forall|a: int, b: int| 0 <= a < b < after.len() implies (#[trigger]
        after[a]).created_at.instant() >= (#[trigger] after[b]).created_at.instant() by {
            let a2 = if a < i { a } else { a - 1 };
            let b2 = if b < i { b } else { b - 1 };
            if a != i {
                assert(after[a] == before[a2]);
            }
            if b != i {
                assert(after[b] == before[b2]);
            }
            if a == i {
                assert(task.created_at.instant() > before[i as int].created_at.instant());
                if b2 > i {
                    assert(before[i as int].created_at.instant()
                        >= before[b2].created_at.instant());
                }
            }
        }
        vstd::seq_lib::to_multiset_insert(before, i as int, *task);
    }
}

/// All tasks, the latest first.
pub fn list_images<'a>(tasks: &'a PrefetchTasks) -> (r: PrefetchListResponse<'a>)
    ensures
        latest_first(task_referents(r.tasks@)),
        task_referents(r.tasks@).to_multiset() == in_order(*tasks).to_multiset(),
        tasks.order().no_duplicates(),
        tasks.order().to_set() == tasks@.dom(),
        r.total == r.tasks@.len(),
        r.total == tasks@.dom().len(),
{
    let n = tasks.tasks.len();
    let ghost all = in_order(*tasks);
    let mut list: Vec<&'a PrefetchTaskStatus> = Vec::new();
    let mut i: usize = 0;
    proof {
        assert(task_referents(list@) =~= all.take(0));
    }
    while i < n
        invariant
            n == all.len(),
            n == tasks.tasks.keys().len(),
            all == in_order(*tasks),
            i <= n,
            list@.len() == i,
            latest_first(task_referents(list@)),
            task_referents(list@).to_multiset() == all.take(i as int).to_multiset(),
        decreases n - i,
    {
        let task = tasks.tasks.value_at(i);
        proof {
            assert(*task == all[i as int]);
            assert(all.take(i + 1) =~= all.take(i as int).push(*task));
            all.take(i as int).to_multiset_ensures();
        }
        insert_by_time(&mut list, task);
        i = i + 1;
    }
    assert(all.take(n as int) =~= all);
    let total = list.len();
    PrefetchListResponse { tasks: list, total }
}

/// A cleanup forgets no task that still runs and is not too old, and changes
/// none that it keeps.
pub proof fn cleanup_keeps_running_tasks(
    before: PrefetchMap,
    after: PrefetchMap,
    now: Timestamp,
    id: Seq<char>,
)
    requires
        is_cleanup_of(after, before, now),
        before.dom().contains(id),
        is_fresh(before[id], now),
        before[id].status@ == "running"@,
    ensures
        after.dom().contains(id),
        after[id] == before[id],
{
    reveal_strlit("running");
    reveal_strlit("completed");
    reveal_strlit("failed");
    assert("running"@.len() == 7 && "completed"@.len() == 9 && "failed"@.len() == 6);
    assert(fresh_tasks(before, now).dom().contains(id));
}

/// A task that has just begun is found, and it still runs.
pub proof fn begun_task_runs(left: PrefetchMap, id: Seq<char>, task: PrefetchTaskStatus, now: Timestamp)
    requires
        task.is_new(id, task.image@, chars::opt_view(task.project), now),
    ensures
        left.insert(id, task).dom().contains(id),
        left.insert(id, task)[id].created_at == now,
        !left.insert(id, task)[id].is_over(),
{
    reveal_strlit("running");
    reveal_strlit("completed");
    reveal_strlit("failed");
    assert("running"@.len() == 7 && "completed"@.len() == 9 && "failed"@.len() == 6);
}

} // verus!
