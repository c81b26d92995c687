//! Tasks and to-do lists: tasks with a status, a priority and tags, the
//! list that holds them, its searches and figures, and the Markdown view.

use vstd::prelude::*;
use crate::text::{
    contains_seq, join, lowercase_of, opt_view, owned, push_str, str_contains, str_eq, to_lowercase,
    u64_to_decimal, decimal, views,
};

verus! {

/// Where a task stands.
#[derive(Clone, Copy, Debug, PartialEq, Eq, Structural)]
pub enum TaskStatus {
    Pending,
    InProgress,
    Completed,
    Cancelled,
}

/// How urgent a task is.
#[derive(Clone, Copy, Debug, PartialEq, Eq, Structural)]
pub enum Priority {
    Low,
    Medium,
    High,
    Critical,
}

/// A task; its times are RFC 3339 text in UTC.
pub struct Task {
    pub id: String,
    pub title: String,
    pub description: Option<String>,
    pub status: TaskStatus,
    pub priority: Priority,
    pub created_at: String,
    pub updated_at: String,
    pub completed_at: Option<String>,
    pub tags: Vec<String>,
}

impl Task {
    /// A pending task of medium priority, with a fresh random UUID, no
    /// description and no tags, created and updated now.
    pub fn new(title: &str) -> (r: Self)
        ensures
            r.id@.len() == 36,
            r.title@ == title@,
            r.description is None,
            r.status == TaskStatus::Pending,
            r.priority == Priority::Medium,
            r.updated_at == r.created_at,
            r.completed_at is None,
            r.tags@.len() == 0,
    {
        let now = crate::prompt_cache::utc_now_rfc3339();
        Task {
            id: crate::cron::new_uuid_v4(),
            title: owned(title),
            description: None,
            status: TaskStatus::Pending,
            priority: Priority::Medium,
            created_at: now.clone(),
            updated_at: now,
            completed_at: None,
            tags: Vec::new(),
        }
    }

    /// The task with a description.
    pub fn with_description(self, desc: &str) -> (r: Self)
        ensures
            opt_view(r.description) == Some(desc@),
            r == (Task { description: r.description, ..self }),
    {
        let mut s = self;
        s.description = Some(owned(desc));
        s
    }

    /// The task with a priority.
    pub fn with_priority(self, priority: Priority) -> (r: Self)
        ensures
            r == (Task { priority, ..self }),
    {
        let mut s = self;
        s.priority = priority;
        s
    }

    /// The task with these tags, in order.
    pub fn with_tags(self, tags: Vec<&str>) -> (r: Self)
        ensures
            views(r.tags@) == tags@.map_values(|t: &str| t@),
            r == (Task { tags: r.tags, ..self }),
    {
        let mut v: Vec<String> = Vec::new();
        let mut i: usize = 0;
        while i < tags.len()
            invariant
                i <= tags@.len(),
                views(v@) == tags@.subrange(0, i as int).map_values(|t: &str| t@),
            decreases tags.len() - i,
        {
            let ghost before = views(v@);
            v.push(owned(tags[i]));
            assert(views(v@) =~= before.push(tags@[i as int]@));
            assert(tags@.subrange(0, i + 1).map_values(|t: &str| t@) =~= tags@.subrange(0, i as int).map_values(
                |t: &str| t@,
            ).push(tags@[i as int]@));
            i = i + 1;
        }
        assert(tags@.subrange(0, tags@.len() as int) =~= tags@);
        let mut s = self;
        s.tags = v;
        s
    }

    /// Marks the task completed, now.
    pub fn complete(&mut self)
        ensures
            final(self).status == TaskStatus::Completed,
            final(self).completed_at == Some(final(self).updated_at),
            *final(self) == (Task {
                status: TaskStatus::Completed,
                completed_at: final(self).completed_at,
                updated_at: final(self).updated_at,
                ..*old(self)
            }),
    {
        let now = crate::prompt_cache::utc_now_rfc3339();
        self.status = TaskStatus::Completed;
        self.completed_at = Some(now.clone());
        self.updated_at = now;
    }

    /// Marks the task cancelled, now.
    pub fn cancel(&mut self)
        ensures
            *final(self) == (Task {
                status: TaskStatus::Cancelled,
                updated_at: final(self).updated_at,
                ..*old(self)
            }),
    {
        self.status = TaskStatus::Cancelled;
        self.updated_at = crate::prompt_cache::utc_now_rfc3339();
    }
}

/// Task figures.
pub struct TaskStats {
    pub total: usize,
    pub pending: usize,
    pub in_progress: usize,
    pub completed: usize,
    pub cancelled: usize,
}

impl TaskStats {
    /// The figures in one line.
    pub fn summary(&self) -> (r: String)
        ensures
            r@ == "Tasks: "@ + decimal(self.total as nat) + " total ("@ + decimal(self.pending as nat)
                + " pending, "@ + decimal(self.in_progress as nat) + " in progress, "@ + decimal(
                self.completed as nat,
            ) + " completed, "@ + decimal(self.cancelled as nat) + " cancelled)"@,
    {
        let mut s = owned("Tasks: ");
        let t = u64_to_decimal(self.total as u64);
        push_str(&mut s, t.as_str());
        push_str(&mut s, " total (");
        let p = u64_to_decimal(self.pending as u64);
        push_str(&mut s, p.as_str());
        push_str(&mut s, " pending, ");
        let ip = u64_to_decimal(self.in_progress as u64);
        push_str(&mut s, ip.as_str());
        push_str(&mut s, " in progress, ");
        let c = u64_to_decimal(self.completed as u64);
        push_str(&mut s, c.as_str());
        push_str(&mut s, " completed, ");
        let x = u64_to_decimal(self.cancelled as u64);
        push_str(&mut s, x.as_str());
        push_str(&mut s, " cancelled)");
        s
    }
}

/// The tasks of `ts` for which `p` holds, in order.
pub open spec fn tasks_where(ts: Seq<Task>, p: spec_fn(Task) -> bool) -> Seq<Task>
    decreases ts.len(),
{
    if ts.len() == 0 {
        Seq::empty()
    } else {
        tasks_where(ts.drop_last(), p) + if p(ts.last()) {
            seq![ts.last()]
        } else {
            Seq::empty()
        }
    }
}

/// `r` refers to the tasks `ts`, in order.
pub open spec fn refers_to(r: Seq<&Task>, ts: Seq<Task>) -> bool {
    r.len() == ts.len() && forall|i: int| 0 <= i < r.len() ==> *r[i] == #[trigger] ts[i]
}

/// Whether a task has status `s`.
pub open spec fn has_status(s: TaskStatus) -> spec_fn(Task) -> bool {
    |t: Task| t.status == s
}

/// Whether a task has priority `p`.
pub open spec fn has_priority(p: Priority) -> spec_fn(Task) -> bool {
    |t: Task| t.priority == p
}

/// Whether a task is not completed.
pub open spec fn not_completed() -> spec_fn(Task) -> bool {
    |t: Task| t.status != TaskStatus::Completed
}

/// Whether a task's id is other than `id`.
pub open spec fn id_other_than(id: Seq<char>) -> spec_fn(Task) -> bool {
    |t: Task| t.id@ != id
}

/// Whether a task's id is `id`.
pub open spec fn has_id(id: Seq<char>) -> spec_fn(Task) -> bool {
    |t: Task| t.id@ == id
}

/// Whether some tag, lower-cased, contains `q`.
pub open spec fn some_tag_contains(tags: Seq<String>, q: Seq<char>) -> bool {
    exists|i: int| 0 <= i < tags.len() && contains_seq(lowercase_of(#[trigger] tags[i]@), q)
}

/// Whether a task's lower-cased title, description or some tag contains
/// `q`.
pub open spec fn task_matches(q: Seq<char>) -> spec_fn(Task) -> bool {
    |t: Task|
        contains_seq(lowercase_of(t.title@), q) || (match t.description {
            Some(d) => contains_seq(lowercase_of(d@), q),
            None => false,
        }) || some_tag_contains(t.tags@, q)
}

fn collect_where<'a>(ts: &'a Vec<Task>, p: Ghost<spec_fn(Task) -> bool>, keep: &Vec<bool>) -> (r: Vec<&'a Task>)
    requires
        keep@.len() == ts@.len(),
        forall|i: int| 0 <= i < ts@.len() ==> keep@[i] == (p@)(#[trigger] ts@[i]),
    ensures
        refers_to(r@, tasks_where(ts@, p@)),
{
    let mut r: Vec<&Task> = Vec::new();
    let mut i: usize = 0;
    while i < ts.len()
        invariant
            i <= ts@.len(),
            keep@.len() == ts@.len(),
            forall|k: int| 0 <= k < ts@.len() ==> keep@[k] == (p@)(#[trigger] ts@[k]),
            refers_to(r@, tasks_where(ts@.subrange(0, i as int), p@)),
        decreases ts.len() - i,
    {
        proof {
            let pre = ts@.subrange(0, i + 1);
            assert(pre.drop_last() =~= ts@.subrange(0, i as int));
            assert(pre.last() == ts@[i as int]);
        }
        if keep[i] {
            r.push(&ts[i]);
        }
        i = i + 1;
    }
    assert(ts@.subrange(0, ts@.len() as int) =~= ts@);
    r
}

fn count_status(ts: &Vec<Task>, s: TaskStatus) -> (n: usize)
    ensures
        n == tasks_where(ts@, has_status(s)).len(),
{
    let mut n: usize = 0;
    let mut i: usize = 0;
    while i < ts.len()
        invariant
            i <= ts@.len(),
            n == tasks_where(ts@.subrange(0, i as int), has_status(s)).len(),
            n <= i,
        decreases ts.len() - i,
    {
        proof {
            let pre = ts@.subrange(0, i + 1);
            assert(pre.drop_last() =~= ts@.subrange(0, i as int));
            assert(pre.last() == ts@[i as int]);
        }
        if ts[i].status == s {
            n = n + 1;
        }
        i = i + 1;
    }
    assert(ts@.subrange(0, ts@.len() as int) =~= ts@);
    n
}

fn any_tag_contains(tags: &Vec<String>, q: &str) -> (b: bool)
    ensures
        b == some_tag_contains(tags@, q@),
{
    let mut i: usize = 0;
    while i < tags.len()
        invariant
            i <= tags@.len(),
            forall|k: int| 0 <= k < i ==> !contains_seq(lowercase_of(#[trigger] tags@[k]@), q@),
        decreases tags.len() - i,
    {
        let l = to_lowercase(tags[i].as_str());
        if str_contains(l.as_str(), q) {
            return true;
        }
        i = i + 1;
    }
    false
}

/// A list of tasks, in the order they were added.
pub struct TaskList {
    tasks: Vec<Task>,
}

impl TaskList {
    /// The tasks, in order.
    pub closed spec fn tasks_spec(&self) -> Seq<Task> {
        self.tasks@
    }

    /// An empty list.
    pub fn new() -> (r: Self)
        ensures
            r.tasks_spec().len() == 0,
    {
        TaskList { tasks: Vec::new() }
    }

    /// Adds a task last and returns it.
    pub fn add(&mut self, task: Task) -> (r: &Task)
        ensures
            final(self).tasks_spec() == old(self).tasks_spec().push(task),
            *r == task,
    {
        self.tasks.push(task);
        let n = self.tasks.len();
        &self.tasks[n - 1]
    }

    fn index_of(&self, id: &str) -> (r: Option<usize>)
        ensures
            match r {
                Some(i) => crate::text::first_index(self.tasks@, has_id(id@), 0) == Some(i as int) && i
                    < self.tasks@.len(),
                None => crate::text::first_index(self.tasks@, has_id(id@), 0) is None,
            },
    {
        proof {
            crate::text::lemma_first_index(self.tasks@, has_id(id@), 0);
        }
        let mut i: usize = 0;
        while i < self.tasks.len()
            invariant
                i <= self.tasks@.len(),
                crate::text::first_index(self.tasks@, has_id(id@), 0) == crate::text::first_index(
                    self.tasks@,
                    has_id(id@),
                    i as int,
                ),
            decreases self.tasks.len() - i,
        {
            if str_eq(self.tasks[i].id.as_str(), id) {
                return Some(i);
            }
            i = i + 1;
        }
        None
    }

    /// The first task with id `id`.
    pub fn get(&self, id: &str) -> (r: Option<&Task>)
        ensures
            match crate::text::first_index(self.tasks_spec(), has_id(id@), 0) {
                Some(i) => r == Some(&self.tasks_spec()[i]),
                None => r is None,
            },
    {
        match self.index_of(id) {
            Some(i) => Some(&self.tasks[i]),
            None => None,
        }
    }

    /// The task with id `id`, to change in place.
    pub fn get_mut(&mut self, id: &str) -> (r: Option<&mut Task>)
        ensures
            match crate::text::first_index(old(self).tasks_spec(), has_id(id@), 0) {
                Some(i) => r matches Some(t) && *t == old(self).tasks_spec()[i]
                    && final(self).tasks_spec() == old(self).tasks_spec().update(i, *final(t)),
                None => r is None && final(self).tasks_spec() == old(self).tasks_spec(),
            },
    {
        match self.index_of(id) {
            Some(i) => Some(&mut self.tasks[i]),
            None => None,
        }
    }

    /// All tasks, in order.
    pub fn list(&self) -> (r: &[Task])
        ensures
            r@ == self.tasks_spec(),
    {
        self.tasks.as_slice()
    }

    /// The tasks with status `status`, in order.
    pub fn list_by_status(&self, status: TaskStatus) -> (r: Vec<&Task>)
        ensures
            refers_to(r@, tasks_where(self.tasks_spec(), has_status(status))),
    {
        let mut keep: Vec<bool> = Vec::new();
        let mut i: usize = 0;
        while i < self.tasks.len()
            invariant
                i <= self.tasks@.len(),
                keep@.len() == i,
                forall|k: int| 0 <= k < i ==> keep@[k] == (has_status(status))(#[trigger] self.tasks@[k]),
            decreases self.tasks.len() - i,
        {
            keep.push(self.tasks[i].status == status);
            i = i + 1;
        }
        collect_where(&self.tasks, Ghost(has_status(status)), &keep)
    }

    /// The tasks with priority `priority`, in order.
    pub fn list_by_priority(&self, priority: Priority) -> (r: Vec<&Task>)
        ensures
            refers_to(r@, tasks_where(self.tasks_spec(), has_priority(priority))),
    {
        let mut keep: Vec<bool> = Vec::new();
        let mut i: usize = 0;
        while i < self.tasks.len()
            invariant
                i <= self.tasks@.len(),
                keep@.len() == i,
                forall|k: int| 0 <= k < i ==> keep@[k] == (has_priority(priority))(#[trigger] self.tasks@[k]),
            decreases self.tasks.len() - i,
        {
            keep.push(self.tasks[i].priority == priority);
            i = i + 1;
        }
        collect_where(&self.tasks, Ghost(has_priority(priority)), &keep)
    }

    /// The tasks whose lower-cased title, description or a tag contains the
    /// lower-cased query, in order.
    pub fn search(&self, query: &str) -> (r: Vec<&Task>)
        ensures
            refers_to(r@, tasks_where(self.tasks_spec(), task_matches(lowercase_of(query@)))),
    {
        let q = to_lowercase(query);
        let mut keep: Vec<bool> = Vec::new();
        let mut i: usize = 0;
        while i < self.tasks.len()
            invariant
                i <= self.tasks@.len(),
                q@ == lowercase_of(query@),
                keep@.len() == i,
                forall|k: int| 0 <= k < i ==> keep@[k] == (task_matches(q@))(#[trigger] self.tasks@[k]),
            decreases self.tasks.len() - i,
        {
            let t = &self.tasks[i];
            let title = to_lowercase(t.title.as_str());
            let in_description = match &t.description {
                Some(d) => {
                    let l = to_lowercase(d.as_str());
                    str_contains(l.as_str(), q.as_str())
                },
                None => false,
            };
            let hit = str_contains(title.as_str(), q.as_str()) || in_description || any_tag_contains(
                &t.tags,
                q.as_str(),
            );
            keep.push(hit);
            i = i + 1;
        }
        collect_where(&self.tasks, Ghost(task_matches(q@)), &keep)
    }

    /// Completes the first task with id `id`; false when there is none.
    pub fn complete(&mut self, id: &str) -> (b: bool)
        ensures
            match crate::text::first_index(old(self).tasks_spec(), has_id(id@), 0) {
                Some(i) => b && final(self).tasks_spec().len() == old(self).tasks_spec().len() && (forall|
                    j: int,
                | 0 <= j < old(self).tasks_spec().len() && j != i ==> final(self).tasks_spec()[j]
                    == old(self).tasks_spec()[j]) && final(self).tasks_spec()[i] == (Task {
                    status: TaskStatus::Completed,
                    completed_at: Some(final(self).tasks_spec()[i].updated_at),
                    updated_at: final(self).tasks_spec()[i].updated_at,
                    ..old(self).tasks_spec()[i]
                }),
                None => !b && final(self).tasks_spec() == old(self).tasks_spec(),
            },
    {
        match self.index_of(id) {
            Some(i) => {
                let mut t = self.tasks.remove(i);
                t.complete();
                self.tasks.insert(i, t);
                true
            },
            None => false,
        }
    }

    /// Cancels the first task with id `id`; false when there is none.
    pub fn cancel(&mut self, id: &str) -> (b: bool)
        ensures
            match crate::text::first_index(old(self).tasks_spec(), has_id(id@), 0) {
                Some(i) => b && final(self).tasks_spec().len() == old(self).tasks_spec().len() && (forall|
                    j: int,
                | 0 <= j < old(self).tasks_spec().len() && j != i ==> final(self).tasks_spec()[j]
                    == old(self).tasks_spec()[j]) && final(self).tasks_spec()[i] == (Task {
                    status: TaskStatus::Cancelled,
                    updated_at: final(self).tasks_spec()[i].updated_at,
                    ..old(self).tasks_spec()[i]
                }),
                None => !b && final(self).tasks_spec() == old(self).tasks_spec(),
            },
    {
        match self.index_of(id) {
            Some(i) => {
                let mut t = self.tasks.remove(i);
                t.cancel();
                self.tasks.insert(i, t);
                true
            },
            None => false,
        }
    }

    fn keep_where(&mut self, p: Ghost<spec_fn(Task) -> bool>, keep: Vec<bool>)
        requires
            keep@.len() == old(self).tasks@.len(),
            forall|i: int| 0 <= i < old(self).tasks@.len() ==> keep@[i] == (p@)(#[trigger] old(self).tasks@[i]),
        ensures
            final(self).tasks@ == tasks_where(old(self).tasks@, p@),
    {
        let mut rest: Vec<Task> = Vec::new();
        std::mem::swap(&mut rest, &mut self.tasks);
        let ghost all = rest@;
        let ghost n = rest@.len();
        assert(n <= usize::MAX) by {
            assert(rest.len() <= usize::MAX);
        }
        let mut i: usize = 0;
        while rest.len() > 0
            invariant
                n == all.len(),
                n <= usize::MAX,
                keep@.len() == n,
                forall|k: int| 0 <= k < n ==> keep@[k] == (p@)(#[trigger] all[k]),
                i + rest@.len() == n,
                rest@ == all.subrange(i as int, n as int),
                self.tasks@ == tasks_where(all.subrange(0, i as int), p@),
            decreases rest.len(),
        {
            let t = rest.remove(0);
            proof {
                assert(t == all[i as int]);
                assert(all.subrange(0, i + 1).drop_last() =~= all.subrange(0, i as int));
                assert(rest@ =~= all.subrange(i + 1, n as int));
            }
            if keep[i] {
                self.tasks.push(t);
            }
            i = i + 1;
        }
        assert(all.subrange(0, n as int) =~= all);
    }

    /// Removes every task with id `id`; true when one was removed.
    pub fn remove(&mut self, id: &str) -> (b: bool)
        ensures
            final(self).tasks_spec() == tasks_where(old(self).tasks_spec(), id_other_than(id@)),
            b == (final(self).tasks_spec().len() < old(self).tasks_spec().len()),
    {
        let before = self.tasks.len();
        let mut keep: Vec<bool> = Vec::new();
        let mut i: usize = 0;
        while i < self.tasks.len()
            invariant
                i <= self.tasks@.len(),
                keep@.len() == i,
                forall|k: int| 0 <= k < i ==> keep@[k] == (id_other_than(id@))(#[trigger] self.tasks@[k]),
            decreases self.tasks.len() - i,
        {
            keep.push(!str_eq(self.tasks[i].id.as_str(), id));
            i = i + 1;
        }
        self.keep_where(Ghost(id_other_than(id@)), keep);
        self.tasks.len() < before
    }

    /// The list's figures.
    pub fn stats(&self) -> (r: TaskStats)
        ensures
            r.total == self.tasks_spec().len(),
            r.pending == tasks_where(self.tasks_spec(), has_status(TaskStatus::Pending)).len(),
            r.in_progress == tasks_where(self.tasks_spec(), has_status(TaskStatus::InProgress)).len(),
            r.completed == tasks_where(self.tasks_spec(), has_status(TaskStatus::Completed)).len(),
            r.cancelled == tasks_where(self.tasks_spec(), has_status(TaskStatus::Cancelled)).len(),
    {
        TaskStats {
            total: self.tasks.len(),
            pending: count_status(&self.tasks, TaskStatus::Pending),
            in_progress: count_status(&self.tasks, TaskStatus::InProgress),
            completed: count_status(&self.tasks, TaskStatus::Completed),
            cancelled: count_status(&self.tasks, TaskStatus::Cancelled),
        }
    }

    /// Drops the completed tasks.
    pub fn clear_completed(&mut self)
        ensures
            final(self).tasks_spec() == tasks_where(
                old(self).tasks_spec(),
                not_completed(),
            ),
    {
        let mut keep: Vec<bool> = Vec::new();
        let mut i: usize = 0;
        while i < self.tasks.len()
            invariant
                i <= self.tasks@.len(),
                keep@.len() == i,
                forall|k: int|
                    0 <= k < i ==> keep@[k] == (not_completed())(#[trigger] self.tasks@[k]),
            decreases self.tasks.len() - i,
        {
            keep.push(self.tasks[i].status != TaskStatus::Completed);
            i = i + 1;
        }
        self.keep_where(Ghost(not_completed()), keep);
    }

    /// Drops every task.
    pub fn clear_all(&mut self)
        ensures
            final(self).tasks_spec().len() == 0,
    {
        self.tasks = Vec::new();
    }
}

impl Default for TaskList {
    fn default() -> (r: Self)
        ensures
            r.tasks_spec().len() == 0,
    {
        TaskList::new()
    }
}

/// The tasks a list of references points to.
pub open spec fn deref_tasks(v: Seq<&Task>) -> Seq<Task> {
    v.map_values(|t: &Task| *t)
}

/// The checkbox of a task.
pub open spec fn checkbox(s: TaskStatus) -> Seq<char> {
    match s {
        TaskStatus::Completed => "[x]"@,
        TaskStatus::InProgress => "[~]"@,
        _ => "[ ]"@,
    }
}

/// The mark of a priority.
pub open spec fn priority_icon(p: Priority) -> Seq<char> {
    match p {
        Priority::Critical => "🔴"@,
        Priority::High => "🟠"@,
        Priority::Medium => "🟡"@,
        Priority::Low => "⚪"@,
    }
}

/// A task's line: checkbox, priority mark, title and tags.
pub open spec fn task_line(t: Task) -> Seq<char> {
    "- "@ + checkbox(t.status) + " "@ + priority_icon(t.priority) + " "@ + t.title@ + (if t.tags@.len() == 0 {
        Seq::empty()
    } else {
        " ["@ + join(views(t.tags@), ", "@) + "]"@
    }) + "\n"@
}

/// The lines of the tasks, in order.
pub open spec fn task_lines(ts: Seq<Task>) -> Seq<char>
    decreases ts.len(),
{
    if ts.len() == 0 {
        Seq::empty()
    } else {
        task_lines(ts.drop_last()) + task_line(ts.last())
    }
}

/// The section of the tasks with status `s`: a heading and their lines,
/// or nothing when there are none.
pub open spec fn status_section(ts: Seq<Task>, s: TaskStatus, heading: Seq<char>) -> Seq<char> {
    let w = tasks_where(ts, has_status(s));
    if w.len() == 0 {
        Seq::empty()
    } else {
        "## "@ + heading + "\n\n"@ + task_lines(w) + "\n"@
    }
}

/// The figures of a group of tasks.
pub open spec fn figures(ts: Seq<Task>) -> TaskStats {
    TaskStats {
        total: ts.len() as usize,
        pending: tasks_where(ts, has_status(TaskStatus::Pending)).len() as usize,
        in_progress: tasks_where(ts, has_status(TaskStatus::InProgress)).len() as usize,
        completed: tasks_where(ts, has_status(TaskStatus::Completed)).len() as usize,
        cancelled: tasks_where(ts, has_status(TaskStatus::Cancelled)).len() as usize,
    }
}

/// One line of figures.
pub open spec fn figures_line(f: TaskStats) -> Seq<char> {
    "Tasks: "@ + decimal(f.total as nat) + " total ("@ + decimal(f.pending as nat) + " pending, "@ + decimal(
        f.in_progress as nat,
    ) + " in progress, "@ + decimal(f.completed as nat) + " completed, "@ + decimal(f.cancelled as nat)
        + " cancelled)"@
}

/// A task list as Markdown: a heading, with the figures when asked for,
/// then the pending, in-progress and completed tasks, each group where it
/// has tasks. Cancelled tasks are not listed.
pub open spec fn task_list_markdown(ts: Seq<Task>, show_stats: bool) -> Seq<char> {
    (if show_stats {
        "# Task List ("@ + figures_line(figures(ts)) + ")\n\n"@
    } else {
        "# Task List\n\n"@
    }) + status_section(ts, TaskStatus::Pending, "Pending"@) + status_section(
        ts,
        TaskStatus::InProgress,
        "In Progress"@,
    ) + status_section(ts, TaskStatus::Completed, "Completed"@)
}

fn format_task_line(t: &Task) -> (r: String)
    ensures
        r@ == task_line(*t),
{
    let mut s = owned("- ");
    push_str(
        &mut s,
        match t.status {
            TaskStatus::Completed => "[x]",
            TaskStatus::InProgress => "[~]",
            _ => "[ ]",
        },
    );
    push_str(&mut s, " ");
    push_str(
        &mut s,
        match t.priority {
            Priority::Critical => "🔴",
            Priority::High => "🟠",
            Priority::Medium => "🟡",
            Priority::Low => "⚪",
        },
    );
    push_str(&mut s, " ");
    push_str(&mut s, t.title.as_str());
    if t.tags.len() > 0 {
        push_str(&mut s, " [");
        let j = crate::tools::executor::join_strings(t.tags.as_slice(), ", ");
        push_str(&mut s, j.as_str());
        push_str(&mut s, "]");
    }
    push_str(&mut s, "\n");
    s
}

fn count_refs(tasks: &[&Task], st: TaskStatus) -> (n: usize)
    ensures
        n == tasks_where(deref_tasks(tasks@), has_status(st)).len(),
{
    let ghost ts = deref_tasks(tasks@);
    let mut n: usize = 0;
    let mut i: usize = 0;
    while i < tasks.len()
        invariant
            i <= tasks@.len(),
            ts == deref_tasks(tasks@),
            n == tasks_where(ts.subrange(0, i as int), has_status(st)).len(),
            n <= i,
        decreases tasks.len() - i,
    {
        proof {
            let pre = ts.subrange(0, i + 1);
            assert(pre.drop_last() =~= ts.subrange(0, i as int));
            assert(pre.last() == *tasks@[i as int]);
        }
        if tasks[i].status == st {
            n = n + 1;
        }
        i = i + 1;
    }
    assert(ts.subrange(0, tasks@.len() as int) =~= ts);
    n
}

fn push_section(md: &mut String, tasks: &[&Task], st: TaskStatus, heading: &str)
    ensures
        final(md)@ == old(md)@ + status_section(deref_tasks(tasks@), st, heading@),
{
    let ghost ts = deref_tasks(tasks@);
    if count_refs(tasks, st) == 0 {
        assert(md@ =~= md@ + Seq::<char>::empty());
        return;
    }
    push_str(md, "## ");
    push_str(md, heading);
    push_str(md, "\n\n");
    let ghost start = md@;
    let mut i: usize = 0;
    while i < tasks.len()
        invariant
            i <= tasks@.len(),
            ts == deref_tasks(tasks@),
            md@ == start + task_lines(tasks_where(ts.subrange(0, i as int), has_status(st))),
        decreases tasks.len() - i,
    {
        proof {
            let pre = ts.subrange(0, i + 1);
            assert(pre.drop_last() =~= ts.subrange(0, i as int));
            assert(pre.last() == *tasks@[i as int]);
        }
        if tasks[i].status == st {
            let l = format_task_line(tasks[i]);
            push_str(md, l.as_str());
            proof {
                let w = tasks_where(ts.subrange(0, i + 1), has_status(st));
                assert(w.drop_last() =~= tasks_where(ts.subrange(0, i as int), has_status(st)));
                assert(w.last() == *tasks@[i as int]);
            }
        }
        i = i + 1;
    }
    assert(ts.subrange(0, tasks@.len() as int) =~= ts);
    push_str(md, "\n");
}

/// A list of tasks as Markdown.
pub fn format_task_list(tasks: &[&Task], show_stats: bool) -> (r: String)
    ensures
        r@ == task_list_markdown(deref_tasks(tasks@), show_stats),
{
    let ghost ts = deref_tasks(tasks@);
    let mut md = String::new();
    if show_stats {
        let stats = TaskStats {
            total: tasks.len(),
            pending: count_refs(tasks, TaskStatus::Pending),
            in_progress: count_refs(tasks, TaskStatus::InProgress),
            completed: count_refs(tasks, TaskStatus::Completed),
            cancelled: count_refs(tasks, TaskStatus::Cancelled),
        };
        assert(stats == figures(ts));
        push_str(&mut md, "# Task List (");
        let s = stats.summary();
        push_str(&mut md, s.as_str());
        push_str(&mut md, ")\n\n");
    } else {
        push_str(&mut md, "# Task List\n\n");
    }
    push_section(&mut md, tasks, TaskStatus::Pending, "Pending");
    push_section(&mut md, tasks, TaskStatus::InProgress, "In Progress");
    push_section(&mut md, tasks, TaskStatus::Completed, "Completed");
    assert(md@ =~= task_list_markdown(ts, show_stats));
    md
}

proof fn lemma_tasks_where_contains(ts: Seq<Task>, p: spec_fn(Task) -> bool, t: Task)
    ensures
        tasks_where(ts, p).contains(t) <==> (ts.contains(t) && p(t)),
    decreases ts.len(),
{
    if ts.len() > 0 {
        let init = ts.drop_last();
        lemma_tasks_where_contains(init, p, t);
        let w0 = tasks_where(init, p);
        let w = tasks_where(ts, p);
        if w.contains(t) {
            let i = choose|i: int| 0 <= i < w.len() && w[i] == t;
            if i < w0.len() {
                assert(w0[i] == t);
                assert(w0.contains(t));
                let j = choose|j: int| 0 <= j < init.len() && init[j] == t;
                assert(ts[j] == t);
            } else {
                assert(ts[ts.len() - 1] == t);
            }
        }
        if ts.contains(t) && p(t) {
            let j = choose|j: int| 0 <= j < ts.len() && ts[j] == t;
            if j < ts.len() - 1 {
                assert(init[j] == t);
                assert(init.contains(t));
                let i = choose|i: int| 0 <= i < w0.len() && w0[i] == t;
                assert(w[i] == t);
            } else {
                assert(w[w0.len() as int] == t);
            }
        }
    }
}

/// Search is case-insensitive: for a lower-cased query `q`, a task is found
/// exactly when it is in the list and its lower-cased title, its lower-cased
/// description or one of its lower-cased tags contains `q`. In particular a
/// task whose lower-cased title contains `q` is always found.
pub proof fn lemma_search_finds(ts: Seq<Task>, q: Seq<char>, t: Task)
    ensures
        tasks_where(ts, task_matches(q)).contains(t) <==> (ts.contains(t) && (contains_seq(
            lowercase_of(t.title@),
            q,
        ) || (t.description matches Some(d) && contains_seq(lowercase_of(d@), q)) || (exists|i: int|
            0 <= i < t.tags@.len() && contains_seq(lowercase_of(#[trigger] t.tags@[i]@), q)))),
        ts.contains(t) && contains_seq(lowercase_of(t.title@), q) ==> tasks_where(
            ts,
            task_matches(q),
        ).contains(t),
{
    lemma_tasks_where_contains(ts, task_matches(q), t);
}

/// After the completed tasks are cleared, no task left is completed.
pub proof fn lemma_cleared_has_no_completed(ts: Seq<Task>)
    ensures
        forall|i: int|
            0 <= i < tasks_where(ts, not_completed()).len() ==> (#[trigger] tasks_where(
                ts,
                not_completed(),
            )[i]).status != TaskStatus::Completed,
    decreases ts.len(),
{
    if ts.len() > 0 {
        lemma_cleared_has_no_completed(ts.drop_last());
        let w0 = tasks_where(ts.drop_last(), not_completed());
        let w = tasks_where(ts, not_completed());
        assert forall|i: int| 0 <= i < w.len() implies (#[trigger] w[i]).status != TaskStatus::Completed by {
            if i < w0.len() {
                assert(w[i] == w0[i]);
            }
        }
    }
}

/// After the tasks with an id are removed, none is found by that id.
pub proof fn lemma_removed_not_found(ts: Seq<Task>, id: Seq<char>)
    ensures
        crate::text::first_index(tasks_where(ts, id_other_than(id)), has_id(id), 0) is None,
{
    let w = tasks_where(ts, id_other_than(id));
    lemma_kept_ids_differ(ts, id);
    crate::text::lemma_first_index(w, has_id(id), 0);
    if crate::text::first_index(w, has_id(id), 0) is Some {
        let k = crate::text::first_index(w, has_id(id), 0)->0;
        assert(w[k].id@ != id);
    }
}

proof fn lemma_kept_ids_differ(ts: Seq<Task>, id: Seq<char>)
    ensures
        forall|i: int|
            0 <= i < tasks_where(ts, id_other_than(id)).len() ==> (#[trigger] tasks_where(
                ts,
                id_other_than(id),
            )[i]).id@ != id,
    decreases ts.len(),
{
    if ts.len() > 0 {
        lemma_kept_ids_differ(ts.drop_last(), id);
        let w0 = tasks_where(ts.drop_last(), id_other_than(id));
        let w = tasks_where(ts, id_other_than(id));
        assert forall|i: int| 0 <= i < w.len() implies (#[trigger] w[i]).id@ != id by {
            if i < w0.len() {
                assert(w[i] == w0[i]);
            }
        }
    }
}

} // verus!
