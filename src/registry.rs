//! The task registry: the authoritative table from task id to task, and the
//! counter that hands out ids.
use vstd::prelude::*;

use crate::kind::TaskKind;

verus! {

/// A running task: its id, its kind, the name it is listed under, when it
/// was started (in the caller's clock), and the execution handle that only
/// this record owns.
pub struct Task<H> {
    pub id: u64,
    pub kind: TaskKind,
    pub name: String,
    pub created_at: u64,
    pub handle: H,
}

/// What a task record holds, as a mathematical value.
pub struct TaskEntry<H> {
    pub id: u64,
    pub kind: TaskKind,
    pub name: Seq<char>,
    pub created_at: u64,
    pub handle: H,
}

impl<H> View for Task<H> {
    type V = TaskEntry<H>;

    open spec fn view(&self) -> TaskEntry<H> {
        TaskEntry {
            id: self.id,
            kind: self.kind,
            name: self.name@,
            created_at: self.created_at,
            handle: self.handle,
        }
    }
}

/// The registry as a mathematical value: the next id to hand out, and the
/// running tasks in the order in which they were started.
pub struct RegistryState<H> {
    pub next_id: nat,
    pub tasks: Seq<TaskEntry<H>>,
}

/// Whether the ids of `tasks` increase strictly from first to last.
pub open spec fn ids_increasing<H>(tasks: Seq<TaskEntry<H>>) -> bool {
    forall|i: int, j: int| 0 <= i < j < tasks.len() ==> tasks[i].id < tasks[j].id
}

/// `tasks` without the entries whose id is `id`.
pub open spec fn without_id<H>(tasks: Seq<TaskEntry<H>>, id: u64) -> Seq<TaskEntry<H>>
    decreases tasks.len(),
{
    if tasks.len() == 0 {
        tasks
    } else if tasks.last().id == id {
        without_id(tasks.drop_last(), id)
    } else {
        without_id(tasks.drop_last(), id).push(tasks.last())
    }
}

impl<H> RegistryState<H> {
    /// Ids increase in start order, every id was handed out before, and the
    /// counter fits the machine integer that holds it.
    pub open spec fn wf(self) -> bool {
        &&& ids_increasing(self.tasks)
        &&& forall|i: int| 0 <= i < self.tasks.len() ==> self.tasks[i].id < self.next_id
        &&& self.next_id <= u64::MAX
    }

    /// Whether a running task has id `id`.
    pub open spec fn has(self, id: u64) -> bool {
        exists|i: int| 0 <= i < self.tasks.len() && self.tasks[i].id == id
    }

    /// The kind of the running task with id `id`; meaningful when `has(id)`.
    pub open spec fn kind_of(self, id: u64) -> TaskKind {
        self.tasks[choose|i: int| 0 <= i < self.tasks.len() && self.tasks[i].id == id].kind
    }

    /// Whether the counter can hand out another id.
    pub open spec fn can_allocate(self) -> bool {
        self.next_id < u64::MAX
    }

    /// The registry after a task of this kind, name, start time and handle
    /// is registered under the next id; unchanged once the ids are exhausted.
    pub open spec fn inserted(self, kind: TaskKind, name: Seq<char>, created_at: u64, handle: H) -> Self {
        if self.can_allocate() {
            RegistryState {
                next_id: self.next_id + 1,
                tasks: self.tasks.push(
                    TaskEntry { id: self.next_id as u64, kind, name, created_at, handle },
                ),
            }
        } else {
            self
        }
    }

    /// The registry after the task with id `id`, if any, is removed.
    pub open spec fn removed(self, id: u64) -> Self {
        RegistryState { next_id: self.next_id, tasks: without_id(self.tasks, id) }
    }

    /// The entries that a listing reports: id, kind and name of each task.
    pub open spec fn listing(self) -> Seq<(u64, TaskKind, Seq<char>)> {
        self.tasks.map_values(|t: TaskEntry<H>| (t.id, t.kind, t.name))
    }
}

/// Removing an id from an id-ordered sequence drops exactly the one entry that
/// carries it.
pub proof fn lemma_without_id_at<H>(tasks: Seq<TaskEntry<H>>, i: int)
    requires
        ids_increasing(tasks),
        0 <= i < tasks.len(),
    ensures
        without_id(tasks, tasks[i].id) == tasks.remove(i),
    decreases tasks.len(),
{
    let id = tasks[i].id;
    if i == tasks.len() - 1 {
        lemma_without_id_absent(tasks.drop_last(), id);
        assert(tasks.remove(i) =~= tasks.drop_last());
    } else {
        let init = tasks.drop_last();
        assert(ids_increasing(init));
        lemma_without_id_at(init, i);
        assert(tasks.remove(i) =~= init.remove(i).push(tasks.last()));
    }
}

/// Removing an id that no entry carries changes nothing.
pub proof fn lemma_without_id_absent<H>(tasks: Seq<TaskEntry<H>>, id: u64)
    requires
        forall|k: int| 0 <= k < tasks.len() ==> tasks[k].id != id,
    ensures
        without_id(tasks, id) == tasks,
    decreases tasks.len(),
{
    if tasks.len() > 0 {
        lemma_without_id_absent(tasks.drop_last(), id);
        assert(tasks.drop_last().push(tasks.last()) =~= tasks);
    }
}

/// One line of a listing: the id, kind and name of a running task.
pub struct TaskInfo {
    pub id: u64,
    pub kind: TaskKind,
    pub name: String,
}

impl View for TaskInfo {
    type V = (u64, TaskKind, Seq<char>);

    open spec fn view(&self) -> (u64, TaskKind, Seq<char>) {
        (self.id, self.kind, self.name@)
    }
}

/// The registry of running tasks. `H` is the execution handle that each task
/// owns exclusively.
///
/// The tasks are kept in a vector in start order rather than in a hash map:
/// ids are handed out in increasing order, so the vector stays sorted by id
/// and unique keys follow from the invariant, and a listing comes out in a
/// fixed order, where a hash map would give the order of its hasher.
pub struct TaskRegistry<H> {
    next_id: u64,
    tasks: Vec<Task<H>>,
}

impl<H> View for TaskRegistry<H> {
    type V = RegistryState<H>;

    closed spec fn view(&self) -> RegistryState<H> {
        RegistryState {
            next_id: self.next_id as nat,
            tasks: self.tasks@.map_values(|t: Task<H>| t@),
        }
    }
}

impl<H> TaskRegistry<H> {
    /// Every registry is well formed.
    #[verifier::type_invariant]
    closed spec fn inv(&self) -> bool {
        self@.wf()
    }

    /// An empty registry whose first task will get id 0.
    pub fn new() -> (r: Self)
        ensures
            r@ == (RegistryState::<H> { next_id: 0, tasks: Seq::empty() }),
            r@.wf(),
    {
        let r = TaskRegistry { next_id: 0, tasks: Vec::new() };
        assert(r@.tasks =~= Seq::<TaskEntry<H>>::empty());
        r
    }

    /// Registers a task under the next id and returns that id. Fails only once
    /// every id has been handed out; the handle is then dropped.
    pub fn allocate_and_insert(&mut self, kind: TaskKind, name: String, created_at: u64, handle: H) -> (r: Option<u64>)
        ensures
            old(self)@.wf(),
            final(self)@.wf(),
            final(self)@ == old(self)@.inserted(kind, name@, created_at, handle),
            old(self)@.can_allocate() ==> r == Some(old(self)@.next_id as u64),
            !old(self)@.can_allocate() ==> r.is_none(),
    {
        proof {
            use_type_invariant(&*self);
        }
        if self.next_id == u64::MAX {
            return None;
        }
        let id = self.next_id;
        let ghost before = self@;
        let mut tasks: Vec<Task<H>> = Vec::new();
        std::mem::swap(&mut tasks, &mut self.tasks);
        tasks.push(Task { id, kind, name, created_at, handle });
        assert(tasks@.map_values(|t: Task<H>| t@) =~= before.tasks.push(
            TaskEntry { id, kind, name: name@, created_at, handle },
        ));
        self.next_id = id + 1;
        self.tasks = tasks;
        Some(id)
    }

    /// A point-in-time listing of the running tasks, in start order; empty
    /// when no task runs.
    pub fn list(&self) -> (r: Vec<TaskInfo>)
        ensures
            r@.map_values(|t: TaskInfo| t@) == self@.listing(),
            r@.len() == self@.tasks.len(),
            self@.wf(),
    {
        proof {
            use_type_invariant(self);
        }
        let mut out: Vec<TaskInfo> = Vec::new();
        let mut i: usize = 0;
        while i < self.tasks.len()
            invariant
                i <= self.tasks.len(),
                out@.map_values(|t: TaskInfo| t@) =~= self@.listing().subrange(0, i as int),
            decreases self.tasks.len() - i,
        {
            let t = &self.tasks[i];
            let ghost before = out@;
            out.push(TaskInfo { id: t.id, kind: t.kind, name: t.name.clone() });
            assert(self@.tasks[i as int] == t@);
            assert(out@.map_values(|t: TaskInfo| t@) =~= before.map_values(|t: TaskInfo| t@).push(
                self@.listing()[i as int],
            ));
            i += 1;
            assert(out@.map_values(|t: TaskInfo| t@) =~= self@.listing().subrange(0, i as int));
        }
        out
    }

    /// The position of the task with id `id`, if one runs.
    fn position_of(&self, id: u64) -> (r: Option<usize>)
        ensures
            match r {
                Some(i) => i < self@.tasks.len() && self@.tasks[i as int].id == id,
                None => !self@.has(id),
            },
    {
        let mut i: usize = 0;
        while i < self.tasks.len()
            invariant
                i <= self.tasks.len(),
                forall|k: int| 0 <= k < i ==> self@.tasks[k].id != id,
            decreases self.tasks.len() - i,
        {
            if self.tasks[i].id == id {
                return Some(i);
            }
            i += 1;
        }
        None
    }

    /// Whether a task with id `id` runs.
    pub fn contains(&self, id: u64) -> (r: bool)
        ensures
            r == self@.has(id),
    {
        self.position_of(id).is_some()
    }

    /// Takes the task with id `id` out of the registry and hands it to the
    /// caller, who then owns its handle; `None`, with nothing changed, when no
    /// task has that id.
    pub fn remove(&mut self, id: u64) -> (r: Option<Task<H>>)
        ensures
            old(self)@.wf(),
            final(self)@.wf(),
            final(self)@ == old(self)@.removed(id),
            !final(self)@.has(id),
            r.is_some() == old(self)@.has(id),
            final(self)@.tasks.len() == old(self)@.tasks.len() - if old(self)@.has(id) {
                1int
            } else {
                0int
            },
            match r {
                Some(t) => exists|i: int|
                    0 <= i < old(self)@.tasks.len() && old(self)@.tasks[i] == t@
                        && t.id == id,
                None => true,
            },
    {
        proof {
            use_type_invariant(&*self);
        }
        let ghost before = self@;
        match self.position_of(id) {
            Some(i) => {
                let mut tasks: Vec<Task<H>> = Vec::new();
                std::mem::swap(&mut tasks, &mut self.tasks);
                let t = tasks.remove(i);
                proof {
                    lemma_without_id_at(before.tasks, i as int);
                    assert(tasks@.map_values(|t: Task<H>| t@) =~= before.tasks.remove(i as int));
                    lemma_removed_wf(before, id);
                }
                self.tasks = tasks;
                Some(t)
            },
            None => {
                proof {
                    lemma_without_id_absent(before.tasks, id);
                }
                None
            },
        }
    }

    /// The kind of the task with id `id`, if one runs.
    pub fn get_kind(&self, id: u64) -> (r: Option<TaskKind>)
        ensures
            r.is_some() == self@.has(id),
            match r {
                Some(k) => exists|i: int|
                    0 <= i < self@.tasks.len() && self@.tasks[i].id == id
                        && self@.tasks[i].kind == k,
                None => true,
            },
    {
        match self.position_of(id) {
            Some(i) => Some(self.tasks[i].kind),
            None => None,
        }
    }

    /// The task with id `id`, if one runs, for reading (its log, its name).
    pub fn get(&self, id: u64) -> (r: Option<&Task<H>>)
        ensures
            self@.wf(),
            r.is_some() == self@.has(id),
            match r {
                Some(t) => exists|i: int|
                    0 <= i < self@.tasks.len() && self@.tasks[i] == t@ && t.id == id,
                None => true,
            },
    {
        proof {
            use_type_invariant(self);
        }
        match self.position_of(id) {
            Some(i) => Some(&self.tasks[i]),
            None => None,
        }
    }
}

} // verus!

verus! {

/// One operation on the registry, as a mathematical value: a start that
/// registers a launched task, a stop that removes an id, or a read.
pub enum RegistryOp<H> {
    Insert { kind: TaskKind, name: Seq<char>, created_at: u64, handle: H },
    Remove { id: u64 },
    Read,
}

impl<H> RegistryState<H> {
    /// The registry after `op`, as the registry's own methods leave it.
    pub open spec fn apply(self, op: RegistryOp<H>) -> Self {
        match op {
            RegistryOp::Insert { kind, name, created_at, handle } => self.inserted(
                kind,
                name,
                created_at,
                handle,
            ),
            RegistryOp::Remove { id } => self.removed(id),
            RegistryOp::Read => self,
        }
    }
}

/// Whether `states` is what the registry goes through when `ops` are applied
/// one after another (the registry lock orders concurrent callers so).
pub open spec fn is_run<H>(states: Seq<RegistryState<H>>, ops: Seq<RegistryOp<H>>) -> bool {
    &&& states.len() == ops.len() + 1
    &&& forall|k: int| 0 <= k < ops.len() ==> #[trigger] states[k + 1] == states[k].apply(ops[k])
}

/// Whether operation `k` of a run is a start that was given an id; that id is
/// `states[k].next_id`.
pub open spec fn issues_id<H>(
    states: Seq<RegistryState<H>>,
    ops: Seq<RegistryOp<H>>,
    k: int,
) -> bool {
    &&& ops[k] is Insert
    &&& states[k].can_allocate()
}

/// Removing an id from a well-formed registry keeps it well formed and leaves
/// no task with that id.
pub proof fn lemma_removed_wf<H>(s: RegistryState<H>, id: u64)
    requires
        s.wf(),
    ensures
        s.removed(id).wf(),
        !s.removed(id).has(id),
        s.removed(id).next_id == s.next_id,
{
    if s.has(id) {
        let i = choose|i: int| 0 <= i < s.tasks.len() && s.tasks[i].id == id;
        lemma_without_id_at(s.tasks, i);
        let r = s.removed(id);
        assert(r.tasks =~= s.tasks.remove(i));
        assert forall|a: int, b: int| 0 <= a < b < r.tasks.len() implies r.tasks[a].id
            < r.tasks[b].id by {
            let a0 = if a < i { a } else { a + 1 };
            let b0 = if b < i { b } else { b + 1 };
            assert(r.tasks[a] == s.tasks[a0]);
            assert(r.tasks[b] == s.tasks[b0]);
        }
        assert forall|k: int| 0 <= k < r.tasks.len() implies r.tasks[k].id != id by {
            let k0 = if k < i { k } else { k + 1 };
            assert(r.tasks[k] == s.tasks[k0]);
        }
    } else {
        lemma_without_id_absent(s.tasks, id);
    }
}

/// Every operation keeps the registry well formed and never lowers the
/// counter.
pub proof fn lemma_apply_wf<H>(s: RegistryState<H>, op: RegistryOp<H>)
    requires
        s.wf(),
    ensures
        s.apply(op).wf(),
        s.next_id <= s.apply(op).next_id,
{
    match op {
        RegistryOp::Remove { id } => lemma_removed_wf(s, id),
        _ => {},
    }
}

/// Along a run the counter never goes down.
pub proof fn lemma_run_counter_monotone<H>(
    states: Seq<RegistryState<H>>,
    ops: Seq<RegistryOp<H>>,
    i: int,
    j: int,
)
    requires
        is_run(states, ops),
        states[0].wf(),
        0 <= i <= j < states.len(),
    ensures
        states[i].next_id <= states[j].next_id,
        states[j].wf(),
    decreases j,
{
    if j > 0 {
        lemma_run_counter_monotone(states, ops, if i == j { j - 1 } else { i }, j - 1);
        let k = j - 1;
        assert(states[k + 1] == states[k].apply(ops[k]));
        lemma_apply_wf(states[k], ops[k]);
    }
}

/// Uniqueness: the ids that the starts of a run are given are pairwise
/// distinct, however many starts there are and whatever stops come between.
pub proof fn lemma_started_ids_distinct<H>(
    states: Seq<RegistryState<H>>,
    ops: Seq<RegistryOp<H>>,
    i: int,
    j: int,
)
    requires
        is_run(states, ops),
        states[0].wf(),
        0 <= i < j < ops.len(),
        issues_id(states, ops, i),
        issues_id(states, ops, j),
    ensures
        states[i].next_id < states[j].next_id,
{
    assert(states[i + 1] == states[i].apply(ops[i]));
    lemma_run_counter_monotone(states, ops, i + 1, j);
}

/// Uniqueness over a whole run: any two starts of a run that are given ids
/// are given different ids, for runs of any length and any mix of operations.
pub proof fn lemma_run_ids_pairwise_distinct<H>(
    states: Seq<RegistryState<H>>,
    ops: Seq<RegistryOp<H>>,
)
    requires
        is_run(states, ops),
        states[0].wf(),
    ensures
        forall|i: int, j: int|
            0 <= i < ops.len() && 0 <= j < ops.len() && i != j && issues_id(states, ops, i)
                && issues_id(states, ops, j) ==> states[i].next_id != states[j].next_id,
{
    assert forall|i: int, j: int|
        0 <= i < ops.len() && 0 <= j < ops.len() && i != j && issues_id(states, ops, i)
            && issues_id(states, ops, j) implies states[i].next_id != states[j].next_id by {
        if i < j {
            lemma_started_ids_distinct(states, ops, i, j);
        } else {
            lemma_started_ids_distinct(states, ops, j, i);
        }
    }
}

/// No id reuse: once a task with id `id` has been running, no later start
/// is given `id`, also after that task has been stopped.
pub proof fn lemma_no_id_reuse<H>(
    states: Seq<RegistryState<H>>,
    ops: Seq<RegistryOp<H>>,
    i: int,
    j: int,
    id: u64,
)
    requires
        is_run(states, ops),
        states[0].wf(),
        0 <= i <= j < ops.len(),
        states[i].has(id),
        issues_id(states, ops, j),
    ensures
        states[j].next_id != id,
{
    lemma_run_counter_monotone(states, ops, 0, i);
    lemma_run_counter_monotone(states, ops, i, j);
}

/// List consistency after a start: the listing that follows holds the new
/// id exactly once.
pub proof fn lemma_listed_once_after_start<H>(
    s: RegistryState<H>,
    kind: TaskKind,
    name: Seq<char>,
    created_at: u64,
    handle: H,
)
    requires
        s.wf(),
        s.can_allocate(),
    ensures
        ({
            let l = s.inserted(kind, name, created_at, handle).listing();
            &&& exists|i: int| 0 <= i < l.len() && l[i].0 == s.next_id
            &&& forall|i: int, j: int|
                0 <= i < l.len() && 0 <= j < l.len() && l[i].0 == s.next_id && l[j].0
                    == s.next_id ==> i == j
        }),
{
    let t = s.inserted(kind, name, created_at, handle);
    let l = t.listing();
    assert(l[l.len() - 1].0 == s.next_id);
    assert forall|i: int| 0 <= i < l.len() - 1 implies l[i].0 != s.next_id by {
        assert(l[i].0 == s.tasks[i].id);
    }
}

/// List consistency after a stop: the listing that follows the removal of
/// `id` does not hold it.
pub proof fn lemma_unlisted_after_stop<H>(s: RegistryState<H>, id: u64)
    requires
        s.wf(),
    ensures
        forall|i: int| 0 <= i < s.removed(id).listing().len() ==> s.removed(id).listing()[i].0 != id,
{
    lemma_removed_wf(s, id);
    let r = s.removed(id);
    assert forall|i: int| 0 <= i < r.listing().len() implies r.listing()[i].0 != id by {
        assert(r.listing()[i].0 == r.tasks[i].id);
    }
}

/// Stopping the same id twice: the first stop finds the task, the second
/// finds none and changes nothing.
pub proof fn lemma_second_stop_not_found<H>(s: RegistryState<H>, id: u64)
    requires
        s.wf(),
        s.has(id),
    ensures
        !s.removed(id).has(id),
        s.removed(id).removed(id) == s.removed(id),
{
    lemma_removed_wf(s, id);
    let r = s.removed(id);
    lemma_without_id_absent(r.tasks, id);
}

} // verus!
