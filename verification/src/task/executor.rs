//! The cooperative executor: which task runs next, and what to do when none
//! can.
//!
//! The executor owns every suspended computation but never runs one. It hands
//! the next ready computation to its caller, who resumes it and reports back
//! whether it finished. Between two tasks it may ask the caller to disable
//! interrupts, to enable them again, or to halt until the next interrupt.

use crate::task::TaskId;
use std::collections::BTreeMap;
use std::collections::VecDeque;
use vstd::prelude::*;

verus! {

/// What the caller of [`Executor::next`] has to do.
#[derive(Debug)]
pub enum Action<T> {
    /// Resume the computation of the task named, then report with
    /// [`Executor::suspend`] or [`Executor::complete`].
    Resume(TaskId, T),
    /// Nothing is ready. Disable interrupts and ask again, so that the answer
    /// that follows cannot be overtaken by a wake.
    DisableInterrupts,
    /// Something became ready in the meantime. Enable interrupts and ask
    /// again.
    EnableInterrupts,
    /// Still nothing is ready. Enable interrupts and halt in one step; ask
    /// again after the next interrupt.
    EnableAndHalt,
    /// Every task has completed. The run loop returns.
    Exit,
}

/// What an executor is, seen from outside.
pub struct ExecutorView<T> {
    /// The suspended computation of every live task but the running one.
    pub parked: Map<TaskId, T>,
    /// The tasks that are ready to be resumed, first in, first out.
    pub ready: Seq<TaskId>,
    /// The task whose computation the caller holds.
    pub running: Option<TaskId>,
    /// Whether the running task was woken since it was handed out.
    pub notified: bool,
    /// Whether the caller was told to disable interrupts and has not asked
    /// again yet.
    pub checking: bool,
    /// Number of tasks spawned so far; the next identity.
    pub spawned: nat,
}

impl<T> ExecutorView<T> {
    /// What always holds of an executor: a ready task is live, suspended and
    /// queued once; the running task is not parked; identities are below the
    /// next one to hand out.
    pub open spec fn wf(self) -> bool {
        &&& self.ready.no_duplicates()
        &&& forall|i: int|
            0 <= i < self.ready.len() ==> self.parked.contains_key(#[trigger] self.ready[i])
        &&& forall|id: TaskId| #[trigger] self.parked.contains_key(id) ==> id.0 < self.spawned
        &&& self.running matches Some(id) ==> id.0 < self.spawned && !self.parked.contains_key(id)
        &&& self.running is None ==> !self.notified
        &&& self.spawned <= u64::MAX
    }

    /// Whether `id` names a task that has been spawned and has not completed.
    pub open spec fn live(self, id: TaskId) -> bool {
        self.parked.contains_key(id) || self.running == Some(id)
    }

    /// Whether no task remains.
    pub open spec fn finished(self) -> bool {
        self.running is None && self.parked.is_empty()
    }
}

/// The executor after `task` was spawned, and the identity it got. Once
/// identities run out the executor stays as it is.
pub open spec fn spawned<T>(executor: ExecutorView<T>, task: T) -> (ExecutorView<T>, Option<TaskId>) {
    if executor.spawned < u64::MAX {
        let id = TaskId(executor.spawned as u64);
        (
            ExecutorView {
                parked: executor.parked.insert(id, task),
                ready: executor.ready.push(id),
                spawned: executor.spawned + 1,
                ..executor
            },
            Some(id),
        )
    } else {
        (executor, None)
    }
}

/// The executor after the wake handle of `id` was invoked.
///
/// A suspended task becomes ready, at the back of the queue. The running task
/// is marked, to become ready the moment it suspends. A task that is ready
/// already stays where it is. An identity that names no live task changes
/// nothing.
pub open spec fn woken<T>(executor: ExecutorView<T>, id: TaskId) -> ExecutorView<T> {
    if executor.running == Some(id) {
        ExecutorView { notified: true, ..executor }
    } else if executor.parked.contains_key(id) && !executor.ready.contains(id) {
        ExecutorView { ready: executor.ready.push(id), ..executor }
    } else {
        executor
    }
}

/// The executor after the running task reported "not ready" and handed its
/// computation back. If it was woken while it ran, it is ready again at once.
pub open spec fn suspended<T>(executor: ExecutorView<T>, task: T) -> ExecutorView<T> {
    match executor.running {
        Some(id) => ExecutorView {
            parked: executor.parked.insert(id, task),
            ready: if executor.notified {
                executor.ready.push(id)
            } else {
                executor.ready
            },
            running: None,
            notified: false,
            ..executor
        },
        None => executor,
    }
}

/// The executor after the running task reported completion: nothing of the
/// task is left.
pub open spec fn completed<T>(executor: ExecutorView<T>) -> ExecutorView<T> {
    ExecutorView { running: None, notified: false, ..executor }
}

/// The executor after it was asked what to do next, and its answer.
pub open spec fn advanced<T>(executor: ExecutorView<T>) -> (ExecutorView<T>, Action<T>) {
    if executor.checking {
        (
            ExecutorView { checking: false, ..executor },
            if executor.ready.len() > 0 {
                Action::EnableInterrupts
            } else {
                Action::EnableAndHalt
            },
        )
    } else if executor.ready.len() > 0 {
        let id = executor.ready[0];
        (
            ExecutorView {
                parked: executor.parked.remove(id),
                ready: executor.ready.drop_first(),
                running: Some(id),
                notified: false,
                ..executor
            },
            Action::Resume(id, executor.parked[id]),
        )
    } else if executor.finished() {
        (executor, Action::Exit)
    } else {
        (ExecutorView { checking: true, ..executor }, Action::DisableInterrupts)
    }
}

/// A single-threaded scheduler of cooperative tasks, each a computation of
/// type `T` that the caller knows how to resume.
pub struct Executor<T> {
    tasks: BTreeMap<u64, T>,
    ready: VecDeque<TaskId>,
    running: Option<TaskId>,
    notified: bool,
    checking: bool,
    next_id: u64,
}

/// A task table keyed by task identity.
spec fn computations<T>(tasks: Map<u64, T>) -> Map<TaskId, T> {
    Map::new(|id: TaskId| tasks.contains_key(id.0), |id: TaskId| tasks[id.0])
}

impl<T> View for Executor<T> {
    type V = ExecutorView<T>;

    closed spec fn view(&self) -> ExecutorView<T> {
        ExecutorView {
            parked: computations(self.tasks@),
            ready: self.ready@,
            running: self.running,
            notified: self.notified,
            checking: self.checking,
            spawned: self.next_id as nat,
        }
    }
}

impl<T> Executor<T> {
    #[verifier::type_invariant]
    spec fn well_formed(self) -> bool {
        self@.wf()
    }

    /// An executor without tasks.
    pub fn new() -> (executor: Self)
        ensures
            executor@.wf(),
            executor@.finished(),
            executor@.ready == Seq::<TaskId>::empty(),
            executor@.parked == Map::<TaskId, T>::empty(),
            !executor@.checking,
            executor@.spawned == 0,
    {
        let executor = Executor {
            tasks: BTreeMap::new(),
            ready: VecDeque::new(),
            running: None,
            notified: false,
            checking: false,
            next_id: 0,
        };
        assert(executor@.parked =~= Map::<TaskId, T>::empty());
        executor
    }

    /// Moves the executor out of `self`, leaving an empty one behind, so that
    /// its collections can be worked on.
    fn dismantle(&mut self) -> (executor: Executor<T>)
        ensures
            executor == *old(self),
            executor@.wf(),
    {
        proof {
            use_type_invariant(&*self);
        }
        let mut executor = Executor {
            tasks: BTreeMap::new(),
            ready: VecDeque::new(),
            running: None,
            notified: false,
            checking: false,
            next_id: 0,
        };
        assert(computations(executor.tasks@) =~= Map::<TaskId, T>::empty());
        core::mem::swap(self, &mut executor);
        executor
    }

    /// The task whose computation the caller holds.
    pub fn running(&self) -> (running: Option<TaskId>)
        ensures
            running == self@.running,
            self@.wf(),
    {
        proof {
            use_type_invariant(self);
        }
        self.running
    }

    /// Number of tasks in the ready queue.
    pub fn ready_len(&self) -> (len: usize)
        ensures
            len == self@.ready.len(),
    {
        self.ready.len()
    }

    /// Whether no task remains.
    pub fn is_finished(&self) -> (finished: bool)
        ensures
            finished == self@.finished(),
    {
        let empty = self.tasks.is_empty();
        proof {
            lemma_no_computations(self.tasks@);
        }
        match self.running {
            Some(_) => false,
            None => empty,
        }
    }

    /// Adds a task. It starts out ready, behind every task that is ready
    /// already. When identities have run out the task comes back as the
    /// error.
    pub fn spawn(&mut self, task: T) -> (id: Result<TaskId, T>)
        ensures
            final(self)@.wf(),
            final(self)@ == spawned(old(self)@, task).0,
            match id {
                Ok(id) => spawned(old(self)@, task).1 == Some(id),
                Err(back) => spawned(old(self)@, task).1 is None && back == task,
            },
    {
        let Executor { mut tasks, mut ready, running, notified, checking, next_id } =
            self.dismantle();
        if next_id == u64::MAX {
            *self = Executor { tasks, ready, running, notified, checking, next_id };
            return Err(task);
        }
        let id = TaskId(next_id);
        let ghost before = tasks@;
        let ghost queue = ready@;
        assert(!queue.contains(id)) by {
            if queue.contains(id) {
                let i = choose|i: int| 0 <= i < queue.len() && queue[i] == id;
                assert(computations(before).contains_key(queue[i]));
            }
        }
        tasks.insert(next_id, task);
        ready.push_back(id);
        assert(computations(tasks@) =~= computations(before).insert(id, task));
        proof {
            lemma_push_fresh(queue, id);
        }
        assert forall|i: int| 0 <= i < ready@.len() implies computations(tasks@).contains_key(
            #[trigger] ready@[i],
        ) by {
            if i < queue.len() {
                assert(computations(before).contains_key(queue[i]));
            }
        }
        assert forall|other: TaskId| #[trigger]
            computations(tasks@).contains_key(other) implies other.0 < next_id + 1 by {
            if other != id {
                assert(computations(before).contains_key(other));
            }
        }
        *self = Executor { tasks, ready, running, notified, checking, next_id: next_id + 1 };
        Ok(id)
    }

    /// Invokes the wake handle of `id`. Waking a task that is unknown or has
    /// completed does nothing.
    pub fn wake(&mut self, id: TaskId)
        ensures
            final(self)@.wf(),
            final(self)@ == woken(old(self)@, id),
    {
        let Executor { tasks, mut ready, running, notified, checking, next_id } = self.dismantle();
        let is_running = match running {
            Some(current) => current.0 == id.0,
            None => false,
        };
        if is_running {
            *self = Executor { tasks, ready, running, notified: true, checking, next_id };
            return ;
        }
        let ghost queue = ready@;
        if tasks.contains_key(&id.0) && !queued(&ready, id) {
            ready.push_back(id);
            proof {
                lemma_push_fresh(queue, id);
            }
            assert forall|i: int| 0 <= i < ready@.len() implies computations(tasks@).contains_key(
                #[trigger] ready@[i],
            ) by {
                if i < queue.len() {
                    assert(computations(tasks@).contains_key(queue[i]));
                }
            }
        }
        *self = Executor { tasks, ready, running, notified, checking, next_id };
    }

    /// Takes the running task's computation back after it reported "not
    /// ready". The task stays out of the ready queue until it is woken,
    /// unless it was woken while it ran.
    pub fn suspend(&mut self, task: T)
        requires
            old(self)@.running is Some,
        ensures
            final(self)@.wf(),
            final(self)@ == suspended(old(self)@, task),
    {
        let Executor { mut tasks, mut ready, running, notified, checking, next_id } =
            self.dismantle();
        let id = match running {
            Some(id) => id,
            None => {
                *self = Executor { tasks, ready, running, notified, checking, next_id };
                return ;
            },
        };
        let ghost before = tasks@;
        let ghost queue = ready@;
        assert(!queue.contains(id)) by {
            if queue.contains(id) {
                let i = choose|i: int| 0 <= i < queue.len() && queue[i] == id;
                assert(computations(before).contains_key(queue[i]));
            }
        }
        tasks.insert(id.0, task);
        if notified {
            ready.push_back(id);
            proof {
                lemma_push_fresh(queue, id);
            }
        }
        assert(computations(tasks@) =~= computations(before).insert(id, task));
        assert forall|i: int| 0 <= i < ready@.len() implies computations(tasks@).contains_key(
            #[trigger] ready@[i],
        ) by {
            if i < queue.len() {
                assert(computations(before).contains_key(queue[i]));
            }
        }
        assert forall|other: TaskId| #[trigger]
            computations(tasks@).contains_key(other) implies other.0 < next_id by {
            if other != id {
                assert(computations(before).contains_key(other));
            }
        }
        *self = Executor { tasks, ready, running: None, notified: false, checking, next_id };
    }

    /// Discards the running task after it reported completion.
    pub fn complete(&mut self)
        requires
            old(self)@.running is Some,
        ensures
            final(self)@.wf(),
            final(self)@ == completed(old(self)@),
    {
        let Executor { tasks, ready, running: _, notified: _, checking, next_id } =
            self.dismantle();
        *self = Executor { tasks, ready, running: None, notified: false, checking, next_id };
    }

    /// Says what the run loop does next.
    ///
    /// The caller holds no computation when it asks: whatever it resumed
    /// last, it has reported.
    pub fn next(&mut self) -> (action: Action<T>)
        requires
            old(self)@.running is None,
        ensures
            final(self)@.wf(),
            (final(self)@, action) == advanced(old(self)@),
    {
        let Executor { mut tasks, mut ready, running, notified, checking, next_id } =
            self.dismantle();
        let ghost before = tasks@;
        let ghost queue = ready@;
        if checking {
            let action = if ready.len() > 0 {
                Action::EnableInterrupts
            } else {
                Action::EnableAndHalt
            };
            *self = Executor { tasks, ready, running, notified, checking: false, next_id };
            return action;
        }
        match ready.pop_front() {
            Some(id) => {
                assert(id == queue[0]);
                assert(computations(before).contains_key(queue[0]));
                assert(ready@ =~= queue.drop_first());
                match tasks.remove(&id.0) {
                    Some(task) => {
                        assert(task == before[id.0]);
                        assert(computations(tasks@) =~= computations(before).remove(id));
                        assert forall|i: int| 0 <= i < ready@.len() implies computations(
                            tasks@,
                        ).contains_key(#[trigger] ready@[i]) by {
                            assert(ready@[i] == queue[i + 1]);
                            assert(queue[i + 1] != queue[0]);
                            assert(computations(before).contains_key(queue[i + 1]));
                        }
                        assert(ready@.no_duplicates()) by {
                            assert forall|i: int, j: int|
                                0 <= i < ready@.len() && 0 <= j < ready@.len() && i != j implies ready@[i]
                                != ready@[j] by {
                                assert(ready@[i] == queue[i + 1]);
                                assert(ready@[j] == queue[j + 1]);
                            }
                        }
                        assert forall|other: TaskId| #[trigger]
                            computations(tasks@).contains_key(other) implies other.0 < next_id by {
                            assert(computations(before).contains_key(other));
                        }
                        *self = Executor {
                            tasks,
                            ready,
                            running: Some(id),
                            notified: false,
                            checking,
                            next_id,
                        };
                        Action::Resume(id, task)
                    },
                    None => {
                        // Unreachable: a task in the ready queue is parked.
                        assert(false);
                        *self = Executor { tasks, ready, running, notified, checking, next_id };
                        Action::Exit
                    },
                }
            },
            None => {
                let empty = tasks.is_empty();
                proof {
                    lemma_no_computations(before);
                }
                if empty {
                    *self = Executor { tasks, ready, running, notified, checking, next_id };
                    Action::Exit
                } else {
                    *self = Executor { tasks, ready, running, notified, checking: true, next_id };
                    Action::DisableInterrupts
                }
            },
        }
    }
}

/// A wake that reaches a task while it runs is not lost: when the task
/// then reports "not ready" it is back in the ready queue, behind the tasks
/// that were ready before.
pub proof fn lemma_wake_while_running<T>(executor: ExecutorView<T>, id: TaskId, task: T)
    requires
        executor.wf(),
        executor.running == Some(id),
    ensures
        suspended(woken(executor, id), task).ready == executor.ready.push(id),
        suspended(woken(executor, id), task).parked.contains_key(id),
        suspended(woken(executor, id), task).running is None,
{
}

/// A task that suspends without having been woken stays out of the ready
/// queue until its wake handle is invoked, and then joins it at the back.
pub proof fn lemma_suspended_until_woken<T>(executor: ExecutorView<T>, id: TaskId, task: T)
    requires
        executor.wf(),
        executor.running == Some(id),
        !executor.notified,
    ensures
        suspended(executor, task).ready == executor.ready,
        !suspended(executor, task).ready.contains(id),
        woken(suspended(executor, task), id).ready == executor.ready.push(id),
{
    if executor.ready.contains(id) {
        let i = choose|i: int| 0 <= i < executor.ready.len() && executor.ready[i] == id;
        assert(executor.parked.contains_key(executor.ready[i]));
    }
}

/// A spawned task gets an identity no live task has, and starts out ready,
/// behind every task that was ready before.
pub proof fn lemma_spawn_is_fresh<T>(executor: ExecutorView<T>, task: T)
    requires
        executor.wf(),
        executor.spawned < u64::MAX,
    ensures
        spawned(executor, task).1 matches Some(id) && !executor.live(id) && spawned(
            executor,
            task,
        ).0.ready == executor.ready.push(id) && spawned(executor, task).0.parked[id] == task,
{
}

/// A task that completes leaves nothing behind: it is neither parked nor
/// ready nor running, and waking it changes nothing.
pub proof fn lemma_completed_is_gone<T>(executor: ExecutorView<T>, id: TaskId)
    requires
        executor.wf(),
        executor.running == Some(id),
    ensures
        !completed(executor).live(id),
        !completed(executor).ready.contains(id),
        woken(completed(executor), id) == completed(executor),
{
    if executor.ready.contains(id) {
        let i = choose|i: int| 0 <= i < executor.ready.len() && executor.ready[i] == id;
        assert(executor.parked.contains_key(executor.ready[i]));
    }
}

/// Waking an identity that names no live task changes nothing.
pub proof fn lemma_wake_unknown<T>(executor: ExecutorView<T>, id: TaskId)
    requires
        !executor.live(id),
    ensures
        woken(executor, id) == executor,
{
}

/// A wake that arrives after the run loop found nothing ready and before it
/// halts is noticed: the loop is told to enable interrupts and go on, not to
/// halt. Without such a wake it is told to halt.
pub proof fn lemma_wake_before_halt<T>(executor: ExecutorView<T>, id: TaskId)
    requires
        executor.wf(),
        executor.running is None,
        !executor.checking,
        executor.ready.len() == 0,
        executor.parked.contains_key(id),
    ensures
        advanced(executor).1 == Action::<T>::DisableInterrupts,
        advanced(woken(advanced(executor).0, id)).1 == Action::<T>::EnableInterrupts,
        advanced(advanced(executor).0).1 == Action::<T>::EnableAndHalt,
        advanced(advanced(woken(advanced(executor).0, id)).0).1 == Action::Resume(
            id,
            executor.parked[id],
        ),
{
    assert(!executor.parked.is_empty()) by {
        assert(executor.parked.dom().contains(id));
    }
    let checking = advanced(executor).0;
    assert(!checking.ready.contains(id));
    let noticed = woken(checking, id);
    assert(noticed.ready =~= seq![id]);
}

/// The run loop ends exactly when it holds no computation, is not in the
/// middle of an idle check, and no task remains.
pub proof fn lemma_exit_when_finished<T>(executor: ExecutorView<T>)
    requires
        executor.wf(),
        executor.running is None,
    ensures
        advanced(executor).1 is Exit <==> !executor.checking && executor.finished(),
{
    if executor.ready.len() > 0 {
        assert(executor.parked.dom().contains(executor.ready[0]));
    }
}

/// Tasks are resumed in the order in which they became ready: the run loop
/// hands out the head of the ready queue, with the computation that was
/// stored for it.
pub proof fn lemma_first_in_first_out<T>(executor: ExecutorView<T>)
    requires
        executor.wf(),
        executor.running is None,
        !executor.checking,
        executor.ready.len() > 0,
    ensures
        advanced(executor).1 == Action::Resume(
            executor.ready[0],
            executor.parked[executor.ready[0]],
        ),
        advanced(executor).0.ready == executor.ready.drop_first(),
        advanced(executor).0.running == Some(executor.ready[0]),
{
}

/// Whether `id` is in the ready queue.
fn queued(ready: &VecDeque<TaskId>, id: TaskId) -> (found: bool)
    ensures
        found == ready@.contains(id),
{
    let mut i: usize = 0;
    while i < ready.len()
        invariant
            0 <= i <= ready@.len(),
            forall|j: int| 0 <= j < i ==> ready@[j] != id,
        decreases ready@.len() - i,
    {
        if ready[i].0 == id.0 {
            return true;
        }
        i = i + 1;
    }
    false
}

/// A task table holds no computation exactly when it is empty.
proof fn lemma_no_computations<T>(tasks: Map<u64, T>)
    ensures
        tasks.is_empty() == computations(tasks).is_empty(),
{
    if tasks.is_empty() {
        assert(computations(tasks).dom() =~= Set::<TaskId>::empty());
    }
    if computations(tasks).is_empty() {
        assert forall|key: u64| !tasks.dom().contains(key) by {
            assert(!computations(tasks).dom().contains(TaskId(key)));
        }
        assert(tasks.dom() =~= Set::<u64>::empty());
    }
}

/// Appending an identity that does not occur keeps a queue free of
/// duplicates.
proof fn lemma_push_fresh(queue: Seq<TaskId>, id: TaskId)
    requires
        queue.no_duplicates(),
        !queue.contains(id),
    ensures
        queue.push(id).no_duplicates(),
{
    assert forall|i: int, j: int|
        0 <= i < queue.len() + 1 && 0 <= j < queue.len() + 1 && i != j implies queue.push(id)[i]
        != queue.push(id)[j] by {
        if i < queue.len() && j < queue.len() {
        } else if i < queue.len() {
            assert(queue.contains(queue[i]));
        } else {
            assert(queue.contains(queue[j]));
        }
    }
}

} // verus!
