//! The single-threaded cooperative executor.
//!
//! Per task the state machine is: `Runnable` (in the run-queue) →
//! `Polling` → either removed (the computation completed) or `Parked`
//! (the poll suspended; only its waker re-inserts it). A wake that arrives
//! while the task is being polled is remembered (`PollingWoken`) and turns
//! into an immediate re-queue when the poll finishes, so no wake is lost.
//!
//! The run-queue is strictly FIFO and holds a task identifier at most once;
//! waking an already-runnable task changes nothing. Identifiers are assigned
//! monotonically at spawn time and never reused: slot `i` of the task table
//! belongs to identifier `i` forever, and a completed task leaves an empty
//! slot behind.

use std::collections::VecDeque;
use vstd::prelude::*;

use crate::async_uart_irq::{async_uart_handler, UartStream};
use crate::bridge::Bridge;
use crate::line_buffer::LineBuffer;

verus! {

/// Identifier of one task: assigned at spawn time, monotonically increasing,
/// never reused.
#[derive(Clone, Copy, Debug, PartialEq, Eq, Structural)]
pub struct TaskId(pub u64);

/// Which computation a task runs. Dispatch is by tag, not by stored function
/// pointer, so polling is ordinary verified code.
#[derive(Clone, Copy, Debug, PartialEq, Eq, Structural)]
pub enum TaskKind {
    /// The long-lived drain task: copies bridge bytes into the line buffer,
    /// then suspends. It never completes.
    UartDrain,
    /// A demonstration task that completes on its first poll.
    Example,
}

/// The scheduling state of one task.
#[derive(Clone, Copy, Debug, PartialEq, Eq, Structural)]
pub enum TaskState {
    /// In the run-queue, waiting to be polled.
    Runnable,
    /// Being polled right now.
    Polling,
    /// Being polled right now, and its waker has fired again meanwhile: the
    /// task returns to the run-queue as soon as the poll finishes.
    PollingWoken,
    /// Suspended; only its waker brings it back.
    Parked,
}

/// One asynchronous unit of work: an identifier plus the tag of the
/// computation it owns.
#[derive(Clone, Copy, Debug)]
pub struct Task {
    id: TaskId,
    kind: TaskKind,
    state: TaskState,
}

impl Task {
    pub closed spec fn spec_id(&self) -> TaskId {
        self.id
    }

    pub closed spec fn spec_kind(&self) -> TaskKind {
        self.kind
    }

    pub closed spec fn spec_state(&self) -> TaskState {
        self.state
    }

    /// A fresh task starts out runnable.
    pub fn new(id: TaskId, kind: TaskKind) -> (t: Task)
        ensures
            t.spec_id() == id,
            t.spec_kind() == kind,
            t.spec_state() == TaskState::Runnable,
    {
        Task { id, kind, state: TaskState::Runnable }
    }

    pub fn id(&self) -> (r: TaskId)
        ensures
            r == self.spec_id(),
    {
        self.id
    }

    pub fn kind(&self) -> (r: TaskKind)
        ensures
            r == self.spec_kind(),
    {
        self.kind
    }

    /// Runs one poll of the task.
    /// Returns whether the computation completed: the drain task
    /// drains the bridge and always suspends; the example task completes at
    /// its first poll.
    pub fn poll(&self, bridge: &mut Bridge, buffer: &mut LineBuffer) -> (completed: bool)
        requires
            old(bridge).wf(),
            old(buffer).wf(),
        ensures
            final(bridge).wf(),
            final(buffer).wf(),
            completed == (self.spec_kind() == TaskKind::Example),
            self.spec_kind() == TaskKind::UartDrain ==> final(bridge)@
                == (crate::bridge::BridgeView {
                bytes: Seq::<u8>::empty(),
                waker: Some(self.spec_id().0),
                ..old(bridge)@
            }) && final(buffer)@ == old(buffer)@ + old(bridge)@.bytes.take(
                vstd::math::min(
                    old(bridge)@.bytes.len() as int,
                    old(buffer).spec_cap() - old(buffer)@.len(),
                ),
            ) && final(buffer).spec_cap() == old(buffer).spec_cap(),
            self.spec_kind() == TaskKind::Example ==> *final(bridge) == *old(bridge)
                && *final(buffer) == *old(buffer),
    {
        match self.kind {
            TaskKind::UartDrain => {
                let stream = UartStream::new(self.id.0);
                async_uart_handler(&stream, bridge, buffer);
                false
            },
            TaskKind::Example => true,
        }
    }
}

/// No identifier occurs twice in the run-queue.
pub open spec fn no_dups(q: Seq<TaskId>) -> bool {
    forall|i: int, j: int| 0 <= i < j < q.len() ==> q[i] != q[j]
}

pub open spec fn is_polling_state(s: TaskState) -> bool {
    s == TaskState::Polling || s == TaskState::PollingWoken
}

pub struct Executor {
    /// Slot `i` belongs to `TaskId(i)`; `None` once that task completed.
    tasks: Vec<Option<Task>>,
    /// Identifiers of runnable tasks, FIFO.
    run_queue: VecDeque<TaskId>,
}

impl Executor {
    pub closed spec fn spec_tasks(&self) -> Seq<Option<Task>> {
        self.tasks@
    }

    pub closed spec fn spec_queue(&self) -> Seq<TaskId> {
        self.run_queue@
    }

    /// How many identifiers have ever been assigned.
    pub open spec fn spec_task_count(&self) -> nat {
        self.spec_tasks().len()
    }

    /// The scheduling state of the given task, or `None` if the identifier
    /// was never assigned or its task completed.
    pub open spec fn spec_state(&self, id: TaskId) -> Option<TaskState> {
        if id.0 < self.spec_tasks().len() {
            match self.spec_tasks()[id.0 as int] {
                Some(t) => Some(t.spec_state()),
                None => None,
            }
        } else {
            None
        }
    }

    /// The computation tag of the given task, if it is still live.
    pub open spec fn spec_kind_of(&self, id: TaskId) -> Option<TaskKind> {
        if id.0 < self.spec_tasks().len() {
            match self.spec_tasks()[id.0 as int] {
                Some(t) => Some(t.spec_kind()),
                None => None,
            }
        } else {
            None
        }
    }

    /// No task is mid-poll: the executor is between scheduling steps.
    pub open spec fn none_polling(&self) -> bool {
        forall|i: int| 0 <= i < self.spec_tasks().len()
            ==> !((#[trigger] self.spec_tasks()[i]) matches Some(t) && is_polling_state(
            t.spec_state(),
        ))
    }

    /// The executor's invariant:
    /// - slot `i` holds the task with identifier `i`, if any;
    /// - the run-queue has no duplicate identifiers;
    /// - everything in the run-queue is a live, runnable task;
    /// - every runnable task is in the run-queue;
    /// - at most one task is being polled at a time.
    pub open spec fn wf(&self) -> bool {
        &&& (forall|i: int|
            0 <= i < self.spec_tasks().len() ==> ((#[trigger] self.spec_tasks()[i]) matches Some(t)
                ==> t.spec_id() == TaskId(i as u64)))
        &&& no_dups(self.spec_queue())
        &&& (forall|k: int|
            0 <= k < self.spec_queue().len() ==> self.spec_state(
                #[trigger] self.spec_queue()[k],
            ) == Some(TaskState::Runnable))
        &&& (forall|i: int|
            0 <= i < self.spec_tasks().len() && ((#[trigger] self.spec_tasks()[i]) matches Some(t)
                && t.spec_state() == TaskState::Runnable) ==> self.spec_queue().contains(
                TaskId(i as u64),
            ))
        &&& (forall|i: int, j: int|
            0 <= i < self.spec_tasks().len() && 0 <= j < self.spec_tasks().len()
                && ((#[trigger] self.spec_tasks()[i]) matches Some(t) && is_polling_state(
                t.spec_state(),
            )) && ((#[trigger] self.spec_tasks()[j]) matches Some(u) && is_polling_state(
                u.spec_state(),
            )) ==> i == j)
    }

    pub fn new() -> (e: Executor)
        ensures
            e.wf(),
            e.none_polling(),
            e.spec_tasks() == Seq::<Option<Task>>::empty(),
            e.spec_queue() == Seq::<TaskId>::empty(),
    {
        Executor { tasks: Vec::new(), run_queue: VecDeque::new() }
    }

    /// Creates a task with a fresh identifier and inserts it runnable, at the
    /// back of the run-queue. Identifiers are assigned in increasing order
    /// and never reused.
    pub fn spawn(&mut self, kind: TaskKind) -> (id: TaskId)
        requires
            old(self).wf(),
        ensures
            final(self).wf(),
            id == TaskId(old(self).spec_task_count() as u64),
            final(self).spec_task_count() == old(self).spec_task_count() + 1,
            final(self).spec_state(id) == Some(TaskState::Runnable),
            final(self).spec_kind_of(id) == Some(kind),
            forall|o: TaskId| o != id ==> final(self).spec_state(o) == old(self).spec_state(o),
            forall|o: TaskId| o != id ==> final(self).spec_kind_of(o) == old(self).spec_kind_of(o),
            final(self).spec_queue() == old(self).spec_queue().push(id),
            old(self).none_polling() ==> final(self).none_polling(),
    {
        let id = TaskId(self.tasks.len() as u64);
        let task = Task::new(id, kind);
        self.tasks.push(Some(task));
        self.run_queue.push_back(id);
        proof {
            let oldq = old(self).spec_queue();
            assert(!oldq.contains(id)) by {
                if oldq.contains(id) {
                    let k = choose|k: int| 0 <= k < oldq.len() && oldq[k] == id;
                    assert(old(self).spec_state(oldq[k]) == Some(TaskState::Runnable));
                }
            }
            assert forall|o: TaskId| o != id implies self.spec_state(o) == old(self).spec_state(o)
                by {}
            assert forall|k: int| 0 <= k < self.spec_queue().len() implies self.spec_state(
                #[trigger] self.spec_queue()[k],
            ) == Some(TaskState::Runnable) by {
                if k < oldq.len() {
                    assert(self.spec_queue()[k] == oldq[k]);
                    assert(old(self).spec_state(oldq[k]) == Some(TaskState::Runnable));
                }
            }
            assert forall|i: int|
                0 <= i < self.spec_tasks().len() && ((#[trigger] self.spec_tasks()[i]) matches Some(
                    t,
                ) && t.spec_state() == TaskState::Runnable) implies self.spec_queue().contains(
                TaskId(i as u64),
            ) by {
                if i < old(self).spec_tasks().len() {
                    assert(old(self).spec_queue().contains(TaskId(i as u64)));
                    let k = choose|k: int|
                        0 <= k < oldq.len() && oldq[k] == TaskId(i as u64);
                    assert(self.spec_queue()[k] == TaskId(i as u64));
                } else {
                    assert(self.spec_queue()[oldq.len() as int] == id);
                }
            }
        }
        id
    }

    /// Fires the waker of the given task. The only path back to `Runnable`:
    ///
    /// - a parked task is re-queued (at the back) and becomes runnable;
    /// - a task being polled right now is marked so that it is re-queued when
    ///   the poll finishes;
    /// - waking a task that is already runnable, already marked, or gone has
    ///   no effect at all — wakes are idempotent and never duplicate a
    ///   run-queue entry.
    ///
    /// Safe to call from interrupt context: bounded time, no allocation
    /// beyond the run-queue's own growth, no blocking.
    pub fn wake(&mut self, id: TaskId)
        requires
            old(self).wf(),
        ensures
            final(self).wf(),
            old(self).spec_state(id) == Some(TaskState::Parked) ==> final(self).spec_queue()
                == old(self).spec_queue().push(id)
                && final(self).spec_state(id) == Some(TaskState::Runnable),
            old(self).spec_state(id) == Some(TaskState::Polling) ==> final(self).spec_queue()
                == old(self).spec_queue()
                && final(self).spec_state(id) == Some(TaskState::PollingWoken),
            old(self).spec_state(id) == Some(TaskState::Runnable)
                || old(self).spec_state(id) == Some(TaskState::PollingWoken)
                || old(self).spec_state(id) is None
                ==> *final(self) == *old(self),
            forall|o: TaskId| o != id ==> final(self).spec_state(o) == old(self).spec_state(o),
            forall|o: TaskId| #![all_triggers] o != id
                ==> final(self).spec_kind_of(o) == old(self).spec_kind_of(o),
            final(self).spec_kind_of(id) == old(self).spec_kind_of(id),
            final(self).spec_task_count() == old(self).spec_task_count(),
    {
        let n = self.tasks.len();
        if id.0 >= n as u64 {
            return;
        }
        let i = id.0 as usize;
        let slot = self.tasks[i];
        match slot {
            None => {},
            Some(t) => {
                match t.state {
                    TaskState::Parked => {
                        self.tasks[i] = Some(Task { state: TaskState::Runnable, ..t });
                        self.run_queue.push_back(id);
                        proof {
                            self.lemma_wake_parked(*old(self), id);
                        }
                    },
                    TaskState::Polling => {
                        self.tasks[i] = Some(Task { state: TaskState::PollingWoken, ..t });
                        proof {
                            self.lemma_wake_polling(*old(self), id);
                        }
                    },
                    _ => {},
                }
            },
        }
    }

    /// Proof that re-queueing a parked task preserves the invariant.
    proof fn lemma_wake_parked(&self, prev: Executor, id: TaskId)
        requires
            prev.wf(),
            prev.spec_state(id) == Some(TaskState::Parked),
            self.spec_tasks() == prev.spec_tasks().update(
                id.0 as int,
                Some(
                    Task {
                        id: prev.spec_tasks()[id.0 as int]->Some_0.id,
                        kind: prev.spec_tasks()[id.0 as int]->Some_0.kind,
                        state: TaskState::Runnable,
                    },
                ),
            ),
            self.spec_queue() == prev.spec_queue().push(id),
        ensures
            self.wf(),
    {
        let oldq = prev.spec_queue();
        assert(!oldq.contains(id)) by {
            if oldq.contains(id) {
                let k = choose|k: int| 0 <= k < oldq.len() && oldq[k] == id;
                assert(prev.spec_state(oldq[k]) == Some(TaskState::Runnable));
            }
        }
        assert forall|k: int| 0 <= k < self.spec_queue().len() implies self.spec_state(
            #[trigger] self.spec_queue()[k],
        ) == Some(TaskState::Runnable) by {
            if k < oldq.len() {
                assert(self.spec_queue()[k] == oldq[k]);
                assert(prev.spec_state(oldq[k]) == Some(TaskState::Runnable));
            }
        }
        assert forall|i: int|
            0 <= i < self.spec_tasks().len() && ((#[trigger] self.spec_tasks()[i]) matches Some(t)
                && t.spec_state() == TaskState::Runnable) implies self.spec_queue().contains(
            TaskId(i as u64),
        ) by {
            if i == id.0 as int {
                assert(self.spec_queue()[oldq.len() as int] == id);
            } else {
                assert(prev.spec_queue().contains(TaskId(i as u64)));
                let k = choose|k: int| 0 <= k < oldq.len() && oldq[k] == TaskId(i as u64);
                assert(self.spec_queue()[k] == TaskId(i as u64));
            }
        }
    }

    /// Proof that remembering a wake during a poll preserves the invariant.
    proof fn lemma_wake_polling(&self, prev: Executor, id: TaskId)
        requires
            prev.wf(),
            prev.spec_state(id) == Some(TaskState::Polling),
            self.spec_tasks() == prev.spec_tasks().update(
                id.0 as int,
                Some(
                    Task {
                        id: prev.spec_tasks()[id.0 as int]->Some_0.id,
                        kind: prev.spec_tasks()[id.0 as int]->Some_0.kind,
                        state: TaskState::PollingWoken,
                    },
                ),
            ),
            self.spec_queue() == prev.spec_queue(),
        ensures
            self.wf(),
    {
        assert forall|k: int| 0 <= k < self.spec_queue().len() implies self.spec_state(
            #[trigger] self.spec_queue()[k],
        ) == Some(TaskState::Runnable) by {
            assert(prev.spec_state(prev.spec_queue()[k]) == Some(TaskState::Runnable));
        }
        assert forall|i: int|
            0 <= i < self.spec_tasks().len() && ((#[trigger] self.spec_tasks()[i]) matches Some(t)
                && t.spec_state() == TaskState::Runnable) implies self.spec_queue().contains(
            TaskId(i as u64),
        ) by {
            assert(prev.spec_tasks()[i] matches Some(t) && t.spec_state() == TaskState::Runnable);
        }
    }

    /// Pops the next runnable task off the run-queue and marks it as being
    /// polled. Returns `None` when the run-queue is empty (the executor may
    /// then idle until a wake arrives).
    pub fn fetch_next(&mut self) -> (r: Option<TaskId>)
        requires
            old(self).wf(),
            old(self).none_polling(),
        ensures
            final(self).wf(),
            old(self).spec_queue().len() == 0 ==> r is None
                && final(self).spec_queue() == old(self).spec_queue()
                && final(self).none_polling(),
            old(self).spec_queue().len() > 0 ==> {
                let id = old(self).spec_queue()[0];
                r == Some(id) && final(self).spec_queue() == old(self).spec_queue().drop_first()
                    && final(self).spec_state(id) == Some(TaskState::Polling)
                    && old(self).spec_state(id) == Some(TaskState::Runnable)
            },
            forall|o: TaskId|
                (old(self).spec_queue().len() == 0 || o != old(self).spec_queue()[0])
                    ==> final(self).spec_state(o) == old(self).spec_state(o),
            forall|o: TaskId| #![all_triggers]
                final(self).spec_kind_of(o) == old(self).spec_kind_of(o),
            final(self).spec_task_count() == old(self).spec_task_count(),
    {
        let popped = self.run_queue.pop_front();
        match popped {
            None => None,
            Some(id) => {
                proof {
                    assert(old(self).spec_state(id) == Some(TaskState::Runnable));
                    assert(id.0 < old(self).spec_tasks().len());
                    assert(self.tasks@.len() <= usize::MAX) by {
                        assert(self.tasks.len() == self.tasks@.len());
                    }
                }
                let i = id.0 as usize;
                let slot = self.tasks[i];
                let t = slot.unwrap();
                self.tasks[i] = Some(Task { state: TaskState::Polling, ..t });
                proof {
                    self.lemma_fetch(*old(self), id);
                }
                Some(id)
            },
        }
    }

    /// Proof that popping the queue head into `Polling` preserves the
    /// invariant.
    proof fn lemma_fetch(&self, prev: Executor, id: TaskId)
        requires
            prev.wf(),
            prev.none_polling(),
            prev.spec_tasks().len() <= usize::MAX,
            prev.spec_queue().len() > 0,
            id == prev.spec_queue()[0],
            self.spec_tasks() == prev.spec_tasks().update(
                id.0 as int,
                Some(
                    Task {
                        id: prev.spec_tasks()[id.0 as int]->Some_0.id,
                        kind: prev.spec_tasks()[id.0 as int]->Some_0.kind,
                        state: TaskState::Polling,
                    },
                ),
            ),
            self.spec_queue() == prev.spec_queue().drop_first(),
        ensures
            self.wf(),
    {
        let oldq = prev.spec_queue();
        assert forall|k: int| 0 <= k < self.spec_queue().len() implies self.spec_state(
            #[trigger] self.spec_queue()[k],
        ) == Some(TaskState::Runnable) by {
            assert(self.spec_queue()[k] == oldq[k + 1]);
            assert(prev.spec_state(oldq[k + 1]) == Some(TaskState::Runnable));
            assert(oldq[k + 1] != id);
        }
        assert forall|i: int|
            0 <= i < self.spec_tasks().len() && ((#[trigger] self.spec_tasks()[i]) matches Some(t)
                && t.spec_state() == TaskState::Runnable) implies self.spec_queue().contains(
            TaskId(i as u64),
        ) by {
            assert(i != id.0 as int);
            assert(i as u64 as int == i);
            assert(prev.spec_tasks()[i] matches Some(t) && t.spec_state() == TaskState::Runnable);
            assert(oldq.contains(TaskId(i as u64)));
            let k = choose|k: int| 0 <= k < oldq.len() && oldq[k] == TaskId(i as u64);
            assert(k != 0) by {
                if k == 0 {
                    assert(TaskId(i as u64) == id);
                    assert(i as u64 == id.0);
                }
            }
            assert(self.spec_queue()[k - 1] == TaskId(i as u64));
        }
    }

    /// Records the outcome of a poll for the task currently being polled.
    ///
    /// A completed task is removed for good: its identifier is never
    /// re-assigned and a later wake of it is a no-op. A suspended task parks,
    /// unless its waker fired during the poll, in which case it goes straight
    /// back to the end of the run-queue.
    pub fn finish_poll(&mut self, id: TaskId, completed: bool)
        requires
            old(self).wf(),
            old(self).spec_state(id) == Some(TaskState::Polling) || old(self).spec_state(id)
                == Some(TaskState::PollingWoken),
        ensures
            final(self).wf(),
            final(self).none_polling(),
            completed ==> final(self).spec_state(id) is None
                && final(self).spec_queue() == old(self).spec_queue(),
            !completed && old(self).spec_state(id) == Some(TaskState::Polling)
                ==> final(self).spec_state(id) == Some(TaskState::Parked)
                && final(self).spec_queue() == old(self).spec_queue(),
            !completed && old(self).spec_state(id) == Some(TaskState::PollingWoken)
                ==> final(self).spec_state(id) == Some(TaskState::Runnable)
                && final(self).spec_queue() == old(self).spec_queue().push(id),
            !completed ==> final(self).spec_kind_of(id) == old(self).spec_kind_of(id),
            forall|o: TaskId| o != id ==> final(self).spec_state(o) == old(self).spec_state(o),
            forall|o: TaskId| #![all_triggers] o != id
                ==> final(self).spec_kind_of(o) == old(self).spec_kind_of(o),
            final(self).spec_task_count() == old(self).spec_task_count(),
    {
        proof {
            assert(id.0 < old(self).spec_tasks().len());
            assert(self.tasks@.len() <= usize::MAX) by {
                assert(self.tasks.len() == self.tasks@.len());
            }
        }
        let i = id.0 as usize;
        let slot = self.tasks[i];
        let t = slot.unwrap();
        if completed {
            self.tasks[i] = None;
            proof {
                self.lemma_finish_removed(*old(self), id);
            }
        } else {
            match t.state {
                TaskState::PollingWoken => {
                    self.tasks[i] = Some(Task { state: TaskState::Runnable, ..t });
                    self.run_queue.push_back(id);
                    proof {
                        self.lemma_finish_requeued(*old(self), id);
                    }
                },
                _ => {
                    self.tasks[i] = Some(Task { state: TaskState::Parked, ..t });
                    proof {
                        self.lemma_finish_parked(*old(self), id);
                    }
                },
            }
        }
    }

    /// Proof that removing the completed task preserves the invariant.
    proof fn lemma_finish_removed(&self, prev: Executor, id: TaskId)
        requires
            prev.wf(),
            is_polling_state(prev.spec_tasks()[id.0 as int]->Some_0.spec_state()),
            prev.spec_state(id) is Some,
            self.spec_tasks() == prev.spec_tasks().update(id.0 as int, None::<Task>),
            self.spec_queue() == prev.spec_queue(),
        ensures
            self.wf(),
            self.none_polling(),
    {
        assert(!prev.spec_queue().contains(id)) by {
            if prev.spec_queue().contains(id) {
                let k = choose|k: int|
                    0 <= k < prev.spec_queue().len() && prev.spec_queue()[k] == id;
                assert(prev.spec_state(prev.spec_queue()[k]) == Some(TaskState::Runnable));
            }
        }
        assert forall|k: int| 0 <= k < self.spec_queue().len() implies self.spec_state(
            #[trigger] self.spec_queue()[k],
        ) == Some(TaskState::Runnable) by {
            assert(prev.spec_state(prev.spec_queue()[k]) == Some(TaskState::Runnable));
            assert(self.spec_queue()[k] != id);
        }
        assert forall|i: int|
            0 <= i < self.spec_tasks().len() && ((#[trigger] self.spec_tasks()[i]) matches Some(t)
                && t.spec_state() == TaskState::Runnable) implies self.spec_queue().contains(
            TaskId(i as u64),
        ) by {
            assert(prev.spec_tasks()[i] matches Some(t) && t.spec_state() == TaskState::Runnable);
        }
    }

    /// Proof that parking the suspended task preserves the invariant.
    proof fn lemma_finish_parked(&self, prev: Executor, id: TaskId)
        requires
            prev.wf(),
            prev.spec_state(id) == Some(TaskState::Polling),
            self.spec_tasks() == prev.spec_tasks().update(
                id.0 as int,
                Some(
                    Task {
                        id: prev.spec_tasks()[id.0 as int]->Some_0.id,
                        kind: prev.spec_tasks()[id.0 as int]->Some_0.kind,
                        state: TaskState::Parked,
                    },
                ),
            ),
            self.spec_queue() == prev.spec_queue(),
        ensures
            self.wf(),
            self.none_polling(),
    {
        assert forall|k: int| 0 <= k < self.spec_queue().len() implies self.spec_state(
            #[trigger] self.spec_queue()[k],
        ) == Some(TaskState::Runnable) by {
            assert(prev.spec_state(prev.spec_queue()[k]) == Some(TaskState::Runnable));
        }
        assert forall|i: int|
            0 <= i < self.spec_tasks().len() && ((#[trigger] self.spec_tasks()[i]) matches Some(t)
                && t.spec_state() == TaskState::Runnable) implies self.spec_queue().contains(
            TaskId(i as u64),
        ) by {
            assert(prev.spec_tasks()[i] matches Some(t) && t.spec_state() == TaskState::Runnable);
        }
    }

    /// Proof that re-queueing a task whose waker fired mid-poll preserves the
    /// invariant.
    proof fn lemma_finish_requeued(&self, prev: Executor, id: TaskId)
        requires
            prev.wf(),
            prev.spec_state(id) == Some(TaskState::PollingWoken),
            self.spec_tasks() == prev.spec_tasks().update(
                id.0 as int,
                Some(
                    Task {
                        id: prev.spec_tasks()[id.0 as int]->Some_0.id,
                        kind: prev.spec_tasks()[id.0 as int]->Some_0.kind,
                        state: TaskState::Runnable,
                    },
                ),
            ),
            self.spec_queue() == prev.spec_queue().push(id),
        ensures
            self.wf(),
            self.none_polling(),
    {
        let oldq = prev.spec_queue();
        assert(!oldq.contains(id)) by {
            if oldq.contains(id) {
                let k = choose|k: int| 0 <= k < oldq.len() && oldq[k] == id;
                assert(prev.spec_state(oldq[k]) == Some(TaskState::Runnable));
            }
        }
        assert forall|k: int| 0 <= k < self.spec_queue().len() implies self.spec_state(
            #[trigger] self.spec_queue()[k],
        ) == Some(TaskState::Runnable) by {
            if k < oldq.len() {
                assert(self.spec_queue()[k] == oldq[k]);
                assert(prev.spec_state(oldq[k]) == Some(TaskState::Runnable));
            }
        }
        assert forall|i: int|
            0 <= i < self.spec_tasks().len() && ((#[trigger] self.spec_tasks()[i]) matches Some(t)
                && t.spec_state() == TaskState::Runnable) implies self.spec_queue().contains(
            TaskId(i as u64),
        ) by {
            if i == id.0 as int {
                assert(self.spec_queue()[oldq.len() as int] == id);
            } else {
                assert(prev.spec_tasks()[i] matches Some(t) && t.spec_state()
                    == TaskState::Runnable);
                assert(oldq.contains(TaskId(i as u64)));
                let k = choose|k: int| 0 <= k < oldq.len() && oldq[k] == TaskId(i as u64);
                assert(self.spec_queue()[k] == TaskId(i as u64));
            }
        }
    }

    /// At-most-one scheduling: in a well-formed executor no task identifier
    /// occurs twice in the run-queue, however often wakes have fired — every
    /// operation above preserves well-formedness, and waking an
    /// already-runnable task leaves the executor untouched.
    pub proof fn lemma_at_most_one_scheduling(&self)
        requires
            self.wf(),
        ensures
            forall|i: int, j: int|
                0 <= i < j < self.spec_queue().len() ==> self.spec_queue()[i]
                    != self.spec_queue()[j],
    {
    }

    /// How many identifiers have ever been assigned.
    pub fn task_count(&self) -> (r: usize)
        ensures
            r == self.spec_task_count(),
    {
        self.tasks.len()
    }

    /// How many tasks are in the run-queue right now.
    pub fn run_queue_len(&self) -> (r: usize)
        ensures
            r == self.spec_queue().len(),
    {
        self.run_queue.len()
    }

    /// The observable scheduling state of a task.
    pub fn task_state(&self, id: TaskId) -> (r: Option<TaskState>)
        ensures
            r == self.spec_state(id),
    {
        let n = self.tasks.len();
        if id.0 >= n as u64 {
            return None;
        }
        let slot = self.tasks[id.0 as usize];
        match slot {
            Some(t) => Some(t.state),
            None => None,
        }
    }

    /// The computation tag of a task, if the task is live.
    pub fn task_kind(&self, id: TaskId) -> (r: Option<TaskKind>)
        ensures
            r == self.spec_kind_of(id),
    {
        let n = self.tasks.len();
        if id.0 >= n as u64 {
            return None;
        }
        let slot = self.tasks[id.0 as usize];
        match slot {
            Some(t) => Some(t.kind),
            None => None,
        }
    }
}

} // verus!
