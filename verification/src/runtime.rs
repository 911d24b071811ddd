//! The asynchronous IRQ runtime: the wiring that the boot sequence creates
//! once and then hands to the two sides of the bridge.
//!
//! All former module-level singletons — the bridge queue, the waker slot, the
//! line buffer, the executor — live here as explicitly owned objects,
//! constructed exactly once by [`init_async_irq_runtime`] and reachable only
//! through this handle: the interrupt side calls
//! [`notify_async_uart_irq_handler`], the executor thread calls
//! [`Runtime::run_ready_tasks`], and console readers drain the line buffer.

use vstd::prelude::*;

use crate::async_uart_irq::UartStream;
use crate::bridge::{after_push, push_stores, Bridge, BridgeView};
use crate::executor::{Executor, TaskId, TaskKind, TaskState};
use crate::line_buffer::{LineBuffer, LINE_BUFFER_CAPACITY};

verus! {

pub struct Runtime {
    executor: Executor,
    bridge: Bridge,
    buffer: LineBuffer,
    stream: UartStream,
    drain: TaskId,
}

impl Runtime {
    /// The bridge's mathematical state.
    pub closed spec fn spec_bridge(&self) -> BridgeView {
        self.bridge@
    }

    /// The line buffer's contents, oldest first.
    pub closed spec fn spec_buffer(&self) -> Seq<u8> {
        self.buffer@
    }

    /// The line buffer's capacity.
    pub closed spec fn spec_buffer_cap(&self) -> nat {
        self.buffer.spec_cap()
    }

    /// The drain task's identifier.
    pub closed spec fn spec_drain(&self) -> TaskId {
        self.drain
    }

    /// The drain task's scheduling state.
    pub closed spec fn spec_drain_state(&self) -> Option<TaskState> {
        self.executor.spec_state(self.drain)
    }

    /// The runtime's invariant: one live drain task, wired to the bridge's
    /// waker slot, and never mid-poll between public calls. Whenever a waker
    /// is registered it is the drain task's, and the drain task is then
    /// parked, so firing it re-queues it.
    pub closed spec fn wf(&self) -> bool {
        &&& self.executor.wf()
        &&& self.executor.none_polling()
        &&& self.bridge.wf()
        &&& self.buffer.wf()
        &&& self.executor.spec_task_count() == 1
        &&& self.drain == TaskId(0)
        &&& self.executor.spec_kind_of(self.drain) == Some(TaskKind::UartDrain)
        &&& (self.executor.spec_state(self.drain) == Some(TaskState::Runnable) || self.executor.spec_state(
            self.drain,
        ) == Some(TaskState::Parked))
        &&& self.stream.spec_task() == self.drain.0
        &&& (self.bridge@.waker matches Some(w) ==> w == self.drain.0 && self.executor.spec_state(
            self.drain,
        ) == Some(TaskState::Parked))
        &&& (self.executor.spec_state(self.drain) == Some(TaskState::Runnable)
            ==> self.executor.spec_queue() =~= seq![self.drain])
        &&& (self.executor.spec_state(self.drain) == Some(TaskState::Parked)
            ==> self.executor.spec_queue() =~= Seq::<TaskId>::empty())
    }
}

impl Runtime {
    /// A well-formed runtime's bridge is well-formed too: its length never
    /// exceeds its capacity, and the capacity is positive.
    pub proof fn lemma_bridge_bounded(&self)
        requires
            self.wf(),
        ensures
            self.spec_bridge().bytes.len() <= self.spec_bridge().cap,
            1 <= self.spec_bridge().cap,
    {
    }
}

/// The single initialization entry point the boot sequence calls: creates the
/// bridge (with the given queue capacity) and the empty line buffer, spawns
/// the drain task runnable, and returns the runtime whose run loop the
/// dedicated executor thread then drives.
pub fn init_async_irq_runtime(queue_capacity: usize) -> (rt: Runtime)
    requires
        1 <= queue_capacity <= usize::MAX / 4,
    ensures
        rt.wf(),
        rt.spec_bridge() == (BridgeView {
            bytes: Seq::<u8>::empty(),
            cap: queue_capacity as nat,
            waker: None,
            dropped: 0,
        }),
        rt.spec_buffer() == Seq::<u8>::empty(),
        rt.spec_buffer_cap() == LINE_BUFFER_CAPACITY,
        rt.spec_drain_state() == Some(TaskState::Runnable),
{
    let bridge = Bridge::new(queue_capacity);
    let buffer = LineBuffer::new(LINE_BUFFER_CAPACITY);
    let mut executor = Executor::new();
    let drain = executor.spawn(TaskKind::UartDrain);
    let stream = UartStream::new(drain.0);
    Runtime { executor, bridge, buffer, stream, drain }
}

/// The interrupt-side entry point: called once per received byte, from
/// interrupt context. Pushes the byte onto the bridge and, when the push
/// stores the byte and a waker is registered, fires that waker exactly once,
/// which re-queues the parked drain task. Overflow drops the byte, counts it,
/// and wakes nobody; nothing is ever raised back to the interrupt handler.
pub fn notify_async_uart_irq_handler(rt: &mut Runtime, byte: u8)
    requires
        old(rt).wf(),
    ensures
        final(rt).wf(),
        final(rt).spec_bridge() == after_push(old(rt).spec_bridge(), byte),
        final(rt).spec_buffer() == old(rt).spec_buffer(),
        final(rt).spec_buffer_cap() == old(rt).spec_buffer_cap(),
        final(rt).spec_drain() == old(rt).spec_drain(),
        final(rt).spec_drain_state() == (if push_stores(old(rt).spec_bridge()) && old(
            rt,
        ).spec_bridge().waker is Some {
            Some(TaskState::Runnable)
        } else {
            old(rt).spec_drain_state()
        }),
{
    match rt.bridge.push(byte) {
        Ok(woken) => {
            match woken {
                Some(w) => {
                    rt.executor.wake(TaskId(w));
                },
                None => {},
            }
        },
        Err(_) => {
            // The byte was dropped and counted; interrupt context absorbs
            // the loss.
        },
    }
}

impl Runtime {
    /// The executor's run loop body: polls tasks in run-queue order until the
    /// queue is empty. The dedicated executor thread calls this, then idles
    /// until a wake re-populates the queue, then calls it again.
    ///
    /// With the drain task runnable this polls it once: the bridge empties
    /// into the line buffer (bytes beyond the line buffer's capacity are
    /// dropped silently), the drain task's waker is left registered, and the
    /// task parks. With nothing runnable it returns at once and changes
    /// nothing.
    pub fn run_ready_tasks(&mut self)
        requires
            old(self).wf(),
        ensures
            final(self).wf(),
            final(self).spec_drain() == old(self).spec_drain(),
            final(self).spec_buffer_cap() == old(self).spec_buffer_cap(),
            final(self).spec_drain_state() == Some(TaskState::Parked),
            old(self).spec_drain_state() == Some(TaskState::Runnable) ==> final(self).spec_bridge()
                == (BridgeView {
                bytes: Seq::<u8>::empty(),
                waker: Some(old(self).spec_drain().0),
                ..old(self).spec_bridge()
            }) && final(self).spec_buffer() == old(self).spec_buffer() + old(
                self,
            ).spec_bridge().bytes.take(
                vstd::math::min(
                    old(self).spec_bridge().bytes.len() as int,
                    old(self).spec_buffer_cap() - old(self).spec_buffer().len(),
                ),
            ),
            old(self).spec_drain_state() == Some(TaskState::Parked) ==> final(self).spec_bridge()
                == old(self).spec_bridge() && final(self).spec_buffer() == old(self).spec_buffer(),
    {
        loop
            invariant
                self.wf(),
                self.drain == old(self).spec_drain(),
                self.buffer.spec_cap() == old(self).spec_buffer_cap(),
                self.executor.spec_state(self.drain) == Some(TaskState::Runnable) ==> self.bridge@
                    == old(self).spec_bridge() && self.buffer@ == old(self).spec_buffer() && old(
                    self,
                ).spec_drain_state() == Some(TaskState::Runnable),
                self.executor.spec_state(self.drain) == Some(TaskState::Parked) ==> (
                if old(self).spec_drain_state() == Some(TaskState::Runnable) {
                    self.bridge@ == (BridgeView {
                        bytes: Seq::<u8>::empty(),
                        waker: Some(self.drain.0),
                        ..old(self).spec_bridge()
                    }) && self.buffer@ == old(self).spec_buffer() + old(
                        self,
                    ).spec_bridge().bytes.take(
                        vstd::math::min(
                            old(self).spec_bridge().bytes.len() as int,
                            old(self).spec_buffer_cap() - old(self).spec_buffer().len(),
                        ),
                    )
                } else {
                    self.bridge@ == old(self).spec_bridge() && self.buffer@ == old(
                        self,
                    ).spec_buffer()
                }),
            decreases self.executor.spec_queue().len(),
        {
            let next = self.executor.fetch_next();
            match next {
                None => {
                    return;
                },
                Some(id) => {
                    proof {
                        assert(id == self.drain);
                    }
                    let stream = UartStream::new(id.0);
                    crate::async_uart_irq::async_uart_handler(
                        &stream,
                        &mut self.bridge,
                        &mut self.buffer,
                    );
                    self.executor.finish_poll(id, false);
                },
            }
        }
    }

    /// The drain task's identifier.
    pub fn drain_task(&self) -> (r: TaskId)
        ensures
            r == self.spec_drain(),
    {
        self.drain
    }

    /// The drain task's scheduling state, for observation.
    pub fn drain_state(&self) -> (r: Option<TaskState>)
        ensures
            r == self.spec_drain_state(),
    {
        self.executor.task_state(self.drain)
    }

    /// How many bytes sit in the bridge, not yet drained.
    pub fn queued_len(&self) -> (r: usize)
        requires
            self.wf(),
        ensures
            r == self.spec_bridge().bytes.len(),
    {
        self.bridge.len()
    }

    /// How many bytes bridge overflow has dropped: the loss diagnostic.
    pub fn dropped_count(&self) -> (r: u64)
        requires
            self.wf(),
        ensures
            r as nat == self.spec_bridge().dropped,
    {
        self.bridge.dropped_count()
    }

    /// How many bytes sit in the line buffer.
    pub fn buffered_len(&self) -> (r: usize)
        requires
            self.wf(),
        ensures
            r == self.spec_buffer().len(),
    {
        self.buffer.len()
    }

    /// The `i`-th byte of the line buffer, counting from the oldest.
    pub fn buffered_byte_at(&self, i: usize) -> (r: u8)
        requires
            self.wf(),
            i < self.spec_buffer().len(),
        ensures
            r == self.spec_buffer()[i as int],
    {
        self.buffer.byte_at(i)
    }

    /// Removes and returns the oldest line-buffer byte: the console reader's
    /// path.
    pub fn pop_buffered(&mut self) -> (r: Option<u8>)
        requires
            old(self).wf(),
        ensures
            final(self).wf(),
            final(self).spec_bridge() == old(self).spec_bridge(),
            final(self).spec_drain_state() == old(self).spec_drain_state(),
            r == (if old(self).spec_buffer().len() > 0 {
                Some(old(self).spec_buffer()[0])
            } else {
                None::<u8>
            }),
            final(self).spec_buffer() == (if old(self).spec_buffer().len() > 0 {
                old(self).spec_buffer().drop_first()
            } else {
                old(self).spec_buffer()
            }),
    {
        self.buffer.pop_byte()
    }
}

} // verus!
