//! The interrupt-safe byte bridge: one bounded byte queue plus one waker slot.
//!
//! The producer side (`push`) is meant to be called from interrupt context:
//! it never blocks, never allocates, and absorbs overflow by dropping the
//! newest byte and counting the loss. The consumer side (`pop`,
//! `register_waker`, `take_waker`) is called from task context through the
//! stream adapter.
//!
//! A waker here is the plain identifier of the task to re-schedule; firing it
//! means handing that identifier back to the caller so the executor can mark
//! the task runnable. The slot holds at most one waker, the last registrant
//! wins, and a fired waker leaves the slot empty.

use crossbeam_queue::ArrayQueue;
use vstd::prelude::*;

use crate::queue::{queue_bytes, queue_capacity, queue_new, queue_pop, queue_push};

verus! {

/// Overflow marker: the bridge was full and the pushed byte was dropped.
#[derive(Clone, Copy, Debug, PartialEq, Eq, Structural)]
pub struct Full;

/// The mathematical state of a bridge: the queued bytes (oldest first), the
/// fixed capacity, the registered waker, and how many bytes overflow has
/// dropped so far.
#[verifier::ext_equal]
pub struct BridgeView {
    pub bytes: Seq<u8>,
    pub cap: nat,
    pub waker: Option<u64>,
    pub dropped: nat,
}

/// The drop counter sticks at `u64::MAX` instead of wrapping.
pub open spec fn sat_inc(d: nat) -> nat {
    if d < u64::MAX { d + 1 } else { d }
}

/// One producer step: append the byte when there is room (which fires, and so
/// empties, the waker slot), else count the byte as dropped.
pub open spec fn after_push(v: BridgeView, b: u8) -> BridgeView {
    if v.bytes.len() < v.cap {
        BridgeView { bytes: v.bytes.push(b), waker: None, ..v }
    } else {
        BridgeView { dropped: sat_inc(v.dropped), ..v }
    }
}

/// Whether a push onto `v` stores its byte (rather than dropping it).
pub open spec fn push_stores(v: BridgeView) -> bool {
    v.bytes.len() < v.cap
}

/// One consumer step: remove the oldest byte, if any.
pub open spec fn after_pop(v: BridgeView) -> BridgeView {
    if v.bytes.len() > 0 {
        BridgeView { bytes: v.bytes.drop_first(), ..v }
    } else {
        v
    }
}

/// What that consumer step returns.
pub open spec fn pop_result(v: BridgeView) -> Option<u8> {
    if v.bytes.len() > 0 {
        Some(v.bytes[0])
    } else {
        None
    }
}

/// Registering a waker overwrites whatever was registered before.
pub open spec fn after_register(v: BridgeView, task: u64) -> BridgeView {
    BridgeView { waker: Some(task), ..v }
}

/// Taking the waker empties the slot.
pub open spec fn after_take(v: BridgeView) -> BridgeView {
    BridgeView { waker: None, ..v }
}

pub struct Bridge {
    queue: ArrayQueue<u8>,
    cap: usize,
    len: usize,
    waker: Option<u64>,
    dropped: u64,
}

impl Bridge {
    pub closed spec fn view(&self) -> BridgeView {
        BridgeView {
            bytes: queue_bytes(self.queue),
            cap: self.cap as nat,
            waker: self.waker,
            dropped: self.dropped as nat,
        }
    }

    /// Internal consistency: the cached capacity and length agree with the
    /// underlying queue.
    pub closed spec fn inv(&self) -> bool {
        &&& queue_capacity(self.queue) == self.cap as nat
        &&& self.len == queue_bytes(self.queue).len()
        &&& self.waker == self@.waker
    }

    /// Well-formedness: established by `new` and preserved by every method.
    pub open spec fn wf(&self) -> bool {
        &&& self.inv()
        &&& 1 <= self@.cap
        &&& self@.bytes.len() <= self@.cap
    }

    /// Creates a bridge with the given queue capacity. The storage is created
    /// here, exactly once, and owned by the returned value; there is no later
    /// initialization step that could be forgotten or repeated.
    pub fn new(capacity: usize) -> (r: Bridge)
        requires
            1 <= capacity <= usize::MAX / 4,
        ensures
            r.wf(),
            r@ == (BridgeView {
                bytes: Seq::<u8>::empty(),
                cap: capacity as nat,
                waker: None,
                dropped: 0,
            }),
    {
        Bridge { queue: queue_new(capacity), cap: capacity, len: 0, waker: None, dropped: 0 }
    }

    /// The producer entry point, safe for interrupt context: bounded time, no
    /// allocation, no blocking.
    ///
    /// On success the byte is appended and the registered waker, if any, is
    /// fired exactly once: it is returned as `Ok(Some(task))` so the caller
    /// can re-schedule that task, and the slot is left empty. With no waker
    /// registered the push is still `Ok(None)`.
    ///
    /// When the queue is full the newest byte (this one) is dropped, the loss
    /// is counted, nothing is woken, and `Err(Full)` is returned; the caller
    /// in interrupt context absorbs it.
    pub fn push(&mut self, byte: u8) -> (r: Result<Option<u64>, Full>)
        requires
            old(self).wf(),
        ensures
            final(self).wf(),
            final(self)@ == after_push(old(self)@, byte),
            push_stores(old(self)@) ==> r == Ok::<Option<u64>, Full>(old(self)@.waker),
            !push_stores(old(self)@) ==> r == Err::<Option<u64>, Full>(Full),
    {
        match queue_push(&mut self.queue, byte) {
            Ok(()) => {
                self.len = self.len + 1;
                let woken = self.waker;
                self.waker = None;
                Ok(woken)
            },
            Err(_) => {
                if self.dropped < u64::MAX {
                    self.dropped = self.dropped + 1;
                }
                Err(Full)
            },
        }
    }

    /// The consumer side: removes and returns the oldest byte, or `None` when
    /// the bridge is empty. Never blocks; does not touch the waker slot.
    pub fn pop(&mut self) -> (r: Option<u8>)
        requires
            old(self).wf(),
        ensures
            final(self).wf(),
            final(self)@ == after_pop(old(self)@),
            r == pop_result(old(self)@),
    {
        match queue_pop(&mut self.queue) {
            Some(b) => {
                self.len = self.len - 1;
                Some(b)
            },
            None => None,
        }
    }

    /// Stores the consumer task's waker, replacing whatever was registered:
    /// the last registrant wins.
    pub fn register_waker(&mut self, task: u64)
        requires
            old(self).wf(),
        ensures
            final(self).wf(),
            final(self)@ == after_register(old(self)@, task),
    {
        self.waker = Some(task);
    }

    /// Empties the waker slot and returns what was in it. The stream adapter
    /// uses this to consume a stale waker when a byte is delivered directly.
    pub fn take_waker(&mut self) -> (r: Option<u64>)
        requires
            old(self).wf(),
        ensures
            final(self).wf(),
            final(self)@ == after_take(old(self)@),
            r == old(self)@.waker,
    {
        let w = self.waker;
        self.waker = None;
        w
    }

    /// How many bytes are queued right now.
    pub fn len(&self) -> (r: usize)
        requires
            self.wf(),
        ensures
            r == self@.bytes.len(),
    {
        self.len
    }

    /// The fixed capacity the bridge was created with.
    pub fn capacity(&self) -> (r: usize)
        requires
            self.wf(),
        ensures
            r == self@.cap,
    {
        self.cap
    }

    /// How many bytes overflow has dropped so far: the loss diagnostic.
    pub fn dropped_count(&self) -> (r: u64)
        requires
            self.wf(),
        ensures
            r as nat == self@.dropped,
    {
        self.dropped
    }
}

/// The state of a freshly created bridge of the given capacity.
pub open spec fn empty_bridge(cap: nat) -> BridgeView {
    BridgeView { bytes: Seq::<u8>::empty(), cap, waker: None, dropped: 0 }
}

/// Pushing a whole sequence of bytes, oldest first, one step at a time.
pub open spec fn after_push_seq(v: BridgeView, s: Seq<u8>) -> BridgeView
    decreases s.len(),
{
    if s.len() == 0 {
        v
    } else {
        after_push_seq(after_push(v, s[0]), s.drop_first())
    }
}

/// The bytes that popping until empty returns, in order.
pub open spec fn drain_results(v: BridgeView) -> Seq<u8>
    decreases v.bytes.len(),
{
    if v.bytes.len() == 0 {
        Seq::<u8>::empty()
    } else {
        seq![v.bytes[0]] + drain_results(after_pop(v))
    }
}

/// Pushing one more byte after a sequence is pushing the extended sequence.
pub proof fn lemma_after_push_seq_snoc(v: BridgeView, s: Seq<u8>, b: u8)
    ensures
        after_push_seq(v, s.push(b)) == after_push(after_push_seq(v, s), b),
    decreases s.len(),
{
    if s.len() == 0 {
        assert(s.push(b).drop_first() =~= Seq::<u8>::empty());
        assert(after_push_seq(after_push(v, b), Seq::<u8>::empty()) == after_push(v, b));
    } else {
        assert(s.push(b).drop_first() =~= s.drop_first().push(b));
        lemma_after_push_seq_snoc(after_push(v, s[0]), s.drop_first(), b);
    }
}

/// What a run of pushes does to the capacity, the length, and the waker: the
/// capacity is fixed, the length never exceeds it, and the first stored push
/// fires the waker while a run that stores nothing leaves it alone.
pub proof fn lemma_push_seq_bounds(v: BridgeView, s: Seq<u8>)
    requires
        v.bytes.len() <= v.cap,
    ensures
        after_push_seq(v, s).cap == v.cap,
        after_push_seq(v, s).bytes.len() <= v.cap,
        after_push_seq(v, s).bytes.len() as int == vstd::math::min(
            v.bytes.len() as int + s.len() as int,
            v.cap as int,
        ),
        after_push_seq(v, s).waker == (if s.len() > 0 && v.bytes.len() < v.cap {
            None::<u64>
        } else {
            v.waker
        }),
    decreases s.len(),
{
    if s.len() > 0 {
        lemma_push_seq_bounds(after_push(v, s[0]), s.drop_first());
    }
}

/// Popping until empty returns exactly the queued bytes, oldest first.
pub proof fn lemma_drain_results(v: BridgeView)
    ensures
        drain_results(v) == v.bytes,
    decreases v.bytes.len(),
{
    if v.bytes.len() > 0 {
        lemma_drain_results(after_pop(v));
        assert(seq![v.bytes[0]] + v.bytes.drop_first() =~= v.bytes);
    } else {
        assert(drain_results(v) =~= v.bytes);
    }
}

/// Bounded loss, not corruption: pushing a sequence keeps the oldest bytes
/// up to the free room, in order, and counts every byte beyond it as
/// dropped; the queue never exceeds its capacity. The first stored byte
/// fires the waker; a run of pushes that stores nothing leaves it alone.
pub proof fn lemma_push_seq_keeps_oldest(v: BridgeView, s: Seq<u8>)
    requires
        v.bytes.len() <= v.cap,
        v.dropped + s.len() <= u64::MAX,
    ensures
        ({
            let v2 = after_push_seq(v, s);
            let stored = vstd::math::min(s.len() as int, v.cap - v.bytes.len());
            &&& v2.bytes == v.bytes + s.take(stored)
            &&& v2.bytes.len() <= v.cap
            &&& v2.cap == v.cap
            &&& v2.dropped == v.dropped + s.len() - stored
            &&& v2.waker == (if stored > 0 {
                None::<u64>
            } else {
                v.waker
            })
        }),
    decreases s.len(),
{
    let v2 = after_push_seq(v, s);
    let stored = vstd::math::min(s.len() as int, v.cap - v.bytes.len());
    if s.len() == 0 {
        assert(v.bytes + s.take(stored) =~= v.bytes);
    } else {
        let v1 = after_push(v, s[0]);
        lemma_push_seq_keeps_oldest(v1, s.drop_first());
        let stored1 = vstd::math::min(
            s.drop_first().len() as int,
            v1.cap - v1.bytes.len(),
        );
        if v.bytes.len() < v.cap {
            assert(stored1 == stored - 1);
            assert(v1.bytes + s.drop_first().take(stored1) =~= v.bytes + s.take(stored));
        } else {
            assert(stored == 0 && stored1 == 0);
            assert(v1.bytes + s.drop_first().take(0) =~= v.bytes + s.take(0));
        }
    }
}

/// FIFO order, as one round trip: pushing `s` onto an empty bridge with room
/// for all of it stores exactly `s`, drops nothing, and the pops then return
/// the bytes in push order.
pub proof fn lemma_fifo_order(cap: nat, s: Seq<u8>)
    requires
        s.len() <= cap,
        s.len() <= u64::MAX,
    ensures
        after_push_seq(empty_bridge(cap), s).bytes == s,
        after_push_seq(empty_bridge(cap), s).dropped == 0,
        drain_results(after_push_seq(empty_bridge(cap), s)) == s,
{
    lemma_push_seq_keeps_oldest(empty_bridge(cap), s);
    assert(Seq::<u8>::empty() + s.take(s.len() as int) =~= s);
    lemma_drain_results(after_push_seq(empty_bridge(cap), s));
}

/// Bounded loss on a fresh bridge: pushing `capacity + k` bytes without any
/// pop stores exactly the oldest `capacity` of them and counts `k` drops.
pub proof fn lemma_overflow_keeps_oldest(cap: nat, s: Seq<u8>)
    requires
        1 <= cap,
        cap <= s.len() <= u64::MAX,
    ensures
        after_push_seq(empty_bridge(cap), s).bytes == s.take(cap as int),
        after_push_seq(empty_bridge(cap), s).bytes.len() == cap,
        after_push_seq(empty_bridge(cap), s).dropped == s.len() - cap,
{
    lemma_push_seq_keeps_oldest(empty_bridge(cap), s);
    assert(Seq::<u8>::empty() + s.take(cap as int) =~= s.take(cap as int));
}

} // verus!
