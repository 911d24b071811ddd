//! The no-missed-wake argument for the check, register, re-check protocol.
//!
//! Verified code is sequential, so [`crate::async_uart_irq::UartStream::poll_next`]
//! cannot exhibit the race it is designed to close. This module models the
//! concurrent picture explicitly. The producer (interrupt context) performs
//! two atomic steps, in order: append the byte to the queue, then fire the
//! waker (which empties the slot and re-queues the task it named, if any).
//! The consumer's poll performs three: a first pop (delivering a byte
//! consumes any stale waker), a waker registration, and a second pop. The
//! bridge's own operations correspond to these steps one for one — a
//! byte-delivering pop is a pop fused with a waker take, and
//! [`crate::bridge::Bridge::push`] fuses the append with the waker fire.
//!
//! [`lemma_no_missed_wake`] quantifies over every placement of the two
//! producer steps relative to the consumer's three and shows the poller never
//! stalls: either this very poll returns the byte, or the poll suspends with
//! the wake already fired — the task is re-queued and the byte sits first in
//! the queue, so the re-poll returns it. That covers in particular the
//! placement where the push lands between the first, empty check and the
//! registration, the interleaving a single-check protocol would lose.

use vstd::prelude::*;

use crate::async_uart_irq::PollNext;
use crate::bridge::{after_register, pop_result, sat_inc, BridgeView};

verus! {

/// The model state: the bridge, plus whether the consumer task has been
/// re-queued by a fired wake.
pub struct RaceState {
    pub bridge: BridgeView,
    pub requeued: bool,
}

/// What one poll produced, and the state both sides leave behind once the
/// producer's steps have all landed.
pub struct RaceOutcome {
    pub result: PollNext,
    pub state: RaceState,
}

/// The producer's first step: the bare queue append, without the wake.
pub open spec fn isr_push(s: RaceState, b: u8) -> RaceState {
    if s.bridge.bytes.len() < s.bridge.cap {
        RaceState { bridge: BridgeView { bytes: s.bridge.bytes.push(b), ..s.bridge }, ..s }
    } else {
        RaceState { bridge: BridgeView { dropped: sat_inc(s.bridge.dropped), ..s.bridge }, ..s }
    }
}

/// The producer's second step: fire the waker. Whatever waker is registered
/// at this instant is taken and its task re-queued; with no waker registered
/// the wake is lost.
pub open spec fn wake_fire(s: RaceState) -> RaceState {
    RaceState {
        bridge: BridgeView { waker: None, ..s.bridge },
        requeued: s.requeued || s.bridge.waker is Some,
    }
}

/// A byte-delivering pop: removes the oldest byte and consumes any stale
/// waker, exactly as the stream adapter does on delivery.
pub open spec fn deliver(s: RaceState) -> RaceState {
    RaceState {
        bridge: BridgeView { bytes: s.bridge.bytes.drop_first(), waker: None, ..s.bridge },
        ..s
    }
}

/// Applies whichever producer steps are scheduled into the given slot: the
/// push when `p` names this slot, then the wake when `w` does. Slot `k` is
/// the gap before the consumer's `k`-th step; slot 3 is after the poll.
pub open spec fn producer_at(s: RaceState, b: u8, p: int, w: int, slot: int) -> RaceState {
    let s1 = if p == slot {
        isr_push(s, b)
    } else {
        s
    };
    if w == slot {
        wake_fire(s1)
    } else {
        s1
    }
}

/// Runs one poll of an initially empty bridge of capacity `cap` by the
/// consumer task `t`, concurrently with one producer pushing `b`, the push
/// placed in slot `p` and the wake in slot `w`.
pub open spec fn race_outcome(cap: nat, t: u64, b: u8, p: int, w: int) -> RaceOutcome {
    let s0 = RaceState {
        bridge: BridgeView { bytes: Seq::<u8>::empty(), cap, waker: None, dropped: 0 },
        requeued: false,
    };
    let s1 = producer_at(s0, b, p, w, 0);
    if s1.bridge.bytes.len() > 0 {
        // First check: a byte is already there; deliver it. The producer's
        // later steps still land afterwards.
        let d = producer_at(
            producer_at(producer_at(deliver(s1), b, p, w, 1), b, p, w, 2),
            b,
            p,
            w,
            3,
        );
        RaceOutcome { result: PollNext::Ready(s1.bridge.bytes[0]), state: d }
    } else {
        let s2 = producer_at(s1, b, p, w, 1);
        let s3 = RaceState { bridge: after_register(s2.bridge, t), ..s2 };
        let s4 = producer_at(s3, b, p, w, 2);
        if s4.bridge.bytes.len() > 0 {
            // Second check: the push landed between the first check and here;
            // the byte is delivered in spite of any lost wake.
            let d = producer_at(deliver(s4), b, p, w, 3);
            RaceOutcome { result: PollNext::Ready(s4.bridge.bytes[0]), state: d }
        } else {
            let s5 = producer_at(s4, b, p, w, 3);
            RaceOutcome { result: PollNext::Pending, state: s5 }
        }
    }
}

/// No missed wake: for every interleaving of one push (with its wake) and
/// one poll on an empty bridge, the poller observes the byte — either this
/// poll returns it, or the poll suspends but the fired wake has re-queued
/// the task, the byte sits first in the queue, and the re-poll's first
/// check returns exactly it. Nothing is dropped either way.
pub proof fn lemma_no_missed_wake(cap: nat, t: u64, b: u8, p: int, w: int)
    requires
        1 <= cap,
        0 <= p <= 3,
        p <= w <= 3,
    ensures
        ({
            let o = race_outcome(cap, t, b, p, w);
            &&& (o.result == PollNext::Ready(b) || (o.result == PollNext::Pending
                && o.state.requeued && pop_result(o.state.bridge) == Some(b)))
            &&& o.state.bridge.dropped == 0
        }),
{
    let o = race_outcome(cap, t, b, p, w);
    if p == 0 {
        assert(o.result == PollNext::Ready(b));
    } else if p == 1 {
        assert(o.result == PollNext::Ready(b));
    } else if p == 2 {
        assert(o.result == PollNext::Ready(b));
    } else {
        assert(o.result == PollNext::Pending);
        assert(o.state.requeued);
        assert(o.state.bridge.bytes =~= seq![b]);
    }
}

} // verus!
