//! The byte stream over the bridge, and the drain task's body.
//!
//! `UartStream::poll_next` is the load-bearing correctness device of the whole
//! bridge: attempt a pop; if a byte is there, deliver it (consuming any stale
//! waker); otherwise register the consumer's waker and pop once more before
//! suspending. The second pop closes the race in which a producer pushes and
//! fires the waker between the first, empty pop and the registration — see
//! [`crate::protocol`] for the proof that no interleaving of one push with
//! one poll loses the byte.
//!
//! The stream is a live view over the bridge's remaining lifetime: it is
//! logically infinite and never restarts.

use vstd::prelude::*;

use crate::bridge::{Bridge, BridgeView};
use crate::line_buffer::LineBuffer;

verus! {

/// What one poll of the stream observes: a byte, or a suspension signal.
#[derive(Clone, Copy, Debug, PartialEq, Eq, Structural)]
pub enum PollNext {
    Ready(u8),
    Pending,
}

/// The consumer's end of the bridge. It carries the identifier of the task
/// that consumes the stream; that identifier is what gets registered as the
/// bridge's waker.
pub struct UartStream {
    task: u64,
}

impl UartStream {
    /// The task whose waker this stream registers.
    pub closed spec fn spec_task(&self) -> u64 {
        self.task
    }

    /// Creates the stream for the given consumer task. The queue storage
    /// itself is created once, by [`Bridge::new`]; the stream only records
    /// whom to wake.
    pub fn new(task: u64) -> (s: UartStream)
        ensures
            s.spec_task() == task,
    {
        UartStream { task }
    }

    /// Polls for the next byte: check, register, re-check.
    ///
    /// When the bridge holds a byte, the oldest byte is returned and any
    /// stale waker is consumed, so no spurious wake follows. When it is
    /// empty, the consumer's waker is registered (overwriting any previous
    /// registrant), one more pop closes the push-between-check-and-register
    /// race, and the stream signals suspension with the waker left in place.
    pub fn poll_next(&self, bridge: &mut Bridge) -> (r: PollNext)
        requires
            old(bridge).wf(),
        ensures
            final(bridge).wf(),
            r == (if old(bridge)@.bytes.len() > 0 {
                PollNext::Ready(old(bridge)@.bytes[0])
            } else {
                PollNext::Pending
            }),
            final(bridge)@ == (if old(bridge)@.bytes.len() > 0 {
                BridgeView { bytes: old(bridge)@.bytes.drop_first(), waker: None, ..old(bridge)@ }
            } else {
                BridgeView { waker: Some(self.spec_task()), ..old(bridge)@ }
            }),
    {
        match bridge.pop() {
            Some(b) => {
                let _ = bridge.take_waker();
                return PollNext::Ready(b);
            },
            None => {},
        }
        bridge.register_waker(self.task);
        match bridge.pop() {
            Some(b) => {
                let _ = bridge.take_waker();
                PollNext::Ready(b)
            },
            None => PollNext::Pending,
        }
    }
}

/// One poll of the drain task's computation: repeatedly poll the stream and
/// append each delivered byte to the line buffer (bytes that arrive once the
/// line buffer is full are dropped silently), until the stream suspends.
///
/// The bridge leaves empty, with the drain task's waker registered, so the
/// next push re-schedules the task. The computation never completes.
pub fn async_uart_handler(stream: &UartStream, bridge: &mut Bridge, buffer: &mut LineBuffer)
    requires
        old(bridge).wf(),
        old(buffer).wf(),
    ensures
        final(bridge).wf(),
        final(buffer).wf(),
        final(buffer).spec_cap() == old(buffer).spec_cap(),
        final(bridge)@ == (BridgeView {
            bytes: Seq::<u8>::empty(),
            waker: Some(stream.spec_task()),
            ..old(bridge)@
        }),
        final(buffer)@ == old(buffer)@ + old(bridge)@.bytes.take(
            vstd::math::min(
                old(bridge)@.bytes.len() as int,
                old(buffer).spec_cap() - old(buffer)@.len(),
            ),
        ),
{
    let ghost orig_bytes = bridge@.bytes;
    let ghost orig_buf = buffer@;
    let ghost space = buffer.spec_cap() - buffer@.len();
    let ghost mut consumed: int = 0;
    loop
        invariant
            bridge.wf(),
            buffer.wf(),
            buffer.spec_cap() == old(buffer).spec_cap(),
            0 <= consumed <= orig_bytes.len(),
            bridge@.bytes =~= orig_bytes.skip(consumed),
            bridge@.cap == old(bridge)@.cap,
            bridge@.dropped == old(bridge)@.dropped,
            bridge@.waker == (if consumed == 0 {
                old(bridge)@.waker
            } else {
                None::<u64>
            }),
            buffer@ =~= orig_buf + orig_bytes.take(vstd::math::min(consumed, space)),
            orig_bytes == old(bridge)@.bytes,
            orig_buf == old(buffer)@,
            space == old(buffer).spec_cap() - old(buffer)@.len(),
        decreases orig_bytes.len() - consumed,
    {
        match stream.poll_next(bridge) {
            PollNext::Ready(b) => {
                proof {
                    assert(b == orig_bytes[consumed]);
                }
                let _ = buffer.push_byte(b);
                proof {
                    assert(orig_bytes.skip(consumed).drop_first() =~= orig_bytes.skip(
                        consumed + 1,
                    ));
                    if consumed < space {
                        assert(buffer@ =~= orig_buf + orig_bytes.take(
                            vstd::math::min(consumed + 1, space),
                        ));
                    } else {
                        assert(vstd::math::min(consumed + 1, space) == vstd::math::min(
                            consumed,
                            space,
                        ));
                    }
                    consumed = consumed + 1;
                }
            },
            PollNext::Pending => {
                proof {
                    assert(consumed == orig_bytes.len());
                    assert(buffer@ =~= old(buffer)@ + old(bridge)@.bytes.take(
                        vstd::math::min(old(bridge)@.bytes.len() as int, space),
                    ));
                    assert(bridge@ =~= (BridgeView {
                        bytes: Seq::<u8>::empty(),
                        waker: Some(stream.spec_task()),
                        ..old(bridge)@
                    }));
                }
                return;
            },
        }
    }
}

} // verus!
