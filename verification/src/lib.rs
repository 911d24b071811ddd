//! The interrupt-to-task bridge of a small cooperative kernel: the layer that
//! turns a raw hardware interrupt (UART receive, timer) into bytes that a
//! cooperatively scheduled task can consume, without blocking or allocating
//! in interrupt context.
//!
//! The pieces, leaf first:
//!
//! - an IRQ dispatch table mapping interrupt vectors to handler capabilities
//!   ([`irq`]),
//! - the interrupt-safe byte bridge: a bounded byte queue plus one waker slot
//!   ([`bridge`], backed by `crossbeam_queue::ArrayQueue` through the trusted
//!   boundary in [`queue`]),
//! - a pollable byte stream over the bridge that registers the consumer's
//!   waker when empty, with the race-closing check, register, re-check
//!   protocol ([`stream`]),
//! - a single-threaded cooperative executor with a FIFO run-queue ([`executor`]),
//! - the drain task that copies bridge bytes into a larger line buffer
//!   ([`line_buffer`] and [`runtime`]).
//!
//! Policies, fixed and relied on by the contracts throughout:
//!
//! - overflow drops the newest byte, both at the bridge (a full queue rejects
//!   the push) and at the line buffer, and each drop is counted;
//! - the bridge's waker slot holds at most one waker and the last registrant
//!   wins; firing the waker empties the slot.

mod queue;

pub mod api;
pub mod async_uart_irq;
pub mod bridge;
pub mod console;
pub mod executor;
pub mod irq;
pub mod line_buffer;
pub mod pl011;
pub mod protocol;
pub mod runtime;
pub mod uart16550;
pub mod x86_pc;
