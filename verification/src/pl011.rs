//! The PL011 UART console: the driver logic over a model of the device.
//!
//! The device model carries what the driver reads and writes — the receive
//! FIFO, the transmitted bytes, and the receive-interrupt condition. The
//! register programming that moves these values over MMIO belongs to the
//! platform layer outside this crate; every decision made over them is here
//! and verified.
//!
//! Console input on this platform is interrupt-driven: the IRQ handler moves
//! device bytes onto the bridge, the drain task moves them into the line
//! buffer, and [`read_bytes`] serves readers from that line buffer.

use std::collections::VecDeque;
use vstd::prelude::*;

use crate::bridge::{after_push_seq, lemma_after_push_seq_snoc, lemma_push_seq_bounds, push_stores};
use crate::console::{crlf_byte, crlf_expand, lemma_crlf_expand_snoc};
use crate::executor::TaskState;
use crate::irq::{register_handler_common, HandlerTable, IrqHandler};
use crate::line_buffer::LineBuffer;
use crate::runtime::{notify_async_uart_irq_handler, Runtime};
use crate::x86_pc::{io_updated, same_config, ApicState};

verus! {

/// The interrupt line the platform wires the UART to.
pub const UART_IRQ_NUM: usize = 33;

/// The device state the driver logic works on: received bytes not yet read
/// out, the log of transmitted bytes, and the interrupt condition.
pub struct Pl011 {
    rx_fifo: VecDeque<u8>,
    tx_log: Vec<u8>,
    receive_interrupt: bool,
    initialized: bool,
}

impl Pl011 {
    /// The received bytes waiting in the device FIFO, oldest first.
    pub closed spec fn spec_rx(&self) -> Seq<u8> {
        self.rx_fifo@
    }

    /// Every byte the device has been asked to transmit, in order.
    pub closed spec fn spec_tx(&self) -> Seq<u8> {
        self.tx_log@
    }

    /// Whether the device signals a pending receive interrupt.
    pub closed spec fn spec_receive_interrupt(&self) -> bool {
        self.receive_interrupt
    }

    /// Whether the device has been initialized.
    pub closed spec fn spec_initialized(&self) -> bool {
        self.initialized
    }

    /// A quiet device: nothing received, nothing sent, no interrupt pending.
    pub fn new() -> (u: Pl011)
        ensures
            u.spec_rx() == Seq::<u8>::empty(),
            u.spec_tx() == Seq::<u8>::empty(),
            !u.spec_receive_interrupt(),
            !u.spec_initialized(),
    {
        Pl011 {
            rx_fifo: VecDeque::new(),
            tx_log: Vec::new(),
            receive_interrupt: false,
            initialized: false,
        }
    }

    /// The hardware side: a byte arrives on the wire, enters the FIFO, and
    /// raises the receive-interrupt condition.
    pub fn device_receive(&mut self, byte: u8)
        ensures
            final(self).spec_rx() == old(self).spec_rx().push(byte),
            final(self).spec_tx() == old(self).spec_tx(),
            final(self).spec_receive_interrupt(),
            final(self).spec_initialized() == old(self).spec_initialized(),
    {
        self.rx_fifo.push_back(byte);
        self.receive_interrupt = true;
    }

    /// Whether the pending interrupt condition is a receive interrupt.
    pub fn is_receive_interrupt(&self) -> (r: bool)
        ensures
            r == self.spec_receive_interrupt(),
    {
        self.receive_interrupt
    }

    /// Clears the device's interrupt conditions.
    pub fn ack_interrupts(&mut self)
        ensures
            final(self).spec_rx() == old(self).spec_rx(),
            final(self).spec_tx() == old(self).spec_tx(),
            !final(self).spec_receive_interrupt(),
            final(self).spec_initialized() == old(self).spec_initialized(),
    {
        self.receive_interrupt = false;
    }

    /// Reads one byte out of the device FIFO, oldest first.
    pub fn getchar(&mut self) -> (r: Option<u8>)
        ensures
            final(self).spec_tx() == old(self).spec_tx(),
            final(self).spec_receive_interrupt() == old(self).spec_receive_interrupt(),
            final(self).spec_initialized() == old(self).spec_initialized(),
            r == (if old(self).spec_rx().len() > 0 {
                Some(old(self).spec_rx()[0])
            } else {
                None::<u8>
            }),
            final(self).spec_rx() == (if old(self).spec_rx().len() > 0 {
                old(self).spec_rx().drop_first()
            } else {
                old(self).spec_rx()
            }),
    {
        let r = self.rx_fifo.pop_front();
        proof {
            if old(self).spec_rx().len() > 0 {
                assert(self.spec_rx() =~= old(self).spec_rx().drop_first());
            }
        }
        r
    }

    /// How many bytes the device has transmitted.
    pub fn tx_len(&self) -> (r: usize)
        ensures
            r == self.spec_tx().len(),
    {
        self.tx_log.len()
    }

    /// The `i`-th transmitted byte, in transmission order.
    pub fn tx_byte_at(&self, i: usize) -> (r: u8)
        requires
            i < self.spec_tx().len(),
        ensures
            r == self.spec_tx()[i as int],
    {
        self.tx_log[i]
    }

    /// How many received bytes wait in the FIFO.
    pub fn rx_len(&self) -> (r: usize)
        ensures
            r == self.spec_rx().len(),
    {
        self.rx_fifo.len()
    }

    /// Hands one byte to the device for transmission.
    fn device_putchar(&mut self, c: u8)
        ensures
            final(self).spec_rx() == old(self).spec_rx(),
            final(self).spec_tx() == old(self).spec_tx().push(c),
            final(self).spec_receive_interrupt() == old(self).spec_receive_interrupt(),
            final(self).spec_initialized() == old(self).spec_initialized(),
    {
        self.tx_log.push(c);
    }
}

/// Writes a byte to the console, expanding a line feed to carriage return
/// plus line feed.
pub fn putchar(uart: &mut Pl011, c: u8)
    ensures
        final(uart).spec_rx() == old(uart).spec_rx(),
        final(uart).spec_tx() == old(uart).spec_tx() + crlf_byte(c),
        final(uart).spec_receive_interrupt() == old(uart).spec_receive_interrupt(),
        final(uart).spec_initialized() == old(uart).spec_initialized(),
{
    if c == 0x0a {
        uart.device_putchar(0x0d);
        uart.device_putchar(0x0a);
        proof {
            assert(uart.spec_tx() =~= old(uart).spec_tx() + crlf_byte(c));
        }
    } else {
        uart.device_putchar(c);
        proof {
            assert(uart.spec_tx() =~= old(uart).spec_tx() + crlf_byte(c));
        }
    }
}

/// Reads a byte from the console, or returns `None` if no input is
/// available. Input comes from the line buffer that the drain task fills.
pub fn getchar(buffer: &mut LineBuffer) -> (r: Option<u8>)
    requires
        old(buffer).wf(),
    ensures
        final(buffer).wf(),
        final(buffer).spec_cap() == old(buffer).spec_cap(),
        r == (if old(buffer)@.len() > 0 {
            Some(old(buffer)@[0])
        } else {
            None::<u8>
        }),
        final(buffer)@ == (if old(buffer)@.len() > 0 {
            old(buffer)@.drop_first()
        } else {
            old(buffer)@
        }),
{
    buffer.pop_byte()
}

/// Writes a slice of bytes to the console, in order, each expanded as
/// [`putchar`] does.
pub fn write_bytes(uart: &mut Pl011, bytes: &[u8])
    ensures
        final(uart).spec_rx() == old(uart).spec_rx(),
        final(uart).spec_tx() == old(uart).spec_tx() + crlf_expand(bytes@),
        final(uart).spec_receive_interrupt() == old(uart).spec_receive_interrupt(),
        final(uart).spec_initialized() == old(uart).spec_initialized(),
{
    let n = bytes.len();
    let mut i: usize = 0;
    while i < n
        invariant
            i <= n,
            n == bytes@.len(),
            uart.spec_rx() == old(uart).spec_rx(),
            uart.spec_tx() == old(uart).spec_tx() + crlf_expand(bytes@.take(i as int)),
            uart.spec_receive_interrupt() == old(uart).spec_receive_interrupt(),
            uart.spec_initialized() == old(uart).spec_initialized(),
        decreases n - i,
    {
        proof {
            assert(bytes@.take(i as int).push(bytes@[i as int]) =~= bytes@.take(i as int + 1));
            lemma_crlf_expand_snoc(bytes@.take(i as int), bytes@[i as int]);
        }
        putchar(uart, bytes[i]);
        i = i + 1;
    }
    proof {
        assert(bytes@.take(n as int) =~= bytes@);
    }
}

/// Reads bytes from the console into the given buffer, overwriting its
/// prefix in place, until the buffer is filled or no more input is
/// available. Returns the number of bytes read.
pub fn read_bytes(buffer: &mut LineBuffer, bytes: &mut Vec<u8>) -> (n: usize)
    requires
        old(buffer).wf(),
    ensures
        final(buffer).wf(),
        final(buffer).spec_cap() == old(buffer).spec_cap(),
        n as int == vstd::math::min(old(bytes)@.len() as int, old(buffer)@.len() as int),
        final(bytes)@ == old(buffer)@.take(n as int) + old(bytes)@.skip(n as int),
        final(buffer)@ == old(buffer)@.skip(n as int),
{
    let mut read_len: usize = 0;
    let n = bytes.len();
    loop
        invariant
            read_len <= n,
            n == bytes@.len(),
            old(bytes)@.len() == n,
            read_len <= old(buffer)@.len(),
            buffer.wf(),
            buffer.spec_cap() == old(buffer).spec_cap(),
            bytes@ =~= old(buffer)@.take(read_len as int) + old(bytes)@.skip(read_len as int),
            buffer@ =~= old(buffer)@.skip(read_len as int),
        ensures
            read_len == n || buffer@.len() == 0,
        decreases n - read_len,
    {
        if read_len >= n {
            break ;
        }
        match buffer.pop_byte() {
            Some(c) => {
                bytes[read_len] = c;
                proof {
                    assert(buffer@ =~= old(buffer)@.skip(read_len as int + 1));
                    assert(bytes@ =~= old(buffer)@.take(read_len as int + 1) + old(bytes)@.skip(
                        read_len as int + 1,
                    ));
                }
                read_len = read_len + 1;
            },
            None => {
                break ;
            },
        }
    }
    read_len
}

/// Marks the device as brought up early in boot, before interrupts exist.
pub fn init_early(uart: &mut Pl011)
    ensures
        final(uart).spec_rx() == old(uart).spec_rx(),
        final(uart).spec_tx() == old(uart).spec_tx(),
        final(uart).spec_receive_interrupt() == old(uart).spec_receive_interrupt(),
        final(uart).spec_initialized(),
{
    uart.initialized = true;
}

/// Registers the UART receive handler on this platform's UART line and
/// unmasks it. (The controller model stands in for this platform's interrupt
/// controller.) Registration fails, changing nothing, if the line already
/// has a handler.
pub fn init(table: &mut HandlerTable, apic: &mut ApicState)
    requires
        old(table).wf(),
        old(apic).wf(),
    ensures
        final(table).wf(),
        final(apic).wf(),
        final(table)@ == (if old(table)@[UART_IRQ_NUM as int] is None {
            old(table)@.update(UART_IRQ_NUM as int, Some(IrqHandler::UartReceive))
        } else {
            old(table)@
        }),
        old(table)@[UART_IRQ_NUM as int] is None ==> same_config(*old(apic), *final(apic))
            && io_updated(*old(apic), *final(apic), UART_IRQ_NUM, true),
        old(table)@[UART_IRQ_NUM as int] is Some ==> *final(apic) == *old(apic),
{
    let _ = register_handler_common(table, apic, UART_IRQ_NUM, IrqHandler::UartReceive);
}

/// The UART IRQ handler, run on the interrupt stack: when the pending
/// condition is a receive interrupt, it acknowledges the device and moves
/// every FIFO byte onto the bridge, one push (and at most one wake) per
/// byte; it does nothing else and returns. Overflow is absorbed by the
/// bridge, byte by byte.
pub fn uart_irq_handler(uart: &mut Pl011, rt: &mut Runtime)
    requires
        old(rt).wf(),
    ensures
        final(rt).wf(),
        final(uart).spec_tx() == old(uart).spec_tx(),
        !final(uart).spec_receive_interrupt(),
        final(uart).spec_initialized() == old(uart).spec_initialized(),
        final(rt).spec_buffer() == old(rt).spec_buffer(),
        final(rt).spec_buffer_cap() == old(rt).spec_buffer_cap(),
        final(rt).spec_drain() == old(rt).spec_drain(),
        old(uart).spec_receive_interrupt() ==> final(uart).spec_rx() == Seq::<u8>::empty()
            && final(rt).spec_bridge() == after_push_seq(
            old(rt).spec_bridge(),
            old(uart).spec_rx(),
        ) && final(rt).spec_drain_state() == (if old(uart).spec_rx().len() > 0 && push_stores(
            old(rt).spec_bridge(),
        ) && old(rt).spec_bridge().waker is Some {
            Some(TaskState::Runnable)
        } else {
            old(rt).spec_drain_state()
        }),
        !old(uart).spec_receive_interrupt() ==> final(uart).spec_rx() == old(uart).spec_rx()
            && final(rt).spec_bridge() == old(rt).spec_bridge() && final(rt).spec_drain_state()
            == old(rt).spec_drain_state(),
{
    let pending = uart.is_receive_interrupt();
    uart.ack_interrupts();
    if !pending {
        return;
    }
    let ghost orig_rx = uart.spec_rx();
    let ghost orig_bridge = rt.spec_bridge();
    let ghost mut consumed: int = 0;
    proof {
        rt.lemma_bridge_bounded();
        assert(after_push_seq(orig_bridge, orig_rx.take(0)) == orig_bridge) by {
            assert(orig_rx.take(0) =~= Seq::<u8>::empty());
        }
    }
    loop
        invariant
            rt.wf(),
            0 <= consumed <= orig_rx.len(),
            orig_rx == old(uart).spec_rx(),
            orig_bridge == old(rt).spec_bridge(),
            old(uart).spec_receive_interrupt(),
            orig_bridge.bytes.len() <= orig_bridge.cap,
            uart.spec_rx() =~= orig_rx.skip(consumed),
            uart.spec_tx() == old(uart).spec_tx(),
            !uart.spec_receive_interrupt(),
            uart.spec_initialized() == old(uart).spec_initialized(),
            rt.spec_buffer() == old(rt).spec_buffer(),
            rt.spec_buffer_cap() == old(rt).spec_buffer_cap(),
            rt.spec_drain() == old(rt).spec_drain(),
            rt.spec_bridge() == after_push_seq(orig_bridge, orig_rx.take(consumed)),
            rt.spec_drain_state() == (if consumed > 0 && push_stores(orig_bridge)
                && orig_bridge.waker is Some {
                Some(TaskState::Runnable)
            } else {
                old(rt).spec_drain_state()
            }),
        decreases orig_rx.len() - consumed,
    {
        match uart.getchar() {
            Some(byte) => {
                proof {
                    assert(byte == orig_rx[consumed]);
                    lemma_push_seq_bounds(orig_bridge, orig_rx.take(consumed));
                }
                let ghost pre_bridge = rt.spec_bridge();
                let ghost pre_drain = rt.spec_drain_state();
                notify_async_uart_irq_handler(rt, byte);
                proof {
                    assert(orig_rx.take(consumed).push(orig_rx[consumed]) =~= orig_rx.take(
                        consumed + 1,
                    ));
                    lemma_after_push_seq_snoc(orig_bridge, orig_rx.take(consumed), byte);
                    assert(orig_rx.skip(consumed).drop_first() =~= orig_rx.skip(consumed + 1));
                    consumed = consumed + 1;
                }
            },
            None => {
                proof {
                    assert(consumed == orig_rx.len());
                    assert(orig_rx.take(consumed) =~= orig_rx);
                }
                return;
            },
        }
    }
}

} // verus!
