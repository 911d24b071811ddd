//! The 16550 UART console (COM1 on a PC): the driver logic over a model of
//! the device's registers and FIFOs.
//!
//! The model keeps the register values the driver writes and the line-status
//! semantics it reads: receive-ready when the FIFO holds a byte, transmit
//! always ready (the modeled transmitter drains immediately, so the output
//! busy-wait never spins). The port I/O that carries these values belongs to
//! the platform layer outside this crate.
//!
//! On this platform console input is polled: [`read_bytes`] reads the device
//! FIFO directly, and [`uart_irq_handler`] moves device bytes straight into
//! the line buffer.

use std::collections::VecDeque;
use vstd::prelude::*;

use crate::console::{crlf_byte, crlf_expand, lemma_crlf_expand_snoc};
use crate::line_buffer::LineBuffer;

verus! {

/// The clock divisor factor of the UART.
pub const UART_CLOCK_FACTOR: usize = 16;

/// The oscillator frequency the baud divisor is derived from.
pub const OSC_FREQ: usize = 1_843_200;

/// The interrupt line COM1 is wired to.
pub const UART_IRQ_NUM: usize = 0x24;

/// Line status: a received byte is ready to be read.
pub const LINE_STS_INPUT_FULL: u8 = 0x01;

/// Line status: the transmit holding register is empty.
pub const LINE_STS_OUTPUT_EMPTY: u8 = 0x20;

/// The device state the driver reads and writes: the configuration registers
/// as last programmed, the derived baud divisor, and the two byte streams.
pub struct Uart16550 {
    base_port: u16,
    int_en: u8,
    fifo_ctrl: u8,
    line_ctrl: u8,
    modem_ctrl: u8,
    divisor: usize,
    rx_fifo: VecDeque<u8>,
    tx_log: Vec<u8>,
}

impl Uart16550 {
    /// The received bytes waiting in the FIFO, oldest first.
    pub closed spec fn spec_rx(&self) -> Seq<u8> {
        self.rx_fifo@
    }

    /// Every byte handed to the transmitter, in order.
    pub closed spec fn spec_tx(&self) -> Seq<u8> {
        self.tx_log@
    }

    /// The I/O port the device's register bank starts at.
    pub closed spec fn spec_base_port(&self) -> u16 {
        self.base_port
    }

    /// The interrupt-enable register as last written.
    pub closed spec fn spec_int_en(&self) -> u8 {
        self.int_en
    }

    /// The FIFO-control register as last written.
    pub closed spec fn spec_fifo_ctrl(&self) -> u8 {
        self.fifo_ctrl
    }

    /// The line-control register as last written.
    pub closed spec fn spec_line_ctrl(&self) -> u8 {
        self.line_ctrl
    }

    /// The modem-control register as last written.
    pub closed spec fn spec_modem_ctrl(&self) -> u8 {
        self.modem_ctrl
    }

    /// The programmed baud divisor.
    pub closed spec fn spec_divisor(&self) -> nat {
        self.divisor as nat
    }

    /// What the line-status register reads: receive-ready exactly when the
    /// FIFO holds a byte, transmit-ready always.
    pub open spec fn spec_line_sts(&self) -> u8 {
        if self.spec_rx().len() > 0 {
            0x21
        } else {
            0x20
        }
    }

    /// A quiet device behind the given base port, not yet configured.
    pub fn new(port: u16) -> (u: Uart16550)
        ensures
            u.spec_base_port() == port,
            u.spec_int_en() == 0,
            u.spec_fifo_ctrl() == 0,
            u.spec_line_ctrl() == 0,
            u.spec_modem_ctrl() == 0,
            u.spec_divisor() == 0,
            u.spec_rx() == Seq::<u8>::empty(),
            u.spec_tx() == Seq::<u8>::empty(),
    {
        Uart16550 {
            base_port: port,
            int_en: 0,
            fifo_ctrl: 0,
            line_ctrl: 0,
            modem_ctrl: 0,
            divisor: 0,
            rx_fifo: VecDeque::new(),
            tx_log: Vec::new(),
        }
    }

    /// Configures the device: interrupts off, the divisor latch programmed
    /// for the requested baud rate, eight-bit words, FIFOs enabled with a
    /// fourteen-byte watermark, and the modem-control lines raised.
    pub fn init(&mut self, baud_rate: usize)
        requires
            1 <= baud_rate <= OSC_FREQ,
        ensures
            final(self).spec_base_port() == old(self).spec_base_port(),
            final(self).spec_int_en() == 0,
            final(self).spec_divisor() == OSC_FREQ as nat / ((baud_rate * UART_CLOCK_FACTOR) as nat),
            final(self).spec_line_ctrl() == 0x03,
            final(self).spec_fifo_ctrl() == 0xC7,
            final(self).spec_modem_ctrl() == 0x0B,
            final(self).spec_rx() == old(self).spec_rx(),
            final(self).spec_tx() == old(self).spec_tx(),
    {
        self.int_en = 0x00;
        let divisor = OSC_FREQ / (baud_rate * UART_CLOCK_FACTOR);
        self.divisor = divisor;
        self.line_ctrl = 0x03;
        self.fifo_ctrl = 0xC7;
        self.modem_ctrl = 0x0B;
    }

    /// The line-status register.
    pub fn line_sts(&self) -> (r: u8)
        ensures
            r == self.spec_line_sts(),
    {
        if self.rx_fifo.len() > 0 {
            0x21
        } else {
            0x20
        }
    }

    /// Sends one byte: waits for the transmitter (always ready in the model)
    /// and hands the byte over.
    pub fn putchar(&mut self, c: u8)
        ensures
            same_setup(*old(self), *final(self)),
            final(self).spec_rx() == old(self).spec_rx(),
            final(self).spec_tx() == old(self).spec_tx().push(c),
    {
        proof {
            assert((0x21u8 & 0x20u8) != 0) by (bit_vector);
            assert((0x20u8 & 0x20u8) != 0) by (bit_vector);
        }
        let sts = self.line_sts();
        if sts & LINE_STS_OUTPUT_EMPTY != 0 {
            self.tx_log.push(c);
        }
    }

    /// Reads one byte from the FIFO if the line status says one is ready.
    pub fn getchar(&mut self) -> (r: Option<u8>)
        ensures
            same_setup(*old(self), *final(self)),
            final(self).spec_tx() == old(self).spec_tx(),
            r == (if old(self).spec_rx().len() > 0 {
                Some(old(self).spec_rx()[0])
            } else {
                None::<u8>
            }),
            final(self).spec_rx() == (if old(self).spec_rx().len() > 0 {
                old(self).spec_rx().drop_first()
            } else {
                old(self).spec_rx()
            }),
    {
        proof {
            assert((0x21u8 & 0x01u8) != 0) by (bit_vector);
            assert((0x20u8 & 0x01u8) == 0) by (bit_vector);
        }
        let sts = self.line_sts();
        if sts & LINE_STS_INPUT_FULL != 0 {
            let r = self.rx_fifo.pop_front();
            proof {
                assert(self.spec_rx() =~= old(self).spec_rx().drop_first());
            }
            r
        } else {
            None
        }
    }

    /// How many bytes the device has transmitted.
    pub fn tx_len(&self) -> (r: usize)
        ensures
            r == self.spec_tx().len(),
    {
        self.tx_log.len()
    }

    /// The `i`-th transmitted byte, in transmission order.
    pub fn tx_byte_at(&self, i: usize) -> (r: u8)
        requires
            i < self.spec_tx().len(),
        ensures
            r == self.spec_tx()[i as int],
    {
        self.tx_log[i]
    }

    /// The programmed baud divisor.
    pub fn divisor(&self) -> (r: usize)
        ensures
            r == self.spec_divisor(),
    {
        self.divisor
    }

    /// The hardware side: a byte arrives on the wire and enters the FIFO.
    pub fn device_receive(&mut self, byte: u8)
        ensures
            same_setup(*old(self), *final(self)),
            final(self).spec_rx() == old(self).spec_rx().push(byte),
            final(self).spec_tx() == old(self).spec_tx(),
    {
        self.rx_fifo.push_back(byte);
    }
}

/// The device's configuration is the same in both states.
pub open spec fn same_setup(a: Uart16550, b: Uart16550) -> bool {
    &&& a.spec_base_port() == b.spec_base_port()
    &&& a.spec_int_en() == b.spec_int_en()
    &&& a.spec_fifo_ctrl() == b.spec_fifo_ctrl()
    &&& a.spec_line_ctrl() == b.spec_line_ctrl()
    &&& a.spec_modem_ctrl() == b.spec_modem_ctrl()
    &&& a.spec_divisor() == b.spec_divisor()
}

/// Writes a byte to the console, expanding a line feed to carriage return
/// plus line feed.
pub fn putchar(uart: &mut Uart16550, c: u8)
    ensures
        same_setup(*old(uart), *final(uart)),
        final(uart).spec_rx() == old(uart).spec_rx(),
        final(uart).spec_tx() == old(uart).spec_tx() + crlf_byte(c),
{
    if c == 0x0a {
        uart.putchar(0x0d);
        uart.putchar(0x0a);
        proof {
            assert(uart.spec_tx() =~= old(uart).spec_tx() + crlf_byte(c));
        }
    } else {
        uart.putchar(c);
        proof {
            assert(uart.spec_tx() =~= old(uart).spec_tx() + crlf_byte(c));
        }
    }
}

/// Reads a byte from the console, or returns `None` if no input is
/// available. This platform polls the device directly.
pub fn getchar(uart: &mut Uart16550) -> (r: Option<u8>)
    ensures
        same_setup(*old(uart), *final(uart)),
        final(uart).spec_tx() == old(uart).spec_tx(),
        r == (if old(uart).spec_rx().len() > 0 {
            Some(old(uart).spec_rx()[0])
        } else {
            None::<u8>
        }),
        final(uart).spec_rx() == (if old(uart).spec_rx().len() > 0 {
            old(uart).spec_rx().drop_first()
        } else {
            old(uart).spec_rx()
        }),
{
    uart.getchar()
}

/// Writes a slice of bytes to the console, in order, each expanded as
/// [`putchar`] does.
pub fn write_bytes(uart: &mut Uart16550, bytes: &[u8])
    ensures
        same_setup(*old(uart), *final(uart)),
        final(uart).spec_rx() == old(uart).spec_rx(),
        final(uart).spec_tx() == old(uart).spec_tx() + crlf_expand(bytes@),
{
    let n = bytes.len();
    let mut i: usize = 0;
    while i < n
        invariant
            i <= n,
            n == bytes@.len(),
            same_setup(*old(uart), *uart),
            uart.spec_rx() == old(uart).spec_rx(),
            uart.spec_tx() == old(uart).spec_tx() + crlf_expand(bytes@.take(i as int)),
        decreases n - i,
    {
        proof {
            assert(bytes@.take(i as int).push(bytes@[i as int]) =~= bytes@.take(i as int + 1));
            lemma_crlf_expand_snoc(bytes@.take(i as int), bytes@[i as int]);
        }
        putchar(uart, bytes[i]);
        i = i + 1;
    }
    proof {
        assert(bytes@.take(n as int) =~= bytes@);
    }
}

/// Reads bytes from the device into the given buffer, overwriting its prefix
/// in place, until the buffer is filled or the FIFO runs dry. Returns the
/// number of bytes read.
pub fn read_bytes(uart: &mut Uart16550, bytes: &mut Vec<u8>) -> (n: usize)
    ensures
        same_setup(*old(uart), *final(uart)),
        final(uart).spec_tx() == old(uart).spec_tx(),
        n as int == vstd::math::min(old(bytes)@.len() as int, old(uart).spec_rx().len() as int),
        final(bytes)@ == old(uart).spec_rx().take(n as int) + old(bytes)@.skip(n as int),
        final(uart).spec_rx() == old(uart).spec_rx().skip(n as int),
{
    let mut read_len: usize = 0;
    let n = bytes.len();
    loop
        invariant
            read_len <= n,
            n == bytes@.len(),
            old(bytes)@.len() == n,
            read_len <= old(uart).spec_rx().len(),
            same_setup(*old(uart), *uart),
            uart.spec_tx() == old(uart).spec_tx(),
            bytes@ =~= old(uart).spec_rx().take(read_len as int) + old(bytes)@.skip(
                read_len as int,
            ),
            uart.spec_rx() =~= old(uart).spec_rx().skip(read_len as int),
        ensures
            read_len == n || uart.spec_rx().len() == 0,
        decreases n - read_len,
    {
        if read_len >= n {
            break ;
        }
        match uart.getchar() {
            Some(c) => {
                bytes[read_len] = c;
                proof {
                    assert(uart.spec_rx() =~= old(uart).spec_rx().skip(read_len as int + 1));
                    assert(bytes@ =~= old(uart).spec_rx().take(read_len as int + 1) + old(
                        bytes,
                    )@.skip(read_len as int + 1));
                }
                read_len = read_len + 1;
            },
            None => {
                break ;
            },
        }
    }
    read_len
}

/// Sets the standard baud rate. At 115200 baud the divisor comes out to one.
pub fn init(uart: &mut Uart16550)
    ensures
        final(uart).spec_base_port() == old(uart).spec_base_port(),
        final(uart).spec_int_en() == 0,
        final(uart).spec_divisor() == 1,
        final(uart).spec_line_ctrl() == 0x03,
        final(uart).spec_fifo_ctrl() == 0xC7,
        final(uart).spec_modem_ctrl() == 0x0B,
        final(uart).spec_rx() == old(uart).spec_rx(),
        final(uart).spec_tx() == old(uart).spec_tx(),
{
    uart.init(115200);
    proof {
        assert(115200 * UART_CLOCK_FACTOR == OSC_FREQ);
        assert(OSC_FREQ as nat / 1843200 == 1);
    }
}

/// The UART IRQ handler on this platform: moves every ready device byte into
/// the line buffer, dropping bytes silently once the buffer is full.
pub fn uart_irq_handler(uart: &mut Uart16550, buffer: &mut LineBuffer)
    requires
        old(buffer).wf(),
    ensures
        final(buffer).wf(),
        final(buffer).spec_cap() == old(buffer).spec_cap(),
        same_setup(*old(uart), *final(uart)),
        final(uart).spec_tx() == old(uart).spec_tx(),
        final(uart).spec_rx() == Seq::<u8>::empty(),
        final(buffer)@ == old(buffer)@ + old(uart).spec_rx().take(
            vstd::math::min(
                old(uart).spec_rx().len() as int,
                old(buffer).spec_cap() - old(buffer)@.len(),
            ),
        ),
{
    let ghost orig_rx = uart.spec_rx();
    let ghost orig_buf = buffer@;
    let ghost space = buffer.spec_cap() - buffer@.len();
    let ghost mut consumed: int = 0;
    loop
        invariant
            buffer.wf(),
            buffer.spec_cap() == old(buffer).spec_cap(),
            0 <= consumed <= orig_rx.len(),
            orig_rx == old(uart).spec_rx(),
            orig_buf == old(buffer)@,
            space == old(buffer).spec_cap() - old(buffer)@.len(),
            same_setup(*old(uart), *uart),
            uart.spec_tx() == old(uart).spec_tx(),
            uart.spec_rx() =~= orig_rx.skip(consumed),
            buffer@ =~= orig_buf + orig_rx.take(vstd::math::min(consumed, space)),
        decreases orig_rx.len() - consumed,
    {
        match uart.getchar() {
            Some(c) => {
                proof {
                    assert(c == orig_rx[consumed]);
                }
                let _ = buffer.push_byte(c);
                proof {
                    assert(orig_rx.skip(consumed).drop_first() =~= orig_rx.skip(consumed + 1));
                    if consumed < space {
                        assert(buffer@ =~= orig_buf + orig_rx.take(
                            vstd::math::min(consumed + 1, space),
                        ));
                    } else {
                        assert(vstd::math::min(consumed + 1, space) == vstd::math::min(
                            consumed,
                            space,
                        ));
                    }
                    consumed = consumed + 1;
                }
            },
            None => {
                proof {
                    assert(consumed == orig_rx.len());
                    assert(buffer@ =~= old(buffer)@ + old(uart).spec_rx().take(
                        vstd::math::min(old(uart).spec_rx().len() as int, space),
                    ));
                }
                return;
            },
        }
    }
}

} // verus!
