//! The console API exposed to the standard-I/O layer: non-blocking reads out
//! of the line buffer with carriage returns mapped to line feeds, and writes
//! through the console device.

use vstd::prelude::*;

use crate::console::{cr_to_lf, crlf_expand};
use crate::line_buffer::LineBuffer;
use crate::pl011::Pl011;

verus! {

/// Reads available console bytes into the buffer's prefix, in place, mapping
/// each carriage return to a line feed, and returns how many bytes were
/// read: as many as are available, up to the buffer's length. Never blocks.
pub fn ax_console_read_bytes(buffer: &mut LineBuffer, bytes: &mut Vec<u8>) -> (n: usize)
    requires
        old(buffer).wf(),
    ensures
        final(buffer).wf(),
        final(buffer).spec_cap() == old(buffer).spec_cap(),
        n as int == vstd::math::min(old(bytes)@.len() as int, old(buffer)@.len() as int),
        final(bytes)@ == old(buffer)@.take(n as int).map_values(|c: u8| cr_to_lf(c)) + old(
            bytes,
        )@.skip(n as int),
        final(buffer)@ == old(buffer)@.skip(n as int),
{
    let n = crate::pl011::read_bytes(buffer, bytes);
    let ghost raw = old(buffer)@.take(n as int);
    let ghost mapped = raw.map_values(|c: u8| cr_to_lf(c));
    let mut i: usize = 0;
    while i < n
        invariant
            i <= n,
            n <= bytes@.len(),
            bytes@.len() == old(bytes)@.len(),
            raw == old(buffer)@.take(n as int),
            mapped == raw.map_values(|c: u8| cr_to_lf(c)),
            raw.len() == n,
            buffer.wf(),
            buffer.spec_cap() == old(buffer).spec_cap(),
            buffer@ == old(buffer)@.skip(n as int),
            bytes@ =~= mapped.take(i as int) + raw.skip(i as int) + old(bytes)@.skip(n as int),
        decreases n - i,
    {
        let c = bytes[i];
        proof {
            assert(c == raw[i as int]);
        }
        if c == 0x0d {
            bytes[i] = 0x0a;
        }
        proof {
            assert(bytes@[i as int] == mapped[i as int]);
            assert(raw.skip(i as int).drop_first() =~= raw.skip(i as int + 1));
            assert(bytes@ =~= mapped.take(i as int + 1) + raw.skip(i as int + 1) + old(
                bytes,
            )@.skip(n as int));
        }
        i = i + 1;
    }
    proof {
        assert(mapped.take(n as int) =~= mapped);
        assert(raw.skip(n as int) =~= Seq::<u8>::empty());
        assert(bytes@ =~= mapped + old(bytes)@.skip(n as int));
    }
    n
}

/// Writes the bytes to the console device, with the usual line-feed
/// expansion, and reports them all written.
pub fn ax_console_write_bytes(uart: &mut Pl011, bytes: &[u8]) -> (n: usize)
    ensures
        final(uart).spec_rx() == old(uart).spec_rx(),
        final(uart).spec_tx() == old(uart).spec_tx() + crlf_expand(bytes@),
        final(uart).spec_receive_interrupt() == old(uart).spec_receive_interrupt(),
        final(uart).spec_initialized() == old(uart).spec_initialized(),
        n == bytes@.len(),
{
    crate::pl011::write_bytes(uart, bytes);
    bytes.len()
}

} // verus!
