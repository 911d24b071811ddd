//! The bounded line buffer that the drain task fills and blocking console
//! readers empty. Push is a silent no-op once the buffer is full
//! (drop-newest), matching the bridge's overflow policy.

use std::collections::VecDeque;
use vstd::prelude::*;

verus! {

/// The capacity the kernel gives the console receive buffer.
pub const LINE_BUFFER_CAPACITY: usize = 1024;

pub struct LineBuffer {
    buf: VecDeque<u8>,
    cap: usize,
}

impl LineBuffer {
    /// The buffered bytes, oldest first.
    pub closed spec fn view(&self) -> Seq<u8> {
        self.buf@
    }

    /// The fixed capacity the buffer was created with.
    pub closed spec fn spec_cap(&self) -> nat {
        self.cap as nat
    }

    pub open spec fn wf(&self) -> bool {
        &&& 1 <= self.spec_cap()
        &&& self@.len() <= self.spec_cap()
    }

    pub fn new(capacity: usize) -> (r: LineBuffer)
        requires
            1 <= capacity,
        ensures
            r.wf(),
            r@ == Seq::<u8>::empty(),
            r.spec_cap() == capacity,
    {
        LineBuffer { buf: VecDeque::new(), cap: capacity }
    }

    /// Appends one byte, or silently drops it when the buffer is full.
    /// Returns whether the byte was stored.
    pub fn push_byte(&mut self, b: u8) -> (stored: bool)
        requires
            old(self).wf(),
        ensures
            final(self).wf(),
            final(self).spec_cap() == old(self).spec_cap(),
            stored == (old(self)@.len() < old(self).spec_cap()),
            final(self)@ == (if old(self)@.len() < old(self).spec_cap() {
                old(self)@.push(b)
            } else {
                old(self)@
            }),
    {
        if self.buf.len() < self.cap {
            self.buf.push_back(b);
            true
        } else {
            false
        }
    }

    /// Removes and returns the oldest byte, or `None` when empty. This is the
    /// path a console `getchar` takes.
    pub fn pop_byte(&mut self) -> (r: Option<u8>)
        requires
            old(self).wf(),
        ensures
            final(self).wf(),
            final(self).spec_cap() == old(self).spec_cap(),
            r == (if old(self)@.len() > 0 {
                Some(old(self)@[0])
            } else {
                None::<u8>
            }),
            final(self)@ == (if old(self)@.len() > 0 {
                old(self)@.drop_first()
            } else {
                old(self)@
            }),
    {
        let r = self.buf.pop_front();
        proof {
            if old(self)@.len() > 0 {
                assert(self@ =~= old(self)@.drop_first());
            }
        }
        r
    }

    /// The byte at position `i`, counting from the oldest.
    pub fn byte_at(&self, i: usize) -> (r: u8)
        requires
            self.wf(),
            i < self@.len(),
        ensures
            r == self@[i as int],
    {
        self.buf[i]
    }

    pub fn len(&self) -> (r: usize)
        requires
            self.wf(),
        ensures
            r == self@.len(),
    {
        self.buf.len()
    }

    pub fn capacity(&self) -> (r: usize)
        requires
            self.wf(),
        ensures
            r == self.spec_cap(),
    {
        self.cap
    }
}

} // verus!
