//! Byte transforms shared by the console paths: line-feed expansion on the
//! way out to a serial device, and carriage-return mapping on the way in to
//! console readers.

use vstd::prelude::*;

verus! {

/// What the console writes to the wire for one byte: a line feed becomes
/// carriage return plus line feed, everything else passes through.
pub open spec fn crlf_byte(c: u8) -> Seq<u8> {
    if c == 0x0a {
        seq![0x0du8, 0x0au8]
    } else {
        seq![c]
    }
}

/// Line-feed expansion over a whole sequence, in order.
pub open spec fn crlf_expand(s: Seq<u8>) -> Seq<u8>
    decreases s.len(),
{
    if s.len() == 0 {
        Seq::<u8>::empty()
    } else {
        crlf_byte(s[0]) + crlf_expand(s.drop_first())
    }
}

/// Expanding one more byte appends its expansion.
pub proof fn lemma_crlf_expand_snoc(s: Seq<u8>, c: u8)
    ensures
        crlf_expand(s.push(c)) == crlf_expand(s) + crlf_byte(c),
    decreases s.len(),
{
    if s.len() == 0 {
        assert(s.push(c)[0] == c);
        assert(s.push(c).drop_first() =~= Seq::<u8>::empty());
        assert(crlf_expand(s.push(c)) == crlf_byte(c) + crlf_expand(Seq::<u8>::empty()));
        assert(crlf_expand(s.push(c)) =~= crlf_expand(s) + crlf_byte(c));
    } else {
        assert(s.push(c).drop_first() =~= s.drop_first().push(c));
        lemma_crlf_expand_snoc(s.drop_first(), c);
        assert(crlf_byte(s[0]) + (crlf_expand(s.drop_first()) + crlf_byte(c)) =~= (crlf_byte(s[0])
            + crlf_expand(s.drop_first())) + crlf_byte(c));
    }
}

/// What console input does to one byte: a carriage return becomes a line
/// feed, everything else passes through.
pub open spec fn cr_to_lf(c: u8) -> u8 {
    if c == 0x0d {
        0x0a
    } else {
        c
    }
}

} // verus!
