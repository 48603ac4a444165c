//! The XOR checksum that guards frame payloads on the wire.

use vstd::prelude::*;

verus! {

/// XOR of all bytes of `s`; zero for the empty sequence.
pub open spec fn checksum(s: Seq<u8>) -> u8
    decreases s.len(),
{
    if s.len() == 0 {
        0u8
    } else {
        checksum(s.drop_last()) ^ s.last()
    }
}

/// XOR-reduces a byte range.
pub fn calc_checksum(d: &[u8]) -> (c: u8)
    ensures
        c == checksum(d@),
{
    let mut c: u8 = 0;
    let mut i: usize = 0;
    while i < d.len()
        invariant
            i <= d.len(),
            c == checksum(d@.take(i as int)),
        decreases d.len() - i,
    {
        proof {
            assert(d@.take(i + 1).drop_last() =~= d@.take(i as int));
        }
        c = c ^ d[i];
        i += 1;
    }
    proof {
        assert(d@.take(d.len() as int) =~= d@);
    }
    c
}

/// The checksum of nothing is zero.
pub proof fn lemma_checksum_empty()
    ensures
        checksum(Seq::<u8>::empty()) == 0,
{
}

/// The checksum of a single byte is that byte.
pub proof fn lemma_checksum_single(x: u8)
    ensures
        checksum(seq![x]) == x,
{
    assert(seq![x].drop_last() =~= Seq::<u8>::empty());
    assert(checksum(seq![x].drop_last()) == 0);
    assert(0u8 ^ x == x) by (bit_vector);
}

/// The checksum of a concatenation is the XOR of the checksums of its parts.
pub proof fn lemma_checksum_concat(a: Seq<u8>, b: Seq<u8>)
    ensures
        checksum(a + b) == checksum(a) ^ checksum(b),
    decreases b.len(),
{
    let ca = checksum(a);
    if b.len() == 0 {
        assert(a + b =~= a);
        assert(ca ^ 0u8 == ca) by (bit_vector);
    } else {
        let init = b.drop_last();
        let x = b.last();
        lemma_checksum_concat(a, init);
        assert((a + b).drop_last() =~= a + init);
        assert((a + b).last() == x);
        let ci = checksum(init);
        assert((ca ^ ci) ^ x == ca ^ (ci ^ x)) by (bit_vector);
    }
}

} // verus!
