use vstd::prelude::*;

verus! {

/// The 16-bit big-endian value of the byte pair `hi`, `lo`.
pub open spec fn be16(hi: u8, lo: u8) -> u16 {
    (hi as int * 256 + lo as int) as u16
}

/// The two big-endian bytes of `v`.
pub open spec fn be16_bytes(v: u16) -> Seq<u8> {
    seq![(v / 256) as u8, (v % 256) as u8]
}

/// Reading back the bytes of a value gives the value.
pub proof fn lemma_be16_of_bytes(v: u16)
    ensures
        be16(be16_bytes(v)[0], be16_bytes(v)[1]) == v,
{
}

/// Writing out a value read from two bytes gives those bytes.
pub proof fn lemma_bytes_of_be16(hi: u8, lo: u8)
    ensures
        be16_bytes(be16(hi, lo)) == seq![hi, lo],
{
    assert(be16_bytes(be16(hi, lo)) =~= seq![hi, lo]);
}

/// Reads a big-endian 16-bit value from the first two bytes of `s`.
pub fn slice_to_u16(s: &[u8]) -> (r: u16)
    requires
        s@.len() >= 2,
    ensures
        r == be16(s@[0], s@[1]),
{
    let hi = s[0];
    let lo = s[1];
    let r = (hi as u16) << 8 | (lo as u16);
    assert(((hi as u16) << 8 | (lo as u16)) == (hi as int * 256 + lo as int) as u16) by (bit_vector);
    r
}

/// Appends the big-endian bytes of `x` to `v`.
pub fn push_u16(v: &mut Vec<u8>, x: u16)
    ensures
        final(v)@ == old(v)@ + be16_bytes(x),
{
    assert((x >> 8) as u8 == (x / 256) as u8 && (x & 0x00ff) as u8 == (x % 256) as u8) by (bit_vector);
    v.push((x >> 8) as u8);
    v.push((x & 0x00ff) as u8);
    assert(v@ =~= old(v)@ + be16_bytes(x));
}

/// Appends every byte of `a` to `v`, in order.
pub fn push_bytes(v: &mut Vec<u8>, a: &[u8])
    ensures
        final(v)@ == old(v)@ + a@,
{
    let ghost start = v@;
    let mut i: usize = 0;
    while i < a.len()
        invariant
            i <= a@.len(),
            v@ == start + a@.subrange(0, i as int),
        decreases a@.len() - i,
    {
        v.push(a[i]);
        i = i + 1;
        assert(v@ =~= start + a@.subrange(0, i as int));
    }
    assert(a@.subrange(0, a@.len() as int) =~= a@);
}

} // verus!
