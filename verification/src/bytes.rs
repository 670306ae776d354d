//! Little-endian serialization of the 32-bit words that make up the
//! packed scene buffer.

use vstd::prelude::*;

verus! {

/// The four bytes of `x` in little-endian order.
pub open spec fn spec_u32_le(x: u32) -> Seq<u8> {
    seq![
        (x & 0xff) as u8,
        ((x >> 8) & 0xff) as u8,
        ((x >> 16) & 0xff) as u8,
        ((x >> 24) & 0xff) as u8,
    ]
}

/// Appends the little-endian bytes of `x` to `data`.
pub fn push_u32_le(data: &mut Vec<u8>, x: u32)
    ensures
        final(data)@ == old(data)@ + spec_u32_le(x),
{
    data.push((x & 0xff) as u8);
    data.push(((x >> 8) & 0xff) as u8);
    data.push(((x >> 16) & 0xff) as u8);
    data.push(((x >> 24) & 0xff) as u8);
    proof {
        assert(data@ =~= old(data)@ + spec_u32_le(x));
    }
}

/// Appends a copy of every element of `src` to `dst`.
pub fn extend_copy<T: Copy>(dst: &mut Vec<T>, src: &Vec<T>)
    ensures
        final(dst)@ == old(dst)@ + src@,
{
    let mut i: usize = 0;
    while i < src.len()
        invariant
            i <= src@.len(),
            dst@ == old(dst)@ + src@.subrange(0, i as int),
        decreases src@.len() - i,
    {
        dst.push(src[i]);
        i = i + 1;
        proof {
            assert(dst@ =~= old(dst)@ + src@.subrange(0, i as int));
        }
    }
    proof {
        assert(dst@ =~= old(dst)@ + src@);
    }
}

} // verus!
