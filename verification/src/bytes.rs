//! Small verified byte-vector helpers.

use vstd::prelude::*;

verus! {

/// A fresh vector holding `v[from..to]`.
pub fn copy_range(v: &Vec<u8>, from: usize, to: usize) -> (r: Vec<u8>)
    requires
        from <= to <= v@.len(),
    ensures
        r@ == v@.subrange(from as int, to as int),
{
    let mut r: Vec<u8> = Vec::new();
    let mut i: usize = from;
    while i < to
        invariant
            from <= i <= to <= v@.len(),
            r@ == v@.subrange(from as int, i as int),
        decreases to - i,
    {
        r.push(v[i]);
        i = i + 1;
        proof {
            assert(v@.subrange(from as int, i - 1) + seq![v@[i - 1]] =~= v@.subrange(
                from as int,
                i as int,
            ));
        }
    }
    r
}

/// A vector of `len` zero bytes, as an update buffer for the cipher.
pub fn zero_vec(len: usize) -> (r: Vec<u8>)
    ensures
        r@.len() == len,
{
    let mut r: Vec<u8> = Vec::new();
    r.resize(len, 0u8);
    r
}

} // verus!
