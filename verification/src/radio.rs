//! The byte strings that cross the boundary to the radio driver.
//!
//! The driver takes network names and credentials as byte sequences that end
//! at the first zero byte. Nothing else is assumed of them.

use vstd::prelude::*;

verus! {

/// `out` is `src` as the driver reads it: the bytes of `src` before its first
/// zero byte, all of them where it has none, and then one zero byte.
pub open spec fn frames(src: Seq<u8>, out: Seq<u8>) -> bool {
    let n = out.len() - 1;
    &&& 0 <= n <= src.len()
    &&& out[n] == 0
    &&& forall|i: int| 0 <= i < n ==> out[i] == src[i] && src[i] != 0
    &&& n < src.len() ==> src[n] == 0
}

/// Only one byte string frames a given one.
pub proof fn frame_is_unique(src: Seq<u8>, a: Seq<u8>, b: Seq<u8>)
    requires
        frames(src, a),
        frames(src, b),
    ensures
        a == b,
{
    let n = a.len() - 1;
    let k = b.len() - 1;
    if n < k {
        assert(src[n] == 0 && b[n] == src[n] && src[n] != 0);
    }
    if k < n {
        assert(src[k] == 0 && a[k] == src[k] && src[k] != 0);
    }
    assert(a =~= b);
}

/// Framing what is framed already changes nothing.
pub proof fn frame_is_stable(src: Seq<u8>, out: Seq<u8>)
    requires
        frames(src, out),
    ensures
        frames(out, out),
{
}

/// Makes the zero-terminated form of `src` for the driver.
pub fn terminated(src: &Vec<u8>) -> (out: Vec<u8>)
    ensures
        frames(src@, out@),
{
    let mut out: Vec<u8> = Vec::new();
    let mut i: usize = 0;
    while i < src.len() && src[i] != 0
        invariant
            i <= src.len(),
            out@.len() == i,
            forall|j: int| 0 <= j < i ==> out@[j] == src@[j] && src@[j] != 0,
        decreases src.len() - i,
    {
        out.push(src[i]);
        i += 1;
    }
    out.push(0);
    out
}

} // verus!
