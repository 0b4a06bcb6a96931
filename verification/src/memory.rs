//! Copying runs of bytes between the fixed arrays of the machine.

use vstd::prelude::*;

verus! {

/// `dst` with `src` written over it from position `at` on.
pub open spec fn overwritten(dst: Seq<u8>, at: int, src: Seq<u8>) -> Seq<u8> {
    Seq::new(
        dst.len(),
        |a: int|
            if at <= a < at + src.len() {
                src[a - at]
            } else {
                dst[a]
            },
    )
}

/// Copies `count` bytes from `src`, starting at `from`, over `dst`, starting
/// at `to`. Both runs have to lie inside their arrays.
pub(crate) fn copy_bytes<const N: usize, const M: usize>(
    dst: &mut [u8; N],
    to: usize,
    src: &[u8; M],
    from: usize,
    count: usize,
)
    requires
        to + count <= N,
        from + count <= M,
    ensures
        final(dst)@ == overwritten(old(dst)@, to as int, src@.subrange(from as int, from + count)),
    no_unwind
{
    let mut k: usize = 0;
    while k < count
        invariant
            k <= count,
            to + count <= N,
            from + count <= M,
            forall|a: int|
                0 <= a < N ==> dst[a] == if to <= a < to + k {
                    src[a - to + from]
                } else {
                    old(dst)[a]
                },
        decreases count - k,
    {
        dst[to + k] = src[from + k];
        k += 1;
    }
}

} // verus!
