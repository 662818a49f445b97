//! Byte buffers of a length fixed by their type.
use vstd::prelude::*;

verus! {

/// Copies `bytes` into an array of `N` bytes, if `bytes` has exactly that
/// length.  A buffer of any other length is refused, never cut or padded.
pub fn to_fixed<const N: usize>(bytes: &[u8]) -> (out: Option<[u8; N]>)
    ensures
        match out {
            Some(array) => array@ == bytes@,
            None => bytes@.len() != N,
        },
{
    if bytes.len() != N {
        return None;
    }
    let mut array = [0u8; N];
    let mut i: usize = 0;
    while i < N
        invariant
            i <= N,
            bytes@.len() == N,
            array@.subrange(0, i as int) == bytes@.subrange(0, i as int),
        decreases N - i,
    {
        array[i] = bytes[i];
        i = i + 1;
        assert(array@.subrange(0, i as int) =~= bytes@.subrange(0, i as int));
    }
    assert(array@ =~= array@.subrange(0, N as int));
    assert(bytes@ =~= bytes@.subrange(0, N as int));
    Some(array)
}

} // verus!
