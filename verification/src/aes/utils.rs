//! Conversions from slices to arrays of a fixed length.
use vstd::prelude::*;
use std::ops::Range;

verus! {

/// The error of a conversion to an array: the slice does not have the
/// array's length.
#[derive(Debug, Clone, Copy, PartialEq, Eq)]
pub struct LengthMismatch;

/// The part of `slice` that `range` selects, as an array of `N` bytes. It is
/// an error if the range does not hold exactly `N` bytes.
pub fn to_arr_range<const N: usize>(slice: &[u8], range: Range<usize>) -> (r: Result<
    [u8; N],
    LengthMismatch,
>)
    requires
        range.start <= range.end <= slice@.len(),
    ensures
        r is Ok <==> range.end - range.start == N,
        r matches Ok(a) ==> a@ == slice@.subrange(range.start as int, range.end as int),
{
    to_arr(&slice[range])
}

/// The whole of `slice` as an array of `N` bytes. It is an error if the
/// slice does not hold exactly `N` bytes.
pub fn to_arr<const N: usize>(slice: &[u8]) -> (r: Result<[u8; N], LengthMismatch>)
    ensures
        r is Ok <==> slice@.len() == N,
        r matches Ok(a) ==> a@ == slice@,
{
    if slice.len() != N {
        return Err(LengthMismatch);
    }
    let mut arr = [0u8; N];
    for i in 0..N
        invariant
            slice@.len() == N,
            forall|j: int| 0 <= j < i ==> arr@[j] == slice@[j],
    {
        arr[i] = slice[i];
    }
    assert(arr@ =~= slice@);
    Ok(arr)
}

/// The sixteen bytes of `slice` that start at the 4-byte word `word_idx`.
pub fn word4(slice: &[u8], word_idx: usize) -> (r: Result<[u8; 16], LengthMismatch>)
    requires
        16 + word_idx * 4 <= slice@.len(),
    ensures
        r matches Ok(a) && a@ == slice@.subrange(word_idx * 4, word_idx * 4 + 16),
{
    let len = slice.len();
    assert(16 + word_idx * 4 <= len);
    to_arr_range(slice, (word_idx * 4)..(16 + word_idx * 4))
}

} // verus!
