//! Exercises in handing out references into caller-owned data.
use vstd::prelude::*;

verus! {

/// The index `f2` picks: clamp `n` to the length, floor it at one, and
/// step back to a zero-based index.
pub open spec fn clamped_index(len: nat, n: nat) -> int {
    if n == 0 {
        0
    } else if n <= len {
        n - 1
    } else {
        len - 1
    }
}

/// A mutable borrow of one element of the pair: the second when `second`
/// is set, the first otherwise.
pub fn f1(tuple: &mut (u32, u32), second: bool) -> (r: &mut u32)
    ensures
        second ==> *r == old(tuple).1 && *final(tuple) == (old(tuple).0, *final(r)),
        !second ==> *r == old(tuple).0 && *final(tuple) == (*final(r), old(tuple).1),
{
    if second {
        &mut tuple.1
    } else {
        &mut tuple.0
    }
}

/// A mutable borrow of the element at `n`, counted from one and clamped
/// to the slice; `n == 0` also means the first element.
pub fn f2(slice: &mut [u32], n: usize) -> (r: &mut u32)
    requires
        old(slice)@.len() > 0,
    ensures
        *r == old(slice)@[clamped_index(old(slice)@.len(), n as nat)],
        final(slice)@ == old(slice)@.update(
            clamped_index(old(slice)@.len(), n as nat),
            *final(r),
        ),
{
    let len: usize = slice.len();
    let mut n: usize = if len < n {
        len
    } else {
        n
    };
    if n == 0 {
        n = 1;
    }
    &mut slice[n - 1]
}

/// A borrow of the element at `n`, counted from one and clamped, this
/// time from the back of the slice.
pub fn f3(slice: &[u32], n: usize) -> (r: &u32)
    requires
        slice@.len() > 0,
    ensures
        *r == slice@[slice@.len() - 1 - clamped_index(slice@.len(), n as nat)],
{
    let len: usize = slice.len();
    let mut n: usize = if len < n {
        len
    } else {
        n
    };
    if n == 0 {
        n = 1;
    }
    &slice[len - n]
}

/// The slice cut into four quarters; the last quarter also takes the
/// remainder.
pub fn f4(slice: &[u32]) -> (r: (&[u32], &[u32], &[u32], &[u32]))
    ensures
        ({
            let n: int = slice@.len() as int / 4;
            &&& r.0@ == slice@.subrange(0, n)
            &&& r.1@ == slice@.subrange(n, 2 * n)
            &&& r.2@ == slice@.subrange(2 * n, 3 * n)
            &&& r.3@ == slice@.subrange(3 * n, slice@.len() as int)
        }),
{
    let n: usize = slice.len() / 4;
    (&slice[0..n], &slice[n..2 * n], &slice[2 * n..3 * n], &slice[3 * n..slice.len()])
}

} // verus!
