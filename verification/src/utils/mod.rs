//! Units of measurement and small helpers shared by the whole crate.

use vstd::prelude::*;

pub mod math;
pub mod measurement;

verus! {

/// Calls `core::array::from_fn` with the closure that picks element `i` of
/// `slice` for place `i` of the array. By its documentation the array then
/// holds, in each place, what the closure gave for the index of that place:
/// the first `N` elements of the slice, in their order. The closure indexes
/// the slice at less than `N` only, which the precondition keeps in bounds.
#[verifier::external_body]
fn array_from_fn_picking<T: Copy, const N: usize>(slice: &[T]) -> (array: [T; N])
    requires
        slice@.len() >= N,
    ensures
        array@ == slice@.take(N as int),
{
    core::array::from_fn(|i| slice[i])
}

/// Converts `slice` to an array of the length `N`, which holds the first `N`
/// elements of the slice. The slice must hold that many.
pub fn slice_to_array<T, const N: usize>(slice: &[T]) -> (array: [T; N]) where T: Clone + Copy
    requires
        slice@.len() >= N,
    ensures
        array@ == slice@.take(N as int),
        forall|i: int| 0 <= i < N ==> array@[i] == slice@[i],
{
    array_from_fn_picking(slice)
}

/// Converts `slice` to an array of the length `N`, which holds the first `N`
/// elements of the slice and, where the slice is shorter, `fill` in the
/// places that are left.
pub fn slice_to_array_filled<T, const N: usize>(slice: &[T], fill: T) -> (array: [T; N]) where
    T: Clone + Copy,

    ensures
        forall|i: int|
            0 <= i < N ==> array@[i] == if i < slice@.len() {
                slice@[i]
            } else {
                fill
            },
{
    let mut array: [T; N] = [fill;N];
    let mut i: usize = 0;
    while i < N && i < slice.len()
        invariant
            i <= N,
            i <= slice@.len(),
            forall|j: int| 0 <= j < i ==> array@[j] == slice@[j],
            forall|j: int| i <= j < N ==> array@[j] == fill,
        decreases N - i,
    {
        array[i] = slice[i];
        i += 1;
    }
    array
}

} // verus!
