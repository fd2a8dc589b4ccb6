//! Python sequence indexing: negative indices count from the end.

use vstd::prelude::*;

verus! {

/// The position that the Python index `index` denotes in a sequence of
/// length `len`, if any: negative indices count from the end.
pub open spec fn python_index(index: int, len: int) -> Option<int> {
    let i = if index < 0 { index + len } else { index };
    if 0 <= i < len {
        Some(i)
    } else {
        None
    }
}

/// Resolves a Python index against a sequence of length `len`
/// (`__getitem__` of the vector types and of `SphereCollection`).
pub fn resolve_index(index: isize, len: usize) -> (r: Option<usize>)
    ensures
        r is Some <==> python_index(index as int, len as int) is Some,
        r matches Some(i) ==> python_index(index as int, len as int) == Some(i as int),
{
    if index >= 0 {
        let i = index as usize;
        if i < len {
            Some(i)
        } else {
            None
        }
    } else {
        let back: usize = ((-(index + 1)) as usize) + 1;
        if back <= len {
            Some(len - back)
        } else {
            None
        }
    }
}

/// The item that a Python index selects, if any (`v[-1]` is the last item).
pub fn item_at<T: Copy>(items: &[T], index: isize) -> (r: Option<T>)
    ensures
        r == (match python_index(index as int, items@.len() as int) {
            Some(i) => Some(items@[i]),
            None => None::<T>,
        }),
{
    match resolve_index(index, items.len()) {
        Some(i) => Some(items[i]),
        None => None,
    }
}

/// Checks a non-negative row, column or element index against a bound
/// (`col`, `row` and `get` of the matrix and collection types).
pub fn checked_index(index: usize, len: usize) -> (r: Option<usize>)
    ensures
        r == (if index < len {
            Some(index)
        } else {
            None::<usize>
        }),
{
    if index < len {
        Some(index)
    } else {
        None
    }
}

/// A negative index names the same item as the non-negative index that is
/// `len` larger, and every index that resolves lands inside the sequence.
pub proof fn lemma_negative_index_alias(i: int, len: int)
    requires
        0 <= i < len,
    ensures
        python_index(i - len, len) == Some(i),
        python_index(i, len) == Some(i),
{
}

/// An index resolves exactly when it lies in `-len..len`, and then to a
/// position inside the sequence.
pub proof fn lemma_resolved_in_bounds(index: int, len: int)
    requires
        len >= 0,
    ensures
        python_index(index, len) is Some <==> -len <= index < len,
        python_index(index, len) matches Some(i) ==> 0 <= i < len,
{
}

} // verus!
