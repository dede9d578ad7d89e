//! Small generic helpers.

use vstd::prelude::*;
use vstd::pervasive::cloned;

verus! {

/// `n` copies of `element`, materialised as a vector; each entry is a
/// clone of the given element.
pub fn repeater<T: Clone>(n: usize, element: T) -> (r: Vec<T>)
    ensures
        r@.len() == n,
        forall|j: int| 0 <= j < n ==> cloned::<T>(element, #[trigger] r@[j]),
{
    let mut r: Vec<T> = Vec::new();
    let mut i: usize = 0;
    while i < n
        invariant
            i <= n,
            r@.len() == i,
            forall|j: int| 0 <= j < i ==> cloned::<T>(element, #[trigger] r@[j]),
        decreases n - i,
    {
        r.push(element.clone());
        i = i + 1;
    }
    r
}

} // verus!
