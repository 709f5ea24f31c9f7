//! Small functions on numbers and ordered values.

use vstd::prelude::*;
use vstd::std_specs::cmp::{PartialOrdIs, PartialOrdSpec};

verus! {

/// The successor of `x`, which must not be the largest `i32`.
pub fn plus_one(x: i32) -> (y: i32)
    requires
        x < i32::MAX,
    ensures
        y == x + 1,
{
    x + 1
}

/// Whether comparisons on `T` agree with its specified order.
pub open spec fn ordered<T: PartialOrd>() -> bool {
    T::obeys_partial_cmp_spec()
}

/// Whether `a` is strictly greater than `b` in the order of `T`.
pub open spec fn exceeds<T: PartialOrd>(a: T, b: T) -> bool {
    a.is_gt(&b)
}

/// The index that a scan of the first `n` items settles on: it starts
/// at the first item and moves to each item that exceeds the one it is
/// at.
pub open spec fn leader<T: PartialOrd>(items: Seq<T>, n: nat) -> int
    decreases n,
{
    if n <= 1 {
        0
    } else {
        let earlier = leader(items, (n - 1) as nat);
        if exceeds(items[n - 1], items[earlier]) {
            n - 1
        } else {
            earlier
        }
    }
}

/// The leader is one of the first `n` items.
pub proof fn lemma_leader_in_range<T: PartialOrd>(items: Seq<T>, n: nat)
    requires
        0 < n <= items.len(),
    ensures
        0 <= leader(items, n) < n,
    decreases n,
{
    if n > 1 {
        lemma_leader_in_range(items, (n - 1) as nat);
    }
}

/// The largest item of a list that is not empty: the item that a scan
/// from the front settles on, so the first of several equal maxima.
/// Where comparisons on `T` follow no specified order, the result is
/// still one of the items.
pub fn largest<T: PartialOrd>(list: &[T]) -> (found: &T)
    requires
        list.len() > 0,
    ensures
        exists|i: int| 0 <= i < list.len() && *found == list@[i],
        ordered::<T>() ==> *found == list@[leader(list@, list@.len())],
{
    let mut at: usize = 0;
    let mut i: usize = 1;
    while i < list.len()
        invariant
            1 <= i <= list.len(),
            at < i,
            ordered::<T>() ==> at == leader(list@, i as nat),
        decreases list.len() - i,
    {
        if list[i] > list[at] {
            at = i;
        }
        i += 1;
    }
    &list[at]
}

/// Among whole numbers the scan settles on a maximum, and on the first
/// of several: nothing before it is as large, and nothing at all is
/// larger.
pub proof fn law_largest_integer_is_first_maximum(items: Seq<i32>, n: nat)
    requires
        0 < n <= items.len(),
    ensures
        forall|j: int| 0 <= j < n ==> #[trigger] items[j] <= items[leader(items, n)],
        forall|j: int| 0 <= j < leader(items, n) ==> #[trigger] items[j] < items[leader(items, n)],
    decreases n,
{
    if n > 1 {
        law_largest_integer_is_first_maximum(items, (n - 1) as nat);
        lemma_leader_in_range(items, (n - 1) as nat);
    }
}

} // verus!
