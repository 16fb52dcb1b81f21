//! Removal of marked items.
//!
//! While a tick goes through a list it only marks what has to go. The
//! list is rebuilt once, afterwards, so that no position shifts while
//! positions are still in use.

use vstd::prelude::*;

verus! {

/// The items of `items` whose mark in `gone` is not set, in their order.
pub open spec fn kept<T>(items: Seq<T>, gone: Seq<bool>) -> Seq<T>
    decreases items.len(),
{
    if items.len() == 0 {
        Seq::empty()
    } else {
        let before = kept(items.drop_last(), gone.drop_last());
        if gone[items.len() - 1] {
            before
        } else {
            before.push(items.last())
        }
    }
}

/// The number of marks among the first `k` of `gone` that are not set.
pub open spec fn unmarked_before(gone: Seq<bool>, k: int) -> int
    decreases k,
{
    if k <= 0 {
        0
    } else {
        unmarked_before(gone, k - 1) + if gone[k - 1] {
            0int
        } else {
            1int
        }
    }
}

/// `item` stands at place `at` of `list`.
pub open spec fn placed<T>(list: Seq<T>, item: T, at: int) -> bool {
    0 <= at < list.len() && list[at] == item
}

/// What is kept is exactly what is not marked, each item once and in
/// the old order: an unmarked item stands at the place that the number of
/// unmarked items before it gives, and there are no other places.
pub proof fn lemma_kept_exactly_unmarked<T>(items: Seq<T>, gone: Seq<bool>)
    requires
        items.len() == gone.len(),
    ensures
        kept(items, gone).len() == unmarked_before(gone, items.len() as int),
        forall|i: int|
            0 <= i < items.len() && !gone[i] ==> placed(kept(items, gone), #[trigger] items[i], unmarked_before(gone, i)),
{
    lemma_kept_len(items, gone);
    assert forall|i: int| 0 <= i < items.len() && !gone[i] implies placed(
        kept(items, gone),
        #[trigger] items[i],
        unmarked_before(gone, i),
    ) by {
        lemma_kept_place(items, gone, i);
    }
}

/// Place `at` of what is kept holds item `i`, which is not marked and has
/// `at` unmarked items before it.
pub open spec fn came_from<T>(items: Seq<T>, gone: Seq<bool>, i: int, at: int) -> bool {
    &&& 0 <= i < items.len()
    &&& !gone[i]
    &&& 0 <= at < kept(items, gone).len()
    &&& kept(items, gone)[at] == items[i]
    &&& unmarked_before(gone, i) == at
}

/// Nothing is kept that was marked: every place of what is kept holds an
/// item whose mark is not set.
pub proof fn lemma_kept_only_unmarked<T>(items: Seq<T>, gone: Seq<bool>, at: int)
    requires
        items.len() == gone.len(),
        0 <= at < kept(items, gone).len(),
    ensures
        exists|i: int| #[trigger] came_from(items, gone, i, at),
    decreases items.len(),
{
    let n = items.len() as int;
    if n > 0 {
        let head = items.drop_last();
        let marks = gone.drop_last();
        let before = kept(head, marks);
        lemma_kept_len(head, marks);
        if at < before.len() {
            lemma_kept_only_unmarked(head, marks, at);
            let i = choose|i: int| #[trigger] came_from(head, marks, i, at);
            lemma_unmarked_before_prefix(gone, marks, i);
            assert(came_from(items, gone, i, at));
        } else {
            lemma_unmarked_before_prefix(gone, marks, n - 1);
            assert(came_from(items, gone, n - 1, at));
        }
    }
}

/// As many items are kept as marks are not set.
proof fn lemma_kept_len<T>(items: Seq<T>, gone: Seq<bool>)
    requires
        items.len() == gone.len(),
    ensures
        kept(items, gone).len() == unmarked_before(gone, items.len() as int),
    decreases items.len(),
{
    let n = items.len() as int;
    if n > 0 {
        lemma_kept_len(items.drop_last(), gone.drop_last());
        lemma_unmarked_before_prefix(gone, gone.drop_last(), n - 1);
    }
}

/// The unmarked item `i` is kept at the place that the number of unmarked
/// items before it gives.
proof fn lemma_kept_place<T>(items: Seq<T>, gone: Seq<bool>, i: int)
    requires
        items.len() == gone.len(),
        0 <= i < items.len(),
        !gone[i],
    ensures
        0 <= unmarked_before(gone, i) < kept(items, gone).len(),
        kept(items, gone)[unmarked_before(gone, i)] == items[i],
    decreases items.len(),
{
    let n = items.len() as int;
    let head = items.drop_last();
    let marks = gone.drop_last();
    lemma_kept_len(head, marks);
    lemma_unmarked_before_prefix(gone, marks, n - 1);
    lemma_unmarked_before_prefix(gone, marks, i);
    if i < n - 1 {
        lemma_kept_place(head, marks, i);
    } else {
        lemma_unmarked_nonnegative(marks, n - 1);
    }
}

/// A count is not negative.
proof fn lemma_unmarked_nonnegative(gone: Seq<bool>, k: int)
    ensures
        0 <= unmarked_before(gone, k),
    decreases k,
{
    if k > 0 {
        lemma_unmarked_nonnegative(gone, k - 1);
    }
}

/// The count of unmarked places before `k` looks only at the places before `k`.
proof fn lemma_unmarked_before_prefix(gone: Seq<bool>, marks: Seq<bool>, k: int)
    requires
        k <= marks.len() <= gone.len(),
        forall|i: int| 0 <= i < marks.len() ==> marks[i] == gone[i],
    ensures
        unmarked_before(gone, k) == unmarked_before(marks, k),
    decreases k,
{
    if k > 0 {
        lemma_unmarked_before_prefix(gone, marks, k - 1);
    }
}

/// The items of `items` whose mark in `gone` is not set, in their order.
pub fn keep_unmarked<T: Copy>(items: &Vec<T>, gone: &Vec<bool>) -> (left: Vec<T>)
    requires
        items.len() == gone.len(),
    ensures
        left@ == kept(items@, gone@),
{
    let mut left: Vec<T> = Vec::new();
    let n = items.len();
    let mut i: usize = 0;
    while i < n
        invariant
            i <= n,
            n == items.len(),
            n == gone.len(),
            left@ == kept(items@.take(i as int), gone@.take(i as int)),
        decreases n - i,
    {
        proof {
            assert(items@.take(i + 1).drop_last() =~= items@.take(i as int));
            assert(gone@.take(i + 1).drop_last() =~= gone@.take(i as int));
        }
        if !gone[i] {
            left.push(items[i]);
        }
        i += 1;
    }
    proof {
        assert(items@.take(n as int) =~= items@);
        assert(gone@.take(n as int) =~= gone@);
    }
    left
}

} // verus!
