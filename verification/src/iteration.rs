use vstd::prelude::*;

verus! {

/// One step of handing out items in order: the first remaining item and
/// the items after it, or nothing once none remain.
pub open spec fn queue_next<T>(remaining: Seq<T>) -> (Option<T>, Seq<T>) {
    if remaining.len() == 0 {
        (None, remaining)
    } else {
        (Some(remaining[0]), remaining.drop_first())
    }
}

/// The items that remain after `k` steps.
pub open spec fn queue_after<T>(remaining: Seq<T>, k: nat) -> Seq<T>
    decreases k,
{
    if k == 0 {
        remaining
    } else {
        queue_next(queue_after(remaining, (k - 1) as nat)).1
    }
}

/// Handing out the items of a list one step at a time yields each item
/// exactly once, in order: step `k` yields item `k` while `k` is below the
/// list's length, and every later step yields nothing.
pub proof fn queue_yields_each_once<T>(items: Seq<T>, k: nat)
    ensures
        k <= items.len() ==> queue_after(items, k) == items.skip(k as int),
        k < items.len() ==> queue_next(queue_after(items, k)).0 == Some(items[k as int]),
        k >= items.len() ==> queue_next(queue_after(items, k)).0 is None,
        k >= items.len() ==> queue_after(items, k).len() == 0,
    decreases k,
{
    if k == 0 {
        assert(items.skip(0) =~= items);
    } else {
        queue_yields_each_once(items, (k - 1) as nat);
        if k <= items.len() {
            assert(items.skip(k - 1).drop_first() =~= items.skip(k as int));
        }
    }
}

} // verus!
