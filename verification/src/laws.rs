use vstd::prelude::*;

use crate::command::{arg_range, ValueArg};
use crate::input::{item_set, list_set, ListItem};
use crate::range::{range_set, set_contains_range, CanonicalRange};

verus! {

/// A singleton: for any value `n` below `u32::MAX`, a bare integer
/// argument denotes the canonical range `[n, n+1)`, whose materialized
/// set contains `n` and not `n+1`; so querying that set for `n` answers
/// true and, where `n+1` is itself queryable as a singleton, querying it
/// for `n+1` answers false. (At `u32::MAX` itself the host-level
/// inclusive end wraps to an empty range, so that value is excluded.)
pub proof fn lemma_singleton_range(n: u32)
    requires
        n < u32::MAX,
    ensures
        arg_range(ValueArg::IntValue(n as i64)) == Some(
            CanonicalRange { start: n, end: (n + 1) as u32 },
        ),
        range_set(CanonicalRange { start: n, end: (n + 1) as u32 }).contains(n),
        !range_set(CanonicalRange { start: n, end: (n + 1) as u32 }).contains((n + 1) as u32),
        set_contains_range(range_set(CanonicalRange { start: n, end: (n + 1) as u32 }), n, (n + 1) as u32),
        n + 2 <= u32::MAX ==> !set_contains_range(
            range_set(CanonicalRange { start: n, end: (n + 1) as u32 }),
            (n + 1) as u32,
            (n + 2) as u32,
        ),
{
    assert(range_set(CanonicalRange { start: n, end: (n + 1) as u32 }).contains(n));
}

/// The set a list materializes to is exactly the mathematical union of
/// what its elements denote, duplicates collapsed: so the cardinality a
/// list-built bitmap reports is the size of that union.
pub proof fn lemma_list_set_is_union(items: Seq<ListItem>)
    ensures
        list_set(items) == Set::new(
            |v: u32|
                exists|i: int|
                    0 <= i < items.len() && #[trigger] item_set(items[i]).contains(v),
        ),
    decreases items.len(),
{
    let target = Set::new(
        |v: u32|
            exists|i: int| 0 <= i < items.len() && #[trigger] item_set(items[i]).contains(v),
    );
    if items.len() == 0 {
        assert(list_set(items) =~= target);
    } else {
        let prefix = items.drop_last();
        lemma_list_set_is_union(prefix);
        let ptarget = Set::new(
            |v: u32|
                exists|i: int|
                    0 <= i < prefix.len() && #[trigger] item_set(prefix[i]).contains(v),
        );
        assert forall|v: u32| target.contains(v) implies list_set(items).contains(v) by {
            let i = choose|i: int|
                0 <= i < items.len() && #[trigger] item_set(items[i]).contains(v);
            if i < items.len() - 1 {
                assert(prefix[i] == items[i]);
                assert(ptarget.contains(v));
            } else {
                assert(item_set(items.last()).contains(v));
            }
        }
        assert forall|v: u32| list_set(items).contains(v) implies target.contains(v) by {
            if list_set(prefix).contains(v) {
                let i = choose|i: int|
                    0 <= i < prefix.len() && #[trigger] item_set(prefix[i]).contains(v);
                assert(item_set(items[i]).contains(v));
            } else {
                assert(item_set(items[items.len() - 1]).contains(v));
            }
        }
        assert(list_set(items) =~= target);
    }
}

/// Idempotence: appending the same integer or sub-range to a list twice
/// materializes to the same set as appending it once — and since
/// cardinality and enumeration are functions of that set alone, neither
/// the count nor the enumeration order changes.
pub proof fn lemma_duplicate_item_idempotent(items: Seq<ListItem>, item: ListItem)
    ensures
        list_set(items.push(item).push(item)) == list_set(items.push(item)),
{
    let once = items.push(item);
    let twice = once.push(item);
    assert(twice.drop_last() =~= once);
    assert(once.drop_last() =~= items);
    assert(list_set(twice) =~= list_set(once));
}

} // verus!
