use vstd::prelude::*;

use crate::contract::{completes_goal, created, donated, donation_accepted};
use crate::funding::{fits_i8, FundingView};

verus! {

/// The sum of a sequence of donation amounts.
pub open spec fn total(ds: Seq<i8>) -> int
    decreases ds.len(),
{
    if ds.len() == 0 {
        0
    } else {
        total(ds.drop_last()) + ds.last() as int
    }
}

/// The store after the donations `ds` were made, in order, to the record
/// under `key`; a refused donation leaves the store as it was.
pub open spec fn after_donations(
    store: Map<Seq<char>, FundingView>,
    key: Seq<char>,
    ds: Seq<i8>,
) -> Map<Seq<char>, FundingView>
    decreases ds.len(),
{
    if ds.len() == 0 {
        store
    } else {
        let before = after_donations(store, key, ds.drop_last());
        if donation_accepted(before, key, ds.last() as int) {
            donated(before, key, ds.last() as int)
        } else {
            before
        }
    }
}

/// Whether the `i`-th donation of `ds` to `key` releases the collected value.
pub open spec fn releases_at(
    store: Map<Seq<char>, FundingView>,
    key: Seq<char>,
    ds: Seq<i8>,
    i: int,
) -> bool {
    let before = after_donations(store, key, ds.take(i));
    donation_accepted(before, key, ds[i] as int) && completes_goal(before[key], ds[i] as int)
}

/// Every running total of `ds`, added to `start`, stays within `i8`.
pub open spec fn running_totals_fit(start: int, ds: Seq<i8>) -> bool {
    forall|n: int| 0 <= n <= ds.len() ==> fits_i8(start + #[trigger] total(ds.take(n)))
}

proof fn lemma_total_step(ds: Seq<i8>, i: int)
    requires
        0 <= i < ds.len(),
    ensures
        total(ds.take(i + 1)) == total(ds.take(i)) + ds[i] as int,
{
    assert(ds.take(i + 1).drop_last() =~= ds.take(i));
}

/// Creating a record under a key replaces whatever was stored there: the new
/// record has the given goal and owner and nothing donated, whatever the key held before.
pub proof fn lemma_create_resets_partial(
    store: Map<Seq<char>, FundingView>,
    goal: i8,
    owner: Seq<char>,
)
    ensures
        created(store, goal as int, owner).contains_key(owner),
        created(store, goal as int, owner)[owner].partial_funding_value == 0,
        created(store, goal as int, owner)[owner].funding_value == goal as int,
        created(store, goal as int, owner).remove(owner) == store.remove(owner),
{
    assert(created(store, goal as int, owner).remove(owner) =~= store.remove(owner));
}

/// Donations to one record, with no creation in between, accumulate: after
/// any run of them the donated total is the starting total plus their sum, and
/// the goal, the owner and every other record are untouched.
pub proof fn lemma_donations_accumulate(
    store: Map<Seq<char>, FundingView>,
    key: Seq<char>,
    ds: Seq<i8>,
)
    requires
        store.contains_key(key),
        running_totals_fit(store[key].partial_funding_value, ds),
    ensures
        after_donations(store, key, ds).contains_key(key),
        after_donations(store, key, ds)[key] == (FundingView {
            partial_funding_value: store[key].partial_funding_value + total(ds),
            ..store[key]
        }),
        after_donations(store, key, ds).remove(key) == store.remove(key),
    decreases ds.len(),
{
    if ds.len() == 0 {
        assert(after_donations(store, key, ds).remove(key) =~= store.remove(key));
    } else {
        let prefix = ds.drop_last();
        assert forall|n: int| 0 <= n <= prefix.len() implies fits_i8(
            store[key].partial_funding_value + #[trigger] total(prefix.take(n)),
        ) by {
            assert(prefix.take(n) =~= ds.take(n));
        }
        lemma_donations_accumulate(store, key, prefix);
        assert(ds.take(ds.len() as int) =~= ds);
        let before = after_donations(store, key, prefix);
        assert(donation_accepted(before, key, ds.last() as int));
        assert(after_donations(store, key, ds).remove(key) =~= before.remove(key));
    }
}

/// A donation releases the collected value exactly when the running total of
/// the donations so far, its own included, meets the goal.
pub proof fn lemma_release_iff_total_meets_goal(
    store: Map<Seq<char>, FundingView>,
    key: Seq<char>,
    ds: Seq<i8>,
    i: int,
)
    requires
        store.contains_key(key),
        running_totals_fit(store[key].partial_funding_value, ds),
        0 <= i < ds.len(),
    ensures
        releases_at(store, key, ds, i) <==> store[key].partial_funding_value + total(ds.take(i + 1))
            == store[key].funding_value,
{
    let prefix = ds.take(i);
    assert forall|n: int| 0 <= n <= prefix.len() implies fits_i8(
        store[key].partial_funding_value + #[trigger] total(prefix.take(n)),
    ) by {
        assert(prefix.take(n) =~= ds.take(n));
    }
    lemma_donations_accumulate(store, key, prefix);
    lemma_total_step(ds, i);
    assert(fits_i8(store[key].partial_funding_value + total(ds.take(i + 1))));
}

/// On a freshly created record with goal `goal`, a run of donations whose sum
/// first reaches the goal at its last donation releases the value exactly
/// once, on that last donation.
pub proof fn lemma_exact_match_releases_once(
    store: Map<Seq<char>, FundingView>,
    goal: i8,
    owner: Seq<char>,
    ds: Seq<i8>,
)
    requires
        ds.len() > 0,
        running_totals_fit(0, ds),
        total(ds) == goal as int,
        forall|n: int| 1 <= n < ds.len() ==> #[trigger] total(ds.take(n)) != goal as int,
    ensures
        forall|i: int|
            0 <= i < ds.len() ==> (#[trigger] releases_at(created(store, goal as int, owner), owner, ds, i)
                <==> i == ds.len() - 1),
{
    let start = created(store, goal as int, owner);
    assert forall|i: int| 0 <= i < ds.len() implies (#[trigger] releases_at(start, owner, ds, i)
        <==> i == ds.len() - 1) by {
        lemma_release_iff_total_meets_goal(start, owner, ds, i);
        assert(ds.take(ds.len() as int) =~= ds);
    }
}

/// A record whose goal was met stays open to donations: a further donation is
/// accepted whenever the total stays within `i8`, and that donation meets the
/// goal again exactly when it adds nothing.
pub proof fn lemma_donation_after_release(
    store: Map<Seq<char>, FundingView>,
    key: Seq<char>,
    first: i8,
    next: i8,
)
    requires
        donation_accepted(store, key, first as int),
        completes_goal(store[key], first as int),
    ensures
        donated(store, key, first as int).contains_key(key),
        donated(store, key, first as int)[key].partial_funding_value == store[key].funding_value,
        donation_accepted(donated(store, key, first as int), key, next as int) <==> fits_i8(
            store[key].funding_value + next,
        ),
        completes_goal(donated(store, key, first as int)[key], next as int) <==> next == 0,
{
}

} // verus!
