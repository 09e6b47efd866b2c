//! Sums by key, and rankings of sums.
use vstd::prelude::*;

use crate::battle::{saturated, saturating_sum};
use crate::double::{evaluate, lawful, sum_of, Arith, Double};
use crate::text::same_text;

verus! {

/// One amount that counts toward a key, and where it came from.
pub ghost struct Contribution {
    pub key: Seq<char>,
    pub amount: Double,
    pub source: int,
}

/// The sum of one key.
#[derive(Clone, Debug)]
pub struct Tally {
    pub key: String,
    pub count: u64,
    pub total: Double,
    /// Where the first contribution came from.
    pub source: usize,
}

/// How many contributions a key has.
pub open spec fn count_for(items: Seq<Contribution>, key: Seq<char>) -> nat
    decreases items.len(),
{
    if items.len() == 0 {
        0
    } else {
        count_for(items.drop_last(), key) + if items.last().key == key {
            1nat
        } else {
            0
        }
    }
}

/// The amounts of a key, in order.
pub open spec fn amounts_for(items: Seq<Contribution>, key: Seq<char>) -> Seq<Double>
    decreases items.len(),
{
    if items.len() == 0 {
        Seq::empty()
    } else if items.last().key == key {
        amounts_for(items.drop_last(), key).push(items.last().amount)
    } else {
        amounts_for(items.drop_last(), key)
    }
}

/// Where the first contribution of a key came from.
pub open spec fn first_source(items: Seq<Contribution>, key: Seq<char>) -> Option<int>
    decreases items.len(),
{
    if items.len() == 0 {
        None
    } else {
        match first_source(items.drop_last(), key) {
            Some(source) => Some(source),
            None => if items.last().key == key {
                Some(items.last().source)
            } else {
                None
            },
        }
    }
}

/// Whether `entry` is the sum of its key.
pub open spec fn sums_key<F: Fn(Arith) -> Double>(
    ops: F,
    items: Seq<Contribution>,
    entry: Tally,
) -> bool {
    &&& entry.count == saturated(count_for(items, entry.key@) as int)
    &&& entry.total == sum_of(ops, amounts_for(items, entry.key@))
    &&& first_source(items, entry.key@) == Some(entry.source as int)
}

/// Whether a key has an entry.
pub open spec fn has_key(entries: Seq<Tally>, key: Seq<char>) -> bool {
    exists|k: int| 0 <= k < entries.len() && (#[trigger] entries[k]).key@ == key
}

/// `entries` has one entry for every key that has contributions.
pub open spec fn sums_by_key<F: Fn(Arith) -> Double>(
    ops: F,
    items: Seq<Contribution>,
    entries: Seq<Tally>,
) -> bool {
    &&& forall|k: int| 0 <= k < entries.len() ==> sums_key(ops, items, #[trigger] entries[k])
    &&& forall|j: int, k: int|
        0 <= j < k < entries.len() ==> (#[trigger] entries[j]).key@ != (#[trigger] entries[k]).key@
    &&& forall|key: Seq<char>| #[trigger]
        first_source(items, key) is Some ==> has_key(entries, key)
}

proof fn one_more_item(items: Seq<Contribution>, item: Contribution, key: Seq<char>)
    ensures
        count_for(items.push(item), key) == count_for(items, key) + if item.key == key {
            1nat
        } else {
            0
        },
        amounts_for(items.push(item), key) == (if item.key == key {
            amounts_for(items, key).push(item.amount)
        } else {
            amounts_for(items, key)
        }),
        first_source(items.push(item), key) == (if first_source(items, key) is Some {
            first_source(items, key)
        } else if item.key == key {
            Some(item.source)
        } else {
            None
        }),
{
    assert(items.push(item).drop_last() =~= items);
}

proof fn no_source_no_amounts(items: Seq<Contribution>, key: Seq<char>)
    requires
        first_source(items, key) is None,
    ensures
        count_for(items, key) == 0,
        amounts_for(items, key) == Seq::<Double>::empty(),
    decreases items.len(),
{
    if items.len() > 0 {
        no_source_no_amounts(items.drop_last(), key);
    }
}

proof fn sums_grow<F: Fn(Arith) -> Double>(
    ops: F,
    items: Seq<Contribution>,
    item: Contribution,
    before: Seq<Tally>,
    after: Seq<Tally>,
    at: int,
)
    requires
        sums_by_key(ops, items, before),
        0 <= at < after.len(),
        after.len() == before.len() || (after.len() == before.len() + 1 && at == before.len()
            && !has_key(before, item.key)),
        at < before.len() ==> before[at].key@ == item.key,
        forall|k: int| 0 <= k < before.len() && k != at ==> after[k] == #[trigger] before[k],
        after[at].key@ == item.key,
        sums_key(ops, items.push(item), after[at]),
    ensures
        sums_by_key(ops, items.push(item), after),
{
    let now = items.push(item);
    assert forall|k: int| 0 <= k < after.len() implies sums_key(ops, now, #[trigger] after[k]) by {
        if k != at {
            assert(before[k].key@ != item.key) by {
                if at < before.len() {
                    if k < at {
                        assert(before[k].key@ != before[at].key@);
                    } else {
                        assert(before[at].key@ != before[k].key@);
                    }
                } else if before[k].key@ == item.key {
                    assert(has_key(before, item.key));
                }
            }
            assert(sums_key(ops, items, before[k]));
            one_more_item(items, item, before[k].key@);
        }
    }
    assert forall|j: int, k: int| 0 <= j < k < after.len() implies (#[trigger] after[j]).key@ != (
    #[trigger] after[k]).key@ by {
        if k < before.len() {
            assert(before[j].key@ != before[k].key@);
        } else if before[j].key@ == item.key {
            assert(has_key(before, item.key));
        }
    }
    assert forall|key: Seq<char>| #[trigger] first_source(now, key) is Some implies has_key(
        after,
        key,
    ) by {
        one_more_item(items, item, key);
        if key == item.key {
            assert(after[at].key@ == key);
        } else {
            assert(first_source(items, key) is Some);
            let k = choose|k: int| 0 <= k < before.len() && (#[trigger] before[k]).key@ == key;
            assert(after[k].key@ == key);
        }
    }
}

/// Adds one contribution.
pub fn add_to_tally<F: Fn(Arith) -> Double>(
    entries: &mut Vec<Tally>,
    key: &str,
    amount: Double,
    source: usize,
    ops: &F,
    Ghost(items): Ghost<Seq<Contribution>>,
)
    requires
        lawful(*ops),
        sums_by_key(*ops, items, old(entries)@),
    ensures
        sums_by_key(
            *ops,
            items.push(Contribution { key: key@, amount, source: source as int }),
            final(entries)@,
        ),
{
    let ghost before = entries@;
    let ghost item = Contribution { key: key@, amount, source: source as int };
    proof {
        one_more_item(items, item, key@);
    }
    let mut at: usize = 0;
    while at < entries.len() && !same_text(entries[at].key.as_str(), key)
        invariant
            at <= entries.len(),
            entries@ == before,
            forall|k: int| 0 <= k < at ==> (#[trigger] before[k]).key@ != key@,
        decreases entries.len() - at,
    {
        at = at + 1;
    }
    let ghost amounts = amounts_for(items, key@);
    assert(amounts.push(amount).drop_last() =~= amounts);
    if at < entries.len() {
        assert(sums_key(*ops, items, before[at as int]));
        let total = evaluate(ops, Arith::Sum(entries[at].total, amount));
        let count = saturating_sum(entries[at].count, 1);
        let known = entries[at].key.clone();
        let first = entries[at].source;
        entries.set(at, Tally { key: known, count, total, source: first });
        assert(sums_key(*ops, items.push(item), entries@[at as int]));
    } else {
        proof {
            if first_source(items, key@) is Some {
                assert(has_key(before, key@));
            }
            no_source_no_amounts(items, key@);
            assert(sum_of(*ops, amounts) == (Double { bits: 0 }));
        }
        let total = evaluate(ops, Arith::Sum(Double::zero(), amount));
        entries.push(Tally { key: key.to_owned(), count: 1, total, source });
        assert(sums_key(*ops, items.push(item), entries@[at as int]));
    }
    proof {
        sums_grow(*ops, items, item, before, entries@, at as int);
    }
}

/// Whether `ranking` names every position of `totals` once, largest total
/// first.
pub open spec fn ranks_totals(totals: Seq<Double>, ranking: Seq<usize>) -> bool {
    &&& ranking.len() == totals.len()
    &&& forall|k: int| 0 <= k < ranking.len() ==> (#[trigger] ranking[k]) < totals.len()
    &&& forall|i: int, j: int|
        0 <= i < j < ranking.len() ==> #[trigger] ranking[i] != #[trigger] ranking[j]
    &&& forall|i: int, j: int|
        0 <= i < j < ranking.len() ==> totals[#[trigger] ranking[i] as int].total_rank()
            >= totals[#[trigger] ranking[j] as int].total_rank()
}

/// The positions of totals, largest total first.
pub fn rank_totals(totals: &Vec<Double>) -> (ranking: Vec<usize>)
    ensures
        ranks_totals(totals@, ranking@),
{
    let mut ranking: Vec<usize> = Vec::new();
    let mut next: usize = 0;
    while next < totals.len()
        invariant
            next <= totals@.len(),
            ranking@.len() == next,
            forall|k: int| 0 <= k < ranking@.len() ==> (#[trigger] ranking@[k]) < next,
            forall|i: int, j: int|
                0 <= i < j < ranking@.len() ==> #[trigger] ranking@[i] != #[trigger] ranking@[j],
            forall|i: int, j: int|
                0 <= i < j < ranking@.len() ==> totals@[#[trigger] ranking@[i] as int].total_rank()
                    >= totals@[#[trigger] ranking@[j] as int].total_rank(),
        decreases totals@.len() - next,
    {
        let ghost before = ranking@;
        // Equal totals keep their order, so the search runs from the end.
        let mut at: usize = ranking.len();
        while at > 0 && totals[ranking[at - 1]].precedes(totals[next])
            invariant
                at <= ranking.len(),
                next < totals@.len(),
                ranking@ == before,
                forall|k: int| 0 <= k < before.len() ==> (#[trigger] before[k]) < next,
                forall|k: int|
                    at <= k < before.len() ==> totals@[#[trigger] before[k] as int].total_rank()
                        < totals@[next as int].total_rank(),
            decreases at,
        {
            at = at - 1;
        }
        ranking.insert(at, next);
        proof {
            let after = ranking@;
            assert forall|k: int| 0 <= k < at implies totals@[#[trigger] before[k] as int].total_rank()
                >= totals@[next as int].total_rank() by {
                if k < at - 1 {
                    assert(totals@[before[k] as int].total_rank()
                        >= totals@[before[at - 1] as int].total_rank());
                }
            }
            assert forall|k: int| 0 <= k < after.len() && k != at implies #[trigger] after[k]
                == before[if k < at { k } else { k - 1 }] by {}
            assert(after[at as int] == next);
            assert forall|i: int, j: int| 0 <= i < j < after.len() implies #[trigger] after[i]
                != #[trigger] after[j] && totals@[after[i] as int].total_rank()
                >= totals@[after[j] as int].total_rank() by {
                let a = if i < at { i } else { i - 1 };
                let b = if j < at { j } else { j - 1 };
                if i != at && j != at {
                    assert(before[a] != before[b]);
                }
            }
        }
        next = next + 1;
    }
    ranking
}

} // verus!
