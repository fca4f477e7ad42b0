//! The per-depositor balance table: one entry per account, in the order in
//! which the accounts first appeared.

use vstd::prelude::*;

verus! {

/// One entry of the table as the contracts see it: account and balance.
pub type Entry = (Seq<char>, nat);

/// What the stored entries stand for.
pub open spec fn entries_view(stored: Seq<(String, u128)>) -> Seq<Entry> {
    Seq::new(stored.len(), |i: int| (stored[i].0@, stored[i].1 as nat))
}

/// `who` has an entry.
pub open spec fn holds(entries: Seq<Entry>, who: Seq<char>) -> bool {
    exists|i: int| 0 <= i < entries.len() && (#[trigger] entries[i]).0 == who
}

/// The place of the entry of `who`, where there is one.
pub open spec fn slot_of(entries: Seq<Entry>, who: Seq<char>) -> int {
    choose|i: int| 0 <= i < entries.len() && (#[trigger] entries[i]).0 == who
}

/// The balance of `who`: that of its entry, and 0 without one.
pub open spec fn balance_of(entries: Seq<Entry>, who: Seq<char>) -> nat {
    if holds(entries, who) {
        entries[slot_of(entries, who)].1
    } else {
        0
    }
}

/// No account has two entries.
pub open spec fn distinct_accounts(entries: Seq<Entry>) -> bool {
    forall|i: int, j: int|
        0 <= i < j < entries.len() ==> (#[trigger] entries[i]).0 != (#[trigger] entries[j]).0
}

/// The sum of all balances.
pub open spec fn sum_of(entries: Seq<Entry>) -> nat
    decreases entries.len(),
{
    if entries.len() == 0 {
        0
    } else {
        sum_of(entries.drop_last()) + entries.last().1
    }
}

/// The accounts of the table, in its order.
pub open spec fn accounts_of(entries: Seq<Entry>) -> Seq<Seq<char>> {
    Seq::new(entries.len(), |i: int| entries[i].0)
}

/// The table after the balance of `who` was set to `amount`: its entry is
/// rewritten in place, and a new account is entered at the end.
pub open spec fn with_balance(entries: Seq<Entry>, who: Seq<char>, amount: nat) -> Seq<Entry> {
    if holds(entries, who) {
        entries.update(slot_of(entries, who), (who, amount))
    } else {
        entries.push((who, amount))
    }
}

/// In a table without doubles the entry of an account is where its name is.
pub proof fn lemma_slot_unique(entries: Seq<Entry>, i: int)
    requires
        distinct_accounts(entries),
        0 <= i < entries.len(),
    ensures
        holds(entries, entries[i].0),
        slot_of(entries, entries[i].0) == i,
        balance_of(entries, entries[i].0) == entries[i].1,
{
    let who = entries[i].0;
    let j = slot_of(entries, who);
    assert(0 <= j < entries.len() && entries[j].0 == who);
    if j < i {
        assert(entries[j].0 != entries[i].0);
    }
    if i < j {
        assert(entries[i].0 != entries[j].0);
    }
}

/// Rewriting one balance changes the sum by the difference.
pub proof fn lemma_sum_update(entries: Seq<Entry>, i: int, e: Entry)
    requires
        0 <= i < entries.len(),
    ensures
        sum_of(entries.update(i, e)) + entries[i].1 == sum_of(entries) + e.1,
    decreases entries.len(),
{
    let after = entries.update(i, e);
    if i == entries.len() - 1 {
        assert(after.drop_last() =~= entries.drop_last());
    } else {
        assert(after.drop_last() =~= entries.drop_last().update(i, e));
        lemma_sum_update(entries.drop_last(), i, e);
    }
}

/// A new entry adds its balance to the sum.
pub proof fn lemma_sum_push(entries: Seq<Entry>, e: Entry)
    ensures
        sum_of(entries.push(e)) == sum_of(entries) + e.1,
{
    assert(entries.push(e).drop_last() =~= entries);
}

/// No balance is larger than the sum.
pub proof fn lemma_sum_bounds(entries: Seq<Entry>, i: int)
    requires
        0 <= i < entries.len(),
    ensures
        entries[i].1 <= sum_of(entries),
    decreases entries.len(),
{
    if i < entries.len() - 1 {
        lemma_sum_bounds(entries.drop_last(), i);
    }
}

/// No account has more than all accounts together.
pub proof fn lemma_balance_bounded(entries: Seq<Entry>, who: Seq<char>)
    ensures
        balance_of(entries, who) <= sum_of(entries),
{
    if holds(entries, who) {
        lemma_sum_bounds(entries, slot_of(entries, who));
    }
}

/// What setting a balance does to the table: the account then has that
/// balance, every other account keeps its own, no double appears, and the sum
/// moves by the difference.
pub proof fn lemma_with_balance(entries: Seq<Entry>, who: Seq<char>, amount: nat)
    requires
        distinct_accounts(entries),
    ensures
        distinct_accounts(with_balance(entries, who, amount)),
        holds(with_balance(entries, who, amount), who),
        balance_of(with_balance(entries, who, amount), who) == amount,
        forall|other: Seq<char>|
            other != who ==> #[trigger] holds(with_balance(entries, who, amount), other)
                == holds(entries, other),
        forall|other: Seq<char>|
            other != who ==> #[trigger] balance_of(with_balance(entries, who, amount), other)
                == balance_of(entries, other),
        sum_of(with_balance(entries, who, amount)) + balance_of(entries, who) == sum_of(entries)
            + amount,
{
    let after = with_balance(entries, who, amount);
    let k = if holds(entries, who) {
        slot_of(entries, who)
    } else {
        entries.len() as int
    };
    if holds(entries, who) {
        assert(0 <= k < entries.len() && entries[k].0 == who);
        lemma_sum_update(entries, k, (who, amount));
    } else {
        lemma_sum_push(entries, (who, amount));
    }
    assert forall|i: int, j: int| 0 <= i < j < after.len() implies (#[trigger] after[i]).0 != (
    #[trigger] after[j]).0 by {
        if i != k {
            assert(after[i] == entries[i]);
        }
        if j != k {
            assert(after[j] == entries[j]);
        }
    }
    assert(after[k].0 == who);
    lemma_slot_unique(after, k);
    assert forall|other: Seq<char>| other != who implies #[trigger] holds(after, other) == holds(
        entries,
        other,
    ) by {
        lemma_other_kept(entries, after, other);
    }
    assert forall|other: Seq<char>| other != who implies #[trigger] balance_of(after, other)
        == balance_of(entries, other) by {
        lemma_other_kept(entries, after, other);
    }
}

/// Two tables that agree on every entry of `other`, place by place, give it
/// the same balance.
proof fn lemma_other_kept(before: Seq<Entry>, after: Seq<Entry>, other: Seq<char>)
    requires
        distinct_accounts(before),
        distinct_accounts(after),
        before.len() <= after.len(),
        forall|i: int|
            0 <= i < before.len() ==> (#[trigger] before[i]).0 == other ==> after[i] == before[i],
        forall|i: int|
            0 <= i < after.len() ==> (#[trigger] after[i]).0 == other ==> i < before.len()
                && before[i] == after[i],
    ensures
        holds(after, other) == holds(before, other),
        balance_of(after, other) == balance_of(before, other),
{
    if holds(before, other) {
        let k = slot_of(before, other);
        assert(0 <= k < before.len() && before[k].0 == other);
        assert(after[k] == before[k]);
        lemma_slot_unique(after, k);
        lemma_slot_unique(before, k);
    } else if holds(after, other) {
        let k = slot_of(after, other);
        assert(0 <= k < after.len() && after[k].0 == other);
        assert(before[k].0 == other);
    }
}

/// The first entries of a table sum to no more than all of them.
pub proof fn lemma_sum_prefix(entries: Seq<Entry>, n: int)
    requires
        0 <= n <= entries.len(),
    ensures
        sum_of(entries.take(n)) <= sum_of(entries),
    decreases entries.len(),
{
    if n == entries.len() {
        assert(entries.take(n) =~= entries);
    } else {
        assert(entries.drop_last().take(n) =~= entries.take(n));
        lemma_sum_prefix(entries.drop_last(), n);
    }
}

/// Looks for the first entry of `who`.
pub fn find(stored: &Vec<(String, u128)>, who: &String) -> (place: Option<usize>)
    ensures
        match place {
            Some(i) => {
                &&& i < stored.len()
                &&& entries_view(stored@)[i as int].0 == who@
                &&& forall|k: int| 0 <= k < i ==> (#[trigger] entries_view(stored@)[k]).0 != who@
            },
            None => !holds(entries_view(stored@), who@),
        },
{
    let mut i: usize = 0;
    while i < stored.len()
        invariant
            i <= stored.len(),
            forall|k: int| 0 <= k < i ==> (#[trigger] entries_view(stored@)[k]).0 != who@,
        decreases stored.len() - i,
    {
        if stored[i].0 == *who {
            return Some(i);
        }
        i += 1;
    }
    None
}

/// The balance of `who`, 0 for an account without an entry.
pub fn lookup(stored: &Vec<(String, u128)>, who: &String) -> (amount: u128)
    requires
        distinct_accounts(entries_view(stored@)),
    ensures
        amount == balance_of(entries_view(stored@), who@),
{
    match find(stored, who) {
        Some(i) => {
            proof {
                lemma_slot_unique(entries_view(stored@), i as int);
            }
            stored[i].1
        },
        None => 0,
    }
}

/// Sets the balance of `who`, entering the account if it is new.
pub fn assign(stored: &mut Vec<(String, u128)>, who: &String, amount: u128)
    requires
        distinct_accounts(entries_view(old(stored)@)),
    ensures
        entries_view(final(stored)@) == with_balance(
            entries_view(old(stored)@),
            who@,
            amount as nat,
        ),
{
    let ghost before = entries_view(stored@);
    match find(stored, who) {
        Some(i) => {
            proof {
                lemma_slot_unique(before, i as int);
            }
            stored.set(i, (who.clone(), amount));
            assert(entries_view(stored@) =~= before.update(i as int, (who@, amount as nat)));
        },
        None => {
            stored.push((who.clone(), amount));
            assert(entries_view(stored@) =~= before.push((who@, amount as nat)));
        },
    }
}

/// Whether no account has two entries.
pub fn all_distinct(stored: &Vec<(String, u128)>) -> (distinct: bool)
    ensures
        distinct == distinct_accounts(entries_view(stored@)),
{
    let ghost entries = entries_view(stored@);
    let mut j: usize = 0;
    while j < stored.len()
        invariant
            j <= stored.len(),
            entries == entries_view(stored@),
            forall|a: int, b: int|
                0 <= a < b < j ==> (#[trigger] entries[a]).0 != (#[trigger] entries[b]).0,
        decreases stored.len() - j,
    {
        let mut i: usize = 0;
        while i < j
            invariant
                i <= j < stored.len(),
                entries == entries_view(stored@),
                forall|a: int| 0 <= a < i ==> (#[trigger] entries[a]).0 != entries[j as int].0,
            decreases j - i,
        {
            if stored[i].0 == stored[j].0 {
                assert(entries[i as int].0 == entries[j as int].0);
                return false;
            }
            i += 1;
        }
        j += 1;
    }
    true
}

/// The sum of all balances, if it fits the range of the amounts.
pub fn total(stored: &Vec<(String, u128)>) -> (sum: Option<u128>)
    ensures
        match sum {
            Some(amount) => amount == sum_of(entries_view(stored@)),
            None => sum_of(entries_view(stored@)) > u128::MAX,
        },
{
    let ghost entries = entries_view(stored@);
    let mut acc: u128 = 0;
    let mut i: usize = 0;
    while i < stored.len()
        invariant
            i <= stored.len(),
            entries == entries_view(stored@),
            acc == sum_of(entries.take(i as int)),
        decreases stored.len() - i,
    {
        proof {
            assert(entries.take(i + 1).drop_last() =~= entries.take(i as int));
            lemma_sum_prefix(entries, i + 1);
        }
        if stored[i].1 > u128::MAX - acc {
            return None;
        }
        acc = acc + stored[i].1;
        i += 1;
    }
    assert(entries.take(i as int) =~= entries);
    Some(acc)
}

} // verus!
