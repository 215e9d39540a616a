//! The balance store: an association list from account to amount.
//!
//! Keys are unique, an absent key reads as zero, and the running sum of all
//! recorded amounts is the model through which the ledger proves that its
//! total supply never changes.

use vstd::prelude::*;

use crate::types::AccountId;
use crate::types::Balance;

verus! {

/// The amount recorded for account `a`: the value of the first entry keyed
/// by `a`, or zero when no entry has that key.
pub open spec fn balance_in(s: Seq<(AccountId, Balance)>, a: AccountId) -> Balance
    decreases s.len(),
{
    if s.len() == 0 {
        0
    } else if s[0].0 == a {
        s[0].1
    } else {
        balance_in(s.drop_first(), a)
    }
}

/// Every account keys at most one entry.
pub open spec fn unique_accounts(s: Seq<(AccountId, Balance)>) -> bool {
    forall|i: int, j: int| 0 <= i < j < s.len() ==> s[i].0 != s[j].0
}

/// The sum of all recorded amounts, as an unbounded integer.
pub open spec fn sum_balances(s: Seq<(AccountId, Balance)>) -> int
    decreases s.len(),
{
    if s.len() == 0 {
        0
    } else {
        s[0].1 + sum_balances(s.drop_first())
    }
}

pub proof fn lemma_sum_nonneg(s: Seq<(AccountId, Balance)>)
    ensures
        sum_balances(s) >= 0,
    decreases s.len(),
{
    if s.len() > 0 {
        lemma_sum_nonneg(s.drop_first());
    }
}

/// An account without an entry has a zero balance.
pub proof fn lemma_balance_absent(s: Seq<(AccountId, Balance)>, a: AccountId)
    requires
        forall|i: int| 0 <= i < s.len() ==> s[i].0 != a,
    ensures
        balance_in(s, a) == 0,
    decreases s.len(),
{
    if s.len() > 0 {
        assert(forall|i: int| 0 <= i < s.drop_first().len() ==> s.drop_first()[i] == s[i + 1]);
        lemma_balance_absent(s.drop_first(), a);
    }
}

/// The first entry keyed by `a` holds the recorded balance.
pub proof fn lemma_balance_found(s: Seq<(AccountId, Balance)>, i: int, a: AccountId)
    requires
        0 <= i < s.len(),
        s[i].0 == a,
        forall|j: int| 0 <= j < i ==> s[j].0 != a,
    ensures
        balance_in(s, a) == s[i].1,
    decreases i,
{
    if i > 0 {
        assert(s.drop_first()[i - 1] == s[i]);
        assert(forall|j: int| 0 <= j < i - 1 ==> s.drop_first()[j] == s[j + 1]);
        lemma_balance_found(s.drop_first(), i - 1, a);
    }
}

/// No single balance exceeds the sum of all balances.
pub proof fn lemma_balance_le_sum(s: Seq<(AccountId, Balance)>, a: AccountId)
    ensures
        balance_in(s, a) <= sum_balances(s),
    decreases s.len(),
{
    if s.len() > 0 {
        if s[0].0 == a {
            lemma_sum_nonneg(s.drop_first());
        } else {
            lemma_balance_le_sum(s.drop_first(), a);
        }
    }
}

/// Removing the entry at `i` lowers the sum by that entry's amount and
/// leaves every other account's balance as it was.
pub proof fn lemma_remove_entry(s: Seq<(AccountId, Balance)>, i: int)
    requires
        0 <= i < s.len(),
    ensures
        sum_balances(s.remove(i)) == sum_balances(s) - s[i].1,
        forall|b: AccountId| b != s[i].0 ==> balance_in(s.remove(i), b) == balance_in(s, b),
    decreases s.len(),
{
    if i == 0 {
        assert(s.remove(0) =~= s.drop_first());
    } else {
        let t = s.drop_first();
        assert(s.remove(i)[0] == s[0]);
        assert(s.remove(i).drop_first() =~= t.remove(i - 1));
        assert(t[i - 1] == s[i]);
        lemma_remove_entry(t, i - 1);
        assert forall|b: AccountId| b != s[i].0 implies balance_in(s.remove(i), b) == balance_in(
            s,
            b,
        ) by {
            if s[0].0 == b {
            } else {
                assert(balance_in(s.remove(i), b) == balance_in(t.remove(i - 1), b));
                assert(balance_in(s, b) == balance_in(t, b));
            }
        }
    }
}

/// When keys are unique, removing the entry at `i` removes the key entirely.
pub proof fn lemma_remove_unique(s: Seq<(AccountId, Balance)>, i: int)
    requires
        unique_accounts(s),
        0 <= i < s.len(),
    ensures
        unique_accounts(s.remove(i)),
        forall|j: int| 0 <= j < s.remove(i).len() ==> s.remove(i)[j].0 != s[i].0,
{
    assert forall|j: int| 0 <= j < s.remove(i).len() implies s.remove(i)[j].0 != s[i].0 by {
        if j < i {
            assert(s.remove(i)[j] == s[j]);
        } else {
            assert(s.remove(i)[j] == s[j + 1]);
        }
    }
    assert forall|j: int, k: int| 0 <= j < k < s.remove(i).len() implies s.remove(i)[j].0
        != s.remove(i)[k].0 by {
        assert(s.remove(i)[j] == (if j < i { s[j] } else { s[j + 1] }));
        assert(s.remove(i)[k] == (if k < i { s[k] } else { s[k + 1] }));
    }
}

/// Appending an entry for a key not yet present raises the sum by its amount,
/// records its balance, and leaves every other account's balance as it was.
pub proof fn lemma_push_entry(s: Seq<(AccountId, Balance)>, e: (AccountId, Balance))
    requires
        forall|i: int| 0 <= i < s.len() ==> s[i].0 != e.0,
    ensures
        sum_balances(s.push(e)) == sum_balances(s) + e.1,
        balance_in(s.push(e), e.0) == e.1,
        forall|b: AccountId| b != e.0 ==> balance_in(s.push(e), b) == balance_in(s, b),
        unique_accounts(s) ==> unique_accounts(s.push(e)),
    decreases s.len(),
{
    if s.len() == 0 {
        assert(s.push(e)[0] == e);
        assert(s.push(e).drop_first() =~= Seq::<(AccountId, Balance)>::empty());
        assert(sum_balances(Seq::<(AccountId, Balance)>::empty()) == 0);
        assert(sum_balances(s.push(e)) == e.1 + sum_balances(s.push(e).drop_first()));
        assert(balance_in(s.push(e), e.0) == e.1);
        assert forall|b: AccountId| b != e.0 implies balance_in(s.push(e), b) == balance_in(
            s,
            b,
        ) by {
            assert(balance_in(s.push(e).drop_first(), b) == 0);
        }
    } else {
        let t = s.drop_first();
        assert(s.push(e)[0] == s[0]);
        assert(s.push(e).drop_first() =~= t.push(e));
        assert(forall|i: int| 0 <= i < t.len() ==> t[i] == s[i + 1]);
        lemma_push_entry(t, e);
        assert(sum_balances(s.push(e)) == s[0].1 + sum_balances(t.push(e)));
        assert(sum_balances(s) == s[0].1 + sum_balances(t));
        assert(s[0].0 != e.0);
        assert(balance_in(s.push(e), e.0) == balance_in(t.push(e), e.0));
        assert forall|b: AccountId| b != e.0 implies balance_in(s.push(e), b) == balance_in(
            s,
            b,
        ) by {
            if s[0].0 != b {
                assert(balance_in(s.push(e), b) == balance_in(t.push(e), b));
                assert(balance_in(s, b) == balance_in(t, b));
            }
        }
    }
    if unique_accounts(s) {
        assert forall|j: int, k: int| 0 <= j < k < s.push(e).len() implies s.push(e)[j].0
            != s.push(e)[k].0 by {
            if k < s.len() {
                assert(s.push(e)[j] == s[j]);
                assert(s.push(e)[k] == s[k]);
            } else {
                assert(s.push(e)[j] == s[j]);
                assert(s.push(e)[k] == e);
            }
        }
    }
}

/// Returns the recorded balance of `a`, or zero when `a` has no entry.
pub fn lookup_balance(v: &Vec<(AccountId, Balance)>, a: AccountId) -> (r: Balance)
    ensures
        r == balance_in(v@, a),
{
    let mut i: usize = 0;
    while i < v.len()
        invariant
            i <= v@.len(),
            forall|j: int| 0 <= j < i ==> v@[j].0 != a,
        decreases v@.len() - i,
    {
        if v[i].0 == a {
            proof {
                lemma_balance_found(v@, i as int, a);
            }
            return v[i].1;
        }
        i = i + 1;
    }
    proof {
        lemma_balance_absent(v@, a);
    }
    0
}

/// Records `amount` as the balance of `a`, replacing any previous entry for
/// `a` and leaving every other account's balance as it was.
pub fn set_balance(v: &mut Vec<(AccountId, Balance)>, a: AccountId, amount: Balance)
    requires
        unique_accounts(old(v)@),
    ensures
        unique_accounts(final(v)@),
        balance_in(final(v)@, a) == amount,
        forall|b: AccountId| b != a ==> balance_in(final(v)@, b) == balance_in(old(v)@, b),
        sum_balances(final(v)@) == sum_balances(old(v)@) - balance_in(old(v)@, a) + amount,
{
    let ghost s0 = v@;
    let mut i: usize = 0;
    while i < v.len()
        invariant
            v@ == s0,
            s0 == old(v)@,
            unique_accounts(s0),
            i <= s0.len(),
            forall|j: int| 0 <= j < i ==> s0[j].0 != a,
        decreases s0.len() - i,
    {
        if v[i].0 == a {
            proof {
                lemma_balance_found(s0, i as int, a);
                lemma_remove_entry(s0, i as int);
                lemma_remove_unique(s0, i as int);
            }
            v.remove(i);
            proof {
                lemma_push_entry(v@, (a, amount));
            }
            v.push((a, amount));
            return;
        }
        i = i + 1;
    }
    proof {
        lemma_balance_absent(s0, a);
        lemma_push_entry(s0, (a, amount));
    }
    v.push((a, amount));
}

} // verus!
