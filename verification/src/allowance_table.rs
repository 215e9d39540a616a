//! The allowance store: an association list from an (owner, spender) pair to
//! the amount the spender may still move out of the owner's balance.
//!
//! Pairs are unique and an absent pair reads as zero.

use vstd::prelude::*;

use crate::types::AccountId;
use crate::types::Balance;

verus! {

/// The amount recorded for the pair `(o, sp)`: the value of the first entry
/// keyed by that pair, or zero when no entry has it.
pub open spec fn allowance_in(
    s: Seq<(AccountId, AccountId, Balance)>,
    o: AccountId,
    sp: AccountId,
) -> Balance
    decreases s.len(),
{
    if s.len() == 0 {
        0
    } else if s[0].0 == o && s[0].1 == sp {
        s[0].2
    } else {
        allowance_in(s.drop_first(), o, sp)
    }
}

/// Every (owner, spender) pair keys at most one entry.
pub open spec fn unique_pairs(s: Seq<(AccountId, AccountId, Balance)>) -> bool {
    forall|i: int, j: int|
        0 <= i < j < s.len() ==> !(s[i].0 == s[j].0 && s[i].1 == s[j].1)
}

/// A pair without an entry has a zero allowance.
pub proof fn lemma_allowance_absent(
    s: Seq<(AccountId, AccountId, Balance)>,
    o: AccountId,
    sp: AccountId,
)
    requires
        forall|i: int| 0 <= i < s.len() ==> !(s[i].0 == o && s[i].1 == sp),
    ensures
        allowance_in(s, o, sp) == 0,
    decreases s.len(),
{
    if s.len() > 0 {
        assert(forall|i: int| 0 <= i < s.drop_first().len() ==> s.drop_first()[i] == s[i + 1]);
        lemma_allowance_absent(s.drop_first(), o, sp);
    }
}

/// The first entry keyed by `(o, sp)` holds the recorded allowance.
pub proof fn lemma_allowance_found(
    s: Seq<(AccountId, AccountId, Balance)>,
    i: int,
    o: AccountId,
    sp: AccountId,
)
    requires
        0 <= i < s.len(),
        s[i].0 == o && s[i].1 == sp,
        forall|j: int| 0 <= j < i ==> !(s[j].0 == o && s[j].1 == sp),
    ensures
        allowance_in(s, o, sp) == s[i].2,
    decreases i,
{
    if i > 0 {
        assert(s.drop_first()[i - 1] == s[i]);
        assert(forall|j: int| 0 <= j < i - 1 ==> s.drop_first()[j] == s[j + 1]);
        lemma_allowance_found(s.drop_first(), i - 1, o, sp);
    }
}

/// Removing the entry at `i` leaves every other pair's allowance as it was.
pub proof fn lemma_remove_pair(s: Seq<(AccountId, AccountId, Balance)>, i: int)
    requires
        0 <= i < s.len(),
    ensures
        forall|o: AccountId, sp: AccountId|
            !(o == s[i].0 && sp == s[i].1) ==> allowance_in(s.remove(i), o, sp) == allowance_in(
                s,
                o,
                sp,
            ),
    decreases s.len(),
{
    if i == 0 {
        assert(s.remove(0) =~= s.drop_first());
    } else {
        let t = s.drop_first();
        assert(s.remove(i)[0] == s[0]);
        assert(s.remove(i).drop_first() =~= t.remove(i - 1));
        assert(t[i - 1] == s[i]);
        lemma_remove_pair(t, i - 1);
        assert forall|o: AccountId, sp: AccountId| !(o == s[i].0 && sp == s[i].1) implies
            allowance_in(s.remove(i), o, sp) == allowance_in(s, o, sp) by {
            if !(s[0].0 == o && s[0].1 == sp) {
                assert(allowance_in(s.remove(i), o, sp) == allowance_in(t.remove(i - 1), o, sp));
                assert(allowance_in(s, o, sp) == allowance_in(t, o, sp));
            }
        }
    }
}

/// When pairs are unique, removing the entry at `i` removes the pair entirely.
pub proof fn lemma_remove_pair_unique(s: Seq<(AccountId, AccountId, Balance)>, i: int)
    requires
        unique_pairs(s),
        0 <= i < s.len(),
    ensures
        unique_pairs(s.remove(i)),
        forall|j: int|
            0 <= j < s.remove(i).len() ==> !(s.remove(i)[j].0 == s[i].0 && s.remove(i)[j].1
                == s[i].1),
{
    assert forall|j: int|
        0 <= j < s.remove(i).len() implies !(s.remove(i)[j].0 == s[i].0 && s.remove(i)[j].1
        == s[i].1) by {
        if j < i {
            assert(s.remove(i)[j] == s[j]);
        } else {
            assert(s.remove(i)[j] == s[j + 1]);
        }
    }
    assert forall|j: int, k: int| 0 <= j < k < s.remove(i).len() implies !(s.remove(i)[j].0
        == s.remove(i)[k].0 && s.remove(i)[j].1 == s.remove(i)[k].1) by {
        assert(s.remove(i)[j] == (if j < i { s[j] } else { s[j + 1] }));
        assert(s.remove(i)[k] == (if k < i { s[k] } else { s[k + 1] }));
    }
}

/// Appending an entry for a pair not yet present records its allowance and
/// leaves every other pair's allowance as it was.
pub proof fn lemma_push_pair(
    s: Seq<(AccountId, AccountId, Balance)>,
    e: (AccountId, AccountId, Balance),
)
    requires
        forall|i: int| 0 <= i < s.len() ==> !(s[i].0 == e.0 && s[i].1 == e.1),
    ensures
        allowance_in(s.push(e), e.0, e.1) == e.2,
        forall|o: AccountId, sp: AccountId|
            !(o == e.0 && sp == e.1) ==> allowance_in(s.push(e), o, sp) == allowance_in(s, o, sp),
        unique_pairs(s) ==> unique_pairs(s.push(e)),
    decreases s.len(),
{
    if s.len() == 0 {
        assert(s.push(e)[0] == e);
        assert(s.push(e).drop_first() =~= Seq::<(AccountId, AccountId, Balance)>::empty());
        assert(allowance_in(s.push(e), e.0, e.1) == e.2);
        assert forall|o: AccountId, sp: AccountId| !(o == e.0 && sp == e.1) implies allowance_in(
            s.push(e),
            o,
            sp,
        ) == allowance_in(s, o, sp) by {
            assert(allowance_in(s.push(e).drop_first(), o, sp) == 0);
        }
    } else {
        let t = s.drop_first();
        assert(s.push(e)[0] == s[0]);
        assert(s.push(e).drop_first() =~= t.push(e));
        assert(forall|i: int| 0 <= i < t.len() ==> t[i] == s[i + 1]);
        lemma_push_pair(t, e);
        assert(!(s[0].0 == e.0 && s[0].1 == e.1));
        assert(allowance_in(s.push(e), e.0, e.1) == allowance_in(t.push(e), e.0, e.1));
        assert forall|o: AccountId, sp: AccountId| !(o == e.0 && sp == e.1) implies allowance_in(
            s.push(e),
            o,
            sp,
        ) == allowance_in(s, o, sp) by {
            if !(s[0].0 == o && s[0].1 == sp) {
                assert(allowance_in(s.push(e), o, sp) == allowance_in(t.push(e), o, sp));
                assert(allowance_in(s, o, sp) == allowance_in(t, o, sp));
            }
        }
    }
    if unique_pairs(s) {
        assert forall|j: int, k: int| 0 <= j < k < s.push(e).len() implies !(s.push(e)[j].0
            == s.push(e)[k].0 && s.push(e)[j].1 == s.push(e)[k].1) by {
            if k < s.len() {
                assert(s.push(e)[j] == s[j]);
                assert(s.push(e)[k] == s[k]);
            } else {
                assert(s.push(e)[j] == s[j]);
                assert(s.push(e)[k] == e);
            }
        }
    }
}

/// Returns the recorded allowance of `(owner, spender)`, or zero when the
/// pair has no entry.
pub fn lookup_allowance(
    v: &Vec<(AccountId, AccountId, Balance)>,
    owner: AccountId,
    spender: AccountId,
) -> (r: Balance)
    ensures
        r == allowance_in(v@, owner, spender),
{
    let mut i: usize = 0;
    while i < v.len()
        invariant
            i <= v@.len(),
            forall|j: int| 0 <= j < i ==> !(v@[j].0 == owner && v@[j].1 == spender),
        decreases v@.len() - i,
    {
        if v[i].0 == owner && v[i].1 == spender {
            proof {
                lemma_allowance_found(v@, i as int, owner, spender);
            }
            return v[i].2;
        }
        i = i + 1;
    }
    proof {
        lemma_allowance_absent(v@, owner, spender);
    }
    0
}

/// Records `amount` as the allowance of `(owner, spender)`, replacing any
/// previous entry for that pair and leaving every other pair as it was.
pub fn set_allowance(
    v: &mut Vec<(AccountId, AccountId, Balance)>,
    owner: AccountId,
    spender: AccountId,
    amount: Balance,
)
    requires
        unique_pairs(old(v)@),
    ensures
        unique_pairs(final(v)@),
        allowance_in(final(v)@, owner, spender) == amount,
        forall|o: AccountId, sp: AccountId|
            !(o == owner && sp == spender) ==> allowance_in(final(v)@, o, sp) == allowance_in(
                old(v)@,
                o,
                sp,
            ),
{
    let ghost s0 = v@;
    let mut i: usize = 0;
    while i < v.len()
        invariant
            v@ == s0,
            s0 == old(v)@,
            unique_pairs(s0),
            i <= s0.len(),
            forall|j: int| 0 <= j < i ==> !(s0[j].0 == owner && s0[j].1 == spender),
        decreases s0.len() - i,
    {
        if v[i].0 == owner && v[i].1 == spender {
            proof {
                lemma_remove_pair(s0, i as int);
                lemma_remove_pair_unique(s0, i as int);
            }
            v.remove(i);
            proof {
                lemma_push_pair(v@, (owner, spender, amount));
            }
            v.push((owner, spender, amount));
            return;
        }
        i = i + 1;
    }
    proof {
        lemma_push_pair(s0, (owner, spender, amount));
    }
    v.push((owner, spender, amount));
}

} // verus!
