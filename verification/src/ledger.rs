//! The ledger: total supply, balances, allowances, and the six operations of
//! the classic fungible-token interface.
//!
//! Every mutating operation either applies in full or leaves the ledger
//! exactly as it was, and every operation preserves the central invariant
//! that the balances sum to the fixed total supply.

use vstd::prelude::*;

use crate::allowance_table::allowance_in;
use crate::allowance_table::lookup_allowance;
use crate::allowance_table::set_allowance;
use crate::allowance_table::unique_pairs;
use crate::balance_table::balance_in;
use crate::balance_table::lemma_balance_le_sum;
use crate::balance_table::lemma_push_entry;
use crate::balance_table::lookup_balance;
use crate::balance_table::set_balance;
use crate::balance_table::sum_balances;
use crate::balance_table::unique_accounts;
use crate::types::approval_event;
use crate::types::transfer_event;
use crate::types::AccountId;
use crate::types::Approval;
use crate::types::Balance;
use crate::types::Error;
use crate::types::Event;
use crate::types::Transfer;

verus! {

/// A fungible-token ledger. The whole supply is credited to one account at
/// construction; thereafter value only moves between accounts, directly or
/// through owner-granted allowances.
pub struct ContractsInkErc20 {
    total_supply: Balance,
    balances: Vec<(AccountId, Balance)>,
    allowances: Vec<(AccountId, AccountId, Balance)>,
    events: Vec<Event>,
}

impl ContractsInkErc20 {
    /// The fixed supply set at construction.
    pub closed spec fn spec_total_supply(&self) -> Balance {
        self.total_supply
    }

    /// The balance recorded for `a`, zero when `a` was never credited.
    pub closed spec fn spec_balance_of(&self, a: AccountId) -> Balance {
        balance_in(self.balances@, a)
    }

    /// The allowance recorded for `(owner, spender)`, zero when never set.
    pub closed spec fn spec_allowance(&self, owner: AccountId, spender: AccountId) -> Balance {
        allowance_in(self.allowances@, owner, spender)
    }

    /// The notifications emitted so far, oldest first.
    pub closed spec fn spec_events(&self) -> Seq<Event> {
        self.events@
    }

    /// The sum of all recorded balances, as an unbounded integer.
    pub closed spec fn spec_sum_of_balances(&self) -> int {
        sum_balances(self.balances@)
    }

    /// Well-formedness: each store keys every account (or pair) at most once,
    /// and the balances sum to the total supply.
    pub closed spec fn wf(&self) -> bool {
        &&& unique_accounts(self.balances@)
        &&& unique_pairs(self.allowances@)
        &&& sum_balances(self.balances@) == self.total_supply as int
    }

    /// No observable difference between `pre` and `post`: same supply, same
    /// balances, same allowances, same notification log.
    pub open spec fn unchanged(pre: Self, post: Self) -> bool {
        &&& post.spec_total_supply() == pre.spec_total_supply()
        &&& forall|a: AccountId| post.spec_balance_of(a) == pre.spec_balance_of(a)
        &&& forall|o: AccountId, s: AccountId|
            post.spec_allowance(o, s) == pre.spec_allowance(o, s)
        &&& post.spec_events() == pre.spec_events()
    }

    /// What a successful `approve` changes: exactly the one allowance entry,
    /// overwritten to `value`, plus one appended approval notification.
    pub open spec fn approve_post(
        pre: Self,
        post: Self,
        caller: AccountId,
        spender: AccountId,
        value: Balance,
    ) -> bool {
        &&& post.spec_total_supply() == pre.spec_total_supply()
        &&& forall|a: AccountId| post.spec_balance_of(a) == pre.spec_balance_of(a)
        &&& post.spec_allowance(caller, spender) == value
        &&& forall|o: AccountId, s: AccountId|
            !(o == caller && s == spender) ==> post.spec_allowance(o, s) == pre.spec_allowance(
                o,
                s,
            )
        &&& post.spec_events() == pre.spec_events().push(approval_event(caller, spender, value))
    }

    /// What a successful direct transfer changes: `value` moves from `from`
    /// to `to` (a no-op on balances when the two coincide), no allowance is
    /// touched, and one transfer notification is appended.
    pub open spec fn transfer_ok_post(
        pre: Self,
        post: Self,
        from: AccountId,
        to: AccountId,
        value: Balance,
    ) -> bool {
        &&& post.spec_total_supply() == pre.spec_total_supply()
        &&& forall|a: AccountId|
            post.spec_balance_of(a) as int == pre.spec_balance_of(a) - (if a == from {
                value as int
            } else {
                0
            }) + (if a == to {
                value as int
            } else {
                0
            })
        &&& forall|o: AccountId, s: AccountId|
            post.spec_allowance(o, s) == pre.spec_allowance(o, s)
        &&& post.spec_events() == pre.spec_events().push(
            transfer_event(Some(from), Some(to), value),
        )
    }

    /// What a successful `transfer_from` changes: the balance movement of a
    /// direct transfer, plus the `(from, caller)` allowance consumed by
    /// exactly `value`, plus one transfer notification.
    pub open spec fn transfer_from_ok_post(
        pre: Self,
        post: Self,
        caller: AccountId,
        from: AccountId,
        to: AccountId,
        value: Balance,
    ) -> bool {
        &&& post.spec_total_supply() == pre.spec_total_supply()
        &&& forall|a: AccountId|
            post.spec_balance_of(a) as int == pre.spec_balance_of(a) - (if a == from {
                value as int
            } else {
                0
            }) + (if a == to {
                value as int
            } else {
                0
            })
        &&& post.spec_allowance(from, caller) as int == pre.spec_allowance(from, caller) - value
        &&& forall|o: AccountId, s: AccountId|
            !(o == from && s == caller) ==> post.spec_allowance(o, s) == pre.spec_allowance(o, s)
        &&& post.spec_events() == pre.spec_events().push(
            transfer_event(Some(from), Some(to), value),
        )
    }

    /// Creates a ledger whose whole supply is credited to `creator`, with no
    /// allowances, and a single mint notification (a transfer with no source).
    pub fn new(initial_supply: Balance, creator: AccountId) -> (r: Self)
        ensures
            r.wf(),
            r.spec_total_supply() == initial_supply,
            r.spec_balance_of(creator) == initial_supply,
            forall|a: AccountId| a != creator ==> r.spec_balance_of(a) == 0,
            forall|o: AccountId, s: AccountId| r.spec_allowance(o, s) == 0,
            r.spec_events() == seq![transfer_event(None, Some(creator), initial_supply)],
    {
        let mut balances: Vec<(AccountId, Balance)> = Vec::new();
        proof {
            lemma_push_entry(balances@, (creator, initial_supply));
        }
        balances.push((creator, initial_supply));
        let mut events: Vec<Event> = Vec::new();
        events.push(Event::Transfer(Transfer { from: None, to: Some(creator), amount: initial_supply }));
        let r = ContractsInkErc20 {
            total_supply: initial_supply,
            balances,
            allowances: Vec::new(),
            events,
        };
        proof {
            assert forall|a: AccountId| a != creator implies r.spec_balance_of(a) == 0 by {
                assert(balance_in(Seq::<(AccountId, Balance)>::empty(), a) == 0);
            }
            assert forall|o: AccountId, s: AccountId| r.spec_allowance(o, s) == 0 by {
                assert(allowance_in(r.allowances@, o, s) == 0);
            }
            assert(r.spec_events() =~= seq![transfer_event(None, Some(creator), initial_supply)]);
        }
        r
    }

    /// Pure query: the invariant supply fixed at construction.
    pub fn total_supply(&self) -> (r: Balance)
        ensures
            r == self.spec_total_supply(),
    {
        self.total_supply
    }

    /// Pure query: the mapped balance, or zero if `owner` was never credited.
    pub fn balance_of(&self, owner: AccountId) -> (r: Balance)
        ensures
            r == self.spec_balance_of(owner),
    {
        lookup_balance(&self.balances, owner)
    }

    /// Pure query: the mapped allowance, or zero if the pair was never set.
    pub fn allowance(&self, owner: AccountId, spender: AccountId) -> (r: Balance)
        ensures
            r == self.spec_allowance(owner, spender),
    {
        lookup_allowance(&self.allowances, owner, spender)
    }

    /// Pure query: the notifications emitted so far, oldest first.
    pub fn events(&self) -> (r: &Vec<Event>)
        ensures
            r@ == self.spec_events(),
    {
        &self.events
    }

    /// Sets (overwrites, never adds to) the allowance of `spender` over
    /// `caller`'s balance. Always succeeds.
    pub fn approve(&mut self, caller: AccountId, spender: AccountId, value: Balance) -> (r: Result<
        (),
        Error,
    >)
        requires
            old(self).wf(),
        ensures
            final(self).wf(),
            r == Ok::<(), Error>(()),
            Self::approve_post(*old(self), *final(self), caller, spender, value),
    {
        set_allowance(&mut self.allowances, caller, spender, value);
        self.events.push(Event::Approval(Approval { owner: caller, spender, amount: value }));
        Ok(())
    }

    /// Moves `value` from the caller's own balance to `to`. Succeeds exactly
    /// when the caller's balance covers `value`; on failure nothing changes.
    pub fn transfer(&mut self, caller: AccountId, to: AccountId, value: Balance) -> (r: Result<
        (),
        Error,
    >)
        requires
            old(self).wf(),
        ensures
            final(self).wf(),
            old(self).spec_balance_of(caller) >= value ==> r == Ok::<(), Error>(())
                && Self::transfer_ok_post(*old(self), *final(self), caller, to, value),
            old(self).spec_balance_of(caller) < value ==> r == Err::<(), Error>(
                Error::InsufficientBalance,
            ) && Self::unchanged(*old(self), *final(self)),
    {
        self.transfer_from_to(caller, to, value)
    }

    /// Moves `value` from `from` to `to` on the strength of the allowance
    /// `from` granted to `caller`, consuming that allowance by `value`.
    /// The allowance is checked first, so a transfer that fails for lack of
    /// balance leaves the allowance untouched too.
    pub fn transfer_from(
        &mut self,
        caller: AccountId,
        from: AccountId,
        to: AccountId,
        value: Balance,
    ) -> (r: Result<(), Error>)
        requires
            old(self).wf(),
        ensures
            final(self).wf(),
            old(self).spec_allowance(from, caller) < value ==> r == Err::<(), Error>(
                Error::InsufficientApproval,
            ) && Self::unchanged(*old(self), *final(self)),
            old(self).spec_allowance(from, caller) >= value && old(self).spec_balance_of(from)
                < value ==> r == Err::<(), Error>(Error::InsufficientBalance) && Self::unchanged(
                *old(self),
                *final(self),
            ),
            old(self).spec_allowance(from, caller) >= value && old(self).spec_balance_of(from)
                >= value ==> r == Ok::<(), Error>(()) && Self::transfer_from_ok_post(
                *old(self),
                *final(self),
                caller,
                from,
                to,
                value,
            ),
    {
        let current_allowance = lookup_allowance(&self.allowances, from, caller);
        if current_allowance < value {
            return Err(Error::InsufficientApproval);
        }
        match self.transfer_from_to(from, to, value) {
            Err(e) => {
                return Err(e);
            },
            Ok(()) => {},
        }
        let ghost mid = *self;
        set_allowance(&mut self.allowances, from, caller, current_allowance - value);
        proof {
            let pre = *old(self);
            assert(Self::transfer_ok_post(pre, mid, from, to, value));
            assert forall|a: AccountId|
                self.spec_balance_of(a) as int == pre.spec_balance_of(a) - (if a == from {
                    value as int
                } else {
                    0
                }) + (if a == to {
                    value as int
                } else {
                    0
                }) by {
                assert(self.spec_balance_of(a) == mid.spec_balance_of(a));
            }
            assert forall|o: AccountId, s: AccountId| !(o == from && s == caller) implies
                self.spec_allowance(o, s) == pre.spec_allowance(o, s) by {
                assert(mid.spec_allowance(o, s) == pre.spec_allowance(o, s));
            }
        }
        Ok(())
    }

    /// The internal transfer primitive: debits `from`, credits `to`, and
    /// appends the transfer notification. The credit cannot overflow because
    /// the balances sum to the total supply.
    fn transfer_from_to(&mut self, from: AccountId, to: AccountId, value: Balance) -> (r: Result<
        (),
        Error,
    >)
        requires
            old(self).wf(),
        ensures
            final(self).wf(),
            old(self).spec_balance_of(from) >= value ==> r == Ok::<(), Error>(())
                && Self::transfer_ok_post(*old(self), *final(self), from, to, value),
            old(self).spec_balance_of(from) < value ==> r == Err::<(), Error>(
                Error::InsufficientBalance,
            ) && Self::unchanged(*old(self), *final(self)),
    {
        let ghost pre = *old(self);
        let from_balance = lookup_balance(&self.balances, from);
        if from_balance < value {
            return Err(Error::InsufficientBalance);
        }
        set_balance(&mut self.balances, from, from_balance - value);
        let to_balance = lookup_balance(&self.balances, to);
        proof {
            lemma_balance_le_sum(self.balances@, to);
        }
        set_balance(&mut self.balances, to, to_balance + value);
        self.events.push(Event::Transfer(Transfer { from: Some(from), to: Some(to), amount: value }));
        proof {
            assert forall|a: AccountId|
                self.spec_balance_of(a) as int == pre.spec_balance_of(a) - (if a == from {
                    value as int
                } else {
                    0
                }) + (if a == to {
                    value as int
                } else {
                    0
                }) by {}
        }
        Ok(())
    }

    /// Law: in every well-formed ledger state, the balances of all accounts
    /// sum to the fixed total supply.
    pub proof fn lemma_balances_sum_to_supply(l: Self)
        requires
            l.wf(),
        ensures
            l.spec_sum_of_balances() == l.spec_total_supply() as int,
    {
    }

    /// Law: no single account's balance can exceed the total supply of a
    /// well-formed ledger.
    pub proof fn lemma_balance_bounded_by_supply(l: Self, a: AccountId)
        requires
            l.wf(),
        ensures
            l.spec_balance_of(a) <= l.spec_total_supply(),
    {
        lemma_balance_le_sum(l.balances@, a);
    }

    /// Law: queries are idempotent. Two calls of `total_supply`, of
    /// `balance_of` on one account, or of `allowance` on one pair, with no
    /// mutation in between, return the same value.
    pub proof fn lemma_queries_idempotent(
        l: Self,
        a: AccountId,
        owner: AccountId,
        spender: AccountId,
        t1: Balance,
        t2: Balance,
        b1: Balance,
        b2: Balance,
        w1: Balance,
        w2: Balance,
    )
        requires
            call_ensures(Self::total_supply, (&l,), t1),
            call_ensures(Self::total_supply, (&l,), t2),
            call_ensures(Self::balance_of, (&l, a), b1),
            call_ensures(Self::balance_of, (&l, a), b2),
            call_ensures(Self::allowance, (&l, owner, spender), w1),
            call_ensures(Self::allowance, (&l, owner, spender), w2),
        ensures
            t1 == t2,
            b1 == b2,
            w1 == w2,
    {
    }

    /// Law: approvals overwrite, they never accumulate. After two approvals
    /// for the same owner and spender, the allowance is the second value.
    pub proof fn lemma_approve_overwrites(
        l0: Self,
        l1: Self,
        l2: Self,
        owner: AccountId,
        spender: AccountId,
        v1: Balance,
        v2: Balance,
    )
        requires
            Self::approve_post(l0, l1, owner, spender, v1),
            Self::approve_post(l1, l2, owner, spender, v2),
        ensures
            l2.spec_allowance(owner, spender) == v2,
    {
    }

    /// Law: a self-transfer leaves every balance exactly as it was and still
    /// appends one transfer notification naming the account on both sides.
    pub proof fn lemma_self_transfer_keeps_balances(
        pre: Self,
        post: Self,
        a: AccountId,
        value: Balance,
    )
        requires
            Self::transfer_ok_post(pre, post, a, a, value),
        ensures
            forall|b: AccountId| post.spec_balance_of(b) == pre.spec_balance_of(b),
            post.spec_events() == pre.spec_events().push(transfer_event(Some(a), Some(a), value)),
    {
        assert forall|b: AccountId| post.spec_balance_of(b) == pre.spec_balance_of(b) by {
            assert(post.spec_balance_of(b) as int == pre.spec_balance_of(b) - (if b == a {
                value as int
            } else {
                0
            }) + (if b == a {
                value as int
            } else {
                0
            }));
        }
    }
}

} // verus!
