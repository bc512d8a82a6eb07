//! An in-memory model of the fungible-token service the engine moves value
//! through: per-identity balances, an atomic `transfer`, and a `mint` used
//! to fund accounts. A transfer either succeeds in full or fails with a
//! well-typed error and no balance change — there are no partial transfers.

use vstd::prelude::*;

use crate::types::Address;
use crate::types::Error;

verus! {

/// The balance of `a` in an association list, first match wins. Accounts
/// that never appear hold a zero balance.
spec fn balance_in_seq(s: Seq<(Address, i128)>, a: Address) -> int
    decreases s.len(),
{
    if s.len() == 0 {
        0
    } else if s[0].0 == a {
        s[0].1 as int
    } else {
        balance_in_seq(s.subrange(1, s.len() as int), a)
    }
}

proof fn lemma_balance_first_match(s: Seq<(Address, i128)>, a: Address, i: int)
    requires
        0 <= i < s.len(),
        s[i].0 == a,
        forall|k: int| 0 <= k < i ==> s[k].0 != a,
    ensures
        balance_in_seq(s, a) == s[i].1 as int,
    decreases i,
{
    if i > 0 {
        let tail = s.subrange(1, s.len() as int);
        assert(forall|k: int| 0 <= k < i - 1 ==> tail[k].0 != a);
        lemma_balance_first_match(tail, a, i - 1);
    }
}

proof fn lemma_balance_no_match(s: Seq<(Address, i128)>, a: Address)
    requires
        forall|k: int| 0 <= k < s.len() ==> s[k].0 != a,
    ensures
        balance_in_seq(s, a) == 0,
    decreases s.len(),
{
    if s.len() > 0 {
        let tail = s.subrange(1, s.len() as int);
        assert(forall|k: int| 0 <= k < tail.len() ==> tail[k].0 != a);
        lemma_balance_no_match(tail, a);
    }
}

proof fn lemma_balance_update_other(s: Seq<(Address, i128)>, i: int, v: i128, b: Address)
    requires
        0 <= i < s.len(),
        s[i].0 != b,
    ensures
        balance_in_seq(s.update(i, (s[i].0, v)), b) == balance_in_seq(s, b),
    decreases s.len(),
{
    let u = s.update(i, (s[i].0, v));
    if i == 0 {
        assert(u.subrange(1, u.len() as int) =~= s.subrange(1, s.len() as int));
    } else if s[0].0 != b {
        let tail = s.subrange(1, s.len() as int);
        assert(u.subrange(1, u.len() as int) =~= tail.update(i - 1, (tail[i - 1].0, v)));
        lemma_balance_update_other(tail, i - 1, v, b);
    }
}

proof fn lemma_balance_push_other(s: Seq<(Address, i128)>, x: (Address, i128), b: Address)
    requires
        x.0 != b,
    ensures
        balance_in_seq(s.push(x), b) == balance_in_seq(s, b),
    decreases s.len(),
{
    let p = s.push(x);
    if s.len() == 0 {
        lemma_balance_no_match(p, b);
        lemma_balance_no_match(s, b);
    } else if s[0].0 != b {
        assert(p[0] == s[0]);
        assert(p.subrange(1, p.len() as int) =~= s.subrange(1, s.len() as int).push(x));
        lemma_balance_push_other(s.subrange(1, s.len() as int), x, b);
    } else {
        assert(p[0] == s[0]);
    }
}

/// The model of the fungible-token contract the engine is configured with:
/// it answers balance queries and moves value between identities.
pub struct TokenLedger {
    accounts: Vec<(Address, i128)>,
}

impl TokenLedger {
    /// The balance attributed to `a`; identities never credited hold zero.
    pub closed spec fn spec_balance(self, a: Address) -> int {
        balance_in_seq(self.accounts@, a)
    }

    /// A ledger in which every identity holds a zero balance.
    pub fn new() -> (r: TokenLedger)
        ensures
            forall|a: Address| r.spec_balance(a) == 0,
    {
        let r = TokenLedger { accounts: Vec::new() };
        proof {
            assert forall|a: Address| r.spec_balance(a) == 0 by {
                lemma_balance_no_match(r.accounts@, a);
            }
        }
        r
    }

    fn find_account(&self, a: Address) -> (r: Option<usize>)
        ensures
            (match r {
                Some(i) => {
                    &&& i < self.accounts@.len()
                    &&& self.accounts@[i as int].0 == a
                    &&& forall|k: int| 0 <= k < i ==> self.accounts@[k].0 != a
                },
                None => forall|k: int|
                    0 <= k < self.accounts@.len() ==> self.accounts@[k].0 != a,
            }),
    {
        let mut i: usize = 0;
        while i < self.accounts.len()
            invariant
                i <= self.accounts@.len(),
                forall|k: int| 0 <= k < i ==> self.accounts@[k].0 != a,
            decreases self.accounts@.len() - i,
        {
            if self.accounts[i].0 == a {
                return Some(i);
            }
            i = i + 1;
        }
        None
    }

    /// Answers the current balance of `a`.
    pub fn balance(&self, a: Address) -> (r: i128)
        ensures
            r as int == self.spec_balance(a),
    {
        match self.find_account(a) {
            Some(i) => {
                proof {
                    lemma_balance_first_match(self.accounts@, a, i as int);
                }
                self.accounts[i].1
            },
            None => {
                proof {
                    lemma_balance_no_match(self.accounts@, a);
                }
                0
            },
        }
    }

    fn set_balance(&mut self, a: Address, v: i128)
        ensures
            final(self).spec_balance(a) == v as int,
            forall|b: Address|
                b != a ==> final(self).spec_balance(b) == old(self).spec_balance(b),
    {
        match self.find_account(a) {
            Some(i) => {
                self.accounts[i] = (a, v);
                proof {
                    assert(self.accounts@ =~= old(self).accounts@.update(
                        i as int,
                        (old(self).accounts@[i as int].0, v),
                    ));
                    lemma_balance_first_match(self.accounts@, a, i as int);
                    assert forall|b: Address|
                        b != a implies self.spec_balance(b) == old(self).spec_balance(b) by {
                        lemma_balance_update_other(old(self).accounts@, i as int, v, b);
                    }
                }
            },
            None => {
                self.accounts.push((a, v));
                proof {
                    lemma_balance_first_match(self.accounts@, a, old(self).accounts@.len() as int);
                    assert forall|b: Address|
                        b != a implies self.spec_balance(b) == old(self).spec_balance(b) by {
                        lemma_balance_push_other(old(self).accounts@, (a, v), b);
                    }
                }
            },
        }
    }

    /// Creates `amount` new units in the account of `to`.
    pub fn mint(&mut self, to: Address, amount: i128) -> (r: Result<(), Error>)
        requires
            amount >= 0,
        ensures
            (match r {
                Ok(()) => {
                    &&& old(self).spec_balance(to) + amount <= i128::MAX
                    &&& final(self).spec_balance(to) == old(self).spec_balance(to) + amount
                    &&& forall|b: Address|
                        b != to ==> final(self).spec_balance(b) == old(self).spec_balance(b)
                },
                Err(e) => {
                    &&& e == Error::ArithmeticOverflow
                    &&& old(self).spec_balance(to) + amount > i128::MAX
                    &&& forall|b: Address|
                        final(self).spec_balance(b) == old(self).spec_balance(b)
                },
            }),
    {
        let current: i128 = self.balance(to);
        if current > i128::MAX - amount {
            return Err(Error::ArithmeticOverflow);
        }
        self.set_balance(to, current + amount);
        Ok(())
    }

    /// Moves `amount` from `from` to `to` atomically, or fails with no
    /// balance change: `InsufficientBalance` when `from` cannot cover the
    /// amount, `ArithmeticOverflow` when `to` cannot absorb it.
    pub fn transfer(&mut self, from: Address, to: Address, amount: i128) -> (r: Result<
        (),
        Error,
    >)
        requires
            amount >= 0,
        ensures
            (match r {
                Ok(()) => {
                    &&& old(self).spec_balance(from) >= amount
                    &&& from != to ==> old(self).spec_balance(to) + amount <= i128::MAX
                    &&& forall|a: Address|
                        final(self).spec_balance(a) == spec_moved(
                            *old(self),
                            from,
                            to,
                            amount as int,
                            a,
                        )
                },
                Err(e) => {
                    &&& (forall|a: Address|
                        final(self).spec_balance(a) == old(self).spec_balance(a))
                    &&& (e == Error::InsufficientBalance || e == Error::ArithmeticOverflow)
                    &&& (e == Error::InsufficientBalance <==> old(self).spec_balance(from)
                        < amount)
                    &&& (e == Error::ArithmeticOverflow <==> (old(self).spec_balance(from)
                        >= amount && from != to && old(self).spec_balance(to) + amount
                        > i128::MAX))
                },
            }),
    {
        let from_balance: i128 = self.balance(from);
        if from_balance < amount {
            return Err(Error::InsufficientBalance);
        }
        if from == to {
            return Ok(());
        }
        let to_balance: i128 = self.balance(to);
        if to_balance > i128::MAX - amount {
            return Err(Error::ArithmeticOverflow);
        }
        self.set_balance(from, from_balance - amount);
        self.set_balance(to, to_balance + amount);
        Ok(())
    }
}

/// What every balance is after `amount` moved from `from` to `to`: the
/// source is debited, the destination credited, everyone else untouched,
/// and a transfer to oneself changes nothing.
pub open spec fn spec_moved(
    pre: TokenLedger,
    from: Address,
    to: Address,
    amount: int,
    a: Address,
) -> int {
    if from == to {
        pre.spec_balance(a)
    } else if a == from {
        pre.spec_balance(a) - amount
    } else if a == to {
        pre.spec_balance(a) + amount
    } else {
        pre.spec_balance(a)
    }
}

} // verus!
