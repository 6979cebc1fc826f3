//! The reservation gateway: a balance ledger that can hold (reserve) part of
//! an account's balance as a stake.
//!
//! The posting logic never moves balances itself; it only asks this gateway
//! to reserve the stake, and commits a post only when the reservation
//! succeeded.

use vstd::prelude::*;

use crate::dispatch::DispatchError;

verus! {

/// One account row: the balance the owner may still spend (`free`) and the
/// balance held against it (`reserved`).
#[derive(Clone, Copy, PartialEq, Eq, Structural, Debug)]
pub struct AccountBalance {
    pub id: u64,
    pub free: u64,
    pub reserved: u64,
}

/// A balance ledger keyed by account id.
pub struct BalanceLedger {
    pub accounts: Vec<AccountBalance>,
}

impl BalanceLedger {
    /// Well-formed: account ids are unique, and each account's total balance
    /// (free plus reserved) fits the balance type, so a reservation can never
    /// overflow the reserved side.
    pub open spec fn wf(&self) -> bool {
        &&& forall|i: int, j: int|
            0 <= i < j < self.accounts@.len() ==> self.accounts@[i].id != self.accounts@[j].id
        &&& forall|i: int|
            0 <= i < self.accounts@.len() ==> self.accounts@[i].free + self.accounts@[i].reserved
                <= u64::MAX
    }

    /// Whether the ledger holds a row for `who`.
    pub open spec fn has_account(&self, who: u64) -> bool {
        exists|i: int| 0 <= i < self.accounts@.len() && self.accounts@[i].id == who
    }

    /// The position of `who`'s row (meaningful only when `has_account` holds;
    /// in a well-formed ledger that position is unique).
    pub open spec fn account_index(&self, who: u64) -> int {
        choose|i: int| 0 <= i < self.accounts@.len() && self.accounts@[i].id == who
    }

    /// The free (spendable) balance of `who`; 0 for an account the ledger
    /// holds no row for.
    pub open spec fn free_of(&self, who: u64) -> u64 {
        if self.has_account(who) {
            self.accounts@[self.account_index(who)].free
        } else {
            0
        }
    }

    /// The reserved (held) balance of `who`; 0 for an account the ledger
    /// holds no row for.
    pub open spec fn reserved_of(&self, who: u64) -> u64 {
        if self.has_account(who) {
            self.accounts@[self.account_index(who)].reserved
        } else {
            0
        }
    }

    /// In a well-formed ledger, a row whose id is `who` is the row that
    /// `free_of` and `reserved_of` read.
    pub proof fn lemma_entry_at(self, who: u64, i: int)
        requires
            self.wf(),
            0 <= i < self.accounts@.len(),
            self.accounts@[i].id == who,
        ensures
            self.has_account(who),
            self.account_index(who) == i,
            self.free_of(who) == self.accounts@[i].free,
            self.reserved_of(who) == self.accounts@[i].reserved,
    {
        assert(self.has_account(who));
        let k = self.account_index(who);
        assert(0 <= k < self.accounts@.len() && self.accounts@[k].id == who);
        if k != i {
            assert(self.accounts@[i].id != self.accounts@[k].id);
        }
    }

    /// A ledger with no row for `who` reads both balances of `who` as 0.
    pub proof fn lemma_no_entry(self, who: u64)
        requires
            forall|i: int| 0 <= i < self.accounts@.len() ==> self.accounts@[i].id != who,
        ensures
            !self.has_account(who),
            self.free_of(who) == 0,
            self.reserved_of(who) == 0,
    {
    }

    /// After writing exactly the row at position `i` (replacing `who`'s old
    /// row, or appending a fresh one), `who` reads the written row and every
    /// other account reads exactly what it read before.
    proof fn lemma_row_written(self, pre: BalanceLedger, who: u64, i: int)
        requires
            pre.wf(),
            0 <= i < self.accounts@.len(),
            self.accounts@[i].id == who,
            self.accounts@[i].free + self.accounts@[i].reserved <= u64::MAX,
            i < pre.accounts@.len() ==> self.accounts@.len() == pre.accounts@.len(),
            i == pre.accounts@.len() ==> self.accounts@.len() == pre.accounts@.len() + 1,
            i <= pre.accounts@.len(),
            forall|j: int|
                0 <= j < self.accounts@.len() && j != i ==> j < pre.accounts@.len()
                    && self.accounts@[j] == pre.accounts@[j],
            i < pre.accounts@.len() ==> pre.accounts@[i].id == who,
            forall|j: int| 0 <= j < pre.accounts@.len() && j != i ==> pre.accounts@[j].id != who,
        ensures
            self.wf(),
            self.free_of(who) == self.accounts@[i].free,
            self.reserved_of(who) == self.accounts@[i].reserved,
            forall|a: u64| a != who ==> self.free_of(a) == pre.free_of(a),
            forall|a: u64| a != who ==> self.reserved_of(a) == pre.reserved_of(a),
    {
        assert forall|p: int, q: int|
            0 <= p < q < self.accounts@.len() implies self.accounts@[p].id
            != self.accounts@[q].id by {
            if p != i && q != i {
                assert(self.accounts@[p] == pre.accounts@[p]);
                assert(self.accounts@[q] == pre.accounts@[q]);
            }
        }
        assert(self.wf());
        self.lemma_entry_at(who, i);
        assert forall|a: u64| a != who implies self.free_of(a) == pre.free_of(a)
            && self.reserved_of(a) == pre.reserved_of(a) by {
            if exists|j: int| 0 <= j < pre.accounts@.len() && pre.accounts@[j].id == a {
                let j = choose|j: int| 0 <= j < pre.accounts@.len() && pre.accounts@[j].id == a;
                // position i held who's row before (when it existed at all),
                // and a != who, so a's row sits elsewhere and was not touched
                assert(j != i);
                assert(self.accounts@[j] == pre.accounts@[j]);
                pre.lemma_entry_at(a, j);
                self.lemma_entry_at(a, j);
            } else {
                pre.lemma_no_entry(a);
                assert forall|j: int|
                    0 <= j < self.accounts@.len() implies self.accounts@[j].id != a by {
                    if j != i {
                        assert(self.accounts@[j] == pre.accounts@[j]);
                    }
                }
                self.lemma_no_entry(a);
            }
        }
    }

    /// An empty ledger: no accounts, every balance 0.
    pub fn new() -> (r: BalanceLedger)
        ensures
            r.wf(),
            r.accounts@.len() == 0,
            forall|a: u64| r.free_of(a) == 0,
            forall|a: u64| r.reserved_of(a) == 0,
    {
        BalanceLedger { accounts: Vec::new() }
    }

    /// Reads the free balance of `who`.
    pub fn free_balance(&self, who: u64) -> (r: u64)
        requires
            self.wf(),
        ensures
            r == self.free_of(who),
    {
        let n = self.accounts.len();
        let mut i: usize = 0;
        while i < n
            invariant
                n == self.accounts@.len(),
                i <= n,
                forall|j: int| 0 <= j < i ==> self.accounts@[j].id != who,
                self.wf(),
            decreases n - i,
        {
            if self.accounts[i].id == who {
                proof {
                    self.lemma_entry_at(who, i as int);
                }
                return self.accounts[i].free;
            }
            i += 1;
        }
        proof {
            self.lemma_no_entry(who);
        }
        0
    }

    /// Reads the reserved balance of `who`.
    pub fn reserved_balance(&self, who: u64) -> (r: u64)
        requires
            self.wf(),
        ensures
            r == self.reserved_of(who),
    {
        let n = self.accounts.len();
        let mut i: usize = 0;
        while i < n
            invariant
                n == self.accounts@.len(),
                i <= n,
                forall|j: int| 0 <= j < i ==> self.accounts@[j].id != who,
                self.wf(),
            decreases n - i,
        {
            if self.accounts[i].id == who {
                proof {
                    self.lemma_entry_at(who, i as int);
                }
                return self.accounts[i].reserved;
            }
            i += 1;
        }
        proof {
            self.lemma_no_entry(who);
        }
        0
    }

    /// Sets `who`'s balances outright, adding the row if the ledger holds
    /// none. This is the gateway's endowment facility (used at genesis and by
    /// test benches); the posting logic itself never calls it.
    pub fn set_balance(&mut self, who: u64, free: u64, reserved: u64)
        requires
            old(self).wf(),
            free + reserved <= u64::MAX,
        ensures
            final(self).wf(),
            final(self).free_of(who) == free,
            final(self).reserved_of(who) == reserved,
            forall|a: u64| a != who ==> final(self).free_of(a) == old(self).free_of(a),
            forall|a: u64| a != who ==> final(self).reserved_of(a) == old(self).reserved_of(a),
    {
        let n = self.accounts.len();
        let mut i: usize = 0;
        while i < n
            invariant
                n == self.accounts@.len(),
                i <= n,
                forall|j: int| 0 <= j < i ==> self.accounts@[j].id != who,
                self.wf(),
                *self == *old(self),
                free + reserved <= u64::MAX,
            decreases n - i,
        {
            if self.accounts[i].id == who {
                self.accounts[i] = AccountBalance { id: who, free, reserved };
                proof {
                    self.lemma_row_written(*old(self), who, i as int);
                }
                return ;
            }
            i += 1;
        }
        self.accounts.push(AccountBalance { id: who, free, reserved });
        proof {
            self.lemma_row_written(*old(self), who, n as int);
        }
    }

    /// Moves `value` of `who`'s balance from free to reserved; the whole
    /// request is honoured or nothing is. An account whose free balance is
    /// short of `value` (in particular an account the ledger holds no row
    /// for, asked for a nonzero value) leaves the ledger untouched.
    pub fn reserve(&mut self, who: u64, value: u64) -> (r: Result<(), DispatchError>)
        requires
            old(self).wf(),
        ensures
            final(self).wf(),
            old(self).free_of(who) >= value ==> {
                &&& r == Ok::<(), DispatchError>(())
                &&& final(self).free_of(who) == old(self).free_of(who) - value
                &&& final(self).reserved_of(who) == old(self).reserved_of(who) + value
            },
            old(self).free_of(who) < value ==> {
                &&& r == Err::<(), DispatchError>(DispatchError::InsufficientBalance)
                &&& *final(self) == *old(self)
            },
            forall|a: u64| a != who ==> final(self).free_of(a) == old(self).free_of(a),
            forall|a: u64| a != who ==> final(self).reserved_of(a) == old(self).reserved_of(a),
    {
        let n = self.accounts.len();
        let mut i: usize = 0;
        while i < n
            invariant
                n == self.accounts@.len(),
                i <= n,
                forall|j: int| 0 <= j < i ==> self.accounts@[j].id != who,
                self.wf(),
                *self == *old(self),
            decreases n - i,
        {
            if self.accounts[i].id == who {
                let row = self.accounts[i];
                proof {
                    self.lemma_entry_at(who, i as int);
                }
                if row.free < value {
                    return Err(DispatchError::InsufficientBalance);
                }
                proof {
                    assert(row.free + row.reserved <= u64::MAX);
                }
                self.accounts[i] = AccountBalance {
                    id: who,
                    free: row.free - value,
                    reserved: row.reserved + value,
                };
                proof {
                    self.lemma_row_written(*old(self), who, i as int);
                }
                return Ok(());
            }
            i += 1;
        }
        proof {
            self.lemma_no_entry(who);
        }
        if value == 0 {
            Ok(())
        } else {
            Err(DispatchError::InsufficientBalance)
        }
    }
}

} // verus!
