//! A model of the host's balance subsystem: free balances per account and a
//! transfer primitive that keeps the paying account at or above a fixed
//! minimum reserve (the "existential" floor), and never lets the receiving
//! account sit below it either.

use vstd::prelude::*;

use crate::table::AmountTable;

verus! {

/// Reasons a transfer is refused. Nothing moves when one is returned.
#[derive(Debug, Clone, Copy, PartialEq, Eq)]
pub enum Error {
    /// The payer's free balance is below the amount.
    InsufficientBalance,
    /// Paying would leave the payer below the minimum reserve.
    KeepAlive,
    /// The receiver would still sit below the minimum reserve.
    BelowMinimum,
    /// The receiver's balance would not fit the balance width.
    Overflow,
}

pub struct Ledger {
    balances: AmountTable,
    minimum: u64,
}

impl Ledger {
    pub closed spec fn wf(self) -> bool {
        self.balances.wf()
    }

    /// The free balance of `a`; zero for an account never funded.
    pub closed spec fn spec_free(self, a: u64) -> u64 {
        self.balances.amount_of(a)
    }

    /// The minimum reserve every touched account must keep.
    pub closed spec fn spec_minimum(self) -> u64 {
        self.minimum
    }

    /// What `transfer` decides on the given arguments, checks in order. A
    /// transfer within one account moves nothing and succeeds whenever the
    /// balance covers the amount.
    pub open spec fn transfer_result(self, from: u64, to: u64, amount: u64) -> Result<(), Error> {
        if from == to {
            if self.spec_free(from) >= amount {
                Ok(())
            } else {
                Err(Error::InsufficientBalance)
            }
        } else if self.spec_free(from) < amount {
            Err(Error::InsufficientBalance)
        } else if self.spec_free(from) - amount < self.spec_minimum() {
            Err(Error::KeepAlive)
        } else if self.spec_free(to) + amount > u64::MAX {
            Err(Error::Overflow)
        } else if self.spec_free(to) + amount < self.spec_minimum() {
            Err(Error::BelowMinimum)
        } else {
            Ok(())
        }
    }

    /// How a successful transfer relates the ledger after to the ledger
    /// before: the amount moved from `from` to `to`, nothing else changed.
    pub open spec fn transfer_applied(pre: Ledger, post: Ledger, from: u64, to: u64, amount: u64) -> bool {
        &&& post.wf()
        &&& post.spec_minimum() == pre.spec_minimum()
        &&& if from == to {
            forall|b: u64| post.spec_free(b) == pre.spec_free(b)
        } else {
            &&& post.spec_free(from) == pre.spec_free(from) - amount
            &&& post.spec_free(to) == pre.spec_free(to) + amount
            &&& forall|b: u64| b != from && b != to ==> post.spec_free(b) == pre.spec_free(b)
        }
    }

    pub fn new(minimum: u64) -> (r: Ledger)
        ensures
            r.wf(),
            r.spec_minimum() == minimum,
            forall|a: u64| r.spec_free(a) == 0,
    {
        Ledger { balances: AmountTable::new(), minimum }
    }

    pub fn minimum_balance(&self) -> (r: u64)
        ensures
            r == self.spec_minimum(),
    {
        self.minimum
    }

    pub fn free_balance(&self, a: u64) -> (r: u64)
        requires
            self.wf(),
        ensures
            r == self.spec_free(a),
    {
        self.balances.get(a)
    }

    /// Sets the free balance of `a` to exactly `v`.
    pub fn make_free_balance_be(&mut self, a: u64, v: u64)
        requires
            old(self).wf(),
        ensures
            final(self).wf(),
            final(self).spec_minimum() == old(self).spec_minimum(),
            final(self).spec_free(a) == v,
            forall|b: u64| b != a ==> final(self).spec_free(b) == old(self).spec_free(b),
    {
        self.balances.set(a, v);
    }

    /// Answers what `transfer` would return, without moving anything.
    pub fn check_transfer(&self, from: u64, to: u64, amount: u64) -> (r: Result<(), Error>)
        requires
            self.wf(),
        ensures
            r == self.transfer_result(from, to, amount),
    {
        let free_from = self.balances.get(from);
        if from == to {
            if free_from >= amount {
                Ok(())
            } else {
                Err(Error::InsufficientBalance)
            }
        } else if free_from < amount {
            Err(Error::InsufficientBalance)
        } else if free_from - amount < self.minimum {
            Err(Error::KeepAlive)
        } else {
            let free_to = self.balances.get(to);
            if free_to > u64::MAX - amount {
                Err(Error::Overflow)
            } else if free_to + amount < self.minimum {
                Err(Error::BelowMinimum)
            } else {
                Ok(())
            }
        }
    }

    /// Moves `amount` from `from` to `to` when every check of
    /// `transfer_result` passes; otherwise returns that check's error and
    /// leaves the ledger as it was.
    pub fn transfer(&mut self, from: u64, to: u64, amount: u64) -> (r: Result<(), Error>)
        requires
            old(self).wf(),
        ensures
            final(self).wf(),
            r == old(self).transfer_result(from, to, amount),
            r is Ok ==> Self::transfer_applied(*old(self), *final(self), from, to, amount),
            r is Err ==> *final(self) == *old(self),
    {
        let outcome = self.check_transfer(from, to, amount);
        if let Err(e) = outcome {
            return Err(e);
        }
        if from != to {
            let free_from = self.balances.get(from);
            let free_to = self.balances.get(to);
            self.balances.set(from, free_from - amount);
            self.balances.set(to, free_to + amount);
        }
        Ok(())
    }
}

} // verus!
