//! The treasury: a pot of funds held by a dedicated account, an append-only
//! log of deposits, and a cumulative-claim map that caps each juror's reward
//! payouts by the approved disputes they voted on.
//!
//! The pot is a derived value: whatever the treasury account holds above the
//! ledger's minimum reserve. `receive` fills it; `claim_rewards` pays a juror
//! as long as the running total paid to that account stays strictly below its
//! contribution count, read from the court.

use vstd::prelude::*;

use crate::AmountTable;
use crate::DispatchError;
use crate::court;
use crate::ledger::Ledger;

verus! {

/// Error for the treasury operations.
#[derive(Debug, Clone, Copy, PartialEq, Eq)]
pub enum Error {
    /// The spend origin is valid but the amount it is allowed to spend is
    /// lower than the amount to be spent.
    InsufficientPermission,
    /// The remaining fund is less than the claimed amount.
    InsufficientFund,
    /// Rewards claim has not been approved.
    ClaimNotApproved,
    /// The claim would exceed the caller's remaining entitlement.
    ExceedClaim,
}

/// Notifications the treasury emits, in request order.
#[derive(Debug, Clone, Copy, PartialEq, Eq)]
pub enum Event {
    /// Some funds have been deposited.
    Deposit { value: u64 },
    /// A new rewards claim has been approved.
    ClaimApproved { amount: u64, beneficiary: u64 },
    /// A claim is being paid out of the given remaining budget.
    Spending { budget_remaining: u64 },
    /// Some funds have been allocated.
    Awarded { award: u64, account: u64 },
}

/// One deposit into the pot, immutable once written.
#[derive(Debug, Clone, Copy, PartialEq, Eq)]
pub struct Record {
    /// The account that funded it.
    pub funder: u64,
    /// The amount that the funder sent.
    pub value: u64,
    /// The source category of the funds.
    pub category_type: u32,
}

/// Deployment-fixed configuration of the treasury.
pub struct Config {
    /// The treasury's own account, derived by the host from a fixed tag.
    pub treasury_account: u64,
}

/// The deposit log, the cumulative-claim map, and the treasury account id.
pub struct Pallet {
    pub treasury_account: u64,
    pub records: Vec<Record>,
    pub claims: AmountTable,
    pub events: Vec<Event>,
}

impl Pallet {
    pub open spec fn wf(self) -> bool {
        &&& self.records@.len() <= u32::MAX
        &&& self.claims.wf()
    }

    /// The total already paid to `a`; zero before its first claim.
    pub open spec fn spec_claimed(self, a: u64) -> u64 {
        self.claims.amount_of(a)
    }

    /// The spendable pot: the treasury account's balance above the minimum
    /// reserve, and zero when the balance does not reach it.
    pub open spec fn spec_pot(self, ledger: Ledger) -> u64 {
        if ledger.spec_free(self.treasury_account) >= ledger.spec_minimum() {
            (ledger.spec_free(self.treasury_account) - ledger.spec_minimum()) as u64
        } else {
            0
        }
    }

    pub fn new(config: Config) -> (r: Pallet)
        ensures
            r.wf(),
            r.treasury_account == config.treasury_account,
            r.records@.len() == 0,
            r.events@.len() == 0,
            forall|a: u64| r.spec_claimed(a) == 0,
    {
        Pallet {
            treasury_account: config.treasury_account,
            records: Vec::new(),
            claims: AmountTable::new(),
            events: Vec::new(),
        }
    }

    /// The account id of the treasury pot.
    pub fn account_id(&self) -> (r: u64)
        ensures
            r == self.treasury_account,
    {
        self.treasury_account
    }

    /// Number of deposits that have been recorded.
    pub fn record_count(&self) -> (r: u32)
        requires
            self.wf(),
        ensures
            r as nat == self.records@.len(),
    {
        self.records.len() as u32
    }

    /// The deposit recorded under `id`, if any.
    pub fn records(&self, id: u32) -> (r: Option<Record>)
        ensures
            (id as nat) < self.records@.len() ==> r == Some(self.records@[id as int]),
            (id as nat) >= self.records@.len() ==> r is None,
    {
        if (id as usize) < self.records.len() {
            Some(self.records[id as usize])
        } else {
            None
        }
    }

    /// The total already paid to `account`.
    pub fn claims(&self, account: u64) -> (r: u64)
        requires
            self.wf(),
        ensures
            r == self.spec_claimed(account),
    {
        self.claims.get(account)
    }

    /// The amount of money in the pot.
    pub fn pot(&self, ledger: &Ledger) -> (r: u64)
        requires
            ledger.wf(),
        ensures
            r == self.spec_pot(*ledger),
    {
        let free = ledger.free_balance(self.treasury_account);
        let min = ledger.minimum_balance();
        if free >= min {
            free - min
        } else {
            0
        }
    }

    /// What `receive` leaves behind: the amount moved into the treasury
    /// account and one record and one notification appended on success;
    /// nothing changed on failure.
    pub open spec fn receive_post(
        pre: Pallet,
        post: Pallet,
        lpre: Ledger,
        lpost: Ledger,
        sender: u64,
        amount: u64,
        category_type: u32,
        r: Result<(), DispatchError>,
    ) -> bool {
        let unchanged = post == pre && lpost == lpre;
        if lpre.spec_free(sender) < amount {
            r == Err::<(), DispatchError>(DispatchError::Treasury(Error::InsufficientFund))
                && unchanged
        } else {
            match lpre.transfer_result(sender, pre.treasury_account, amount) {
                Err(e) => r == Err::<(), DispatchError>(DispatchError::Ledger(e)) && unchanged,
                Ok(_) => {
                    &&& r == Ok::<(), DispatchError>(())
                    &&& Ledger::transfer_applied(lpre, lpost, sender, pre.treasury_account, amount)
                    &&& post.records@ == pre.records@.push(
                        Record { funder: sender, value: amount, category_type },
                    )
                    &&& post.claims == pre.claims
                    &&& post.events@ == pre.events@.push(Event::Deposit { value: amount })
                    &&& post.treasury_account == pre.treasury_account
                },
            }
        }
    }

    /// Receive funds into the treasury pot and record the deposit. Fails with
    /// `InsufficientFund` when the sender's balance is below the amount, and
    /// with the transfer's own error when the ledger refuses the move.
    pub fn receive(
        &mut self,
        ledger: &mut Ledger,
        sender: u64,
        amount: u64,
        category_type: u32,
    ) -> (r: Result<(), DispatchError>)
        requires
            old(self).wf(),
            old(ledger).wf(),
            old(self).records@.len() < u32::MAX,
        ensures
            final(self).wf(),
            final(ledger).wf(),
            final(ledger).spec_minimum() == old(ledger).spec_minimum(),
            Self::receive_post(
                *old(self),
                *final(self),
                *old(ledger),
                *final(ledger),
                sender,
                amount,
                category_type,
                r,
            ),
    {
        if ledger.free_balance(sender) < amount {
            return Err(DispatchError::Treasury(Error::InsufficientFund));
        }
        let to = self.treasury_account;
        match ledger.transfer(sender, to, amount) {
            Ok(_) => {},
            Err(e) => {
                return Err(DispatchError::Ledger(e));
            },
        }
        self.records.push(Record { funder: sender, value: amount, category_type });
        self.events.push(Event::Deposit { value: amount });
        Ok(())
    }

    /// What `claim_rewards` leaves behind: on success the cumulative claim of
    /// the beneficiary grows by exactly the amount paid, the amount leaves
    /// the treasury account, and the two notifications are appended in
    /// order; on failure nothing changed, with each failure exactly when its
    /// condition holds, in check order.
    pub open spec fn claim_post(
        pre: Pallet,
        post: Pallet,
        court_state: court::Pallet,
        lpre: Ledger,
        lpost: Ledger,
        beneficiary: u64,
        amount: u64,
        r: Result<(), DispatchError>,
    ) -> bool {
        let unchanged = post == pre && lpost == lpre;
        let budget = pre.spec_pot(lpre);
        let entitled = court::contribution_of(court_state.proposals@, beneficiary);
        let claimed = pre.spec_claimed(beneficiary);
        if amount > budget {
            r == Err::<(), DispatchError>(DispatchError::Treasury(Error::InsufficientFund))
                && unchanged
        } else if entitled - claimed <= amount {
            r == Err::<(), DispatchError>(DispatchError::Treasury(Error::ExceedClaim)) && unchanged
        } else {
            match lpre.transfer_result(pre.treasury_account, beneficiary, amount) {
                Err(e) => r == Err::<(), DispatchError>(DispatchError::Ledger(e)) && unchanged,
                Ok(_) => {
                    &&& r == Ok::<(), DispatchError>(())
                    &&& Ledger::transfer_applied(
                        lpre,
                        lpost,
                        pre.treasury_account,
                        beneficiary,
                        amount,
                    )
                    &&& post.claims.wf()
                    &&& post.spec_claimed(beneficiary) == claimed + amount
                    &&& forall|b: u64|
                        b != beneficiary ==> post.spec_claimed(b) == pre.spec_claimed(b)
                    &&& post.records@ == pre.records@
                    &&& post.events@ == pre.events@.push(
                        Event::Spending { budget_remaining: budget },
                    ).push(Event::Awarded { award: amount, account: beneficiary })
                    &&& post.treasury_account == pre.treasury_account
                },
            }
        }
    }

    /// Pay a juror's reward claim out of the pot. The caller's entitlement is
    /// its contribution count read from the court; a claim succeeds only when
    /// the amount fits the pot and stays strictly below the entitlement minus
    /// what was already paid. The cumulative claim never exceeds the
    /// entitlement, which the requires records: claims are validated against
    /// the same court whose contribution counts only ever grow.
    pub fn claim_rewards(
        &mut self,
        court_state: &court::Pallet,
        ledger: &mut Ledger,
        beneficiary: u64,
        amount: u64,
    ) -> (r: Result<(), DispatchError>)
        requires
            old(self).wf(),
            court_state.wf(),
            old(ledger).wf(),
            old(self).spec_claimed(beneficiary) <= court::contribution_of(
                court_state.proposals@,
                beneficiary,
            ),
        ensures
            final(self).wf(),
            final(ledger).wf(),
            final(ledger).spec_minimum() == old(ledger).spec_minimum(),
            Self::claim_post(
                *old(self),
                *final(self),
                *court_state,
                *old(ledger),
                *final(ledger),
                beneficiary,
                amount,
                r,
            ),
    {
        let budget_remaining = self.pot(ledger);
        if amount > budget_remaining {
            return Err(DispatchError::Treasury(Error::InsufficientFund));
        }
        let cnt = court_state.contribution(beneficiary);
        let bc = cnt as u64;
        let c = self.claims.get(beneficiary);
        if bc - c <= amount {
            return Err(DispatchError::Treasury(Error::ExceedClaim));
        }
        let account_id = self.treasury_account;
        if let Err(e) = ledger.check_transfer(account_id, beneficiary, amount) {
            return Err(DispatchError::Ledger(e));
        }
        self.events.push(Event::Spending { budget_remaining });
        self.claims.set(beneficiary, c + amount);
        match ledger.transfer(account_id, beneficiary, amount) {
            Ok(_) => {},
            Err(e) => {
                proof {
                    assert(false);
                }
                return Err(DispatchError::Ledger(e));
            },
        }
        self.events.push(Event::Awarded { award: amount, account: beneficiary });
        Ok(())
    }
}

/// Genesis state of the treasury: its account is topped up to the minimum
/// reserve so it never gets deleted.
pub struct GenesisConfig;

impl Default for GenesisConfig {
    fn default() -> (r: Self)
        ensures
            r == (GenesisConfig),
    {
        GenesisConfig
    }
}

impl GenesisConfig {
    /// Tops the treasury account up to the minimum reserve when it holds
    /// less; an already funded account is left alone.
    pub fn build(&self, pallet: &Pallet, ledger: &mut Ledger)
        requires
            old(ledger).wf(),
        ensures
            final(ledger).wf(),
            final(ledger).spec_minimum() == old(ledger).spec_minimum(),
            old(ledger).spec_free(pallet.treasury_account) < old(ledger).spec_minimum() ==> final(ledger).spec_free(pallet.treasury_account) == old(ledger).spec_minimum(),
            old(ledger).spec_free(pallet.treasury_account) >= old(ledger).spec_minimum() ==> *final(ledger) == *old(ledger),
            forall|b: u64|
                b != pallet.treasury_account ==> final(ledger).spec_free(b) == old(ledger).spec_free(b),
    {
        let account_id = pallet.account_id();
        let min = ledger.minimum_balance();
        if ledger.free_balance(account_id) < min {
            ledger.make_free_balance_be(account_id, min);
        }
    }

    /// Applies `build` to the given state, the direct way to assimilate the
    /// genesis configuration into storage.
    pub fn assimilate_storage(&self, pallet: &Pallet, ledger: &mut Ledger) -> (r: Result<(), ()>)
        requires
            old(ledger).wf(),
        ensures
            r is Ok,
            final(ledger).wf(),
            final(ledger).spec_minimum() == old(ledger).spec_minimum(),
            old(ledger).spec_free(pallet.treasury_account) < old(ledger).spec_minimum() ==> final(ledger).spec_free(pallet.treasury_account) == old(ledger).spec_minimum(),
            old(ledger).spec_free(pallet.treasury_account) >= old(ledger).spec_minimum() ==> *final(ledger) == *old(ledger),
            forall|b: u64|
                b != pallet.treasury_account ==> final(ledger).spec_free(b) == old(ledger).spec_free(b),
    {
        self.build(pallet, ledger);
        Ok(())
    }
}

} // verus!
