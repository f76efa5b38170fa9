//! The court: a registry of lawsuits, the vote record of each, and the queue
//! of approved lawsuits awaiting administrative clearance.
//!
//! A lawsuit is submitted with a statement and a claimed value, collects one
//! vote per account, and is closed by a privileged tally: with more than three
//! voters, it is approved when the approving votes reach three quarters of the
//! voter count (rounded down), which also settles the claimed value from the
//! defendant to the plaintiff; otherwise it is rejected, and may be tallied
//! again later.

use vstd::prelude::*;

use crate::DispatchError;
use crate::ledger::Ledger;

verus! {

/// The tally tag of a lawsuit. A rejected lawsuit may be tallied again; an
/// approved one may not.
#[derive(Debug, Clone, Copy, PartialEq, Eq, Structural)]
pub enum Approval {
    Pending,
    Approved,
    Rejected,
}

/// A submitted lawsuit. `voters` and `votes` are aligned one to one, in vote
/// order.
#[derive(Debug)]
pub struct Lawsuit {
    /// The account proposing it.
    pub plaintiff: u64,
    /// The amount to be paid if the lawsuit is approved.
    pub value: u64,
    /// The account that pays if the lawsuit is approved.
    pub defendant: u64,
    pub statement: Vec<u8>,
    pub voters: Vec<u64>,
    pub votes: Vec<bool>,
    pub approved: Approval,
}

/// Deployment-fixed configuration of the court.
pub struct Config {
    /// The maximum number of approvals that can wait in the queue.
    pub max_approvals: u32,
}

/// Notifications the court emits, in request order, at most one per request.
#[derive(Debug, Clone, Copy, PartialEq, Eq)]
pub enum Event {
    /// New lawsuit.
    Proposed { proposal_index: u32 },
    /// A spend period ended and funds are being allocated.
    Spending { budget_remaining: u64 },
    /// Some funds have been deposited.
    Deposit { value: u64 },
    /// A new spend proposal has been approved.
    SpendApproved { proposal_index: u32, amount: u64, beneficiary: u64 },
    /// A lawsuit was tallied and closed.
    ProposalClosed { lawsuit_id: u32, approve: bool },
    /// The inactive funds of the pot have been updated.
    UpdatedInactive { reactivated: u64, deactivated: u64 },
    /// One account cast one vote on one lawsuit.
    VoteSubmitted { lawsuit_id: u32, voter: u64, approve: bool },
}

/// Error for the court operations.
#[derive(Debug, Clone, Copy, PartialEq, Eq)]
pub enum Error {
    /// Proposer's balance is too low.
    InsufficientProposersBalance,
    /// No proposal at that index.
    InvalidIndex,
    /// Too many approvals in the queue.
    TooManyApprovals,
    /// The spend origin is valid but the amount it is allowed to spend is
    /// lower than the amount to be spent.
    InsufficientPermission,
    /// The lawsuit is not in the approval queue.
    ProposalNotApproved,
    /// The lawsuit was already tallied as approved.
    ProposalAlreadyApproved,
    /// No lawsuit under that id (tally path).
    ProposalNotFound,
    /// No lawsuit under that id (vote path).
    LawsuitNotFound,
    /// The voter already voted on this lawsuit.
    DuplicateVote,
    /// The statement does not fit the size bound.
    StatementOverSize,
    /// A tally needs more than three voters.
    VoterCountTooLow,
}

/// How many of the cast votes approve.
pub open spec fn approve_count(votes: Seq<bool>) -> nat
    decreases votes.len(),
{
    if votes.len() == 0 {
        0
    } else {
        approve_count(votes.drop_last()) + if votes.last() {
            1nat
        } else {
            0nat
        }
    }
}

/// The approving votes a tally needs: three quarters of the voter count,
/// rounded down.
pub open spec fn approval_threshold(voter_count: nat) -> nat {
    voter_count * 3 / 4
}

/// Whether a lawsuit counts towards `account`'s contribution: it was tallied
/// as approved and `account` is among its voters.
pub open spec fn counts_for(suit: Lawsuit, account: u64) -> bool {
    suit.approved == Approval::Approved && suit.voters@.contains(account)
}

/// The number of approved lawsuits that `account` voted on.
pub open spec fn contribution_of(proposals: Seq<Lawsuit>, account: u64) -> nat
    decreases proposals.len(),
{
    if proposals.len() == 0 {
        0
    } else {
        contribution_of(proposals.drop_last(), account) + if counts_for(
            proposals.last(),
            account,
        ) {
            1nat
        } else {
            0nat
        }
    }
}

/// The parts of a lawsuit a tally never touches.
pub open spec fn suit_core_eq(a: Lawsuit, b: Lawsuit) -> bool {
    &&& a.plaintiff == b.plaintiff
    &&& a.value == b.value
    &&& a.defendant == b.defendant
    &&& a.statement == b.statement
    &&& a.voters == b.voters
    &&& a.votes == b.votes
}

/// Well-formedness of one lawsuit record: aligned vote sequences, no voter
/// twice, and a statement within the size bound.
pub open spec fn suit_wf(s: Lawsuit) -> bool {
    &&& s.voters@.len() == s.votes@.len()
    &&& s.statement@.len() < 512
    &&& forall|i: int, j: int|
        0 <= i < j < s.voters@.len() ==> s.voters@[i] != s.voters@[j]
}

/// The lawsuit registry and approval queue. Lawsuit ids are assigned
/// sequentially from zero and index `proposals` directly; a record is never
/// deleted, so the id of a lawsuit is its position.
pub struct Pallet {
    pub max_approvals: u32,
    pub proposals: Vec<Lawsuit>,
    pub approvals: Vec<u32>,
    pub events: Vec<Event>,
}

impl Pallet {
    /// The standing invariant: every record is well formed, the queue fits
    /// its bound, and it holds — once each — only ids of approved lawsuits.
    pub open spec fn wf(self) -> bool {
        &&& self.proposals@.len() <= u32::MAX
        &&& forall|k: int| 0 <= k < self.proposals@.len() ==> suit_wf(#[trigger] self.proposals@[k])
        &&& self.approvals@.len() <= self.max_approvals
        &&& forall|k: int|
            0 <= k < self.approvals@.len() ==> (#[trigger] self.approvals@[k])
                < self.proposals@.len() && self.proposals@[self.approvals@[k] as int].approved
                == Approval::Approved
        &&& forall|i: int, j: int|
            0 <= i < j < self.approvals@.len() ==> self.approvals@[i] != self.approvals@[j]
    }

    pub fn new(config: Config) -> (r: Pallet)
        ensures
            r.wf(),
            r.max_approvals == config.max_approvals,
            r.proposals@.len() == 0,
            r.approvals@.len() == 0,
            r.events@.len() == 0,
    {
        Pallet {
            max_approvals: config.max_approvals,
            proposals: Vec::new(),
            approvals: Vec::new(),
            events: Vec::new(),
        }
    }

    /// Number of lawsuits that have been submitted.
    pub fn proposal_count(&self) -> (r: u32)
        requires
            self.wf(),
        ensures
            r as nat == self.proposals@.len(),
    {
        self.proposals.len() as u32
    }

    /// The queue of approved-but-not-yet-cleared lawsuit ids, in approval
    /// order.
    pub fn approvals(&self) -> (r: &Vec<u32>)
        ensures
            r@ == self.approvals@,
    {
        &self.approvals
    }

    /// The lawsuit stored under `lawsuit_id`, if any.
    pub fn proposals(&self, lawsuit_id: u32) -> (r: Option<&Lawsuit>)
        ensures
            (lawsuit_id as nat) < self.proposals@.len() ==> r == Some(
                &self.proposals@[lawsuit_id as int],
            ),
            (lawsuit_id as nat) >= self.proposals@.len() ==> r is None,
    {
        if (lawsuit_id as usize) < self.proposals.len() {
            Some(&self.proposals[lawsuit_id as usize])
        } else {
            None
        }
    }

    /// What `submit_sue` leaves behind: on success the new record, stored
    /// under the next sequential id, carries the given fields, no votes and
    /// the pending tag; on failure nothing changed.
    pub open spec fn submit_post(
        pre: Pallet,
        post: Pallet,
        plaintiff: u64,
        value: u64,
        defendant: u64,
        statement: Seq<u8>,
        r: Result<u32, DispatchError>,
    ) -> bool {
        if statement.len() >= 512 {
            r == Err::<u32, DispatchError>(DispatchError::Court(Error::StatementOverSize)) && post
                == pre
        } else {
            &&& r == Ok::<u32, DispatchError>(pre.proposals@.len() as u32)
            &&& post.proposals@.len() == pre.proposals@.len() + 1
            &&& forall|j: int|
                0 <= j < pre.proposals@.len() ==> post.proposals@[j] == pre.proposals@[j]
            &&& post.proposals@.last().plaintiff == plaintiff
            &&& post.proposals@.last().value == value
            &&& post.proposals@.last().defendant == defendant
            &&& post.proposals@.last().statement@ == statement
            &&& post.proposals@.last().voters@.len() == 0
            &&& post.proposals@.last().votes@.len() == 0
            &&& post.proposals@.last().approved == Approval::Pending
            &&& post.approvals@ == pre.approvals@
            &&& post.events@ == pre.events@.push(
                Event::Proposed { proposal_index: pre.proposals@.len() as u32 },
            )
            &&& post.max_approvals == pre.max_approvals
        }
    }

    /// Submit a lawsuit. Fails only when the statement is 512 bytes or more;
    /// otherwise returns the id, the next value of the monotonic counter.
    pub fn submit_sue(
        &mut self,
        plaintiff: u64,
        value: u64,
        defendant: u64,
        statement: Vec<u8>,
    ) -> (r: Result<u32, DispatchError>)
        requires
            old(self).wf(),
            old(self).proposals@.len() < u32::MAX,
        ensures
            final(self).wf(),
            Self::submit_post(
                *old(self),
                *final(self),
                plaintiff,
                value,
                defendant,
                statement@,
                r,
            ),
    {
        if statement.len() >= 512 {
            return Err(DispatchError::Court(Error::StatementOverSize));
        }
        let id = self.proposals.len() as u32;
        let suit = Lawsuit {
            plaintiff,
            value,
            defendant,
            statement,
            voters: Vec::new(),
            votes: Vec::new(),
            approved: Approval::Pending,
        };
        self.proposals.push(suit);
        self.events.push(Event::Proposed { proposal_index: id });
        Ok(id)
    }

    /// What `vote_sue` leaves behind: the voter and the vote appended to the
    /// named record on success, nothing changed on failure, and each failure
    /// exactly when its condition holds.
    pub open spec fn vote_post(
        pre: Pallet,
        post: Pallet,
        voter: u64,
        lawsuit_id: u32,
        approve: bool,
        r: Result<(), DispatchError>,
    ) -> bool {
        let id = lawsuit_id as int;
        if lawsuit_id as nat >= pre.proposals@.len() {
            r == Err::<(), DispatchError>(DispatchError::Court(Error::LawsuitNotFound)) && post
                == pre
        } else if pre.proposals@[id].voters@.contains(voter) {
            r == Err::<(), DispatchError>(DispatchError::Court(Error::DuplicateVote)) && post == pre
        } else {
            &&& r == Ok::<(), DispatchError>(())
            &&& post.proposals@.len() == pre.proposals@.len()
            &&& forall|j: int|
                0 <= j < pre.proposals@.len() && j != id ==> post.proposals@[j]
                    == pre.proposals@[j]
            &&& post.proposals@[id].voters@ == pre.proposals@[id].voters@.push(voter)
            &&& post.proposals@[id].votes@ == pre.proposals@[id].votes@.push(approve)
            &&& post.proposals@[id].plaintiff == pre.proposals@[id].plaintiff
            &&& post.proposals@[id].value == pre.proposals@[id].value
            &&& post.proposals@[id].defendant == pre.proposals@[id].defendant
            &&& post.proposals@[id].statement == pre.proposals@[id].statement
            &&& post.proposals@[id].approved == pre.proposals@[id].approved
            &&& post.approvals@ == pre.approvals@
            &&& post.events@ == pre.events@.push(
                Event::VoteSubmitted { lawsuit_id, voter, approve },
            )
            &&& post.max_approvals == pre.max_approvals
        }
    }

    /// Cast one vote on a lawsuit. Fails with `LawsuitNotFound` when the id
    /// names no record, and with `DuplicateVote` when the voter already voted
    /// on it, whatever either vote says.
    pub fn vote_sue(&mut self, voter: u64, lawsuit_id: u32, approve: bool) -> (r: Result<
        (),
        DispatchError,
    >)
        requires
            old(self).wf(),
        ensures
            final(self).wf(),
            Self::vote_post(*old(self), *final(self), voter, lawsuit_id, approve, r),
    {
        let idx = lawsuit_id as usize;
        if idx >= self.proposals.len() {
            return Err(DispatchError::Court(Error::LawsuitNotFound));
        }
        if contains_account(&self.proposals[idx].voters, voter) {
            return Err(DispatchError::Court(Error::DuplicateVote));
        }
        let mut suit = Lawsuit {
            plaintiff: 0,
            value: 0,
            defendant: 0,
            statement: Vec::new(),
            voters: Vec::new(),
            votes: Vec::new(),
            approved: Approval::Pending,
        };
        self.proposals.set_and_swap(idx, &mut suit);
        suit.voters.push(voter);
        suit.votes.push(approve);
        self.proposals.set(idx, suit);
        self.events.push(Event::VoteSubmitted { lawsuit_id, voter, approve });
        Ok(())
    }

    /// The record under `lawsuit_id` closed with the tally tag `tag`, a
    /// closing notification appended, and everything else as it was.
    pub open spec fn closed_with(
        pre: Pallet,
        post: Pallet,
        lawsuit_id: u32,
        tag: Approval,
        approve: bool,
    ) -> bool {
        let id = lawsuit_id as int;
        &&& post.proposals@.len() == pre.proposals@.len()
        &&& forall|j: int|
            0 <= j < pre.proposals@.len() && j != id ==> post.proposals@[j] == pre.proposals@[j]
        &&& suit_core_eq(post.proposals@[id], pre.proposals@[id])
        &&& post.proposals@[id].approved == tag
        &&& post.events@ == pre.events@.push(Event::ProposalClosed { lawsuit_id, approve })
        &&& post.max_approvals == pre.max_approvals
    }

    /// What `process_sue` leaves behind, failure by failure in check order.
    /// On an approving tally the claimed value moves from the defendant to
    /// the plaintiff and the id joins the queue; a failed transfer or a full
    /// queue fails the whole call with nothing changed. On a rejecting tally
    /// no funds move and the queue is untouched.
    pub open spec fn process_post(
        pre: Pallet,
        post: Pallet,
        lpre: Ledger,
        lpost: Ledger,
        lawsuit_id: u32,
        r: Result<(), DispatchError>,
    ) -> bool {
        let id = lawsuit_id as int;
        let unchanged = post == pre && lpost == lpre;
        if lawsuit_id as nat >= pre.proposals@.len() {
            r == Err::<(), DispatchError>(DispatchError::Court(Error::ProposalNotFound))
                && unchanged
        } else {
            let suit = pre.proposals@[id];
            if suit.approved == Approval::Approved {
                r == Err::<(), DispatchError>(DispatchError::Court(Error::ProposalAlreadyApproved))
                    && unchanged
            } else if suit.votes@.len() <= 3 {
                r == Err::<(), DispatchError>(DispatchError::Court(Error::VoterCountTooLow))
                    && unchanged
            } else if approve_count(suit.votes@) >= approval_threshold(suit.votes@.len()) {
                match lpre.transfer_result(suit.defendant, suit.plaintiff, suit.value) {
                    Err(e) => r == Err::<(), DispatchError>(DispatchError::Ledger(e)) && unchanged,
                    Ok(_) => if pre.approvals@.len() >= pre.max_approvals {
                        r == Err::<(), DispatchError>(DispatchError::Court(Error::TooManyApprovals))
                            && unchanged
                    } else {
                        &&& r == Ok::<(), DispatchError>(())
                        &&& Ledger::transfer_applied(
                            lpre,
                            lpost,
                            suit.defendant,
                            suit.plaintiff,
                            suit.value,
                        )
                        &&& Self::closed_with(pre, post, lawsuit_id, Approval::Approved, true)
                        &&& post.approvals@ == pre.approvals@.push(lawsuit_id)
                    },
                }
            } else {
                &&& r == Ok::<(), DispatchError>(())
                &&& lpost == lpre
                &&& Self::closed_with(pre, post, lawsuit_id, Approval::Rejected, false)
                &&& post.approvals@ == pre.approvals@
            }
        }
    }

    /// Tally a lawsuit — privileged callers only, which is the host's check.
    /// Needs more than three voters; approves when the approving votes reach
    /// `approval_threshold` of the voter count, which settles the claimed
    /// value and queues the id; rejects otherwise. A rejected lawsuit may be
    /// processed again; an approved one may not.
    pub fn process_sue(&mut self, ledger: &mut Ledger, lawsuit_id: u32) -> (r: Result<
        (),
        DispatchError,
    >)
        requires
            old(self).wf(),
            old(ledger).wf(),
        ensures
            final(self).wf(),
            final(ledger).wf(),
            final(ledger).spec_minimum() == old(ledger).spec_minimum(),
            Self::process_post(
                *old(self),
                *final(self),
                *old(ledger),
                *final(ledger),
                lawsuit_id,
                r,
            ),
    {
        let idx = lawsuit_id as usize;
        if idx >= self.proposals.len() {
            return Err(DispatchError::Court(Error::ProposalNotFound));
        }
        if self.proposals[idx].approved == Approval::Approved {
            return Err(DispatchError::Court(Error::ProposalAlreadyApproved));
        }
        let voter_count = self.proposals[idx].votes.len();
        if voter_count <= 3 {
            return Err(DispatchError::Court(Error::VoterCountTooLow));
        }
        let vote_count = count_approvals(&self.proposals[idx].votes);
        let threshold = (voter_count as u128) * 3 / 4;
        let approve = (vote_count as u128) >= threshold;
        if approve {
            let defendant = self.proposals[idx].defendant;
            let plaintiff = self.proposals[idx].plaintiff;
            let value = self.proposals[idx].value;
            if let Err(e) = ledger.check_transfer(defendant, plaintiff, value) {
                return Err(DispatchError::Ledger(e));
            }
            if self.approvals.len() >= self.max_approvals as usize {
                return Err(DispatchError::Court(Error::TooManyApprovals));
            }
            match ledger.transfer(defendant, plaintiff, value) {
                Ok(_) => {},
                Err(e) => {
                    proof {
                        assert(false);
                    }
                    return Err(DispatchError::Ledger(e));
                },
            }
            let mut suit = Lawsuit {
                plaintiff: 0,
                value: 0,
                defendant: 0,
                statement: Vec::new(),
                voters: Vec::new(),
                votes: Vec::new(),
                approved: Approval::Pending,
            };
            self.proposals.set_and_swap(idx, &mut suit);
            suit.approved = Approval::Approved;
            self.proposals.set(idx, suit);
            self.approvals.push(lawsuit_id);
            self.events.push(Event::ProposalClosed { lawsuit_id, approve: true });
            Ok(())
        } else {
            let mut suit = Lawsuit {
                plaintiff: 0,
                value: 0,
                defendant: 0,
                statement: Vec::new(),
                voters: Vec::new(),
                votes: Vec::new(),
                approved: Approval::Pending,
            };
            self.proposals.set_and_swap(idx, &mut suit);
            suit.approved = Approval::Rejected;
            self.proposals.set(idx, suit);
            self.events.push(Event::ProposalClosed { lawsuit_id, approve: false });
            Ok(())
        }
    }

    /// What `remove_sue` leaves behind: exactly the queue entry for the id
    /// taken out, order kept, when it was there; the conflict error and no
    /// change when it was not.
    pub open spec fn remove_post(
        pre: Pallet,
        post: Pallet,
        lawsuit_id: u32,
        r: Result<(), DispatchError>,
    ) -> bool {
        if pre.approvals@.contains(lawsuit_id) {
            &&& r == Ok::<(), DispatchError>(())
            &&& exists|i: int|
                0 <= i < pre.approvals@.len() && pre.approvals@[i] == lawsuit_id && post.approvals@
                    == #[trigger] pre.approvals@.remove(i)
            &&& post.proposals@ == pre.proposals@
            &&& post.events@ == pre.events@
            &&& post.max_approvals == pre.max_approvals
        } else {
            r == Err::<(), DispatchError>(DispatchError::Court(Error::ProposalNotApproved)) && post
                == pre
        }
    }

    /// Force a lawsuit out of the approval queue — privileged callers only,
    /// which is the host's check. Fails with `ProposalNotApproved` exactly
    /// when the id is not in the queue, whether it never was or was already
    /// removed.
    pub fn remove_sue(&mut self, lawsuit_id: u32) -> (r: Result<(), DispatchError>)
        requires
            old(self).wf(),
        ensures
            final(self).wf(),
            Self::remove_post(*old(self), *final(self), lawsuit_id, r),
    {
        let n = self.approvals.len();
        let mut k: usize = 0;
        while k < n
            invariant
                *self == *old(self),
                n == self.approvals@.len(),
                0 <= k <= n,
                forall|m: int| 0 <= m < k ==> self.approvals@[m] != lawsuit_id,
                self.wf(),
            decreases n - k,
        {
            if self.approvals[k] == lawsuit_id {
                self.approvals.remove(k);
                return Ok(());
            }
            k = k + 1;
        }
        assert(!self.approvals@.contains(lawsuit_id));
        Err(DispatchError::Court(Error::ProposalNotApproved))
    }

    /// The number of approved lawsuits `beneficiary` voted on — the basis of
    /// its reward entitlement. A pure query; never fails.
    pub fn contribution(&self, beneficiary: u64) -> (r: u32)
        requires
            self.wf(),
        ensures
            r as nat == contribution_of(self.proposals@, beneficiary),
    {
        let n = self.proposals.len();
        let mut count: u32 = 0;
        let mut k: usize = 0;
        while k < n
            invariant
                n == self.proposals@.len(),
                n <= u32::MAX,
                0 <= k <= n,
                count <= k,
                count as nat == contribution_of(self.proposals@.take(k as int), beneficiary),
            decreases n - k,
        {
            proof {
                assert(self.proposals@.take(k as int + 1).drop_last() =~= self.proposals@.take(
                    k as int,
                ));
                assert(self.proposals@.take(k as int + 1).last() == self.proposals@[k as int]);
            }
            let is_approved = self.proposals[k].approved == Approval::Approved;
            if is_approved && contains_account(&self.proposals[k].voters, beneficiary) {
                count = count + 1;
            }
            k = k + 1;
        }
        proof {
            assert(self.proposals@.take(n as int) =~= self.proposals@);
        }
        count
    }
}

/// Genesis state of the court: it starts empty, so building it writes
/// nothing.
pub struct GenesisConfig;

impl Default for GenesisConfig {
    fn default() -> (r: Self)
        ensures
            r == (GenesisConfig),
    {
        GenesisConfig
    }
}

impl GenesisConfig {
    /// The court's genesis writes no state.
    pub fn build(&self, pallet: &mut Pallet)
        ensures
            *final(pallet) == *old(pallet),
    {
    }

    /// Applies `build` to the given state, the direct way to assimilate the
    /// genesis configuration into storage.
    pub fn assimilate_storage(&self, pallet: &mut Pallet) -> (r: Result<(), ()>)
        ensures
            r is Ok,
            *final(pallet) == *old(pallet),
    {
        self.build(pallet);
        Ok(())
    }
}

/// How many entries of `votes` are true.
fn count_approvals(votes: &Vec<bool>) -> (r: usize)
    ensures
        r as nat == approve_count(votes@),
        r <= votes@.len(),
{
    let n = votes.len();
    let mut count: usize = 0;
    let mut k: usize = 0;
    while k < n
        invariant
            n == votes@.len(),
            0 <= k <= n,
            count <= k,
            count as nat == approve_count(votes@.take(k as int)),
        decreases n - k,
    {
        proof {
            assert(votes@.take(k as int + 1).drop_last() =~= votes@.take(k as int));
            assert(votes@.take(k as int + 1).last() == votes@[k as int]);
        }
        if votes[k] {
            count = count + 1;
        }
        k = k + 1;
    }
    proof {
        assert(votes@.take(n as int) =~= votes@);
    }
    count
}

/// Whether `account` occurs in `voters`.
fn contains_account(voters: &Vec<u64>, account: u64) -> (r: bool)
    ensures
        r == voters@.contains(account),
{
    let n = voters.len();
    let mut k: usize = 0;
    while k < n
        invariant
            n == voters@.len(),
            0 <= k <= n,
            forall|m: int| 0 <= m < k ==> voters@[m] != account,
        decreases n - k,
    {
        if voters[k] == account {
            return true;
        }
        k = k + 1;
    }
    false
}

} // verus!
