//! Laws the library keeps across calls, each proved from the operations'
//! contracts alone. They are stated over the post-state predicates
//! (`submit_post`, `vote_post`, `process_post`, `remove_post`, `claim_post`)
//! that the corresponding operations ensure.

use vstd::prelude::*;

use crate::DispatchError;
use crate::court;
use crate::court::Approval;
use crate::court::Lawsuit;
use crate::ledger::Ledger;

verus! {

/// Ids are handed out sequentially, in call order: two successful submissions
/// in a row return consecutive ids, the first being the number of lawsuits
/// already stored, and the stored count grows by one per success.
pub proof fn lemma_submit_ids_sequential(
    s0: court::Pallet,
    s1: court::Pallet,
    s2: court::Pallet,
    p1: u64,
    v1: u64,
    d1: u64,
    st1: Seq<u8>,
    r1: Result<u32, DispatchError>,
    p2: u64,
    v2: u64,
    d2: u64,
    st2: Seq<u8>,
    r2: Result<u32, DispatchError>,
)
    requires
        court::Pallet::submit_post(s0, s1, p1, v1, d1, st1, r1),
        r1 is Ok,
        court::Pallet::submit_post(s1, s2, p2, v2, d2, st2, r2),
        r2 is Ok,
        s0.proposals@.len() + 1 < u32::MAX,
    ensures
        r1 == Ok::<u32, DispatchError>(s0.proposals@.len() as u32),
        r2 == Ok::<u32, DispatchError>((s0.proposals@.len() + 1) as u32),
        s1.proposals@.len() == s0.proposals@.len() + 1,
        s2.proposals@.len() == s0.proposals@.len() + 2,
{
}

/// A second vote by the same account on the same lawsuit is a duplicate,
/// whatever either vote says, and changes nothing.
pub proof fn lemma_repeat_vote_is_duplicate(
    s0: court::Pallet,
    s1: court::Pallet,
    s2: court::Pallet,
    voter: u64,
    lawsuit_id: u32,
    first: bool,
    second: bool,
    r1: Result<(), DispatchError>,
    r2: Result<(), DispatchError>,
)
    requires
        court::Pallet::vote_post(s0, s1, voter, lawsuit_id, first, r1),
        r1 is Ok,
        court::Pallet::vote_post(s1, s2, voter, lawsuit_id, second, r2),
    ensures
        r2 == Err::<(), DispatchError>(DispatchError::Court(court::Error::DuplicateVote)),
        s2 == s1,
{
    let id = lawsuit_id as int;
    let pre_voters = s0.proposals@[id].voters@;
    assert(s1.proposals@[id].voters@[pre_voters.len() as int] == voter);
    assert(s1.proposals@[id].voters@.contains(voter));
}

/// A tally demands a quorum: on a stored, not-yet-approved lawsuit it fails
/// with `VoterCountTooLow` exactly when at most three votes were cast. With a
/// quorum it tallies: a count below the threshold rejects, and one at or
/// above it approves whenever the settling transfer goes through and the
/// queue has room.
pub proof fn lemma_process_quorum(
    pre: court::Pallet,
    post: court::Pallet,
    lpre: Ledger,
    lpost: Ledger,
    lawsuit_id: u32,
    r: Result<(), DispatchError>,
)
    requires
        court::Pallet::process_post(pre, post, lpre, lpost, lawsuit_id, r),
        (lawsuit_id as nat) < pre.proposals@.len(),
        pre.proposals@[lawsuit_id as int].approved != Approval::Approved,
    ensures
        pre.proposals@[lawsuit_id as int].votes@.len() <= 3 <==> r == Err::<
            (),
            DispatchError,
        >(DispatchError::Court(court::Error::VoterCountTooLow)),
        ({
            let suit = pre.proposals@[lawsuit_id as int];
            suit.votes@.len() > 3 && court::approve_count(suit.votes@) < court::approval_threshold(
                suit.votes@.len(),
            ) ==> r is Ok && post.proposals@[lawsuit_id as int].approved == Approval::Rejected
        }),
        ({
            let suit = pre.proposals@[lawsuit_id as int];
            suit.votes@.len() > 3 && court::approve_count(suit.votes@) >= court::approval_threshold(
                suit.votes@.len(),
            ) && lpre.transfer_result(suit.defendant, suit.plaintiff, suit.value) is Ok
                && pre.approvals@.len() < pre.max_approvals ==> r is Ok
                && post.proposals@[lawsuit_id as int].approved == Approval::Approved
        }),
{
}

/// With four voters, three approving votes meet the threshold (three quarters
/// of four): the lawsuit is approved, the claimed value moves from the
/// defendant to the plaintiff, and the queue grows by one.
pub proof fn lemma_tally_four_voters_three_approvals(
    pre: court::Pallet,
    post: court::Pallet,
    lpre: Ledger,
    lpost: Ledger,
    lawsuit_id: u32,
    r: Result<(), DispatchError>,
)
    requires
        court::Pallet::process_post(pre, post, lpre, lpost, lawsuit_id, r),
        (lawsuit_id as nat) < pre.proposals@.len(),
        pre.proposals@[lawsuit_id as int].approved != Approval::Approved,
        pre.proposals@[lawsuit_id as int].votes@.len() == 4,
        court::approve_count(pre.proposals@[lawsuit_id as int].votes@) == 3,
        lpre.transfer_result(
            pre.proposals@[lawsuit_id as int].defendant,
            pre.proposals@[lawsuit_id as int].plaintiff,
            pre.proposals@[lawsuit_id as int].value,
        ) is Ok,
        pre.approvals@.len() < pre.max_approvals,
    ensures
        r is Ok,
        post.proposals@[lawsuit_id as int].approved == Approval::Approved,
        post.approvals@.len() == pre.approvals@.len() + 1,
        Ledger::transfer_applied(
            lpre,
            lpost,
            pre.proposals@[lawsuit_id as int].defendant,
            pre.proposals@[lawsuit_id as int].plaintiff,
            pre.proposals@[lawsuit_id as int].value,
        ),
{
    assert(court::approval_threshold(4) == 3);
}

/// With four voters, two approving votes fall short of the threshold: the
/// lawsuit is rejected, no funds move, and the queue is unchanged.
pub proof fn lemma_tally_four_voters_two_approvals(
    pre: court::Pallet,
    post: court::Pallet,
    lpre: Ledger,
    lpost: Ledger,
    lawsuit_id: u32,
    r: Result<(), DispatchError>,
)
    requires
        court::Pallet::process_post(pre, post, lpre, lpost, lawsuit_id, r),
        (lawsuit_id as nat) < pre.proposals@.len(),
        pre.proposals@[lawsuit_id as int].approved != Approval::Approved,
        pre.proposals@[lawsuit_id as int].votes@.len() == 4,
        court::approve_count(pre.proposals@[lawsuit_id as int].votes@) == 2,
    ensures
        r is Ok,
        post.proposals@[lawsuit_id as int].approved == Approval::Rejected,
        post.approvals@ == pre.approvals@,
        lpost == lpre,
{
    assert(court::approval_threshold(4) == 3);
}

/// Removal touches only queued ids: it fails with `ProposalNotApproved`
/// exactly when the id is not in the queue — never queued, tallied as
/// rejected, or already removed — and then changes nothing.
pub proof fn lemma_remove_only_queued(
    pre: court::Pallet,
    post: court::Pallet,
    lawsuit_id: u32,
    r: Result<(), DispatchError>,
)
    requires
        court::Pallet::remove_post(pre, post, lawsuit_id, r),
    ensures
        r == Err::<(), DispatchError>(DispatchError::Court(court::Error::ProposalNotApproved))
            <==> !pre.approvals@.contains(lawsuit_id),
        !pre.approvals@.contains(lawsuit_id) ==> post == pre,
{
}

/// An account that voted on no lawsuit has contribution zero — in particular
/// a plaintiff or defendant that never voted.
pub proof fn lemma_contribution_zero_for_nonvoter(proposals: Seq<Lawsuit>, account: u64)
    requires
        forall|k: int|
            0 <= k < proposals.len() ==> !(#[trigger] proposals[k]).voters@.contains(account),
    ensures
        court::contribution_of(proposals, account) == 0,
    decreases proposals.len(),
{
    if proposals.len() > 0 {
        lemma_contribution_zero_for_nonvoter(proposals.drop_last(), account);
    }
}

/// Pointwise monotonicity: when every lawsuit that counted for an account
/// still counts, the contribution did not drop.
proof fn lemma_contribution_pointwise_monotone(pre: Seq<Lawsuit>, post: Seq<Lawsuit>, account: u64)
    requires
        post.len() == pre.len(),
        forall|k: int|
            0 <= k < pre.len() ==> (court::counts_for(#[trigger] pre[k], account)
                ==> court::counts_for(post[k], account)),
    ensures
        court::contribution_of(pre, account) <= court::contribution_of(post, account),
    decreases pre.len(),
{
    if pre.len() > 0 {
        lemma_contribution_pointwise_monotone(pre.drop_last(), post.drop_last(), account);
    }
}

/// Submitting a lawsuit lowers nobody's contribution: the new record is
/// pending, so it does not count yet.
pub proof fn lemma_contribution_nondecreasing_submit(
    pre: court::Pallet,
    post: court::Pallet,
    plaintiff: u64,
    value: u64,
    defendant: u64,
    statement: Seq<u8>,
    r: Result<u32, DispatchError>,
    account: u64,
)
    requires
        court::Pallet::submit_post(pre, post, plaintiff, value, defendant, statement, r),
    ensures
        court::contribution_of(pre.proposals@, account) <= court::contribution_of(
            post.proposals@,
            account,
        ),
{
    if r is Ok {
        assert(post.proposals@.drop_last() =~= pre.proposals@);
    }
}

/// Voting lowers nobody's contribution: a voter list only grows, and the
/// tally tag is untouched.
pub proof fn lemma_contribution_nondecreasing_vote(
    pre: court::Pallet,
    post: court::Pallet,
    voter: u64,
    lawsuit_id: u32,
    approve: bool,
    r: Result<(), DispatchError>,
    account: u64,
)
    requires
        court::Pallet::vote_post(pre, post, voter, lawsuit_id, approve, r),
    ensures
        court::contribution_of(pre.proposals@, account) <= court::contribution_of(
            post.proposals@,
            account,
        ),
{
    if r is Ok {
        let id = lawsuit_id as int;
        assert forall|k: int|
            0 <= k < pre.proposals@.len() && court::counts_for(
                #[trigger] pre.proposals@[k],
                account,
            ) implies court::counts_for(post.proposals@[k], account) by {
            if k == id {
                let voters = pre.proposals@[id].voters@;
                let w = choose|i: int| 0 <= i < voters.len() && voters[i] == account;
                assert(post.proposals@[id].voters@[w] == account);
            }
        }
        lemma_contribution_pointwise_monotone(pre.proposals@, post.proposals@, account);
    }
}

/// Tallying lowers nobody's contribution: a tally never unsets the approved
/// tag and never touches a voter list.
pub proof fn lemma_contribution_nondecreasing_process(
    pre: court::Pallet,
    post: court::Pallet,
    lpre: Ledger,
    lpost: Ledger,
    lawsuit_id: u32,
    r: Result<(), DispatchError>,
    account: u64,
)
    requires
        court::Pallet::process_post(pre, post, lpre, lpost, lawsuit_id, r),
    ensures
        court::contribution_of(pre.proposals@, account) <= court::contribution_of(
            post.proposals@,
            account,
        ),
{
    if r is Ok {
        lemma_contribution_pointwise_monotone(pre.proposals@, post.proposals@, account);
    }
}

/// Clearing the queue lowers nobody's contribution: the records themselves
/// are untouched.
pub proof fn lemma_contribution_nondecreasing_remove(
    pre: court::Pallet,
    post: court::Pallet,
    lawsuit_id: u32,
    r: Result<(), DispatchError>,
    account: u64,
)
    requires
        court::Pallet::remove_post(pre, post, lawsuit_id, r),
    ensures
        court::contribution_of(pre.proposals@, account) == court::contribution_of(
            post.proposals@,
            account,
        ),
{
}

/// A claim never catches up with the entitlement: a successful claim leaves
/// the cumulative total paid strictly below the contribution count it was
/// checked against, and the total never shrinks. Together with the
/// monotonicity of contribution under every court operation, this keeps the
/// unsigned subtraction inside `claim_rewards` safe for every history of
/// calls against one court.
pub proof fn lemma_claim_stays_below_entitlement(
    pre: crate::treasury::Pallet,
    post: crate::treasury::Pallet,
    court_state: court::Pallet,
    lpre: Ledger,
    lpost: Ledger,
    beneficiary: u64,
    amount: u64,
    r: Result<(), DispatchError>,
)
    requires
        crate::treasury::Pallet::claim_post(
            pre,
            post,
            court_state,
            lpre,
            lpost,
            beneficiary,
            amount,
            r,
        ),
        r is Ok,
    ensures
        post.spec_claimed(beneficiary) < court::contribution_of(
            court_state.proposals@,
            beneficiary,
        ),
        pre.spec_claimed(beneficiary) <= post.spec_claimed(beneficiary),
{
}

} // verus!
