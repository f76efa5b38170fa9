use court_treasury::DispatchError;
use court_treasury::court::{Approval, Config, Error, Event, Pallet};
use court_treasury::ledger;
use court_treasury::ledger::Ledger;
use court_treasury::treasury;

fn new_test_ext() -> (Pallet, Ledger) {
    let court = Pallet::new(Config { max_approvals: 100 });
    let ledger = Ledger::new(1);
    (court, ledger)
}

fn approved_suit(court: &mut Pallet, ledger: &mut Ledger, id: u32) {
    assert!(court.vote_sue(2, id, true).is_ok());
    assert!(court.vote_sue(3, id, true).is_ok());
    assert!(court.vote_sue(4, id, true).is_ok());
    assert!(court.vote_sue(5, id, true).is_ok());
    assert!(court.process_sue(ledger, id).is_ok());
}

#[test]
fn submit_ids_are_sequential() {
    let (mut court, _ledger) = new_test_ext();
    assert_eq!(court.submit_sue(1, 100, 0, vec![]), Ok(0));
    assert_eq!(court.submit_sue(2, 7, 3, vec![1, 2, 3]), Ok(1));
    assert_eq!(court.submit_sue(1, 0, 0, vec![9]), Ok(2));
    assert_eq!(court.proposal_count(), 3);
}

#[test]
fn submit_statement_over_size_fails() {
    let (mut court, _ledger) = new_test_ext();
    assert_eq!(
        court.submit_sue(1, 100, 0, vec![0u8; 512]),
        Err(DispatchError::Court(Error::StatementOverSize))
    );
    assert_eq!(court.proposal_count(), 0);
    assert_eq!(court.submit_sue(1, 100, 0, vec![0u8; 511]), Ok(0));
    assert_eq!(court.proposal_count(), 1);
}

#[test]
fn vote_on_missing_lawsuit_fails() {
    let (mut court, _ledger) = new_test_ext();
    assert_eq!(
        court.vote_sue(2, 0, true),
        Err(DispatchError::Court(Error::LawsuitNotFound))
    );
}

#[test]
fn duplicate_vote_fails_regardless_of_value() {
    let (mut court, _ledger) = new_test_ext();
    assert!(court.submit_sue(1, 100, 0, vec![]).is_ok());
    assert!(court.vote_sue(2, 0, true).is_ok());
    assert_eq!(
        court.vote_sue(2, 0, false),
        Err(DispatchError::Court(Error::DuplicateVote))
    );
    assert_eq!(
        court.vote_sue(2, 0, true),
        Err(DispatchError::Court(Error::DuplicateVote))
    );
    // The same account may still vote on another lawsuit.
    assert!(court.submit_sue(1, 100, 0, vec![]).is_ok());
    assert!(court.vote_sue(2, 1, false).is_ok());
}

#[test]
fn process_missing_lawsuit_fails() {
    let (mut court, mut ledger) = new_test_ext();
    assert_eq!(
        court.process_sue(&mut ledger, 0),
        Err(DispatchError::Court(Error::ProposalNotFound))
    );
}

#[test]
fn process_approved_lawsuit_again_fails() {
    let (mut court, mut ledger) = new_test_ext();
    ledger.make_free_balance_be(0, 101);
    assert!(court.submit_sue(1, 100, 0, vec![]).is_ok());
    approved_suit(&mut court, &mut ledger, 0);
    assert_eq!(
        court.process_sue(&mut ledger, 0),
        Err(DispatchError::Court(Error::ProposalAlreadyApproved))
    );
}

#[test]
fn rejected_lawsuit_may_be_processed_again() {
    let (mut court, mut ledger) = new_test_ext();
    ledger.make_free_balance_be(0, 101);
    assert!(court.submit_sue(1, 100, 0, vec![]).is_ok());
    assert!(court.vote_sue(2, 0, true).is_ok());
    assert!(court.vote_sue(3, 0, true).is_ok());
    assert!(court.vote_sue(4, 0, false).is_ok());
    assert!(court.vote_sue(5, 0, false).is_ok());
    // 2 of 4 approve, threshold 3: rejected.
    assert!(court.process_sue(&mut ledger, 0).is_ok());
    assert_eq!(court.proposals(0).unwrap().approved, Approval::Rejected);
    // One more approving vote re-tallies to 3 of 5, threshold 3: approved.
    assert!(court.vote_sue(6, 0, true).is_ok());
    assert!(court.process_sue(&mut ledger, 0).is_ok());
    assert_eq!(court.proposals(0).unwrap().approved, Approval::Approved);
    assert_eq!(court.approvals().len(), 1);
}

#[test]
fn five_voters_need_only_three_approvals() {
    // floor(5 * 3 / 4) = 3: three of five approving votes reach the bar.
    let (mut court, mut ledger) = new_test_ext();
    ledger.make_free_balance_be(0, 101);
    assert!(court.submit_sue(1, 100, 0, vec![]).is_ok());
    assert!(court.vote_sue(2, 0, true).is_ok());
    assert!(court.vote_sue(3, 0, true).is_ok());
    assert!(court.vote_sue(4, 0, true).is_ok());
    assert!(court.vote_sue(5, 0, false).is_ok());
    assert!(court.vote_sue(6, 0, false).is_ok());
    assert!(court.process_sue(&mut ledger, 0).is_ok());
    assert_eq!(court.proposals(0).unwrap().approved, Approval::Approved);
}

#[test]
fn full_queue_fails_and_rolls_back() {
    let mut court = Pallet::new(Config { max_approvals: 1 });
    let mut ledger = Ledger::new(1);
    ledger.make_free_balance_be(0, 50);
    assert!(court.submit_sue(1, 10, 0, vec![]).is_ok());
    assert!(court.submit_sue(1, 10, 0, vec![]).is_ok());
    approved_suit(&mut court, &mut ledger, 0);
    assert_eq!(court.approvals().len(), 1);
    let defendant_before: u64 = ledger.free_balance(0);
    assert!(court.vote_sue(2, 1, true).is_ok());
    assert!(court.vote_sue(3, 1, true).is_ok());
    assert!(court.vote_sue(4, 1, true).is_ok());
    assert!(court.vote_sue(5, 1, true).is_ok());
    assert_eq!(
        court.process_sue(&mut ledger, 1),
        Err(DispatchError::Court(Error::TooManyApprovals))
    );
    // Nothing moved and nothing was tallied.
    assert_eq!(ledger.free_balance(0), defendant_before);
    assert_eq!(court.proposals(1).unwrap().approved, Approval::Pending);
    assert_eq!(court.approvals().len(), 1);
}

#[test]
fn failed_transfer_fails_the_tally() {
    let (mut court, mut ledger) = new_test_ext();
    // The defendant cannot cover the claimed value.
    ledger.make_free_balance_be(0, 40);
    assert!(court.submit_sue(1, 100, 0, vec![]).is_ok());
    assert!(court.vote_sue(2, 0, true).is_ok());
    assert!(court.vote_sue(3, 0, true).is_ok());
    assert!(court.vote_sue(4, 0, true).is_ok());
    assert!(court.vote_sue(5, 0, true).is_ok());
    assert_eq!(
        court.process_sue(&mut ledger, 0),
        Err(DispatchError::Ledger(ledger::Error::InsufficientBalance))
    );
    assert_eq!(court.proposals(0).unwrap().approved, Approval::Pending);
    assert_eq!(court.approvals().len(), 0);
    assert_eq!(ledger.free_balance(0), 40);
}

#[test]
fn transfer_that_would_kill_the_payer_fails() {
    let (mut court, mut ledger) = new_test_ext();
    // Paying the full 100 would leave the defendant below the reserve of 1.
    ledger.make_free_balance_be(0, 100);
    assert!(court.submit_sue(1, 100, 0, vec![]).is_ok());
    approved_suit_expect(&mut court, &mut ledger, 0, DispatchError::Ledger(ledger::Error::KeepAlive));
}

fn approved_suit_expect(court: &mut Pallet, ledger: &mut Ledger, id: u32, expected: DispatchError) {
    assert!(court.vote_sue(2, id, true).is_ok());
    assert!(court.vote_sue(3, id, true).is_ok());
    assert!(court.vote_sue(4, id, true).is_ok());
    assert!(court.vote_sue(5, id, true).is_ok());
    assert_eq!(court.process_sue(ledger, id), Err(expected));
}

#[test]
fn remove_keeps_the_rest_in_order() {
    let (mut court, mut ledger) = new_test_ext();
    ledger.make_free_balance_be(0, 100);
    for id in 0..3u32 {
        assert!(court.submit_sue(1, 10, 0, vec![]).is_ok());
        approved_suit(&mut court, &mut ledger, id);
    }
    assert_eq!(court.approvals().as_slice(), &[0, 1, 2]);
    assert!(court.remove_sue(1).is_ok());
    assert_eq!(court.approvals().as_slice(), &[0, 2]);
    // A second removal of the same id finds nothing.
    assert_eq!(
        court.remove_sue(1),
        Err(DispatchError::Court(Error::ProposalNotApproved))
    );
    // A rejected lawsuit never enters the queue.
    assert!(court.submit_sue(1, 10, 0, vec![]).is_ok());
    assert!(court.vote_sue(2, 3, false).is_ok());
    assert!(court.vote_sue(3, 3, false).is_ok());
    assert!(court.vote_sue(4, 3, false).is_ok());
    assert!(court.vote_sue(5, 3, false).is_ok());
    assert!(court.process_sue(&mut ledger, 3).is_ok());
    assert_eq!(
        court.remove_sue(3),
        Err(DispatchError::Court(Error::ProposalNotApproved))
    );
}

#[test]
fn notifications_are_appended_in_request_order() {
    let (mut court, mut ledger) = new_test_ext();
    ledger.make_free_balance_be(0, 101);
    assert!(court.submit_sue(1, 100, 0, vec![]).is_ok());
    assert!(court.vote_sue(2, 0, true).is_ok());
    assert!(court.vote_sue(3, 0, true).is_ok());
    assert!(court.vote_sue(4, 0, true).is_ok());
    assert!(court.vote_sue(5, 0, true).is_ok());
    assert!(court.process_sue(&mut ledger, 0).is_ok());
    assert_eq!(court.events[0], Event::Proposed { proposal_index: 0 });
    assert_eq!(
        court.events[1],
        Event::VoteSubmitted { lawsuit_id: 0, voter: 2, approve: true }
    );
    assert_eq!(
        court.events[5],
        Event::ProposalClosed { lawsuit_id: 0, approve: true }
    );
    assert_eq!(court.events.len(), 6);
}

#[test]
fn deposit_then_process_without_votes_fails() {
    let court_cfg = Config { max_approvals: 100 };
    let mut court = Pallet::new(court_cfg);
    let mut treasury = treasury::Pallet::new(treasury::Config { treasury_account: 77_000 });
    let mut ledger = Ledger::new(1);
    ledger.make_free_balance_be(9, 60);
    ledger.make_free_balance_be(77_000, 1);
    assert!(treasury.receive(&mut ledger, 9, 10, 1).is_ok());
    assert!(court.submit_sue(1, 5, 0, vec![]).is_ok());
    assert_eq!(
        court.process_sue(&mut ledger, 0),
        Err(DispatchError::Court(Error::VoterCountTooLow))
    );
}
