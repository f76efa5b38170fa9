use court_treasury::DispatchError;
use court_treasury::court::{Config, Error, Pallet};
use court_treasury::ledger::Ledger;

fn new_test_ext() -> (Pallet, Ledger) {
    let court = Pallet::new(Config { max_approvals: 100 });
    let ledger = Ledger::new(1);
    (court, ledger)
}

#[test]
fn submite_sue_works() {
    let (mut court, _ledger) = new_test_ext();
    assert!(court.submit_sue(1, 100, 0, vec![]).is_ok());
    assert_eq!(court.approvals().len(), 0);
    assert_eq!(court.proposal_count(), 1);
}

#[test]
fn vote_sue_works() {
    let (mut court, _ledger) = new_test_ext();
    assert!(court.submit_sue(1, 100, 0, vec![]).is_ok());
    assert!(court.vote_sue(2, 0, true).is_ok());
    assert_eq!(court.approvals().len(), 0);
    assert_eq!(court.proposal_count(), 1);
}

#[test]
fn process_sue_works() {
    let (mut court, mut ledger) = new_test_ext();
    ledger.make_free_balance_be(0, 101);
    assert!(court.submit_sue(1, 100, 0, vec![]).is_ok());
    assert!(court.vote_sue(2, 0, true).is_ok());
    assert!(court.vote_sue(3, 0, true).is_ok());
    assert!(court.vote_sue(4, 0, true).is_ok());
    assert!(court.vote_sue(5, 0, true).is_ok());
    assert!(court.process_sue(&mut ledger, 0).is_ok());
    assert_eq!(court.approvals().len(), 1);
    assert_eq!(court.proposal_count(), 1);
}

#[test]
fn vote_against_works() {
    let (mut court, mut ledger) = new_test_ext();
    ledger.make_free_balance_be(0, 101);
    assert!(court.submit_sue(1, 100, 0, vec![]).is_ok());
    assert!(court.vote_sue(2, 0, false).is_ok());
    assert!(court.vote_sue(3, 0, false).is_ok());
    assert!(court.vote_sue(4, 0, true).is_ok());
    assert!(court.vote_sue(5, 0, true).is_ok());
    assert!(court.process_sue(&mut ledger, 0).is_ok());
    assert_eq!(court.approvals().len(), 0);
    assert_eq!(court.proposal_count(), 1);
}

#[test]
fn process_sue_before_vote() {
    let (mut court, mut ledger) = new_test_ext();
    ledger.make_free_balance_be(0, 101);
    assert!(court.submit_sue(1, 100, 0, vec![]).is_ok());
    assert_eq!(
        court.process_sue(&mut ledger, 0),
        Err(DispatchError::Court(Error::VoterCountTooLow))
    );
    assert_eq!(court.approvals().len(), 0);
    assert_eq!(court.proposal_count(), 1);
}

#[test]
fn remove_unapproved_sue() {
    let (mut court, mut ledger) = new_test_ext();
    ledger.make_free_balance_be(0, 101);
    assert!(court.submit_sue(1, 100, 0, vec![]).is_ok());
    assert_eq!(
        court.remove_sue(0),
        Err(DispatchError::Court(Error::ProposalNotApproved))
    );
}

#[test]
fn remove_approved_sue() {
    let (mut court, mut ledger) = new_test_ext();
    ledger.make_free_balance_be(0, 101);
    assert!(court.submit_sue(1, 100, 0, vec![]).is_ok());
    assert!(court.vote_sue(2, 0, true).is_ok());
    assert!(court.vote_sue(3, 0, true).is_ok());
    assert!(court.vote_sue(4, 0, true).is_ok());
    assert!(court.vote_sue(5, 0, true).is_ok());
    assert!(court.process_sue(&mut ledger, 0).is_ok());
    assert!(court.remove_sue(0).is_ok());
}

#[test]
fn contribution_works() {
    let (mut court, mut ledger) = new_test_ext();
    ledger.make_free_balance_be(0, 101);
    assert!(court.submit_sue(1, 100, 0, vec![]).is_ok());
    assert!(court.vote_sue(2, 0, true).is_ok());
    assert!(court.vote_sue(3, 0, true).is_ok());
    assert!(court.vote_sue(4, 0, true).is_ok());
    assert!(court.vote_sue(5, 0, true).is_ok());
    assert!(court.process_sue(&mut ledger, 0).is_ok());
    assert_eq!(court.contribution(2), 1);
    assert_eq!(court.contribution(3), 1);
    assert_eq!(court.contribution(4), 1);
    assert_eq!(court.contribution(5), 1);
    assert_eq!(court.contribution(1), 0);
    assert_eq!(court.contribution(11), 0);
}
