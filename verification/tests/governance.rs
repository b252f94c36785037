use amana::dao;
use amana::dao::{ProposalStatus, VoteType};
use amana::errors::DaoError;
use amana::identity::Identity;

fn id(b: u8) -> Identity {
    Identity([b; 32])
}

fn fresh_dao() -> dao::Dao {
    dao::initialize(id(1), id(10), id(11), 100, 1000, 40)
}

#[test]
fn create_proposal_fixes_the_window() {
    let mut d = fresh_dao();
    let p = dao::create_proposal(&mut d, id(2), id(20), 500, false, 50).unwrap();
    assert_eq!(d.proposal_count, 1);
    assert_eq!(p.proposal_id, 1);
    assert_eq!(p.status, ProposalStatus::Pending);
    assert_eq!(p.created_at, 50);
    assert_eq!(p.voting_starts_at, 150);
    assert_eq!(p.voting_ends_at, 1150);
    assert!(p.sharia_approved);

    let q = dao::create_proposal(&mut d, id(2), id(20), 500, true, 60).unwrap();
    assert_eq!(q.proposal_id, 2);
    assert!(!q.sharia_approved);
}

#[test]
fn create_proposal_window_overflow_is_rejected() {
    let mut d = dao::initialize(id(1), id(10), id(11), i64::MAX, 1000, 40);
    let r = dao::create_proposal(&mut d, id(2), id(20), 500, false, 1);
    assert_eq!(r.unwrap_err(), DaoError::MathOverflow);
    assert_eq!(d.proposal_count, 0);
}

#[test]
fn voting_promotes_and_tallies() {
    let mut d = fresh_dao();
    let mut p = dao::create_proposal(&mut d, id(2), id(20), 500, false, 0).unwrap();
    dao::vote(&mut p, VoteType::For, 10, 200).unwrap();
    assert_eq!(p.status, ProposalStatus::Active);
    assert_eq!(p.for_votes, 10);
    dao::vote(&mut p, VoteType::Against, 3, 300).unwrap();
    dao::vote(&mut p, VoteType::Abstain, 2, 400).unwrap();
    assert_eq!(p.for_votes, 10);
    assert_eq!(p.against_votes, 3);
    assert_eq!(p.abstain_votes, 2);
}

#[test]
fn voting_before_the_window_is_rejected() {
    let mut d = fresh_dao();
    let mut p = dao::create_proposal(&mut d, id(2), id(20), 500, false, 0).unwrap();
    let r = dao::vote(&mut p, VoteType::For, 10, 99);
    assert_eq!(r.unwrap_err(), DaoError::VotingNotStarted);
    assert_eq!(p.status, ProposalStatus::Pending);
    assert_eq!(p.for_votes, 0);
}

#[test]
fn voting_after_the_window_is_rejected() {
    let mut d = fresh_dao();
    let mut p = dao::create_proposal(&mut d, id(2), id(20), 500, false, 0).unwrap();
    let r = dao::vote(&mut p, VoteType::For, 10, 1101);
    assert_eq!(r.unwrap_err(), DaoError::VotingEnded);
    // The failed vote does not promote the proposal.
    assert_eq!(p.status, ProposalStatus::Pending);
}

#[test]
fn voting_on_a_closed_proposal_is_rejected() {
    let mut d = fresh_dao();
    let mut p = dao::create_proposal(&mut d, id(2), id(20), 500, false, 0).unwrap();
    dao::cancel_proposal(&mut p).unwrap();
    let r = dao::vote(&mut p, VoteType::For, 10, 200);
    assert_eq!(r.unwrap_err(), DaoError::InvalidProposalStatus);
}

#[test]
fn vote_tally_overflow_is_rejected() {
    let mut d = fresh_dao();
    let mut p = dao::create_proposal(&mut d, id(2), id(20), 500, false, 0).unwrap();
    dao::vote(&mut p, VoteType::For, u64::MAX, 200).unwrap();
    let r = dao::vote(&mut p, VoteType::For, 1, 300);
    assert_eq!(r.unwrap_err(), DaoError::MathOverflow);
    assert_eq!(p.for_votes, u64::MAX);
}

#[test]
fn execution_needs_a_closed_window_and_a_majority() {
    let mut d = fresh_dao();
    let mut p = dao::create_proposal(&mut d, id(2), id(20), 500, false, 0).unwrap();
    dao::vote(&mut p, VoteType::For, 10, 200).unwrap();
    dao::vote(&mut p, VoteType::Against, 3, 300).unwrap();

    let r = dao::execute_proposal(&mut p, 1100);
    assert_eq!(r.unwrap_err(), DaoError::VotingNotEnded);

    dao::execute_proposal(&mut p, 1101).unwrap();
    assert_eq!(p.status, ProposalStatus::Executed);

    let r = dao::execute_proposal(&mut p, 1200);
    assert_eq!(r.unwrap_err(), DaoError::InvalidProposalStatus);
}

#[test]
fn execution_without_votes_fails_quorum() {
    let mut d = fresh_dao();
    let mut p = dao::create_proposal(&mut d, id(2), id(20), 500, false, 0).unwrap();
    dao::vote(&mut p, VoteType::For, 0, 200).unwrap();
    let r = dao::execute_proposal(&mut p, 2000);
    assert_eq!(r.unwrap_err(), DaoError::QuorumNotMet);
    assert_eq!(p.status, ProposalStatus::Active);
}

#[test]
fn a_tie_fails_and_leaves_the_proposal_active() {
    let mut d = fresh_dao();
    let mut p = dao::create_proposal(&mut d, id(2), id(20), 500, false, 0).unwrap();
    dao::vote(&mut p, VoteType::For, 5, 200).unwrap();
    dao::vote(&mut p, VoteType::Against, 5, 300).unwrap();
    let r = dao::execute_proposal(&mut p, 2000);
    assert_eq!(r.unwrap_err(), DaoError::ProposalFailed);
    assert_eq!(p.status, ProposalStatus::Active);
    // The stuck proposal must be canceled explicitly.
    dao::cancel_proposal(&mut p).unwrap();
    assert_eq!(p.status, ProposalStatus::Canceled);
}

#[test]
fn compliance_relevant_proposal_needs_board_approval() {
    let mut d = fresh_dao();
    let mut p = dao::create_proposal(&mut d, id(2), id(20), 500, true, 0).unwrap();
    dao::vote(&mut p, VoteType::For, 10, 200).unwrap();
    dao::vote(&mut p, VoteType::Against, 3, 300).unwrap();
    let r = dao::execute_proposal(&mut p, 2000);
    assert_eq!(r.unwrap_err(), DaoError::ShariaNotApproved);
    assert_eq!(p.status, ProposalStatus::Active);

    let review = dao::sharia_review(&mut p, id(5), true, 1500).unwrap();
    assert_eq!(review.proposal_id, p.proposal_id);
    assert_eq!(review.board_member, id(5));
    assert!(review.approved);
    assert_eq!(review.timestamp, 1500);

    dao::execute_proposal(&mut p, 2000).unwrap();
    assert_eq!(p.status, ProposalStatus::Executed);
}

#[test]
fn last_board_review_wins() {
    let mut d = fresh_dao();
    let mut p = dao::create_proposal(&mut d, id(2), id(20), 500, true, 0).unwrap();
    dao::sharia_review(&mut p, id(5), true, 100).unwrap();
    assert!(p.sharia_approved);
    dao::sharia_review(&mut p, id(6), false, 200).unwrap();
    assert!(!p.sharia_approved);
}

#[test]
fn review_outside_the_compliance_domain_is_rejected() {
    let mut d = fresh_dao();
    let mut p = dao::create_proposal(&mut d, id(2), id(20), 500, false, 0).unwrap();
    let r = dao::sharia_review(&mut p, id(5), false, 100);
    assert_eq!(r.unwrap_err(), DaoError::NotShariaRelevant);
    assert!(p.sharia_approved);
}

#[test]
fn board_membership_is_admin_gated() {
    let d = fresh_dao();
    let mut board = dao::init_sharia_board(id(1));
    dao::add_sharia_board_member(&d, &mut board, id(1)).unwrap();
    dao::add_sharia_board_member(&d, &mut board, id(1)).unwrap();
    assert_eq!(board.member_count, 2);
    dao::remove_sharia_board_member(&d, &mut board, id(1)).unwrap();
    assert_eq!(board.member_count, 1);

    let r = dao::add_sharia_board_member(&d, &mut board, id(9));
    assert_eq!(r.unwrap_err(), DaoError::Unauthorized);
    assert_eq!(board.member_count, 1);
}

#[test]
fn removing_from_an_empty_board_underflows() {
    let d = fresh_dao();
    let mut board = dao::init_sharia_board(id(1));
    let r = dao::remove_sharia_board_member(&d, &mut board, id(1));
    assert_eq!(r.unwrap_err(), DaoError::MathOverflow);
    assert_eq!(board.member_count, 0);
}

#[test]
fn cancel_is_legal_only_while_open() {
    let mut d = fresh_dao();
    let mut p = dao::create_proposal(&mut d, id(2), id(20), 500, false, 0).unwrap();
    dao::vote(&mut p, VoteType::For, 10, 200).unwrap();
    dao::execute_proposal(&mut p, 2000).unwrap();
    let r = dao::cancel_proposal(&mut p);
    assert_eq!(r.unwrap_err(), DaoError::InvalidProposalStatus);
    assert_eq!(p.status, ProposalStatus::Executed);
}
