//! Governance: proposals, voting, board review, execution.
//!
//! Proposals move through `Pending → Active → Executed`, with `Canceled`
//! reachable from `Pending` and `Active`; statuses never move backward
//! ([`lemma_proposal_status_monotonic`]). Voting happens inside a
//! wall-clock window fixed at creation; the window checks are pure
//! functions of the externally supplied current time. A proposal flagged
//! as touching the compliance domain additionally needs the review board's
//! approval before it can execute; each board member's review is
//! independently binding until superseded (last write wins), and every
//! review leaves an immutable record.
//!
//! An execution attempt that fails quorum or majority returns an error and
//! leaves the proposal `Active`: the caller must cancel it explicitly.

use vstd::prelude::*;

use crate::errors::DaoError;
use crate::identity::Identity;

verus! {

/// The singleton governance configuration.
#[derive(Clone, Copy, Debug)]
pub struct Dao {
    pub admin: Identity,
    pub token_mint: Identity,
    pub timelock: Identity,
    pub voting_delay: i64,
    pub voting_period: i64,
    pub quorum_percentage: u16,
    pub proposal_count: u64,
}

/// Lifecycle status of a proposal. The operations of this module only move
/// a status forward; see [`proposal_transition_allowed`].
#[derive(Clone, Copy, PartialEq, Eq, Structural, Debug)]
pub enum ProposalStatus {
    Pending,
    Active,
    Passed,
    Rejected,
    Executed,
    Canceled,
}

/// A voter's choice.
#[derive(Clone, Copy, PartialEq, Eq, Structural, Debug)]
pub enum VoteType {
    For,
    Against,
    Abstain,
}

/// One governance action under vote.
#[derive(Clone, Copy, Debug)]
pub struct Proposal {
    pub proposal_id: u64,
    pub proposer: Identity,
    pub target_account: Identity,
    pub amount: u64,
    /// Whether executing this proposal touches the compliance domain; if
    /// so, board approval is mandatory before execution.
    pub affects_sharia: bool,
    pub status: ProposalStatus,
    pub created_at: i64,
    pub voting_starts_at: i64,
    pub voting_ends_at: i64,
    pub for_votes: u64,
    pub against_votes: u64,
    pub abstain_votes: u64,
    /// Auto-true for proposals outside the compliance domain; otherwise
    /// granted (or revoked) by board reviews.
    pub sharia_approved: bool,
}

/// Append-only record of one board member's review of one proposal.
#[derive(Clone, Copy, Debug)]
pub struct ShariaReview {
    pub proposal_id: u64,
    pub board_member: Identity,
    pub approved: bool,
    pub timestamp: i64,
}

/// The review board's membership counter.
#[derive(Clone, Copy, Debug)]
pub struct ShariaBoard {
    pub admin: Identity,
    pub member_count: u32,
}

/// Set up the governance configuration under `admin`.
pub fn initialize(
    admin: Identity,
    token_mint: Identity,
    timelock: Identity,
    voting_delay: i64,
    voting_period: i64,
    quorum_percentage: u16,
) -> (r: Dao)
    ensures
        r == (Dao {
            admin,
            token_mint,
            timelock,
            voting_delay,
            voting_period,
            quorum_percentage,
            proposal_count: 0,
        }),
{
    Dao { admin, token_mint, timelock, voting_delay, voting_period, quorum_percentage, proposal_count: 0 }
}

/// Set up an empty review board under `admin`.
pub fn init_sharia_board(admin: Identity) -> (r: ShariaBoard)
    ensures
        r == (ShariaBoard { admin, member_count: 0 }),
{
    ShariaBoard { admin, member_count: 0 }
}

/// Create a proposal with the next sequential id. Its voting window opens
/// `voting_delay` after `now` and stays open for `voting_period`.
pub fn create_proposal(
    dao: &mut Dao,
    proposer: Identity,
    target_account: Identity,
    amount: u64,
    affects_sharia: bool,
    now: i64,
) -> (r: Result<Proposal, DaoError>)
    ensures
        match r {
            Ok(p) => {
                &&& old(dao).proposal_count + 1 <= u64::MAX
                &&& now + old(dao).voting_delay <= i64::MAX
                &&& i64::MIN <= now + old(dao).voting_delay
                &&& now + old(dao).voting_delay + old(dao).voting_period <= i64::MAX
                &&& i64::MIN <= now + old(dao).voting_delay + old(dao).voting_period
                &&& *final (dao) == (Dao {
                    proposal_count: (old(dao).proposal_count + 1) as u64,
                    ..*old(dao)
                })
                &&& p == (Proposal {
                    proposal_id: (old(dao).proposal_count + 1) as u64,
                    proposer,
                    target_account,
                    amount,
                    affects_sharia,
                    status: ProposalStatus::Pending,
                    created_at: now,
                    voting_starts_at: (now + old(dao).voting_delay) as i64,
                    voting_ends_at: (now + old(dao).voting_delay + old(dao).voting_period) as i64,
                    for_votes: 0,
                    against_votes: 0,
                    abstain_votes: 0,
                    sharia_approved: !affects_sharia,
                })
            },
            Err(e) => {
                &&& *final (dao) == *old(dao)
                &&& e == DaoError::MathOverflow
                &&& (old(dao).proposal_count + 1 > u64::MAX || now + old(dao).voting_delay
                    > i64::MAX || now + old(dao).voting_delay < i64::MIN || now + old(
                    dao,
                ).voting_delay + old(dao).voting_period > i64::MAX || now + old(dao).voting_delay
                    + old(dao).voting_period < i64::MIN)
            },
        },
{
    let count = match dao.proposal_count.checked_add(1) {
        Some(c) => c,
        None => { return Err(DaoError::MathOverflow) },
    };
    let voting_starts_at = match now.checked_add(dao.voting_delay) {
        Some(t) => t,
        None => { return Err(DaoError::MathOverflow) },
    };
    let voting_ends_at = match voting_starts_at.checked_add(dao.voting_period) {
        Some(t) => t,
        None => { return Err(DaoError::MathOverflow) },
    };
    dao.proposal_count = count;
    Ok(
        Proposal {
            proposal_id: count,
            proposer,
            target_account,
            amount,
            affects_sharia,
            status: ProposalStatus::Pending,
            created_at: now,
            voting_starts_at,
            voting_ends_at,
            for_votes: 0,
            against_votes: 0,
            abstain_votes: 0,
            sharia_approved: !affects_sharia,
        },
    )
}

/// The tally `choice` adds to.
pub open spec fn tally_of(p: Proposal, choice: VoteType) -> u64 {
    match choice {
        VoteType::For => p.for_votes,
        VoteType::Against => p.against_votes,
        VoteType::Abstain => p.abstain_votes,
    }
}

/// `p` after a vote of `weight` for `choice` (including the promotion of a
/// pending proposal to `Active` once its window has opened).
pub open spec fn vote_applied(p: Proposal, choice: VoteType, weight: u64) -> Proposal {
    Proposal {
        status: ProposalStatus::Active,
        for_votes: if choice == VoteType::For {
            (p.for_votes + weight) as u64
        } else {
            p.for_votes
        },
        against_votes: if choice == VoteType::Against {
            (p.against_votes + weight) as u64
        } else {
            p.against_votes
        },
        abstain_votes: if choice == VoteType::Abstain {
            (p.abstain_votes + weight) as u64
        } else {
            p.abstain_votes
        },
        ..p
    }
}

/// Add `weight` to the chosen tally, promoting a pending proposal to
/// `Active` once `now` has reached its window.
pub fn vote(proposal: &mut Proposal, choice: VoteType, weight: u64, now: i64) -> (r: Result<
    (),
    DaoError,
>)
    ensures
        match r {
            Ok(()) => {
                &&& (old(proposal).status == ProposalStatus::Pending || old(proposal).status
                    == ProposalStatus::Active)
                &&& now >= old(proposal).voting_starts_at || old(proposal).status
                    == ProposalStatus::Active
                &&& now <= old(proposal).voting_ends_at
                &&& tally_of(*old(proposal), choice) + weight <= u64::MAX
                &&& *final (proposal) == vote_applied(*old(proposal), choice, weight)
            },
            Err(e) => {
                &&& *final (proposal) == *old(proposal)
                &&& (e == DaoError::InvalidProposalStatus <==> old(proposal).status
                    != ProposalStatus::Pending && old(proposal).status != ProposalStatus::Active)
                &&& (e == DaoError::VotingNotStarted <==> old(proposal).status
                    == ProposalStatus::Pending && now < old(proposal).voting_starts_at)
                &&& (e == DaoError::VotingEnded <==> (old(proposal).status
                    == ProposalStatus::Active || (old(proposal).status == ProposalStatus::Pending
                    && now >= old(proposal).voting_starts_at)) && now > old(
                    proposal,
                ).voting_ends_at)
                &&& (e == DaoError::MathOverflow <==> (old(proposal).status
                    == ProposalStatus::Active || (old(proposal).status == ProposalStatus::Pending
                    && now >= old(proposal).voting_starts_at)) && now <= old(
                    proposal,
                ).voting_ends_at && tally_of(*old(proposal), choice) + weight > u64::MAX)
            },
        },
        r is Ok <==> (old(proposal).status == ProposalStatus::Active || (old(proposal).status
            == ProposalStatus::Pending && now >= old(proposal).voting_starts_at)) && now <= old(
            proposal,
        ).voting_ends_at && tally_of(*old(proposal), choice) + weight <= u64::MAX,
        r is Ok ==> proposal_transition_allowed(old(proposal).status, final (proposal).status)
            || old(proposal).status == final (proposal).status,
{
    if !(proposal.status == ProposalStatus::Pending) && !(proposal.status
        == ProposalStatus::Active) {
        return Err(DaoError::InvalidProposalStatus);
    }
    if proposal.status == ProposalStatus::Pending && now < proposal.voting_starts_at {
        return Err(DaoError::VotingNotStarted);
    }
    if now > proposal.voting_ends_at {
        return Err(DaoError::VotingEnded);
    }
    match choice {
        VoteType::For => {
            proposal.for_votes = match proposal.for_votes.checked_add(weight) {
                Some(v) => v,
                None => { return Err(DaoError::MathOverflow) },
            };
        },
        VoteType::Against => {
            proposal.against_votes = match proposal.against_votes.checked_add(weight) {
                Some(v) => v,
                None => { return Err(DaoError::MathOverflow) },
            };
        },
        VoteType::Abstain => {
            proposal.abstain_votes = match proposal.abstain_votes.checked_add(weight) {
                Some(v) => v,
                None => { return Err(DaoError::MathOverflow) },
            };
        },
    }
    proposal.status = ProposalStatus::Active;
    Ok(())
}

/// File a board member's review of a compliance-relevant proposal. The
/// proposal's approval flag takes this review's verdict (last write wins);
/// the returned record is never mutated afterwards.
pub fn sharia_review(proposal: &mut Proposal, board_member: Identity, approved: bool, now: i64) -> (r: Result<ShariaReview, DaoError>)
    ensures
        match r {
            Ok(review) => {
                &&& old(proposal).affects_sharia
                &&& *final (proposal) == (Proposal { sharia_approved: approved, ..*old(proposal) })
                &&& review == (ShariaReview {
                    proposal_id: old(proposal).proposal_id,
                    board_member,
                    approved,
                    timestamp: now,
                })
            },
            Err(e) => {
                &&& *final (proposal) == *old(proposal)
                &&& e == DaoError::NotShariaRelevant
                &&& !old(proposal).affects_sharia
            },
        },
        r is Ok <==> old(proposal).affects_sharia,
{
    if !proposal.affects_sharia {
        return Err(DaoError::NotShariaRelevant);
    }
    proposal.sharia_approved = approved;
    Ok(
        ShariaReview {
            proposal_id: proposal.proposal_id,
            board_member,
            approved,
            timestamp: now,
        },
    )
}

/// Whether an execution attempt at `now` succeeds on `p`.
pub open spec fn execute_accepted(p: Proposal, now: i64) -> bool {
    &&& p.status == ProposalStatus::Active
    &&& now > p.voting_ends_at
    &&& (p.affects_sharia ==> p.sharia_approved)
    &&& p.for_votes + p.against_votes + p.abstain_votes <= u64::MAX
    &&& p.for_votes + p.against_votes + p.abstain_votes > 0
    &&& p.for_votes > p.against_votes
}

/// Execute a proposal whose window has closed: board approval (where
/// required), a nonzero vote total, and a strict for-majority are all
/// mandatory. On failure the proposal stays `Active`.
pub fn execute_proposal(proposal: &mut Proposal, now: i64) -> (r: Result<(), DaoError>)
    ensures
        match r {
            Ok(()) => {
                &&& execute_accepted(*old(proposal), now)
                &&& *final (proposal) == (Proposal {
                    status: ProposalStatus::Executed,
                    ..*old(proposal)
                })
                &&& proposal_transition_allowed(old(proposal).status, final (proposal).status)
            },
            Err(e) => {
                &&& *final (proposal) == *old(proposal)
                &&& (e == DaoError::InvalidProposalStatus <==> old(proposal).status
                    != ProposalStatus::Active)
                &&& (e == DaoError::VotingNotEnded <==> old(proposal).status
                    == ProposalStatus::Active && now <= old(proposal).voting_ends_at)
                &&& (e == DaoError::ShariaNotApproved <==> old(proposal).status
                    == ProposalStatus::Active && now > old(proposal).voting_ends_at && old(
                    proposal,
                ).affects_sharia && !old(proposal).sharia_approved)
                &&& (e == DaoError::MathOverflow <==> old(proposal).status
                    == ProposalStatus::Active && now > old(proposal).voting_ends_at && (old(
                    proposal,
                ).affects_sharia ==> old(proposal).sharia_approved) && old(proposal).for_votes
                    + old(proposal).against_votes + old(proposal).abstain_votes > u64::MAX)
                &&& (e == DaoError::QuorumNotMet <==> old(proposal).status
                    == ProposalStatus::Active && now > old(proposal).voting_ends_at && (old(
                    proposal,
                ).affects_sharia ==> old(proposal).sharia_approved) && old(proposal).for_votes
                    + old(proposal).against_votes + old(proposal).abstain_votes == 0)
                &&& (e == DaoError::ProposalFailed <==> old(proposal).status
                    == ProposalStatus::Active && now > old(proposal).voting_ends_at && (old(
                    proposal,
                ).affects_sharia ==> old(proposal).sharia_approved) && 0 < old(proposal).for_votes
                    + old(proposal).against_votes + old(proposal).abstain_votes <= u64::MAX && old(
                    proposal,
                ).for_votes <= old(proposal).against_votes)
            },
        },
        r is Ok <==> execute_accepted(*old(proposal), now),
{
    if !(proposal.status == ProposalStatus::Active) {
        return Err(DaoError::InvalidProposalStatus);
    }
    if now <= proposal.voting_ends_at {
        return Err(DaoError::VotingNotEnded);
    }
    if proposal.affects_sharia && !proposal.sharia_approved {
        return Err(DaoError::ShariaNotApproved);
    }
    let with_against = match proposal.for_votes.checked_add(proposal.against_votes) {
        Some(v) => v,
        None => { return Err(DaoError::MathOverflow) },
    };
    let total_votes = match with_against.checked_add(proposal.abstain_votes) {
        Some(v) => v,
        None => { return Err(DaoError::MathOverflow) },
    };
    if total_votes == 0 {
        return Err(DaoError::QuorumNotMet);
    }
    if !(proposal.for_votes > proposal.against_votes) {
        return Err(DaoError::ProposalFailed);
    }
    proposal.status = ProposalStatus::Executed;
    Ok(())
}

/// Cancel a pending or active proposal (admin or board veto).
pub fn cancel_proposal(proposal: &mut Proposal) -> (r: Result<(), DaoError>)
    ensures
        match r {
            Ok(()) => {
                &&& (old(proposal).status == ProposalStatus::Pending || old(proposal).status
                    == ProposalStatus::Active)
                &&& *final (proposal) == (Proposal {
                    status: ProposalStatus::Canceled,
                    ..*old(proposal)
                })
                &&& proposal_transition_allowed(old(proposal).status, final (proposal).status)
            },
            Err(e) => {
                &&& *final (proposal) == *old(proposal)
                &&& e == DaoError::InvalidProposalStatus
                &&& old(proposal).status != ProposalStatus::Pending
                &&& old(proposal).status != ProposalStatus::Active
            },
        },
{
    if !(proposal.status == ProposalStatus::Pending) && !(proposal.status
        == ProposalStatus::Active) {
        return Err(DaoError::InvalidProposalStatus);
    }
    proposal.status = ProposalStatus::Canceled;
    Ok(())
}

/// Record one more member on the review board. Admin only.
pub fn add_sharia_board_member(dao: &Dao, board: &mut ShariaBoard, caller: Identity) -> (r: Result<
    (),
    DaoError,
>)
    ensures
        match r {
            Ok(()) => {
                &&& caller == dao.admin
                &&& old(board).member_count + 1 <= u32::MAX
                &&& *final (board) == (ShariaBoard {
                    member_count: (old(board).member_count + 1) as u32,
                    ..*old(board)
                })
            },
            Err(e) => {
                &&& *final (board) == *old(board)
                &&& (e == DaoError::Unauthorized <==> caller != dao.admin)
                &&& (e == DaoError::MathOverflow <==> caller == dao.admin && old(
                    board,
                ).member_count + 1 > u32::MAX)
            },
        },
        r is Ok <==> caller == dao.admin && old(board).member_count + 1 <= u32::MAX,
{
    if !(caller == dao.admin) {
        return Err(DaoError::Unauthorized);
    }
    board.member_count = match board.member_count.checked_add(1) {
        Some(c) => c,
        None => { return Err(DaoError::MathOverflow) },
    };
    Ok(())
}

/// Record one member fewer on the review board. Admin only.
pub fn remove_sharia_board_member(dao: &Dao, board: &mut ShariaBoard, caller: Identity) -> (r:
    Result<(), DaoError>)
    ensures
        match r {
            Ok(()) => {
                &&& caller == dao.admin
                &&& old(board).member_count >= 1
                &&& *final (board) == (ShariaBoard {
                    member_count: (old(board).member_count - 1) as u32,
                    ..*old(board)
                })
            },
            Err(e) => {
                &&& *final (board) == *old(board)
                &&& (e == DaoError::Unauthorized <==> caller != dao.admin)
                &&& (e == DaoError::MathOverflow <==> caller == dao.admin && old(
                    board,
                ).member_count == 0)
            },
        },
        r is Ok <==> caller == dao.admin && old(board).member_count >= 1,
{
    if !(caller == dao.admin) {
        return Err(DaoError::Unauthorized);
    }
    board.member_count = match board.member_count.checked_sub(1) {
        Some(c) => c,
        None => { return Err(DaoError::MathOverflow) },
    };
    Ok(())
}

/// Position of a status along the proposal lifecycle. Terminal statuses
/// share the highest position.
pub open spec fn proposal_rank(s: ProposalStatus) -> int {
    match s {
        ProposalStatus::Pending => 0,
        ProposalStatus::Active => 1,
        ProposalStatus::Passed => 2,
        ProposalStatus::Rejected => 2,
        ProposalStatus::Executed => 2,
        ProposalStatus::Canceled => 2,
    }
}

/// The status transitions the governance operations can make: window
/// opening promotes `Pending` to `Active`, execution closes an `Active`
/// proposal, and cancellation closes either.
pub open spec fn proposal_transition_allowed(from: ProposalStatus, to: ProposalStatus) -> bool {
    ||| (from == ProposalStatus::Pending && to == ProposalStatus::Active)
    ||| (from == ProposalStatus::Active && to == ProposalStatus::Executed)
    ||| (from == ProposalStatus::Pending && to == ProposalStatus::Canceled)
    ||| (from == ProposalStatus::Active && to == ProposalStatus::Canceled)
}

/// A proposal's status never moves backward: every transition an operation
/// of this module can make strictly increases the lifecycle position.
pub proof fn lemma_proposal_status_monotonic(from: ProposalStatus, to: ProposalStatus)
    requires
        proposal_transition_allowed(from, to),
    ensures
        proposal_rank(to) > proposal_rank(from),
{
}

} // verus!
