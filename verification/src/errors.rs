//! Error taxonomy.
//!
//! Each module reports its failures through its own enum. Every error is
//! local to one operation: an operation that fails leaves all state exactly
//! as it was (contracts on the mutating functions say so explicitly).
//! Arithmetic that would overflow or underflow is reported as
//! `MathOverflow`, never wrapped or silently saturated; only final composite
//! scores are clamped, as a policy decision.

use vstd::prelude::*;

verus! {

/// Errors of the reserve ledger and the activity lifecycle.
#[derive(Clone, Copy, PartialEq, Eq, Structural, Debug)]
pub enum AmanaError {
    /// Joining contribution below the configured minimum.
    InsufficientContribution,
    /// The reserve already has its maximum number of participants.
    MaxParticipantsReached,
    /// A proposed activity's capital requirement is zero or exceeds the pool.
    InvalidCapitalAmount,
    /// The activity is not in a status that permits the operation.
    InvalidActivityStatus,
    /// Checked arithmetic would overflow or underflow.
    MathOverflow,
    /// A deposit or withdrawal amount of zero.
    InvalidAmount,
    /// Withdrawal beyond the participant's contributed balance.
    InsufficientBalance,
    /// Withdrawal beyond the balance the reserve actually holds.
    InsufficientLiquidity,
    /// The participant record has been deactivated.
    InactiveParticipant,
    /// Caller identity does not match the stored authority.
    Unauthorized,
    /// Real-time deployment beyond the reserve's total capital.
    InsufficientCapital,
}

/// Errors of the governance module.
#[derive(Clone, Copy, PartialEq, Eq, Structural, Debug)]
pub enum DaoError {
    /// Checked arithmetic would overflow or underflow.
    MathOverflow,
    /// The proposal is not in a status that permits the operation.
    InvalidProposalStatus,
    /// A vote arrived before the proposal's voting window opened.
    VotingNotStarted,
    /// A vote arrived after the proposal's voting window closed.
    VotingEnded,
    /// Execution was attempted while the voting window was still open.
    VotingNotEnded,
    /// No votes at all were cast.
    QuorumNotMet,
    /// The proposal did not gather strictly more for than against votes.
    ProposalFailed,
    /// A compliance-relevant proposal lacks board approval.
    ShariaNotApproved,
    /// A board review was filed for a proposal outside the compliance domain.
    NotShariaRelevant,
    /// Caller identity does not match the stored authority.
    Unauthorized,
}

/// Errors of the composite scoring engine.
#[derive(Clone, Copy, PartialEq, Eq, Structural, Debug)]
pub enum HaiError {
    /// Checked arithmetic would overflow or underflow.
    MathOverflow,
    /// Updated weights do not sum to exactly 10000 basis points.
    InvalidWeights,
    /// Caller identity does not match the stored authority.
    Unauthorized,
}

/// Errors of the automated post-completion actions.
#[derive(Clone, Copy, PartialEq, Eq, Structural, Debug)]
pub enum ActionError {
    /// Profit distribution on an activity without a positive outcome.
    NoProfit,
    /// The automated compliance check rejected the activity.
    ComplianceFailed,
    /// The cross-chain synchronization could not be recorded.
    SyncFailed,
}

/// Errors of the privacy-preserving operations.
#[derive(Clone, Copy, PartialEq, Eq, Structural, Debug)]
pub enum PrivateError {
    /// The attestation blob is all zeroes.
    InvalidAttestation,
    /// The enclave proof blob is all zeroes.
    InvalidTeeProof,
    /// The zero-knowledge proof blob is all zeroes.
    InvalidZkProof,
    /// The authorization proof blob is all zeroes.
    UnauthorizedReveal,
}

} // verus!
