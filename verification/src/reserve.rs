//! Reserve capital ledger and activity lifecycle.
//!
//! The reserve is a singleton pool of capital. Participants join, deposit
//! and withdraw against it; activities carve capital out of it for their
//! active duration and settle profit or loss back into it on completion.
//! `total_capital` is a conserved quantity: the capital-conservation law at
//! the bottom of this module proves that, over any sequence of ledger
//! operations, the pool plus all in-flight deployments always equals net
//! contributions plus net realized outcomes.
//!
//! Every operation is a single atomic transition: an operation that returns
//! an error leaves every record exactly as it was. All balance arithmetic is
//! checked; overflow is the fatal `MathOverflow`, never a wrap.

use vstd::prelude::*;

use crate::errors::AmanaError;
use crate::identity::Identity;

verus! {

/// The singleton capital pool.
#[derive(Clone, Copy, Debug)]
pub struct Reserve {
    pub admin: Identity,
    pub min_capital_contribution: u64,
    pub max_participants: u64,
    pub total_capital: u64,
    pub participant_count: u64,
    pub is_initialized: bool,
}

/// One joined identity's share of the reserve. Never deleted; deactivation
/// clears `is_active` instead.
#[derive(Clone, Copy, Debug)]
pub struct Participant {
    pub agent: Identity,
    pub capital_contributed: u64,
    pub profit_share: u64,
    pub loss_share: u64,
    pub is_active: bool,
    pub joined_at: i64,
}

/// Lifecycle status of an activity. Statuses only ever advance along
/// `Proposed < Approved < Active < Completed`; `Rejected` is a terminal
/// alternative. See [`lemma_activity_status_monotonic`].
#[derive(Clone, Copy, PartialEq, Eq, Structural, Debug)]
pub enum ActivityStatus {
    Proposed,
    Approved,
    Active,
    Completed,
    Rejected,
}

/// One proposed economic action funded from the reserve.
#[derive(Clone, Copy, Debug)]
pub struct Activity {
    pub activity_id: [u8; 32],
    pub initiator: Identity,
    pub capital_required: u64,
    pub capital_deployed: u64,
    pub status: ActivityStatus,
    pub created_at: i64,
    pub completed_at: i64,
    /// Profit positive, loss negative, zero neutral.
    pub outcome: i64,
    pub is_validated: bool,
}

/// Set up an empty reserve under `admin`.
pub fn initialize(admin: Identity, min_capital_contribution: u64, max_participants: u64) -> (r:
    Reserve)
    ensures
        r.admin == admin,
        r.min_capital_contribution == min_capital_contribution,
        r.max_participants == max_participants,
        r.total_capital == 0,
        r.participant_count == 0,
        r.is_initialized,
{
    Reserve {
        admin,
        min_capital_contribution,
        max_participants,
        total_capital: 0,
        participant_count: 0,
        is_initialized: true,
    }
}

/// Whether a joining contribution of `amount` is accepted by `r`.
pub open spec fn join_accepted(r: Reserve, amount: u64) -> bool {
    amount >= r.min_capital_contribution && r.participant_count < r.max_participants
        && r.total_capital + amount <= u64::MAX
}

/// Admit `user` as a new participant contributing `amount`.
///
/// The matching value transfer into the reserve's custody happens at the
/// host boundary, before or atomically with this transition: the ledger
/// never records capital it has not received.
pub fn join_reserve(reserve: &mut Reserve, user: Identity, amount: u64, now: i64) -> (r: Result<
    Participant,
    AmanaError,
>)
    ensures
        match r {
            Ok(p) => {
                &&& join_accepted(*old(reserve), amount)
                &&& p == (Participant {
                    agent: user,
                    capital_contributed: amount,
                    profit_share: 0,
                    loss_share: 0,
                    is_active: true,
                    joined_at: now,
                })
                &&& *final (reserve) == (Reserve {
                    total_capital: (old(reserve).total_capital + amount) as u64,
                    participant_count: (old(reserve).participant_count + 1) as u64,
                    ..*old(reserve)
                })
            },
            Err(e) => {
                &&& *final (reserve) == *old(reserve)
                &&& (e == AmanaError::InsufficientContribution <==> amount < old(
                    reserve,
                ).min_capital_contribution)
                &&& (e == AmanaError::MaxParticipantsReached <==> amount >= old(
                    reserve,
                ).min_capital_contribution && old(reserve).participant_count >= old(
                    reserve,
                ).max_participants)
                &&& (e == AmanaError::MathOverflow <==> amount >= old(
                    reserve,
                ).min_capital_contribution && old(reserve).participant_count < old(
                    reserve,
                ).max_participants && old(reserve).total_capital + amount > u64::MAX)
            },
        },
        r is Ok <==> join_accepted(*old(reserve), amount),
{
    if amount < reserve.min_capital_contribution {
        return Err(AmanaError::InsufficientContribution);
    }
    if reserve.participant_count >= reserve.max_participants {
        return Err(AmanaError::MaxParticipantsReached);
    }
    let total = match reserve.total_capital.checked_add(amount) {
        Some(t) => t,
        None => { return Err(AmanaError::MathOverflow) },
    };
    let participant = Participant {
        agent: user,
        capital_contributed: amount,
        profit_share: 0,
        loss_share: 0,
        is_active: true,
        joined_at: now,
    };
    reserve.total_capital = total;
    reserve.participant_count = reserve.participant_count + 1;
    Ok(participant)
}

/// Whether `caller` may operate on `p`'s balance at all.
pub open spec fn participant_authorized(p: Participant, caller: Identity) -> bool {
    p.is_active && p.agent == caller
}

/// Add `amount` to `caller`'s contributed balance and to the pool.
///
/// The matching value transfer into the reserve's custody happens at the
/// host boundary, atomically with this transition.
pub fn deposit_capital(
    reserve: &mut Reserve,
    participant: &mut Participant,
    caller: Identity,
    amount: u64,
) -> (r: Result<(), AmanaError>)
    ensures
        match r {
            Ok(()) => {
                &&& participant_authorized(*old(participant), caller)
                &&& amount > 0
                &&& old(participant).capital_contributed + amount <= u64::MAX
                &&& old(reserve).total_capital + amount <= u64::MAX
                &&& *final (participant) == (Participant {
                    capital_contributed: (old(participant).capital_contributed + amount) as u64,
                    ..*old(participant)
                })
                &&& *final (reserve) == (Reserve {
                    total_capital: (old(reserve).total_capital + amount) as u64,
                    ..*old(reserve)
                })
            },
            Err(e) => {
                &&& *final (reserve) == *old(reserve)
                &&& *final (participant) == *old(participant)
                &&& (e == AmanaError::InactiveParticipant <==> !old(participant).is_active)
                &&& (e == AmanaError::Unauthorized <==> old(participant).is_active && old(
                    participant,
                ).agent != caller)
                &&& (e == AmanaError::InvalidAmount <==> participant_authorized(
                    *old(participant),
                    caller,
                ) && amount == 0)
                &&& (e == AmanaError::MathOverflow <==> participant_authorized(
                    *old(participant),
                    caller,
                ) && amount > 0 && (old(participant).capital_contributed + amount > u64::MAX || old(
                    reserve,
                ).total_capital + amount > u64::MAX))
            },
        },
        r is Ok <==> participant_authorized(*old(participant), caller) && amount > 0 && old(
            participant,
        ).capital_contributed + amount <= u64::MAX && old(reserve).total_capital + amount
            <= u64::MAX,
{
    if !participant.is_active {
        return Err(AmanaError::InactiveParticipant);
    }
    if !(participant.agent == caller) {
        return Err(AmanaError::Unauthorized);
    }
    if amount == 0 {
        return Err(AmanaError::InvalidAmount);
    }
    let contributed = match participant.capital_contributed.checked_add(amount) {
        Some(c) => c,
        None => { return Err(AmanaError::MathOverflow) },
    };
    let total = match reserve.total_capital.checked_add(amount) {
        Some(t) => t,
        None => { return Err(AmanaError::MathOverflow) },
    };
    participant.capital_contributed = contributed;
    reserve.total_capital = total;
    Ok(())
}

/// Return `amount` from `caller`'s contributed balance.
///
/// `held_balance` is the balance the reserve's custody account actually
/// holds right now, as reported by the storage substrate: capital can be
/// transiently unavailable while deployed into active activities. The
/// matching value transfer back to the caller happens at the host boundary,
/// atomically with this transition.
pub fn withdraw_capital(
    reserve: &mut Reserve,
    participant: &mut Participant,
    caller: Identity,
    amount: u64,
    held_balance: u64,
) -> (r: Result<(), AmanaError>)
    ensures
        match r {
            Ok(()) => {
                &&& participant_authorized(*old(participant), caller)
                &&& 0 < amount <= old(participant).capital_contributed
                &&& amount <= held_balance
                &&& amount <= old(reserve).total_capital
                &&& *final (participant) == (Participant {
                    capital_contributed: (old(participant).capital_contributed - amount) as u64,
                    ..*old(participant)
                })
                &&& *final (reserve) == (Reserve {
                    total_capital: (old(reserve).total_capital - amount) as u64,
                    ..*old(reserve)
                })
            },
            Err(e) => {
                &&& *final (reserve) == *old(reserve)
                &&& *final (participant) == *old(participant)
                &&& (e == AmanaError::InactiveParticipant <==> !old(participant).is_active)
                &&& (e == AmanaError::Unauthorized <==> old(participant).is_active && old(
                    participant,
                ).agent != caller)
                &&& (e == AmanaError::InvalidAmount <==> participant_authorized(
                    *old(participant),
                    caller,
                ) && amount == 0)
                &&& (e == AmanaError::InsufficientBalance <==> participant_authorized(
                    *old(participant),
                    caller,
                ) && amount > 0 && amount > old(participant).capital_contributed)
                &&& (e == AmanaError::InsufficientLiquidity <==> participant_authorized(
                    *old(participant),
                    caller,
                ) && 0 < amount <= old(participant).capital_contributed && amount > held_balance)
                &&& (e == AmanaError::MathOverflow <==> participant_authorized(
                    *old(participant),
                    caller,
                ) && 0 < amount <= old(participant).capital_contributed && amount <= held_balance
                    && amount > old(reserve).total_capital)
            },
        },
        r is Ok <==> participant_authorized(*old(participant), caller) && 0 < amount <= old(
            participant,
        ).capital_contributed && amount <= held_balance && amount <= old(reserve).total_capital,
{
    if !participant.is_active {
        return Err(AmanaError::InactiveParticipant);
    }
    if !(participant.agent == caller) {
        return Err(AmanaError::Unauthorized);
    }
    if amount == 0 {
        return Err(AmanaError::InvalidAmount);
    }
    if amount > participant.capital_contributed {
        return Err(AmanaError::InsufficientBalance);
    }
    if amount > held_balance {
        return Err(AmanaError::InsufficientLiquidity);
    }
    if amount > reserve.total_capital {
        return Err(AmanaError::MathOverflow);
    }
    participant.capital_contributed = participant.capital_contributed - amount;
    reserve.total_capital = reserve.total_capital - amount;
    Ok(())
}

/// Position of a status along the lifecycle. Terminal statuses share the
/// highest position.
pub open spec fn activity_rank(s: ActivityStatus) -> int {
    match s {
        ActivityStatus::Proposed => 0,
        ActivityStatus::Approved => 1,
        ActivityStatus::Active => 2,
        ActivityStatus::Completed => 3,
        ActivityStatus::Rejected => 3,
    }
}

/// The status transitions the lifecycle operations can make: approval,
/// real-time deployment, and completion from either deployed status.
pub open spec fn activity_transition_allowed(from: ActivityStatus, to: ActivityStatus) -> bool {
    ||| (from == ActivityStatus::Proposed && to == ActivityStatus::Approved)
    ||| (from == ActivityStatus::Proposed && to == ActivityStatus::Active)
    ||| (from == ActivityStatus::Approved && to == ActivityStatus::Completed)
    ||| (from == ActivityStatus::Active && to == ActivityStatus::Completed)
}

/// An activity's status never moves backward: every transition an operation
/// of this module can make strictly increases the lifecycle position, so no
/// sequence of operations can ever return a status to an earlier one.
pub proof fn lemma_activity_status_monotonic(from: ActivityStatus, to: ActivityStatus)
    requires
        activity_transition_allowed(from, to),
    ensures
        activity_rank(to) > activity_rank(from),
{
}

/// Record a new activity in `Proposed` against the reserve's current pool.
pub fn propose_activity(
    reserve: &Reserve,
    participant: &Participant,
    caller: Identity,
    activity_id: [u8; 32],
    capital_required: u64,
    now: i64,
) -> (r: Result<Activity, AmanaError>)
    ensures
        match r {
            Ok(a) => {
                &&& participant_authorized(*participant, caller)
                &&& 0 < capital_required <= reserve.total_capital
                &&& a == (Activity {
                    activity_id,
                    initiator: participant.agent,
                    capital_required,
                    capital_deployed: 0,
                    status: ActivityStatus::Proposed,
                    created_at: now,
                    completed_at: 0,
                    outcome: 0,
                    is_validated: false,
                })
            },
            Err(e) => {
                &&& (e == AmanaError::InactiveParticipant <==> !participant.is_active)
                &&& (e == AmanaError::Unauthorized <==> participant.is_active && participant.agent
                    != caller)
                &&& (e == AmanaError::InvalidCapitalAmount <==> participant_authorized(
                    *participant,
                    caller,
                ) && !(0 < capital_required <= reserve.total_capital))
            },
        },
        r is Ok <==> participant_authorized(*participant, caller) && 0 < capital_required
            <= reserve.total_capital,
{
    if !participant.is_active {
        return Err(AmanaError::InactiveParticipant);
    }
    if !(participant.agent == caller) {
        return Err(AmanaError::Unauthorized);
    }
    if capital_required == 0 || capital_required > reserve.total_capital {
        return Err(AmanaError::InvalidCapitalAmount);
    }
    Ok(
        Activity {
            activity_id,
            initiator: participant.agent,
            capital_required,
            capital_deployed: 0,
            status: ActivityStatus::Proposed,
            created_at: now,
            completed_at: 0,
            outcome: 0,
            is_validated: false,
        },
    )
}

/// Approve a proposed activity, carving its required capital out of the
/// pool into the activity's deployment.
///
/// The propose-time check made the subtraction safe then, but capital may
/// have moved since, so sufficiency is re-verified here.
pub fn approve_activity(reserve: &mut Reserve, activity: &mut Activity) -> (r: Result<
    (),
    AmanaError,
>)
    ensures
        match r {
            Ok(()) => {
                &&& old(activity).status == ActivityStatus::Proposed
                &&& old(activity).capital_required <= old(reserve).total_capital
                &&& *final (activity) == (Activity {
                    status: ActivityStatus::Approved,
                    capital_deployed: old(activity).capital_required,
                    ..*old(activity)
                })
                &&& *final (reserve) == (Reserve {
                    total_capital: (old(reserve).total_capital - old(
                        activity,
                    ).capital_required) as u64,
                    ..*old(reserve)
                })
                &&& activity_transition_allowed(old(activity).status, final (activity).status)
            },
            Err(e) => {
                &&& *final (reserve) == *old(reserve)
                &&& *final (activity) == *old(activity)
                &&& (e == AmanaError::InvalidActivityStatus <==> old(activity).status
                    != ActivityStatus::Proposed)
                &&& (e == AmanaError::MathOverflow <==> old(activity).status
                    == ActivityStatus::Proposed && old(activity).capital_required > old(
                    reserve,
                ).total_capital)
            },
        },
        r is Ok <==> old(activity).status == ActivityStatus::Proposed && old(
            activity,
        ).capital_required <= old(reserve).total_capital,
{
    if !(activity.status == ActivityStatus::Proposed) {
        return Err(AmanaError::InvalidActivityStatus);
    }
    let total = match reserve.total_capital.checked_sub(activity.capital_required) {
        Some(t) => t,
        None => { return Err(AmanaError::MathOverflow) },
    };
    activity.status = ActivityStatus::Approved;
    activity.capital_deployed = activity.capital_required;
    reserve.total_capital = total;
    Ok(())
}

/// Capital returned to the pool when an activity that deployed `deployed`
/// completes with `outcome`: profit returns the deployment plus the gain, a
/// loss smaller than the deployment returns the remainder, and a loss of
/// the whole deployment or more returns nothing — the reserve's downside is
/// bounded by what it deployed.
pub open spec fn settlement_return(deployed: u64, outcome: i64) -> int {
    if outcome > 0 {
        deployed + outcome
    } else if outcome < 0 {
        if -outcome < deployed {
            deployed + outcome
        } else {
            0
        }
    } else {
        deployed as int
    }
}

/// Net realized outcome a completion books against the ledger: the gain in
/// full, or the loss capped at the deployed capital.
pub open spec fn realized_outcome(deployed: u64, outcome: i64) -> int {
    settlement_return(deployed, outcome) - deployed
}

/// Whether settling `outcome` against a pool of `total` would overflow the
/// checked arithmetic of [`complete_activity`].
pub open spec fn complete_overflows(total: u64, deployed: u64, outcome: i64) -> bool {
    if outcome > 0 {
        total + deployed + outcome > u64::MAX
    } else if outcome < 0 {
        -outcome < deployed && total + deployed > u64::MAX
    } else {
        total + deployed > u64::MAX
    }
}

/// Complete a deployed activity with a signed `outcome`, settling the
/// deployment back into the pool under the settlement rule.
pub fn complete_activity(
    reserve: &mut Reserve,
    activity: &mut Activity,
    outcome: i64,
    now: i64,
) -> (r: Result<(), AmanaError>)
    ensures
        match r {
            Ok(()) => {
                &&& (old(activity).status == ActivityStatus::Approved || old(activity).status
                    == ActivityStatus::Active)
                &&& !complete_overflows(
                    old(reserve).total_capital,
                    old(activity).capital_deployed,
                    outcome,
                )
                &&& *final (activity) == (Activity {
                    status: ActivityStatus::Completed,
                    completed_at: now,
                    outcome,
                    is_validated: true,
                    ..*old(activity)
                })
                &&& *final (reserve) == (Reserve {
                    total_capital: (old(reserve).total_capital + settlement_return(
                        old(activity).capital_deployed,
                        outcome,
                    )) as u64,
                    ..*old(reserve)
                })
                &&& activity_transition_allowed(old(activity).status, final (activity).status)
            },
            Err(e) => {
                &&& *final (reserve) == *old(reserve)
                &&& *final (activity) == *old(activity)
                &&& (e == AmanaError::InvalidActivityStatus <==> old(activity).status
                    != ActivityStatus::Approved && old(activity).status != ActivityStatus::Active)
                &&& (e == AmanaError::MathOverflow <==> (old(activity).status
                    == ActivityStatus::Approved || old(activity).status == ActivityStatus::Active)
                    && complete_overflows(
                    old(reserve).total_capital,
                    old(activity).capital_deployed,
                    outcome,
                ))
            },
        },
        r is Ok <==> (old(activity).status == ActivityStatus::Approved || old(activity).status
            == ActivityStatus::Active) && !complete_overflows(
            old(reserve).total_capital,
            old(activity).capital_deployed,
            outcome,
        ),
{
    if !(activity.status == ActivityStatus::Approved) && !(activity.status
        == ActivityStatus::Active) {
        return Err(AmanaError::InvalidActivityStatus);
    }
    let returned_capital = activity.capital_deployed;
    let new_total: u64;
    if outcome > 0 {
        let with_capital = match reserve.total_capital.checked_add(returned_capital) {
            Some(t) => t,
            None => { return Err(AmanaError::MathOverflow) },
        };
        new_total = match with_capital.checked_add(outcome as u64) {
            Some(t) => t,
            None => { return Err(AmanaError::MathOverflow) },
        };
    } else if outcome < 0 {
        let loss: u64 = (-(outcome as i128)) as u64;
        proof {
            assert(loss == -outcome);
        }
        if loss < returned_capital {
            let with_capital = match reserve.total_capital.checked_add(returned_capital) {
                Some(t) => t,
                None => { return Err(AmanaError::MathOverflow) },
            };
            new_total = with_capital - loss;
        } else {
            new_total = reserve.total_capital;
        }
    } else {
        new_total = match reserve.total_capital.checked_add(returned_capital) {
            Some(t) => t,
            None => { return Err(AmanaError::MathOverflow) },
        };
    }
    activity.status = ActivityStatus::Completed;
    activity.completed_at = now;
    activity.outcome = outcome;
    activity.is_validated = true;
    reserve.total_capital = new_total;
    Ok(())
}

/// Deploy `amount` into a proposed activity immediately, marking it
/// `Active`. This is the real-time deployment path: the activity skips the
/// separate approval step and settles later through [`complete_activity`].
pub fn deploy_capital_realtime(reserve: &mut Reserve, activity: &mut Activity, amount: u64) -> (r:
    Result<(), AmanaError>)
    ensures
        match r {
            Ok(()) => {
                &&& old(activity).status == ActivityStatus::Proposed
                &&& amount <= old(reserve).total_capital
                &&& *final (activity) == (Activity {
                    status: ActivityStatus::Active,
                    capital_deployed: amount,
                    ..*old(activity)
                })
                &&& *final (reserve) == (Reserve {
                    total_capital: (old(reserve).total_capital - amount) as u64,
                    ..*old(reserve)
                })
                &&& activity_transition_allowed(old(activity).status, final (activity).status)
            },
            Err(e) => {
                &&& *final (reserve) == *old(reserve)
                &&& *final (activity) == *old(activity)
                &&& (e == AmanaError::InvalidActivityStatus <==> old(activity).status
                    != ActivityStatus::Proposed)
                &&& (e == AmanaError::InsufficientCapital <==> old(activity).status
                    == ActivityStatus::Proposed && amount > old(reserve).total_capital)
            },
        },
        r is Ok <==> old(activity).status == ActivityStatus::Proposed && amount <= old(
            reserve,
        ).total_capital,
{
    if !(activity.status == ActivityStatus::Proposed) {
        return Err(AmanaError::InvalidActivityStatus);
    }
    if amount > reserve.total_capital {
        return Err(AmanaError::InsufficientCapital);
    }
    activity.capital_deployed = amount;
    activity.status = ActivityStatus::Active;
    reserve.total_capital = reserve.total_capital - amount;
    Ok(())
}

/// One successful ledger-affecting operation, abstracted to the quantities
/// it moves. `Join`, `Deposit` and `Withdraw` are the participant
/// operations of the same names; `Deploy` covers both [`approve_activity`]
/// (with the activity's required capital) and [`deploy_capital_realtime`];
/// `Complete` is [`complete_activity`] on an activity with the given
/// deployment.
pub enum LedgerOp {
    Join { amount: u64 },
    Deposit { amount: u64 },
    Withdraw { amount: u64 },
    Deploy { amount: u64 },
    Complete { deployed: u64, outcome: i64 },
}

/// Ledger-wide accounting: the pool, the sum of in-flight deployments, net
/// participant contributions, and net realized activity outcomes.
pub struct LedgerModel {
    pub total: int,
    pub deployed: int,
    pub contributed: int,
    pub realized: int,
}

/// How one operation moves the ledger-wide quantities. Each delta is
/// exactly the delta the corresponding executable function's contract
/// states for `reserve.total_capital` and the records it touches.
pub open spec fn ledger_step(m: LedgerModel, op: LedgerOp) -> LedgerModel {
    match op {
        LedgerOp::Join { amount } => LedgerModel {
            total: m.total + amount,
            contributed: m.contributed + amount,
            ..m
        },
        LedgerOp::Deposit { amount } => LedgerModel {
            total: m.total + amount,
            contributed: m.contributed + amount,
            ..m
        },
        LedgerOp::Withdraw { amount } => LedgerModel {
            total: m.total - amount,
            contributed: m.contributed - amount,
            ..m
        },
        LedgerOp::Deploy { amount } => LedgerModel {
            total: m.total - amount,
            deployed: m.deployed + amount,
            ..m
        },
        LedgerOp::Complete { deployed, outcome } => LedgerModel {
            total: m.total + settlement_return(deployed, outcome),
            deployed: m.deployed - deployed,
            realized: m.realized + realized_outcome(deployed, outcome),
            ..m
        },
    }
}

/// The conserved quantity: pool plus in-flight deployments equals net
/// contributions plus net realized outcomes.
pub open spec fn ledger_balanced(m: LedgerModel) -> bool {
    m.total + m.deployed == m.contributed + m.realized
}

/// The ledger after running `ops` in order from `m`.
pub open spec fn ledger_run(m: LedgerModel, ops: Seq<LedgerOp>) -> LedgerModel
    decreases ops.len(),
{
    if ops.len() == 0 {
        m
    } else {
        ledger_step(ledger_run(m, ops.drop_last()), ops.last())
    }
}

/// Capital conservation: over any sequence of join, deposit, withdraw,
/// deployment and completion operations, the reserve's total capital plus
/// the capital deployed into still-active activities equals the sum of all
/// net participant contributions plus all net realized activity outcomes —
/// at every observation point, since every prefix of `ops` is itself a
/// sequence of operations.
pub proof fn lemma_capital_conservation(m: LedgerModel, ops: Seq<LedgerOp>)
    requires
        ledger_balanced(m),
    ensures
        ledger_balanced(ledger_run(m, ops)),
    decreases ops.len(),
{
    if ops.len() > 0 {
        lemma_capital_conservation(m, ops.drop_last());
    }
}

} // verus!
