//! Compliance gate and automated post-completion actions.
//!
//! The compliance rules are stateless over an activity snapshot: a loss
//! exceeding the deployed capital, a profit margin over 50%, or a holding
//! period under one day each flag the activity for manual review;
//! otherwise it is marked compliant. The verdict is a pure function of the
//! activity's figures and the supplied current time
//! ([`lemma_compliance_deterministic`]).
//!
//! The other actions here run automatically after an activity completes:
//! a score adjustment derived from the outcome, a simplified profit
//! distribution, and the framing of a cross-chain synchronization message
//! for the outbox.

use vstd::prelude::*;

use vstd::bytes::spec_u64_to_le_bytes;
use vstd::bytes::u64_to_le_bytes;

use crate::errors::ActionError;
use crate::hai::clamped_delta_score;
use crate::reserve::{Activity, Reserve};

verus! {

/// The recorded compliance verdict for one activity.
#[derive(Clone, Copy, Debug)]
pub struct ComplianceState {
    pub activity_id: [u8; 32],
    pub is_compliant: bool,
    pub requires_review: bool,
    pub verified_at: i64,
    pub flagged_at: i64,
}

/// The slim scoring record the automated actions adjust.
#[derive(Clone, Copy, Debug)]
pub struct HaiState {
    pub current_score: u16,
    pub last_updated: i64,
}

/// The cross-chain outbox slot: one pending serialized message.
#[derive(Clone, Debug)]
pub struct BridgeState {
    pub pending_sync: bool,
    pub sync_data: Vec<u8>,
    pub last_sync_attempt: i64,
}

/// One cross-chain synchronization message.
#[derive(Clone, Copy, Debug)]
pub struct CrossChainSyncMessage {
    pub activity_id: [u8; 32],
    pub capital_deployed: u64,
    pub outcome: i64,
    pub timestamp: i64,
}

/// Seconds in the minimum holding period (one day).
pub open spec fn min_holding_period() -> int {
    86400
}

/// Seconds above which an activity counts as long-term (thirty days).
pub open spec fn long_term_threshold() -> int {
    2592000
}

/// The compliance verdict on an activity's figures at time `now`: `true`
/// is compliant, `false` is flagged for manual review. The rules, in order:
/// a loss larger than the deployed capital signals non-asset-backed
/// speculation; a profit margin above 50% of the required capital is
/// excessive markup; a holding period under one day is impermissibly
/// speculative.
pub open spec fn compliance_verdict(
    outcome: int,
    capital_required: int,
    capital_deployed: int,
    created_at: int,
    now: int,
) -> bool
    recommends
        capital_required > 0,
{
    if outcome < 0 && -outcome > capital_deployed {
        false
    } else if outcome > 0 && (outcome * 100) / capital_required > 50 {
        false
    } else if now - created_at < min_holding_period() {
        false
    } else {
        true
    }
}

/// Identical figures always get the identical verdict — the rules hold no
/// state of their own, so two activities that agree on outcome, capital and
/// creation time are judged the same at the same time.
pub proof fn lemma_compliance_deterministic(a: Activity, b: Activity, now: int)
    requires
        a.outcome == b.outcome,
        a.capital_required == b.capital_required,
        a.capital_deployed == b.capital_deployed,
        a.created_at == b.created_at,
    ensures
        compliance_verdict(
            a.outcome as int,
            a.capital_required as int,
            a.capital_deployed as int,
            a.created_at as int,
            now,
        ) == compliance_verdict(
            b.outcome as int,
            b.capital_required as int,
            b.capital_deployed as int,
            b.created_at as int,
            now,
        ),
{
}

/// Evaluate the compliance rules against `activity` at time `now`.
pub fn perform_compliance_check(activity: &Activity, now: i64) -> (r: bool)
    requires
        activity.capital_required > 0,
    ensures
        r == compliance_verdict(
            activity.outcome as int,
            activity.capital_required as int,
            activity.capital_deployed as int,
            activity.created_at as int,
            now as int,
        ),
{
    if activity.outcome < 0 {
        let loss: u64 = (-(activity.outcome as i128)) as u64;
        proof {
            assert(loss == -activity.outcome);
        }
        if loss > activity.capital_deployed {
            return false;
        }
    }
    if activity.outcome > 0 {
        let profit_margin = ((activity.outcome as u128) * 100) / (activity.capital_required
            as u128);
        if profit_margin > 50 {
            return false;
        }
    }
    let duration: i128 = (now as i128) - (activity.created_at as i128);
    if duration < 86400 {
        return false;
    }
    true
}

/// Run the automated compliance check on a completed activity and record
/// its verdict. Compliant activities are marked verified at `now`, all
/// others are flagged for manual review at `now`.
pub fn check_compliance_action(
    activity: &Activity,
    compliance_state: &mut ComplianceState,
    now: i64,
)
    requires
        activity.capital_required > 0,
    ensures
        compliance_verdict(
            activity.outcome as int,
            activity.capital_required as int,
            activity.capital_deployed as int,
            activity.created_at as int,
            now as int,
        ) ==> *final (compliance_state) == (ComplianceState {
            is_compliant: true,
            verified_at: now,
            ..*old(compliance_state)
        }),
        !compliance_verdict(
            activity.outcome as int,
            activity.capital_required as int,
            activity.capital_deployed as int,
            activity.created_at as int,
            now as int,
        ) ==> *final (compliance_state) == (ComplianceState {
            requires_review: true,
            flagged_at: now,
            ..*old(compliance_state)
        }),
{
    let is_compliant = perform_compliance_check(activity, now);
    if !is_compliant {
        compliance_state.requires_review = true;
        compliance_state.flagged_at = now;
    } else {
        compliance_state.is_compliant = true;
        compliance_state.verified_at = now;
    }
}

/// The score-basis-point impact of a completed activity: +50 for a
/// validated profit, -25 for any loss, and +25 more once the activity ran
/// longer than thirty days.
pub open spec fn hai_impact(outcome: int, is_validated: bool, created_at: int, now: int) -> int {
    let profit_part: int = if outcome > 0 && is_validated {
        50
    } else {
        0
    };
    let loss_part: int = if outcome < 0 {
        profit_part - 25
    } else {
        profit_part
    };
    if now - created_at > long_term_threshold() {
        loss_part + 25
    } else {
        loss_part
    }
}

/// Compute the signed score impact of `activity` at time `now`.
pub fn calculate_hai_impact(activity: &Activity, now: i64) -> (impact: i16)
    ensures
        impact == hai_impact(
            activity.outcome as int,
            activity.is_validated,
            activity.created_at as int,
            now as int,
        ),
        -25 <= impact <= 75,
{
    let mut impact: i16 = 0;
    if activity.outcome > 0 && activity.is_validated {
        impact = impact + 50;
    }
    if activity.outcome < 0 {
        impact = impact - 25;
    }
    let duration: i128 = (now as i128) - (activity.created_at as i128);
    if duration > 2592000 {
        impact = impact + 25;
    }
    impact
}

/// Apply a completed activity's score impact to the slim scoring record,
/// saturating at the score's range bounds, and stamp the update time.
pub fn update_hai_action(activity: &Activity, hai_state: &mut HaiState, now: i64)
    ensures
        *final (hai_state) == (HaiState {
            current_score: clamped_delta_score(
                old(hai_state).current_score,
                hai_impact(
                    activity.outcome as int,
                    activity.is_validated,
                    activity.created_at as int,
                    now as int,
                ),
            ) as u16,
            last_updated: now,
        }),
        final (hai_state).current_score <= 10000,
{
    let hai_delta = calculate_hai_impact(activity, now);
    let adjusted: i32 = hai_state.current_score as i32 + hai_delta as i32;
    let new_score: u16 = if adjusted < 0 {
        0
    } else if adjusted > 10000 {
        10000
    } else {
        adjusted as u16
    };
    hai_state.current_score = new_score;
    hai_state.last_updated = now;
}

/// Distribute a completed activity's profit back into the reserve
/// (simplified equal-share accounting) and report the per-participant
/// share. Fails with `NoProfit` when there is no positive outcome.
pub fn distribute_profits_action(activity: &Activity, reserve: &mut Reserve) -> (r: Result<
    u64,
    ActionError,
>)
    requires
        old(reserve).participant_count > 0,
        activity.outcome > 0 ==> old(reserve).total_capital + activity.outcome <= u64::MAX,
    ensures
        match r {
            Ok(per_participant) => {
                &&& activity.outcome > 0
                &&& per_participant == (activity.outcome as u64) as int / old(
                    reserve,
                ).participant_count as int
                &&& *final (reserve) == (Reserve {
                    total_capital: (old(reserve).total_capital + activity.outcome) as u64,
                    ..*old(reserve)
                })
            },
            Err(e) => {
                &&& *final (reserve) == *old(reserve)
                &&& e == ActionError::NoProfit
                &&& activity.outcome <= 0
            },
        },
        r is Ok <==> activity.outcome > 0,
{
    if activity.outcome <= 0 {
        return Err(ActionError::NoProfit);
    }
    let profit = activity.outcome as u64;
    let per_participant = profit / reserve.participant_count;
    reserve.total_capital = reserve.total_capital + profit;
    Ok(per_participant)
}

/// The byte framing of a synchronization message: the 32 identifier bytes,
/// then the deployed capital, the outcome and the timestamp, each as eight
/// little-endian bytes (signed fields in two's complement).
pub open spec fn sync_message_bytes(m: CrossChainSyncMessage) -> Seq<u8> {
    m.activity_id@ + spec_u64_to_le_bytes(m.capital_deployed) + spec_u64_to_le_bytes(
        m.outcome as u64,
    ) + spec_u64_to_le_bytes(m.timestamp as u64)
}

/// Frame `m` into its 56-byte wire form.
pub fn encode_sync_message(m: &CrossChainSyncMessage) -> (r: Vec<u8>)
    ensures
        r@ == sync_message_bytes(*m),
        r@.len() == 56,
{
    let mut out: Vec<u8> = Vec::new();
    let mut i: usize = 0;
    while i < 32
        invariant
            i <= 32,
            out@ == m.activity_id@.subrange(0, i as int),
        decreases 32 - i,
    {
        out.push(m.activity_id[i]);
        proof {
            assert(m.activity_id@.subrange(0, i + 1 as int) =~= m.activity_id@.subrange(
                0,
                i as int,
            ).push(m.activity_id@[i as int]));
        }
        i = i + 1;
    }
    proof {
        assert(out@ =~= m.activity_id@);
    }
    let mut deployed_bytes = u64_to_le_bytes(m.capital_deployed);
    out.append(&mut deployed_bytes);
    let mut outcome_bytes = u64_to_le_bytes(m.outcome as u64);
    out.append(&mut outcome_bytes);
    let mut timestamp_bytes = u64_to_le_bytes(m.timestamp as u64);
    out.append(&mut timestamp_bytes);
    proof {
        assert(out@ =~= sync_message_bytes(*m));
    }
    out
}

/// Queue a synchronization message for the bridge: frame the activity's
/// settlement figures and leave them in the outbox slot, marked pending.
pub fn sync_cross_chain_action(activity: &Activity, bridge_state: &mut BridgeState, now: i64)
    ensures
        final (bridge_state).pending_sync,
        final (bridge_state).sync_data@ == sync_message_bytes(
            CrossChainSyncMessage {
                activity_id: activity.activity_id,
                capital_deployed: activity.capital_deployed,
                outcome: activity.outcome,
                timestamp: now,
            },
        ),
        final (bridge_state).last_sync_attempt == now,
{
    let sync_message = CrossChainSyncMessage {
        activity_id: activity.activity_id,
        capital_deployed: activity.capital_deployed,
        outcome: activity.outcome,
        timestamp: now,
    };
    bridge_state.pending_sync = true;
    bridge_state.sync_data = encode_sync_message(&sync_message);
    bridge_state.last_sync_attempt = now;
}

} // verus!
