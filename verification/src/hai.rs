//! Composite activity-index scoring ("HAI").
//!
//! The score is a basis-point value in `[0, 10000]` recomputed from
//! cumulative counters: the shares of tracked activities that were
//! compliant, asset-backed and of real economic value, each weighted by an
//! admin-tunable basis-point weight, plus a fixed validator-participation
//! baseline. Weights must sum to exactly 10000. All intermediate
//! arithmetic is checked — an overflow is the fatal `MathOverflow` — and
//! only the final score is clamped, as a policy decision.
//!
//! The randomized source-sampling path is strictly additive on top of the
//! counter-based score and never replaces it; its randomness comes from an
//! external oracle and is passed in as a plain integer.

use vstd::prelude::*;

use vstd::arithmetic::div_mod::{lemma_div_is_ordered, lemma_div_multiples_vanish, lemma_div_pos_is_pos};

use crate::errors::HaiError;
use crate::identity::Identity;

verus! {

/// The singleton scoring state.
#[derive(Clone, Copy, Debug)]
pub struct Hai {
    pub admin: Identity,
    /// Composite score in basis points, `0..=10000`.
    pub current_score: u16,
    pub total_activities: u64,
    pub compliant_activities: u64,
    pub asset_backed_activities: u64,
    pub economic_value_activities: u64,
    pub snapshot_count: u64,
    pub compliance_weight: u16,
    pub asset_backing_weight: u16,
    pub economic_value_weight: u16,
    pub validator_participation_weight: u16,
}

/// Per-activity signals recorded when an activity is tracked.
#[derive(Clone, Copy, Debug)]
pub struct ActivityMetrics {
    pub activity_id: [u8; 32],
    pub is_compliant: bool,
    pub is_asset_backed: bool,
    pub has_real_economic_value: bool,
    pub validator_count: u32,
    pub positive_votes: u32,
    pub timestamp: i64,
}

/// A point-in-time copy of the scoring state.
#[derive(Clone, Copy, Debug)]
pub struct HaiSnapshot {
    pub snapshot_id: u64,
    pub score: u16,
    pub total_activities: u64,
    pub compliant_activities: u64,
    pub asset_backed_activities: u64,
    pub timestamp: i64,
}

/// An identity authorized to push score updates.
#[derive(Clone, Copy, Debug)]
pub struct Updater {
    pub updater: Identity,
    pub is_authorized: bool,
}

/// Cumulative counters never exceed the total they are counted out of.
pub open spec fn counts_consistent(h: Hai) -> bool {
    &&& h.compliant_activities <= h.total_activities
    &&& h.asset_backed_activities <= h.total_activities
    &&& h.economic_value_activities <= h.total_activities
}

/// Sum of the four basis-point weights.
pub open spec fn weights_sum(h: Hai) -> int {
    h.compliance_weight + h.asset_backing_weight + h.economic_value_weight
        + h.validator_participation_weight
}

/// Well-formedness of the scoring state: consistent counters, a bounded
/// score, and weights that sum to exactly 10000 basis points.
pub open spec fn hai_wf(h: Hai) -> bool {
    &&& counts_consistent(h)
    &&& h.current_score <= 10000
    &&& weights_sum(h) == 10000
}

/// Share of `total` represented by `count`, in basis points, rounded down;
/// 0 when nothing has been counted.
pub open spec fn component_score(count: u64, total: u64) -> int {
    if total == 0 {
        0
    } else {
        (count * 10000) / (total as int)
    }
}

/// A component score scaled by a basis-point weight, rounded down.
pub open spec fn weighted(component: int, weight: u16) -> int {
    (component * weight) / 10000
}

/// Fixed baseline for the validator-participation component.
pub open spec fn validator_baseline() -> int {
    8000
}

/// The counter-based composite score of `h`: the weighted sum of the three
/// counted components and the validator baseline, clamped to 10000. When
/// nothing has been tracked yet there is nothing to compute from and the
/// current score stands.
pub open spec fn hai_score(h: Hai) -> int {
    if h.total_activities == 0 {
        h.current_score as int
    } else {
        let s = weighted(component_score(h.compliant_activities, h.total_activities), h.compliance_weight)
            + weighted(
            component_score(h.asset_backed_activities, h.total_activities),
            h.asset_backing_weight,
        ) + weighted(
            component_score(h.economic_value_activities, h.total_activities),
            h.economic_value_weight,
        ) + weighted(validator_baseline(), h.validator_participation_weight);
        if s > 10000 {
            10000
        } else {
            s
        }
    }
}

/// Whether recomputation hits the checked-multiplication limit: some
/// counter is so large that scaling it to basis points leaves `u64`.
pub open spec fn score_mul_overflows(h: Hai) -> bool {
    h.total_activities != 0 && (h.compliant_activities * 10000 > u64::MAX
        || h.asset_backed_activities * 10000 > u64::MAX || h.economic_value_activities * 10000
        > u64::MAX)
}

proof fn lemma_component_bounded(count: u64, total: u64)
    requires
        count <= total,
    ensures
        0 <= component_score(count, total) <= 10000,
{
    if total != 0 {
        assert(count * 10000 <= total * 10000) by (nonlinear_arith)
            requires
                count <= total,
        ;
        lemma_div_is_ordered((count * 10000) as int, (total * 10000) as int, total as int);
        lemma_div_multiples_vanish(10000, total as int);
        lemma_div_pos_is_pos((count * 10000) as int, total as int);
    }
}

proof fn lemma_weighted_bounded(component: int, weight: u16)
    requires
        0 <= component <= 10000,
    ensures
        0 <= weighted(component, weight) <= weight,
{
    assert(component * weight <= 10000 * weight && component * weight >= 0) by (nonlinear_arith)
        requires
            0 <= component <= 10000,
            weight >= 0,
    ;
    lemma_div_is_ordered(component * weight, 10000 * weight, 10000);
    lemma_div_multiples_vanish(weight as int, 10000);
    lemma_div_pos_is_pos(component * weight, 10000);
}

proof fn lemma_component_nonneg(count: u64, total: u64)
    ensures
        component_score(count, total) >= 0,
{
    if total != 0 {
        lemma_div_pos_is_pos((count * 10000) as int, total as int);
    }
}

proof fn lemma_weighted_nonneg(component: int, weight: u16)
    requires
        component >= 0,
    ensures
        weighted(component, weight) >= 0,
{
    assert(component * weight >= 0) by (nonlinear_arith)
        requires
            component >= 0,
            weight >= 0,
    ;
    lemma_div_pos_is_pos(component * weight, 10000);
}

/// The composite score is bounded: whatever the weights, a recomputation
/// over consistent counters lands in `[0, 10000]`, and with no tracked
/// activities the score is left unchanged.
pub proof fn lemma_hai_score_bounded(h: Hai)
    requires
        counts_consistent(h),
    ensures
        h.total_activities == 0 ==> hai_score(h) == h.current_score,
        h.total_activities != 0 ==> 0 <= hai_score(h) <= 10000,
{
    if h.total_activities != 0 {
        lemma_component_bounded(h.compliant_activities, h.total_activities);
        lemma_component_bounded(h.asset_backed_activities, h.total_activities);
        lemma_component_bounded(h.economic_value_activities, h.total_activities);
        lemma_weighted_bounded(
            component_score(h.compliant_activities, h.total_activities),
            h.compliance_weight,
        );
        lemma_weighted_bounded(
            component_score(h.asset_backed_activities, h.total_activities),
            h.asset_backing_weight,
        );
        lemma_weighted_bounded(
            component_score(h.economic_value_activities, h.total_activities),
            h.economic_value_weight,
        );
        lemma_weighted_bounded(validator_baseline(), h.validator_participation_weight);
    }
}

/// The recomputed score lands in `[0, 10000]` even over inconsistent
/// counters: the final clamp bounds it above, and every component and
/// weighting is a quotient of nonnegative values.
proof fn lemma_hai_score_in_range(h: Hai)
    ensures
        h.total_activities != 0 ==> 0 <= hai_score(h) <= 10000,
{
    if h.total_activities != 0 {
        lemma_component_nonneg(h.compliant_activities, h.total_activities);
        lemma_component_nonneg(h.asset_backed_activities, h.total_activities);
        lemma_component_nonneg(h.economic_value_activities, h.total_activities);
        lemma_weighted_nonneg(
            component_score(h.compliant_activities, h.total_activities),
            h.compliance_weight,
        );
        lemma_weighted_nonneg(
            component_score(h.asset_backed_activities, h.total_activities),
            h.asset_backing_weight,
        );
        lemma_weighted_nonneg(
            component_score(h.economic_value_activities, h.total_activities),
            h.economic_value_weight,
        );
        lemma_weighted_nonneg(validator_baseline(), h.validator_participation_weight);
    }
}

/// Set up the scoring state under `admin` with the default weight split
/// (40% compliance, 25% asset backing, 20% economic value, 15% validator
/// participation) and no tracked activities. The initial score is clamped
/// into the valid range.
pub fn initialize(admin: Identity, initial_score: u16) -> (h: Hai)
    ensures
        h == (Hai {
            admin,
            current_score: if initial_score > 10000 {
                10000u16
            } else {
                initial_score
            },
            total_activities: 0,
            compliant_activities: 0,
            asset_backed_activities: 0,
            economic_value_activities: 0,
            snapshot_count: 0,
            compliance_weight: 4000,
            asset_backing_weight: 2500,
            economic_value_weight: 2000,
            validator_participation_weight: 1500,
        }),
        hai_wf(h),
{
    let score = if initial_score > 10000 {
        10000
    } else {
        initial_score
    };
    Hai {
        admin,
        current_score: score,
        total_activities: 0,
        compliant_activities: 0,
        asset_backed_activities: 0,
        economic_value_activities: 0,
        snapshot_count: 0,
        compliance_weight: 4000,
        asset_backing_weight: 2500,
        economic_value_weight: 2000,
        validator_participation_weight: 1500,
    }
}

/// Recompute the composite score of `hai` from its counters.
pub fn calculate_hai_score(hai: &Hai) -> (r: Result<u16, HaiError>)
    requires
        counts_consistent(*hai),
    ensures
        r matches Ok(s) ==> s == hai_score(*hai),
        r is Ok <==> !score_mul_overflows(*hai),
        r matches Err(e) ==> e == HaiError::MathOverflow,
{
    if hai.total_activities == 0 {
        return Ok(hai.current_score);
    }
    let total = hai.total_activities;
    let compliance_num = match hai.compliant_activities.checked_mul(10000) {
        Some(v) => v,
        None => { return Err(HaiError::MathOverflow) },
    };
    let asset_num = match hai.asset_backed_activities.checked_mul(10000) {
        Some(v) => v,
        None => { return Err(HaiError::MathOverflow) },
    };
    let economic_num = match hai.economic_value_activities.checked_mul(10000) {
        Some(v) => v,
        None => { return Err(HaiError::MathOverflow) },
    };
    let compliance_score = compliance_num / total;
    let asset_backing_score = asset_num / total;
    let economic_value_score = economic_num / total;
    let validator_participation_score: u64 = 8000;
    proof {
        lemma_component_bounded(hai.compliant_activities, total);
        lemma_component_bounded(hai.asset_backed_activities, total);
        lemma_component_bounded(hai.economic_value_activities, total);
        lemma_weighted_bounded(component_score(hai.compliant_activities, total), hai.compliance_weight);
        lemma_weighted_bounded(
            component_score(hai.asset_backed_activities, total),
            hai.asset_backing_weight,
        );
        lemma_weighted_bounded(
            component_score(hai.economic_value_activities, total),
            hai.economic_value_weight,
        );
        lemma_weighted_bounded(validator_baseline(), hai.validator_participation_weight);
    }
    let score = compliance_score * (hai.compliance_weight as u64) / 10000 + asset_backing_score
        * (hai.asset_backing_weight as u64) / 10000 + economic_value_score
        * (hai.economic_value_weight as u64) / 10000 + validator_participation_score
        * (hai.validator_participation_weight as u64) / 10000;
    if score > 10000 {
        Ok(10000)
    } else {
        Ok(score as u16)
    }
}

/// The counters of `h` after tracking one activity with the given signals.
pub open spec fn tracked_counters(
    h: Hai,
    is_compliant: bool,
    is_asset_backed: bool,
    has_real_economic_value: bool,
) -> Hai {
    Hai {
        total_activities: (h.total_activities + 1) as u64,
        compliant_activities: if is_compliant {
            (h.compliant_activities + 1) as u64
        } else {
            h.compliant_activities
        },
        asset_backed_activities: if is_asset_backed {
            (h.asset_backed_activities + 1) as u64
        } else {
            h.asset_backed_activities
        },
        economic_value_activities: if has_real_economic_value {
            (h.economic_value_activities + 1) as u64
        } else {
            h.economic_value_activities
        },
        ..h
    }
}

/// Count one completed activity's signals into the cumulative counters,
/// record its metrics, and recompute the composite score.
pub fn track_activity(
    hai: &mut Hai,
    activity_id: [u8; 32],
    is_compliant: bool,
    is_asset_backed: bool,
    has_real_economic_value: bool,
    validator_count: u32,
    positive_votes: u32,
    now: i64,
) -> (r: Result<ActivityMetrics, HaiError>)
    requires
        counts_consistent(*old(hai)),
    ensures
        match r {
            Ok(m) => {
                &&& old(hai).total_activities + 1 <= u64::MAX
                &&& !score_mul_overflows(
                    tracked_counters(
                        *old(hai),
                        is_compliant,
                        is_asset_backed,
                        has_real_economic_value,
                    ),
                )
                &&& *final (hai) == (Hai {
                    current_score: hai_score(
                        tracked_counters(
                            *old(hai),
                            is_compliant,
                            is_asset_backed,
                            has_real_economic_value,
                        ),
                    ) as u16,
                    ..tracked_counters(
                        *old(hai),
                        is_compliant,
                        is_asset_backed,
                        has_real_economic_value,
                    )
                })
                &&& final (hai).current_score <= 10000
                &&& m == (ActivityMetrics {
                    activity_id,
                    is_compliant,
                    is_asset_backed,
                    has_real_economic_value,
                    validator_count,
                    positive_votes,
                    timestamp: now,
                })
            },
            Err(e) => {
                &&& *final (hai) == *old(hai)
                &&& e == HaiError::MathOverflow
                &&& (old(hai).total_activities + 1 > u64::MAX || score_mul_overflows(
                    tracked_counters(
                        *old(hai),
                        is_compliant,
                        is_asset_backed,
                        has_real_economic_value,
                    ),
                ))
            },
        },
        counts_consistent(*final (hai)),
{
    let mut candidate = *hai;
    candidate.total_activities = match candidate.total_activities.checked_add(1) {
        Some(v) => v,
        None => { return Err(HaiError::MathOverflow) },
    };
    if is_compliant {
        candidate.compliant_activities = candidate.compliant_activities + 1;
    }
    if is_asset_backed {
        candidate.asset_backed_activities = candidate.asset_backed_activities + 1;
    }
    if has_real_economic_value {
        candidate.economic_value_activities = candidate.economic_value_activities + 1;
    }
    let metrics = ActivityMetrics {
        activity_id,
        is_compliant,
        is_asset_backed,
        has_real_economic_value,
        validator_count,
        positive_votes,
        timestamp: now,
    };
    let score = match calculate_hai_score(&candidate) {
        Ok(s) => s,
        Err(e) => { return Err(e) },
    };
    proof {
        lemma_hai_score_bounded(candidate);
    }
    candidate.current_score = score;
    *hai = candidate;
    Ok(metrics)
}

/// Copy the current scoring state into a snapshot record stamped `now`.
pub fn create_snapshot(hai: &Hai, now: i64) -> (s: HaiSnapshot)
    ensures
        s == (HaiSnapshot {
            snapshot_id: hai.snapshot_count,
            score: hai.current_score,
            total_activities: hai.total_activities,
            compliant_activities: hai.compliant_activities,
            asset_backed_activities: hai.asset_backed_activities,
            timestamp: now,
        }),
{
    HaiSnapshot {
        snapshot_id: hai.snapshot_count,
        score: hai.current_score,
        total_activities: hai.total_activities,
        compliant_activities: hai.compliant_activities,
        asset_backed_activities: hai.asset_backed_activities,
        timestamp: now,
    }
}

/// Replace the four weights and recompute the score. The new weights must
/// sum to exactly 10000 basis points; an update that does not leaves the
/// state untouched and reports `InvalidWeights`. Admin only.
pub fn update_weights(
    hai: &mut Hai,
    caller: Identity,
    compliance_weight: u16,
    asset_backing_weight: u16,
    economic_value_weight: u16,
    validator_participation_weight: u16,
) -> (r: Result<(), HaiError>)
    requires
        counts_consistent(*old(hai)),
    ensures
        match r {
            Ok(()) => {
                &&& caller == old(hai).admin
                &&& compliance_weight + asset_backing_weight + economic_value_weight
                    + validator_participation_weight == 10000
                &&& *final (hai) == (Hai {
                    current_score: hai_score(
                        (Hai {
                            compliance_weight,
                            asset_backing_weight,
                            economic_value_weight,
                            validator_participation_weight,
                            ..*old(hai)
                        }),
                    ) as u16,
                    compliance_weight,
                    asset_backing_weight,
                    economic_value_weight,
                    validator_participation_weight,
                    ..*old(hai)
                })
                &&& weights_sum(*final (hai)) == 10000
                &&& old(hai).current_score <= 10000 ==> final (hai).current_score <= 10000
            },
            Err(e) => {
                &&& *final (hai) == *old(hai)
                &&& (e == HaiError::Unauthorized <==> caller != old(hai).admin)
                &&& (e == HaiError::InvalidWeights <==> caller == old(hai).admin
                    && compliance_weight + asset_backing_weight + economic_value_weight
                    + validator_participation_weight != 10000)
                &&& (e == HaiError::MathOverflow <==> caller == old(hai).admin && compliance_weight
                    + asset_backing_weight + economic_value_weight + validator_participation_weight
                    == 10000 && score_mul_overflows(*old(hai)))
            },
        },
        counts_consistent(*final (hai)),
{
    if !(caller == hai.admin) {
        return Err(HaiError::Unauthorized);
    }
    let total_weight = (compliance_weight as u32) + (asset_backing_weight as u32)
        + (economic_value_weight as u32) + (validator_participation_weight as u32);
    if total_weight != 10000 {
        return Err(HaiError::InvalidWeights);
    }
    let mut candidate = *hai;
    candidate.compliance_weight = compliance_weight;
    candidate.asset_backing_weight = asset_backing_weight;
    candidate.economic_value_weight = economic_value_weight;
    candidate.validator_participation_weight = validator_participation_weight;
    let score = match calculate_hai_score(&candidate) {
        Ok(s) => s,
        Err(e) => { return Err(e) },
    };
    proof {
        lemma_hai_score_bounded(candidate);
    }
    candidate.current_score = score;
    *hai = candidate;
    Ok(())
}

/// Create an authorization record for `updater`. Admin only.
pub fn authorize_updater(hai: &Hai, caller: Identity, updater: Identity) -> (r: Result<
    Updater,
    HaiError,
>)
    ensures
        match r {
            Ok(u) => {
                &&& caller == hai.admin
                &&& u == (Updater { updater, is_authorized: true })
            },
            Err(e) => {
                &&& e == HaiError::Unauthorized
                &&& caller != hai.admin
            },
        },
        r is Ok <==> caller == hai.admin,
{
    if !(caller == hai.admin) {
        return Err(HaiError::Unauthorized);
    }
    Ok(Updater { updater, is_authorized: true })
}

/// Revoke an updater's authorization. Admin only.
pub fn revoke_updater(hai: &Hai, updater_account: &mut Updater, caller: Identity) -> (r: Result<
    (),
    HaiError,
>)
    ensures
        match r {
            Ok(()) => {
                &&& caller == hai.admin
                &&& *final (updater_account) == (Updater {
                    is_authorized: false,
                    ..*old(updater_account)
                })
            },
            Err(e) => {
                &&& *final (updater_account) == *old(updater_account)
                &&& e == HaiError::Unauthorized
                &&& caller != hai.admin
            },
        },
        r is Ok <==> caller == hai.admin,
{
    if !(caller == hai.admin) {
        return Err(HaiError::Unauthorized);
    }
    updater_account.is_authorized = false;
    Ok(())
}

/// The score after applying a signed basis-point delta, clamped to
/// `[0, 10000]`.
pub open spec fn clamped_delta_score(score: u16, delta: int) -> int {
    if score + delta < 0 {
        0
    } else if score + delta > 10000 {
        10000
    } else {
        score + delta
    }
}

/// Apply a real-time signed adjustment to the composite score, saturating
/// at the range bounds.
pub fn update_hai_realtime(hai: &mut Hai, compliance_delta: i16)
    ensures
        *final (hai) == (Hai {
            current_score: clamped_delta_score(
                old(hai).current_score,
                compliance_delta as int,
            ) as u16,
            ..*old(hai)
        }),
        final (hai).current_score <= 10000,
{
    let adjusted: i32 = hai.current_score as i32 + compliance_delta as i32;
    let new_score: u16 = if adjusted < 0 {
        0
    } else if adjusted > 10000 {
        10000
    } else {
        adjusted as u16
    };
    hai.current_score = new_score;
}

/// How many sources the oracle's value samples: one to three, and never
/// more than there are.
pub open spec fn selection_count(sources: Seq<u8>, randomness: u64) -> int {
    let n = (randomness as int) % 3 + 1;
    if n <= sources.len() {
        n
    } else {
        sources.len() as int
    }
}

/// The distinct sources picked by the first `k` draws: draw `i` picks
/// index `(randomness + i) mod len`, skipping values already picked.
pub open spec fn select_prefix(sources: Seq<u8>, randomness: u64, k: int) -> Seq<u8>
    decreases k,
{
    if k <= 0 {
        Seq::empty()
    } else {
        let prev = select_prefix(sources, randomness, k - 1);
        let picked = sources[(randomness + (k - 1)) % (sources.len() as int)];
        if prev.contains(picked) {
            prev
        } else {
            prev.push(picked)
        }
    }
}

/// The sample the oracle's value selects from `sources`.
pub open spec fn selected_sources(sources: Seq<u8>, randomness: u64) -> Seq<u8> {
    if sources.len() == 0 {
        Seq::empty()
    } else {
        select_prefix(sources, randomness, selection_count(sources, randomness))
    }
}

/// Sample a deterministic subset of data sources from the randomness
/// oracle's value: `(randomness mod 3) + 1` draws, draw `i` at index
/// `(randomness + i) mod len`, duplicates skipped.
pub fn select_data_sources_with_randomness(sources: Vec<u8>, randomness: u64) -> (r: Vec<u8>)
    requires
        randomness + 2 <= u64::MAX,
    ensures
        r@ == selected_sources(sources@, randomness),
        r@.len() <= 3,
{
    if sources.len() == 0 {
        return Vec::new();
    }
    let draw_count_raw = randomness % 3 + 1;
    let draw_count: usize = if (draw_count_raw as usize) < sources.len() {
        draw_count_raw as usize
    } else {
        sources.len()
    };
    let mut selected: Vec<u8> = Vec::new();
    let mut i: usize = 0;
    while i < draw_count
        invariant
            i <= draw_count,
            draw_count == selection_count(sources@, randomness),
            draw_count <= 3,
            sources@.len() > 0,
            randomness + 2 <= u64::MAX,
            selected@ == select_prefix(sources@, randomness, i as int),
            selected@.len() <= i,
        decreases draw_count - i,
    {
        let index: usize = ((randomness + i as u64) % (sources.len() as u64)) as usize;
        let picked = sources[index];
        let mut already_selected = false;
        let mut j: usize = 0;
        while j < selected.len()
            invariant
                j <= selected@.len(),
                already_selected <==> exists|k: int| 0 <= k < j && selected@[k] == picked,
            decreases selected@.len() - j,
        {
            if selected[j] == picked {
                already_selected = true;
            }
            j = j + 1;
        }
        proof {
            assert(already_selected <==> selected@.contains(picked));
        }
        if !already_selected {
            selected.push(picked);
        }
        i = i + 1;
    }
    selected
}

/// The composite score boosted by a flat 50-basis-point bonus per sampled
/// source, clamped to 10000; with no sources it is the counter-based score
/// alone.
pub open spec fn with_sources_score(h: Hai, sources: Seq<u8>) -> int {
    if sources.len() == 0 {
        hai_score(h)
    } else {
        let boosted = hai_score(h) + sources.len() * 50;
        if boosted > 10000 {
            10000
        } else {
            boosted
        }
    }
}

/// Recompute the composite score with a flat bonus for each sampled data
/// source on top. The bonus path is auxiliary: the counter-based score is
/// computed first and never replaced.
pub fn calculate_hai_score_with_sources(hai: &Hai, sources: &Vec<u8>) -> (r: Result<u16, HaiError>)
    requires
        counts_consistent(*hai),
        hai.current_score <= 10000,
        sources@.len() <= 3,
    ensures
        r matches Ok(s) ==> s == with_sources_score(*hai, sources@) && s <= 10000,
        r is Ok <==> !score_mul_overflows(*hai),
        r matches Err(e) ==> e == HaiError::MathOverflow,
{
    let base_score = match calculate_hai_score(hai) {
        Ok(s) => s,
        Err(e) => { return Err(e) },
    };
    proof {
        lemma_hai_score_bounded(*hai);
    }
    if sources.len() == 0 {
        return Ok(base_score);
    }
    let source_modifier: u16 = (sources.len() as u16) * 50;
    let boosted = base_score + source_modifier;
    if boosted > 10000 {
        Ok(10000)
    } else {
        Ok(boosted)
    }
}

/// Update the composite score along the randomized source-sampling path:
/// sample a subset of `data_sources` from the oracle's value and apply the
/// per-source bonus on top of the counter-based score.
pub fn update_hai_score_with_vrf(hai: &mut Hai, data_sources: Vec<u8>, randomness: u64) -> (r:
    Result<(), HaiError>)
    requires
        counts_consistent(*old(hai)),
        old(hai).current_score <= 10000,
        randomness + 2 <= u64::MAX,
    ensures
        match r {
            Ok(()) => {
                &&& *final (hai) == (Hai {
                    current_score: with_sources_score(
                        *old(hai),
                        selected_sources(data_sources@, randomness),
                    ) as u16,
                    ..*old(hai)
                })
                &&& final (hai).current_score <= 10000
            },
            Err(e) => {
                &&& *final (hai) == *old(hai)
                &&& e == HaiError::MathOverflow
            },
        },
        r is Ok <==> !score_mul_overflows(*old(hai)),
{
    let selected = select_data_sources_with_randomness(data_sources, randomness);
    let new_score = match calculate_hai_score_with_sources(hai, &selected) {
        Ok(s) => s,
        Err(e) => { return Err(e) },
    };
    hai.current_score = new_score;
    Ok(())
}

/// One successful score-changing operation, abstracted to its inputs:
/// tracking an activity's signals, replacing the weights, a real-time
/// delta, or a randomized source-sampling update. An operation that fails
/// leaves the state unchanged (the functions' contracts say so), so a
/// reachable state is always the result of a sequence of these.
pub enum ScoreOp {
    Track { is_compliant: bool, is_asset_backed: bool, has_real_economic_value: bool },
    UpdateWeights { compliance: u16, asset_backing: u16, economic_value: u16, validator: u16 },
    Realtime { delta: i16 },
    Vrf { sources: Seq<u8>, randomness: u64 },
}

/// The scoring state after one successful operation, exactly as the
/// corresponding executable function's contract states it.
pub open spec fn score_step(h: Hai, op: ScoreOp) -> Hai {
    match op {
        ScoreOp::Track { is_compliant, is_asset_backed, has_real_economic_value } => {
            let counted = tracked_counters(h, is_compliant, is_asset_backed, has_real_economic_value);
            Hai { current_score: hai_score(counted) as u16, ..counted }
        },
        ScoreOp::UpdateWeights { compliance, asset_backing, economic_value, validator } => {
            if compliance + asset_backing + economic_value + validator == 10000 {
                let reweighted = Hai {
                    compliance_weight: compliance,
                    asset_backing_weight: asset_backing,
                    economic_value_weight: economic_value,
                    validator_participation_weight: validator,
                    ..h
                };
                Hai { current_score: hai_score(reweighted) as u16, ..reweighted }
            } else {
                h
            }
        },
        ScoreOp::Realtime { delta } => Hai {
            current_score: clamped_delta_score(h.current_score, delta as int) as u16,
            ..h
        },
        ScoreOp::Vrf { sources, randomness } => Hai {
            current_score: with_sources_score(h, selected_sources(sources, randomness)) as u16,
            ..h
        },
    }
}

/// The scoring state after running `ops` in order from `h`.
pub open spec fn score_run(h: Hai, ops: Seq<ScoreOp>) -> Hai
    decreases ops.len(),
{
    if ops.len() == 0 {
        h
    } else {
        score_step(score_run(h, ops.drop_last()), ops.last())
    }
}

proof fn lemma_score_step_bounded(h: Hai, op: ScoreOp)
    requires
        h.current_score <= 10000,
    ensures
        score_step(h, op).current_score <= 10000,
{
    match op {
        ScoreOp::Track { is_compliant, is_asset_backed, has_real_economic_value } => {
            let counted = tracked_counters(h, is_compliant, is_asset_backed, has_real_economic_value);
            lemma_hai_score_in_range(counted);
        },
        ScoreOp::UpdateWeights { compliance, asset_backing, economic_value, validator } => {
            let reweighted = Hai {
                compliance_weight: compliance,
                asset_backing_weight: asset_backing,
                economic_value_weight: economic_value,
                validator_participation_weight: validator,
                ..h
            };
            lemma_hai_score_in_range(reweighted);
        },
        ScoreOp::Realtime { delta } => {},
        ScoreOp::Vrf { sources, randomness } => {
            lemma_hai_score_in_range(h);
        },
    }
}

/// Score bounds: starting from any state whose score is in range — as
/// every freshly initialized state is — every state the scoring
/// operations can reach keeps `0 <= current_score <= 10000`.
pub proof fn lemma_score_bounds(h: Hai, ops: Seq<ScoreOp>)
    requires
        h.current_score <= 10000,
    ensures
        score_run(h, ops).current_score <= 10000,
    decreases ops.len(),
{
    if ops.len() > 0 {
        lemma_score_bounds(h, ops.drop_last());
        lemma_score_step_bounded(score_run(h, ops.drop_last()), ops.last());
    }
}

} // verus!
