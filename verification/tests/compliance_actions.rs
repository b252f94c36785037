use amana::compliance;
use amana::compliance::{BridgeState, ComplianceState, CrossChainSyncMessage, HaiState};
use amana::errors::ActionError;
use amana::identity::Identity;
use amana::reserve;
use amana::reserve::{Activity, ActivityStatus};

fn id(b: u8) -> Identity {
    Identity([b; 32])
}

const DAY: i64 = 86400;

fn completed_activity(
    capital_required: u64,
    capital_deployed: u64,
    outcome: i64,
    created_at: i64,
) -> Activity {
    Activity {
        activity_id: [7u8; 32],
        initiator: id(2),
        capital_required,
        capital_deployed,
        status: ActivityStatus::Completed,
        created_at,
        completed_at: created_at + 2 * DAY,
        outcome,
        is_validated: true,
    }
}

fn fresh_compliance_state() -> ComplianceState {
    ComplianceState {
        activity_id: [7u8; 32],
        is_compliant: false,
        requires_review: false,
        verified_at: 0,
        flagged_at: 0,
    }
}

#[test]
fn moderate_profit_after_two_days_is_compliant() {
    let a = completed_activity(600, 600, 120, 0);
    // margin 120 * 100 / 600 = 20 <= 50; duration two days >= one day.
    assert!(compliance::perform_compliance_check(&a, 2 * DAY));
}

#[test]
fn loss_beyond_the_deployment_is_flagged() {
    let a = completed_activity(600, 600, -700, 0);
    assert!(!compliance::perform_compliance_check(&a, 2 * DAY));
}

#[test]
fn loss_within_the_deployment_is_tolerated() {
    let a = completed_activity(600, 600, -600, 0);
    // A loss of exactly the deployment does not exceed it.
    assert!(compliance::perform_compliance_check(&a, 2 * DAY));
}

#[test]
fn profit_margin_boundary_is_fifty_percent() {
    let at_half = completed_activity(200, 200, 100, 0);
    assert!(compliance::perform_compliance_check(&at_half, 2 * DAY));
    // 101 * 100 / 200 still floors to 50; 102 crosses the margin.
    let just_over = completed_activity(200, 200, 101, 0);
    assert!(compliance::perform_compliance_check(&just_over, 2 * DAY));
    let over_half = completed_activity(200, 200, 102, 0);
    assert!(!compliance::perform_compliance_check(&over_half, 2 * DAY));
}

#[test]
fn short_holding_period_is_flagged() {
    let a = completed_activity(600, 600, 120, 0);
    assert!(!compliance::perform_compliance_check(&a, DAY - 1));
    assert!(compliance::perform_compliance_check(&a, DAY));
}

#[test]
fn verdicts_are_recorded_with_timestamps() {
    let good = completed_activity(600, 600, 120, 0);
    let mut state = fresh_compliance_state();
    compliance::check_compliance_action(&good, &mut state, 2 * DAY);
    assert!(state.is_compliant);
    assert!(!state.requires_review);
    assert_eq!(state.verified_at, 2 * DAY);
    assert_eq!(state.flagged_at, 0);

    let bad = completed_activity(600, 600, -700, 0);
    let mut state = fresh_compliance_state();
    compliance::check_compliance_action(&bad, &mut state, 2 * DAY);
    assert!(!state.is_compliant);
    assert!(state.requires_review);
    assert_eq!(state.flagged_at, 2 * DAY);
    assert_eq!(state.verified_at, 0);
}

#[test]
fn score_impact_of_each_outcome_shape() {
    let validated_profit = completed_activity(600, 600, 120, 0);
    assert_eq!(compliance::calculate_hai_impact(&validated_profit, 2 * DAY), 50);

    let mut unvalidated = completed_activity(600, 600, 120, 0);
    unvalidated.is_validated = false;
    assert_eq!(compliance::calculate_hai_impact(&unvalidated, 2 * DAY), 0);

    let loss = completed_activity(600, 600, -100, 0);
    assert_eq!(compliance::calculate_hai_impact(&loss, 2 * DAY), -25);

    let long_profit = completed_activity(600, 600, 120, 0);
    assert_eq!(compliance::calculate_hai_impact(&long_profit, 31 * DAY), 75);

    let long_loss = completed_activity(600, 600, -100, 0);
    assert_eq!(compliance::calculate_hai_impact(&long_loss, 31 * DAY), 0);

    let neutral = completed_activity(600, 600, 0, 0);
    assert_eq!(compliance::calculate_hai_impact(&neutral, 2 * DAY), 0);
}

#[test]
fn score_adjustment_saturates() {
    let loss = completed_activity(600, 600, -100, 0);
    let mut hs = HaiState { current_score: 10, last_updated: 0 };
    compliance::update_hai_action(&loss, &mut hs, 2 * DAY);
    assert_eq!(hs.current_score, 0);
    assert_eq!(hs.last_updated, 2 * DAY);

    let long_profit = completed_activity(600, 600, 120, 0);
    let mut hs = HaiState { current_score: 9990, last_updated: 0 };
    compliance::update_hai_action(&long_profit, &mut hs, 31 * DAY);
    assert_eq!(hs.current_score, 10000);
}

#[test]
fn profits_distribute_equally() {
    let a = completed_activity(600, 600, 100, 0);
    let mut pool = reserve::initialize(id(1), 0, 10);
    pool.total_capital = 400;
    pool.participant_count = 3;
    let per = compliance::distribute_profits_action(&a, &mut pool).unwrap();
    assert_eq!(per, 33);
    assert_eq!(pool.total_capital, 500);
}

#[test]
fn no_profit_nothing_to_distribute() {
    let a = completed_activity(600, 600, -100, 0);
    let mut pool = reserve::initialize(id(1), 0, 10);
    pool.total_capital = 400;
    pool.participant_count = 3;
    let r = compliance::distribute_profits_action(&a, &mut pool);
    assert_eq!(r.unwrap_err(), ActionError::NoProfit);
    assert_eq!(pool.total_capital, 400);
}

#[test]
fn sync_message_frame_is_exact() {
    let m = CrossChainSyncMessage {
        activity_id: [0xABu8; 32],
        capital_deployed: 0x0102030405060708,
        outcome: -2,
        timestamp: 3,
    };
    let bytes = compliance::encode_sync_message(&m);
    assert_eq!(bytes.len(), 56);
    assert_eq!(&bytes[0..32], &[0xABu8; 32]);
    assert_eq!(&bytes[32..40], &[0x08, 0x07, 0x06, 0x05, 0x04, 0x03, 0x02, 0x01]);
    // -2 in two's complement, little endian.
    assert_eq!(&bytes[40..48], &[0xFE, 0xFF, 0xFF, 0xFF, 0xFF, 0xFF, 0xFF, 0xFF]);
    assert_eq!(&bytes[48..56], &[0x03, 0, 0, 0, 0, 0, 0, 0]);
}

#[test]
fn sync_action_fills_the_outbox() {
    let a = completed_activity(600, 555, -42, 0);
    let mut bridge = BridgeState { pending_sync: false, sync_data: Vec::new(), last_sync_attempt: 0 };
    compliance::sync_cross_chain_action(&a, &mut bridge, 999);
    assert!(bridge.pending_sync);
    assert_eq!(bridge.last_sync_attempt, 999);
    let expected = compliance::encode_sync_message(&CrossChainSyncMessage {
        activity_id: a.activity_id,
        capital_deployed: 555,
        outcome: -42,
        timestamp: 999,
    });
    assert_eq!(bridge.sync_data, expected);
}
