use amana::errors::PrivateError;
use amana::identity::Identity;
use amana::private_ops;

fn id(b: u8) -> Identity {
    Identity([b; 32])
}

#[test]
fn private_deployment_records_and_counts() {
    let mut state = private_ops::initialize_private(id(1));
    assert_eq!(state.private_activities_count, 0);
    assert_eq!(state.total_private_capital, 0);

    let activity = private_ops::deploy_capital_private(
        &mut state,
        id(2),
        [0x11u8; 32],
        [0x22u8; 32],
        [0x33u8; 64],
        1234,
    )
    .unwrap();
    assert_eq!(state.private_activities_count, 1);
    assert_eq!(activity.encrypted_amount, [0x11u8; 32]);
    assert_eq!(activity.activity_hash, [0x22u8; 32]);
    assert_eq!(activity.deployer, id(2));
    assert_eq!(activity.timestamp, 1234);
    assert!(activity.is_active);
}

#[test]
fn zero_attestation_is_rejected() {
    let mut state = private_ops::initialize_private(id(1));
    let r = private_ops::deploy_capital_private(
        &mut state,
        id(2),
        [0x11u8; 32],
        [0x22u8; 32],
        [0u8; 64],
        1234,
    );
    assert_eq!(r.unwrap_err(), PrivateError::InvalidAttestation);
    assert_eq!(state.private_activities_count, 0);
}

#[test]
fn private_score_takes_the_first_input() {
    let mut hai = private_ops::PrivateHai {
        encrypted_score: [0u8; 32],
        tee_proof: [0u8; 64],
        last_updated: 0,
    };
    private_ops::calculate_private_hai(
        &mut hai,
        vec![[0x44u8; 32], [0x55u8; 32]],
        [0x66u8; 64],
        777,
    )
    .unwrap();
    assert_eq!(hai.encrypted_score, [0x44u8; 32]);
    assert_eq!(hai.tee_proof, [0x66u8; 64]);
    assert_eq!(hai.last_updated, 777);
}

#[test]
fn zero_enclave_proof_is_rejected() {
    let mut hai = private_ops::PrivateHai {
        encrypted_score: [9u8; 32],
        tee_proof: [9u8; 64],
        last_updated: 5,
    };
    let r = private_ops::calculate_private_hai(&mut hai, vec![[0x44u8; 32]], [0u8; 64], 777);
    assert_eq!(r.unwrap_err(), PrivateError::InvalidTeeProof);
    assert_eq!(hai.encrypted_score, [9u8; 32]);
    assert_eq!(hai.last_updated, 5);
}

#[test]
fn commit_gate_demands_a_nonzero_proof() {
    assert!(private_ops::commit_private_state(&[1u8; 128]).is_ok());
    let mut nearly_zero = [0u8; 128];
    nearly_zero[127] = 1;
    assert!(private_ops::commit_private_state(&nearly_zero).is_ok());
    let r = private_ops::commit_private_state(&[0u8; 128]);
    assert_eq!(r.unwrap_err(), PrivateError::InvalidZkProof);
}

#[test]
fn reveal_is_gated_on_the_authorization_proof() {
    let mut state = private_ops::initialize_private(id(1));
    let activity = private_ops::deploy_capital_private(
        &mut state,
        id(2),
        [0x11u8; 32],
        [0x22u8; 32],
        [0x33u8; 64],
        1234,
    )
    .unwrap();

    let hash =
        private_ops::reveal_private_data(&activity, id(5), [0u8; 32], [0x77u8; 64]).unwrap();
    assert_eq!(hash, [0x22u8; 32]);

    let r = private_ops::reveal_private_data(&activity, id(5), [0u8; 32], [0u8; 64]);
    assert_eq!(r.unwrap_err(), PrivateError::UnauthorizedReveal);
}
