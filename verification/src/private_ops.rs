//! Privacy-preserving operation records.
//!
//! Sensitive deployments and score computations are stored as opaque
//! encrypted blobs accompanied by attestation or proof blobs. Verifying
//! those blobs cryptographically is an external collaborator's job; this
//! module performs the core's own gate — a proof supplied as all zeroes is
//! rejected outright — and keeps the records' bookkeeping exact.

use vstd::prelude::*;

use crate::errors::PrivateError;
use crate::identity::Identity;

verus! {

/// The singleton private-operations state.
#[derive(Clone, Copy, Debug)]
pub struct PrivateState {
    pub admin: Identity,
    /// Remains hidden; only its existence is tracked here.
    pub total_private_capital: u64,
    pub private_activities_count: u64,
}

/// One privately deployed activity: all sensitive figures encrypted.
#[derive(Clone, Copy, Debug)]
pub struct PrivateActivity {
    pub encrypted_amount: [u8; 32],
    pub activity_hash: [u8; 32],
    pub tee_attestation: [u8; 64],
    pub deployer: Identity,
    pub timestamp: i64,
    pub is_active: bool,
}

/// The privately computed composite score, stored encrypted.
#[derive(Clone, Copy, Debug)]
pub struct PrivateHai {
    pub encrypted_score: [u8; 32],
    pub tee_proof: [u8; 64],
    pub last_updated: i64,
}

/// Every byte of `s` is zero.
pub open spec fn all_zero(s: Seq<u8>) -> bool {
    forall|i: int| 0 <= i < s.len() ==> s[i] == 0
}

/// Whether `bytes` holds any nonzero byte.
fn has_nonzero_byte<const N: usize>(bytes: &[u8; N]) -> (r: bool)
    ensures
        r <==> !all_zero(bytes@),
{
    let mut i: usize = 0;
    while i < N
        invariant
            i <= N,
            forall|j: int| 0 <= j < i ==> bytes@[j] == 0,
        decreases N - i,
    {
        if bytes[i] != 0 {
            return true;
        }
        i = i + 1;
    }
    false
}

/// Set up the private-operations state under `admin`.
pub fn initialize_private(admin: Identity) -> (r: PrivateState)
    ensures
        r == (PrivateState { admin, total_private_capital: 0, private_activities_count: 0 }),
{
    PrivateState { admin, total_private_capital: 0, private_activities_count: 0 }
}

/// Record a private capital deployment: the amount stays encrypted, the
/// activity is known only by its hash, and a nonzero enclave attestation
/// is mandatory.
pub fn deploy_capital_private(
    private_state: &mut PrivateState,
    deployer: Identity,
    encrypted_amount: [u8; 32],
    activity_hash: [u8; 32],
    tee_attestation: [u8; 64],
    now: i64,
) -> (r: Result<PrivateActivity, PrivateError>)
    requires
        old(private_state).private_activities_count < u64::MAX,
    ensures
        match r {
            Ok(a) => {
                &&& !all_zero(tee_attestation@)
                &&& a == (PrivateActivity {
                    encrypted_amount,
                    activity_hash,
                    tee_attestation,
                    deployer,
                    timestamp: now,
                    is_active: true,
                })
                &&& *final (private_state) == (PrivateState {
                    private_activities_count: (old(private_state).private_activities_count
                        + 1) as u64,
                    ..*old(private_state)
                })
            },
            Err(e) => {
                &&& *final (private_state) == *old(private_state)
                &&& e == PrivateError::InvalidAttestation
                &&& all_zero(tee_attestation@)
            },
        },
        r is Ok <==> !all_zero(tee_attestation@),
{
    if !has_nonzero_byte(&tee_attestation) {
        return Err(PrivateError::InvalidAttestation);
    }
    let private_activity = PrivateActivity {
        encrypted_amount,
        activity_hash,
        tee_attestation,
        deployer,
        timestamp: now,
        is_active: true,
    };
    private_state.private_activities_count = private_state.private_activities_count + 1;
    Ok(private_activity)
}

/// Store a privately computed score: the first encrypted input carries the
/// enclave's result, and a nonzero enclave proof is mandatory.
pub fn calculate_private_hai(
    private_hai: &mut PrivateHai,
    encrypted_inputs: Vec<[u8; 32]>,
    tee_proof: [u8; 64],
    now: i64,
) -> (r: Result<(), PrivateError>)
    requires
        encrypted_inputs@.len() >= 1,
    ensures
        match r {
            Ok(()) => {
                &&& !all_zero(tee_proof@)
                &&& *final (private_hai) == (PrivateHai {
                    encrypted_score: encrypted_inputs@[0],
                    tee_proof,
                    last_updated: now,
                })
            },
            Err(e) => {
                &&& *final (private_hai) == *old(private_hai)
                &&& e == PrivateError::InvalidTeeProof
                &&& all_zero(tee_proof@)
            },
        },
        r is Ok <==> !all_zero(tee_proof@),
{
    if !has_nonzero_byte(&tee_proof) {
        return Err(PrivateError::InvalidTeeProof);
    }
    private_hai.encrypted_score = encrypted_inputs[0];
    private_hai.tee_proof = tee_proof;
    private_hai.last_updated = now;
    Ok(())
}

/// Gate a commit of the private state on a nonzero zero-knowledge proof of
/// correctness. The commit of the delegated state itself is the host's
/// transaction plumbing; the core only decides whether it may proceed.
pub fn commit_private_state(zk_proof: &[u8; 128]) -> (r: Result<(), PrivateError>)
    ensures
        r is Ok <==> !all_zero(zk_proof@),
        r matches Err(e) ==> e == PrivateError::InvalidZkProof,
{
    if !has_nonzero_byte(zk_proof) {
        return Err(PrivateError::InvalidZkProof);
    }
    Ok(())
}

/// Authorize the reveal of a private activity's data: a nonzero
/// authorization proof is mandatory, and the activity is identified by its
/// hash. Decryption itself happens outside the core; the key is only
/// carried through.
pub fn reveal_private_data(
    private_activity: &PrivateActivity,
    _authority: Identity,
    _decryption_key: [u8; 32],
    authorization_proof: [u8; 64],
) -> (r: Result<[u8; 32], PrivateError>)
    ensures
        match r {
            Ok(h) => {
                &&& !all_zero(authorization_proof@)
                &&& h == private_activity.activity_hash
            },
            Err(e) => {
                &&& e == PrivateError::UnauthorizedReveal
                &&& all_zero(authorization_proof@)
            },
        },
        r is Ok <==> !all_zero(authorization_proof@),
{
    if !has_nonzero_byte(&authorization_proof) {
        return Err(PrivateError::UnauthorizedReveal);
    }
    Ok(private_activity.activity_hash)
}

} // verus!
