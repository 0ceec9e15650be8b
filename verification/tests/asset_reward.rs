//! Tests of the registry-backed reward workflow: keyed contributions,
//! independent claims, and the run attestation verifier.

use asset_reward::asset_reward::AssetReward;
use asset_reward::asset_reward::Error;
use asset_reward::ledger::Ledger;
use asset_reward::types::AccountId;
use asset_reward::types::Balance;
use asset_reward::types::PublicKey;
use asset_reward::workflow::OwnableError;

use secp256k1::ecdsa::RecoverableSignature;
use secp256k1::Message;
use secp256k1::Secp256k1;
use secp256k1::SecretKey;

const ALICE: AccountId = [0x01; 32];
const BOB: AccountId = [0x02; 32];
const CHARLIE: AccountId = [0x03; 32];
const CONTRACT: AccountId = [0xEE; 32];
const WORKFLOW: [u8; 32] = [0; 32];

const SIGNER_SECRET: [u8; 32] = [0x11; 32];
const OTHER_SECRET: [u8; 32] = [0x22; 32];

fn signer_public_key(secret: &[u8; 32]) -> PublicKey {
    let secp = Secp256k1::new();
    let sk = SecretKey::from_slice(secret).expect("secret key");
    sk.public_key(&secp).serialize()
}

/// Signs the run message the contract reconstructs for `run_id`, with the
/// given secret key, in the detached 65-byte form the verifier takes.
fn sign_run(secret: &[u8; 32], workflow: &[u8; 32], run_id: u64) -> [u8; 65] {
    let mut message_bytes = Vec::new();
    message_bytes.extend_from_slice(workflow);
    message_bytes.extend_from_slice(&run_id.to_be_bytes());
    let digest = AssetReward::hash(&message_bytes);

    let secp = Secp256k1::new();
    let sk = SecretKey::from_slice(secret).expect("secret key");
    let message = Message::from_slice(&digest).expect("digest message");
    let recoverable: RecoverableSignature = secp.sign_ecdsa_recoverable(&message, &sk);
    let (recovery_id, compact) = recoverable.serialize_compact();

    let mut signature = [0u8; 65];
    signature[..64].copy_from_slice(&compact);
    signature[64] = recovery_id.to_i32() as u8;
    signature
}

/// Creates a new contract owned by ALICE that trusts the signer derived
/// from `SIGNER_SECRET`, alongside a ledger in which the contract holds
/// `initial_balance`.
fn create_contract(initial_balance: Balance, reward: Balance) -> (AssetReward, Ledger) {
    let mut ledger = Ledger::new();
    ledger.set_balance(CONTRACT, initial_balance);
    let trusted_signer = signer_public_key(&SIGNER_SECRET);
    (
        AssetReward::new(CONTRACT, ALICE, WORKFLOW, reward, trusted_signer),
        ledger,
    )
}

#[test]
fn asset_reward_new_works() {
    let (contract, _ledger) = create_contract(1u128, 1u128);
    assert_eq!(contract.get_reward(), 1u128);
}

#[test]
fn asset_reward_claim_works() {
    let (mut contract, mut ledger) = create_contract(10u128, 1u128);
    let contribution_id = 1u64;
    let identity = AssetReward::hash("bobby".as_bytes());
    assert_eq!(contract.register_identity(BOB, identity), Ok(()));
    assert_eq!(contract.approve(ALICE, contribution_id, identity), Ok(()));
    let bob_initial_balance = ledger.get_balance(&BOB);
    assert_eq!(contract.claim(BOB, contribution_id, &mut ledger), Ok(true));
    assert_eq!(
        ledger.get_balance(&BOB),
        bob_initial_balance + contract.get_reward()
    );
}

#[test]
fn registry_claims_are_independent() {
    let (mut contract, mut ledger) = create_contract(100u128, 10u128);
    let bob_identity = AssetReward::hash("bobby".as_bytes());
    let charlie_identity = AssetReward::hash("charlie".as_bytes());
    assert_eq!(contract.register_identity(BOB, bob_identity), Ok(()));
    assert_eq!(contract.register_identity(CHARLIE, charlie_identity), Ok(()));

    assert_eq!(contract.approve(ALICE, 1u64, bob_identity), Ok(()));
    assert_eq!(contract.approve(ALICE, 2u64, charlie_identity), Ok(()));

    assert_eq!(contract.claim(BOB, 1u64, &mut ledger), Ok(true));

    let second = contract.get_contribution(2u64).expect("second contribution");
    assert!(!second.is_reward_claimed);
    assert_eq!(contract.claim(CHARLIE, 2u64, &mut ledger), Ok(true));

    assert_eq!(contract.claim(BOB, 1u64, &mut ledger), Err(Error::AlreadyClaimed));
    assert_eq!(ledger.get_balance(&BOB), 10u128);
    assert_eq!(ledger.get_balance(&CHARLIE), 10u128);
    assert_eq!(ledger.get_balance(&CONTRACT), 80u128);
}

#[test]
fn registry_approval_is_exactly_once() {
    let (mut contract, _ledger) = create_contract(1u128, 1u128);
    let bob_identity = AssetReward::hash("bobby".as_bytes());
    let charlie_identity = AssetReward::hash("charlie".as_bytes());
    let _ = contract.register_identity(BOB, bob_identity);
    let _ = contract.register_identity(CHARLIE, charlie_identity);

    assert_eq!(contract.approve(ALICE, 1u64, bob_identity), Ok(()));
    assert_eq!(
        contract.approve(ALICE, 1u64, charlie_identity),
        Err(Error::ContributionAlreadyApproved)
    );
    // a different id is still free to approve
    assert_eq!(contract.approve(ALICE, 2u64, charlie_identity), Ok(()));
}

#[test]
fn registry_claim_of_unknown_contribution_fails() {
    let (mut contract, mut ledger) = create_contract(1u128, 1u128);
    assert_eq!(
        contract.claim(BOB, 1u64, &mut ledger),
        Err(Error::UnknownContribution)
    );
}

#[test]
fn verify_works_once() {
    let (mut contract, _ledger) = create_contract(1u128, 1u128);
    let run_id = 5u64;
    let signature = sign_run(&SIGNER_SECRET, &WORKFLOW, run_id);
    assert_eq!(contract.verify(ALICE, run_id, &signature), Ok(true));
}

#[test]
fn verify_rejects_replayed_run_id() {
    let (mut contract, _ledger) = create_contract(1u128, 1u128);
    let run_id = 5u64;
    let signature = sign_run(&SIGNER_SECRET, &WORKFLOW, run_id);
    assert_eq!(contract.verify(ALICE, run_id, &signature), Ok(true));
    // a second, otherwise-valid signature cannot consume the run id again
    assert_eq!(
        contract.verify(ALICE, run_id, &signature),
        Err(Error::RunIdAlreadyUsed)
    );
    // other run ids stay usable
    let other = sign_run(&SIGNER_SECRET, &WORKFLOW, 6u64);
    assert_eq!(contract.verify(ALICE, 6u64, &other), Ok(true));
}

#[test]
fn verify_rejects_untrusted_signer() {
    let (mut contract, _ledger) = create_contract(1u128, 1u128);
    let run_id = 5u64;
    let signature = sign_run(&OTHER_SECRET, &WORKFLOW, run_id);
    assert_eq!(
        contract.verify(ALICE, run_id, &signature),
        Err(Error::InvalidSigner)
    );
    // the run id was not consumed: a corrected call still succeeds once
    let corrected = sign_run(&SIGNER_SECRET, &WORKFLOW, run_id);
    assert_eq!(contract.verify(ALICE, run_id, &corrected), Ok(true));
}

#[test]
fn verify_rejects_signature_over_other_run() {
    let (mut contract, _ledger) = create_contract(1u128, 1u128);
    // a trusted-signer signature for run 8 does not attest run 9
    let signature = sign_run(&SIGNER_SECRET, &WORKFLOW, 8u64);
    assert_eq!(
        contract.verify(ALICE, 9u64, &signature),
        Err(Error::InvalidSigner)
    );
}

#[test]
fn verify_rejects_malformed_signature() {
    let (mut contract, _ledger) = create_contract(1u128, 1u128);
    // both scalars above the group order, recovery byte out of range
    let signature = [0xFFu8; 65];
    assert_eq!(
        contract.verify(ALICE, 5u64, &signature),
        Err(Error::InvalidSigner)
    );
}

#[test]
fn verify_requires_workflow_controller() {
    let (mut contract, _ledger) = create_contract(1u128, 1u128);
    let run_id = 5u64;
    let signature = sign_run(&SIGNER_SECRET, &WORKFLOW, run_id);
    assert_eq!(
        contract.verify(BOB, run_id, &signature),
        Err(Error::CallerIsNotWorkflowOwner)
    );
    // the refused call consumed nothing
    assert_eq!(contract.verify(ALICE, run_id, &signature), Ok(true));
}

#[test]
fn registry_register_is_write_once() {
    let (mut contract, _ledger) = create_contract(1u128, 1u128);
    let identity = AssetReward::hash("bobby".as_bytes());
    assert_eq!(contract.register_identity(BOB, identity), Ok(()));
    assert_eq!(
        contract.register_identity(CHARLIE, identity),
        Err(Error::IdentityAlreadyRegistered)
    );
    assert!(contract.identity_is_known(identity));
}

#[test]
fn registry_ownership_transfer_gates_approval() {
    let (mut contract, _ledger) = create_contract(1u128, 1u128);
    let identity = AssetReward::hash("bobby".as_bytes());
    let _ = contract.register_identity(BOB, identity);

    assert_eq!(
        contract.transfer_ownership(BOB, BOB),
        Err(OwnableError::CallerIsNotOwner)
    );
    assert_eq!(contract.transfer_ownership(ALICE, CHARLIE), Ok(()));
    assert_eq!(contract.get_owner(), CHARLIE);
    assert_eq!(
        contract.approve(ALICE, 1u64, identity),
        Err(Error::OwnableError(OwnableError::CallerIsNotOwner))
    );
    assert_eq!(contract.approve(CHARLIE, 1u64, identity), Ok(()));
}
