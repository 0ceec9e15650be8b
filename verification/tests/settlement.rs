//! End-to-end settlement scenarios on the single-slot workflow, payment
//! atomicity, and the digest helper against a known vector.

use asset_reward::ledger::Ledger;
use asset_reward::ledger::TransferError;
use asset_reward::single_token::SingleToken;
use asset_reward::types::AccountId;
use asset_reward::workflow::OwnableError;
use asset_reward::workflow::Workflow;
use asset_reward::workflow::WorkflowError;

const OWNER: AccountId = [0x01; 32];
const BOB: AccountId = [0x02; 32];
const EVE: AccountId = [0x05; 32];
const CONTRACT: AccountId = [0xEE; 32];

#[test]
fn end_to_end_claim_pays_once() {
    let mut ledger = Ledger::new();
    ledger.set_balance(CONTRACT, 50u128);
    let mut contract = SingleToken::new(CONTRACT, OWNER, [7; 32], 10u128);

    let bob_identity = SingleToken::hash("bob".as_bytes());
    assert_eq!(contract.register_identity(BOB, bob_identity), Ok(()));
    assert_eq!(contract.approve(OWNER, 1u64, bob_identity), Ok(()));

    let before = ledger.get_balance(&BOB);
    assert_eq!(contract.claim(BOB, 1u64, &mut ledger), Ok(()));
    assert_eq!(ledger.get_balance(&BOB), before + 10u128);
    assert_eq!(ledger.get_balance(&CONTRACT), 40u128);

    assert_eq!(contract.can_claim(BOB, 1u64), Err(WorkflowError::AlreadyClaimed));
    assert_eq!(
        contract.claim(BOB, 1u64, &mut ledger),
        Err(WorkflowError::AlreadyClaimed)
    );
    // the refused retry moved no value
    assert_eq!(ledger.get_balance(&BOB), before + 10u128);
}

#[test]
fn claim_before_any_approval_fails() {
    let mut ledger = Ledger::new();
    ledger.set_balance(CONTRACT, 50u128);
    let mut contract = SingleToken::new(CONTRACT, OWNER, [7; 32], 10u128);

    assert_eq!(
        contract.claim(BOB, 1u64, &mut ledger),
        Err(WorkflowError::NoContributionApprovedYet)
    );
}

#[test]
fn approval_for_unregistered_identity_stores_nothing() {
    let mut contract = SingleToken::new(CONTRACT, OWNER, [7; 32], 10u128);
    let eve_identity = SingleToken::hash("eve".as_bytes());

    assert_eq!(
        contract.approve(OWNER, 1u64, eve_identity),
        Err(WorkflowError::UnknownContributor)
    );
    assert_eq!(contract.get_contribution(), None);
}

#[test]
fn non_owner_approval_changes_nothing() {
    let mut contract = SingleToken::new(CONTRACT, OWNER, [7; 32], 10u128);
    let bob_identity = SingleToken::hash("bob".as_bytes());
    assert_eq!(contract.register_identity(BOB, bob_identity), Ok(()));

    assert_eq!(
        contract.approve(EVE, 1u64, bob_identity),
        Err(WorkflowError::OwnableError(OwnableError::CallerIsNotOwner))
    );
    assert_eq!(contract.get_contribution(), None);
    assert_eq!(contract.get_account(bob_identity), Some(BOB));
    assert_eq!(contract.recorded_events().len(), 1);
}

#[test]
fn failed_payment_leaves_claim_open() {
    let mut ledger = Ledger::new();
    // the contract holds less than one reward
    ledger.set_balance(CONTRACT, 3u128);
    let mut contract = SingleToken::new(CONTRACT, OWNER, [7; 32], 10u128);

    let bob_identity = SingleToken::hash("bob".as_bytes());
    let _ = contract.register_identity(BOB, bob_identity);
    let _ = contract.approve(OWNER, 1u64, bob_identity);
    let events_before = contract.recorded_events().len();

    assert_eq!(
        contract.claim(BOB, 1u64, &mut ledger),
        Err(WorkflowError::PaymentFailed)
    );
    // claimed stays false, no notification was recorded, no value moved
    assert!(!contract.get_contribution().unwrap().is_reward_claimed);
    assert_eq!(contract.recorded_events().len(), events_before);
    assert_eq!(ledger.get_balance(&BOB), 0u128);
    assert_eq!(ledger.get_balance(&CONTRACT), 3u128);

    // once the contract is funded, a retry succeeds exactly once
    ledger.set_balance(CONTRACT, 10u128);
    assert_eq!(contract.claim(BOB, 1u64, &mut ledger), Ok(()));
    assert!(contract.get_contribution().unwrap().is_reward_claimed);
    assert_eq!(ledger.get_balance(&BOB), 10u128);
    assert_eq!(
        contract.claim(BOB, 1u64, &mut ledger),
        Err(WorkflowError::AlreadyClaimed)
    );
    assert_eq!(ledger.get_balance(&BOB), 10u128);
}

#[test]
fn single_slot_is_not_recycled_after_claim() {
    let mut ledger = Ledger::new();
    ledger.set_balance(CONTRACT, 50u128);
    let mut contract = SingleToken::new(CONTRACT, OWNER, [7; 32], 10u128);

    let bob_identity = SingleToken::hash("bob".as_bytes());
    let eve_identity = SingleToken::hash("eve".as_bytes());
    let _ = contract.register_identity(BOB, bob_identity);
    let _ = contract.register_identity(EVE, eve_identity);
    let _ = contract.approve(OWNER, 1u64, bob_identity);
    let _ = contract.claim(BOB, 1u64, &mut ledger);

    // even a claimed slot refuses the next approval
    assert_eq!(
        contract.approve(OWNER, 2u64, eve_identity),
        Err(WorkflowError::ContributionAlreadyApproved)
    );
}

#[test]
fn ownership_transfer_is_immediate() {
    let mut contract = SingleToken::new(CONTRACT, OWNER, [7; 32], 10u128);
    let bob_identity = SingleToken::hash("bob".as_bytes());
    let _ = contract.register_identity(BOB, bob_identity);

    assert_eq!(
        contract.transfer_ownership(EVE, EVE),
        Err(OwnableError::CallerIsNotOwner)
    );
    assert_eq!(contract.get_owner(), OWNER);
    assert_eq!(contract.transfer_ownership(OWNER, EVE), Ok(()));
    assert_eq!(contract.get_owner(), EVE);
    assert_eq!(
        contract.approve(OWNER, 1u64, bob_identity),
        Err(WorkflowError::OwnableError(OwnableError::CallerIsNotOwner))
    );
    assert_eq!(contract.approve(EVE, 1u64, bob_identity), Ok(()));
}

#[test]
fn workflow_trait_drives_the_flow() {
    let mut ledger = Ledger::new();
    ledger.set_balance(CONTRACT, 50u128);
    let mut contract = SingleToken::new(CONTRACT, OWNER, [7; 32], 10u128);
    let bob_identity = SingleToken::hash("bob".as_bytes());

    assert_eq!(
        Workflow::register_identity(&mut contract, BOB, bob_identity),
        Ok(())
    );
    assert_eq!(Workflow::approve(&mut contract, OWNER, 1u64, bob_identity), Ok(()));
    assert_eq!(Workflow::can_claim(&contract, BOB, 1u64), Ok(true));
    assert_eq!(Workflow::claim(&mut contract, BOB, 1u64, &mut ledger), Ok(()));
    assert_eq!(
        Workflow::can_claim(&contract, BOB, 1u64),
        Err(WorkflowError::AlreadyClaimed)
    );
    assert_eq!(ledger.get_balance(&BOB), 10u128);
}

#[test]
fn hash_matches_known_digest() {
    // SHA-256 of "abc"
    let expected: [u8; 32] = [
        0xba, 0x78, 0x16, 0xbf, 0x8f, 0x01, 0xcf, 0xea, 0x41, 0x41, 0x40, 0xde, 0x5d, 0xae, 0x22,
        0x23, 0xb0, 0x03, 0x61, 0xa3, 0x96, 0x17, 0x7a, 0x9c, 0xb4, 0x10, 0xff, 0x61, 0xf2, 0x00,
        0x15, 0xad,
    ];
    assert_eq!(SingleToken::hash("abc".as_bytes()), expected);
    assert_ne!(SingleToken::hash("abd".as_bytes()), expected);
}

#[test]
fn transfer_moves_value_or_nothing() {
    let mut ledger = Ledger::new();
    ledger.set_balance(OWNER, 30u128);

    assert_eq!(ledger.transfer(&OWNER, &BOB, 20u128), Ok(()));
    assert_eq!(ledger.get_balance(&OWNER), 10u128);
    assert_eq!(ledger.get_balance(&BOB), 20u128);

    assert_eq!(
        ledger.transfer(&OWNER, &BOB, 11u128),
        Err(TransferError::InsufficientBalance)
    );
    assert_eq!(ledger.get_balance(&OWNER), 10u128);
    assert_eq!(ledger.get_balance(&BOB), 20u128);

    ledger.set_balance(BOB, u128::MAX);
    assert_eq!(
        ledger.transfer(&OWNER, &BOB, 1u128),
        Err(TransferError::BalanceOverflow)
    );
    assert_eq!(ledger.get_balance(&OWNER), 10u128);

    // a transfer to oneself changes nothing
    assert_eq!(ledger.transfer(&OWNER, &OWNER, 10u128), Ok(()));
    assert_eq!(ledger.get_balance(&OWNER), 10u128);
}
