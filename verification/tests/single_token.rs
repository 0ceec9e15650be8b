//! Tests of the single-slot reward workflow: registration, approval,
//! claim settlement and the notifications each step records.

use asset_reward::ledger::Ledger;
use asset_reward::single_token::ContributionApproval;
use asset_reward::single_token::IdentityRegistered;
use asset_reward::single_token::RewardClaimed;
use asset_reward::single_token::RewardEvent;
use asset_reward::single_token::SingleToken;
use asset_reward::types::AccountId;
use asset_reward::types::Balance;
use asset_reward::types::Contribution;
use asset_reward::workflow::OwnableError;
use asset_reward::workflow::WorkflowError;

/// Accounts
/// ALICE -> contract owner
/// BOB -> contributor
const ALICE: AccountId = [0x01; 32];
const BOB: AccountId = [0x02; 32];
const EVE: AccountId = [0x05; 32];
const CONTRACT: AccountId = [0xEE; 32];

/// Creates a new contract owned by ALICE, alongside a ledger in which the
/// contract holds `initial_balance`.
fn create_contract(initial_balance: Balance, reward: Balance) -> (SingleToken, Ledger) {
    let mut ledger = Ledger::new();
    ledger.set_balance(CONTRACT, initial_balance);
    (SingleToken::new(CONTRACT, ALICE, [0; 32], reward), ledger)
}

#[test]
fn new_works() {
    let (contract, _ledger) = create_contract(1u128, 1u128);
    assert_eq!(contract.get_workflow(), [0; 32]);
    assert_eq!(contract.get_reward(), 1u128);
    assert_eq!(contract.get_contribution(), None);
}

#[test]
fn register_identity_works() {
    let (mut contract, _ledger) = create_contract(1u128, 1u128);
    let bob_identity = SingleToken::hash("bobby".as_bytes());
    assert_eq!(contract.register_identity(BOB, bob_identity), Ok(()));

    let emitted_events = contract.recorded_events();
    assert_eq!(1, emitted_events.len());
    if let RewardEvent::IdentityRegistered(IdentityRegistered { identity, caller }) =
        emitted_events[0]
    {
        assert_eq!(identity, bob_identity);
        assert_eq!(caller, BOB);
    } else {
        panic!("encountered unexpected event kind: expected a IdentityRegistered event")
    }

    let maybe_account = contract.get_account(bob_identity);
    assert_eq!(maybe_account, Some(BOB));
}

#[test]
fn already_registered_identity_fails() {
    let (mut contract, _ledger) = create_contract(1u128, 1u128);
    let identity = SingleToken::hash("bobby".as_bytes());
    let _ = contract.register_identity(BOB, identity);
    assert_eq!(
        contract.register_identity(BOB, identity),
        Err(WorkflowError::IdentityAlreadyRegistered)
    );
}

#[test]
fn approve_works() {
    let (mut contract, _ledger) = create_contract(1u128, 1u128);
    let identity = SingleToken::hash("bobby".as_bytes());
    let _ = contract.register_identity(BOB, identity);

    let contribution_id = 1u64;
    assert_eq!(contract.approve(ALICE, contribution_id, identity), Ok(()));

    let emitted_events = contract.recorded_events();
    assert_eq!(2, emitted_events.len());
    if let RewardEvent::ContributionApproval(ContributionApproval { id, contributor }) =
        emitted_events[1]
    {
        assert_eq!(id, contribution_id);
        assert_eq!(contributor, BOB);
    } else {
        panic!("encountered unexpected event kind: expected a ContributionApproval event")
    }

    let maybe_contribution = contract.get_contribution();
    assert_eq!(
        maybe_contribution,
        Some(Contribution {
            id: contribution_id,
            contributor: BOB,
            is_reward_claimed: false
        })
    );
}

#[test]
fn only_contract_owner_can_approve() {
    let (mut contract, _ledger) = create_contract(1u128, 1u128);
    let identity = SingleToken::hash("bobby".as_bytes());
    let _ = contract.register_identity(BOB, identity);

    let contribution_id = 1u64;
    assert_eq!(
        contract.approve(BOB, contribution_id, identity),
        Err(WorkflowError::OwnableError(OwnableError::CallerIsNotOwner))
    );
}

#[test]
fn already_approved_contribution_fails() {
    let (mut contract, _ledger) = create_contract(1u128, 1u128);
    let identity = SingleToken::hash("bobby".as_bytes());
    let identity2 = SingleToken::hash("bobby2".as_bytes());
    let _ = contract.register_identity(BOB, identity);

    let contribution_id = 1u64;
    let _ = contract.approve(ALICE, contribution_id, identity);

    assert_eq!(
        contract.approve(ALICE, contribution_id, identity2),
        Err(WorkflowError::ContributionAlreadyApproved)
    );
}

#[test]
fn approve_unknown_contributor_identity_fails() {
    let (mut contract, _ledger) = create_contract(1u128, 1u128);
    let identity = SingleToken::hash("bobby".as_bytes());
    let identity2 = SingleToken::hash("bobby2".as_bytes());
    let _ = contract.register_identity(BOB, identity);

    let contribution_id = 1u64;
    assert_eq!(
        contract.approve(ALICE, contribution_id, identity2),
        Err(WorkflowError::UnknownContributor)
    );
}

#[test]
fn can_claim_works() {
    let (mut contract, _ledger) = create_contract(1u128, 1u128);
    let identity = SingleToken::hash("bobby".as_bytes());
    let _ = contract.register_identity(BOB, identity);

    let contribution_id = 1u64;
    let _ = contract.approve(ALICE, contribution_id, identity);

    assert_eq!(contract.can_claim(BOB, contribution_id), Ok(true));
}

#[test]
fn claim_works() {
    let single_reward = 1u128;
    let (mut contract, mut ledger) = create_contract(1u128, single_reward);
    let identity = SingleToken::hash("bobby".as_bytes());
    let _ = contract.register_identity(BOB, identity);

    let issue_id = 1u64;
    let _ = contract.approve(ALICE, issue_id, identity);

    let bob_initial_balance = ledger.get_balance(&BOB);
    assert_eq!(contract.claim(BOB, issue_id, &mut ledger), Ok(()));
    assert_eq!(
        ledger.get_balance(&BOB),
        bob_initial_balance + contract.get_reward()
    );

    let maybe_contribution = contract.get_contribution();
    assert_eq!(
        maybe_contribution,
        Some(Contribution {
            id: issue_id,
            contributor: BOB,
            is_reward_claimed: true
        })
    );

    let emitted_events = contract.recorded_events();
    assert_eq!(3, emitted_events.len());
    if let RewardEvent::RewardClaimed(RewardClaimed {
        contribution_id,
        contributor,
        reward,
    }) = emitted_events[2]
    {
        assert_eq!(contribution_id, issue_id);
        assert_eq!(contributor, BOB);
        assert_eq!(reward, single_reward);
    } else {
        panic!("encountered unexpected event kind: expected a RewardClaimed event")
    }
}

#[test]
fn cannot_claim_non_approved_contribution() {
    let (contract, _ledger) = create_contract(1u128, 1u128);

    let contribution_id = 1u64;
    assert_eq!(
        contract.can_claim(BOB, contribution_id),
        Err(WorkflowError::NoContributionApprovedYet)
    );
}

#[test]
fn cannot_claim_unknown_contribution() {
    let (mut contract, _ledger) = create_contract(1u128, 1u128);
    let identity = SingleToken::hash("bobby".as_bytes());
    let _ = contract.register_identity(BOB, identity);

    let contribution_id = 1u64;
    let _ = contract.approve(ALICE, contribution_id, identity);

    assert_eq!(
        contract.can_claim(BOB, 2u64),
        Err(WorkflowError::UnknownContribution)
    );
}

#[test]
fn cannot_claim_if_not_contributor() {
    let (mut contract, _ledger) = create_contract(1u128, 1u128);
    let identity = SingleToken::hash("bobby".as_bytes());
    let _ = contract.register_identity(EVE, identity);

    let contribution_id = 1u64;
    let _ = contract.approve(ALICE, contribution_id, identity);

    assert_eq!(
        contract.can_claim(BOB, contribution_id),
        Err(WorkflowError::CallerIsNotContributor)
    );
}

#[test]
fn cannot_claim_already_claimed_reward() {
    let (mut contract, mut ledger) = create_contract(1u128, 1u128);
    let identity = SingleToken::hash("bobby".as_bytes());
    let _ = contract.register_identity(BOB, identity);

    let contribution_id = 1u64;
    let _ = contract.approve(ALICE, contribution_id, identity);

    let _ = contract.claim(BOB, contribution_id, &mut ledger);
    assert_eq!(
        contract.can_claim(BOB, contribution_id),
        Err(WorkflowError::AlreadyClaimed)
    );
}
