//! The single-slot reward workflow: one pending contribution at a time.
//! Contributors register an identity, the owner approves one contribution
//! bound to a registered identity, and the contributor claims the reward,
//! which transfers value and marks the contribution claimed.

use vstd::prelude::*;

use crate::crypto::sha2_256;
use crate::crypto::sha2_256_digest;
use crate::identity::IdentityRegistry;
use crate::ledger::Ledger;
use crate::ledger::balance_in;
use crate::types::AccountId;
use crate::types::Balance;
use crate::types::Contribution;
use crate::types::HashValue;
use crate::types::bytes32_eq;
use crate::workflow::OwnableError;
use crate::workflow::WorkflowError;

verus! {

/// Recorded when an identity is registered by an aspiring contributor.
#[derive(Debug, Copy, Clone, PartialEq, Eq)]
pub struct IdentityRegistered {
    pub identity: HashValue,
    pub caller: AccountId,
}

/// Recorded when a contribution is approved.
#[derive(Debug, Copy, Clone, PartialEq, Eq)]
pub struct ContributionApproval {
    pub id: u64,
    pub contributor: AccountId,
}

/// Recorded when the reward of a contribution is claimed.
#[derive(Debug, Copy, Clone, PartialEq, Eq)]
pub struct RewardClaimed {
    pub contribution_id: u64,
    pub contributor: AccountId,
    pub reward: Balance,
}

/// A notification handed to the external event sink; never read back by
/// the workflow itself.
#[derive(Debug, Copy, Clone, PartialEq, Eq)]
pub enum RewardEvent {
    IdentityRegistered(IdentityRegistered),
    ContributionApproval(ContributionApproval),
    RewardClaimed(RewardClaimed),
}

/// The single-slot reward workflow contract.
pub struct SingleToken {
    owner: AccountId,
    workflow: HashValue,
    reward: Balance,
    contribution: Option<Contribution>,
    identities: IdentityRegistry,
    account: AccountId,
    events: Vec<RewardEvent>,
}

impl SingleToken {
    /// The current owner, the only principal allowed to approve.
    pub closed spec fn spec_owner(&self) -> AccountId {
        self.owner
    }

    /// The content hash of the workflow definition being trusted.
    pub closed spec fn spec_workflow(&self) -> HashValue {
        self.workflow
    }

    /// The reward amount every contribution pays.
    pub closed spec fn spec_reward(&self) -> Balance {
        self.reward
    }

    /// The approved contribution, if one is pending or claimed.
    pub closed spec fn spec_contribution(&self) -> Option<Contribution> {
        self.contribution
    }

    /// The identity registry's contents.
    pub closed spec fn spec_identities(&self) -> Map<Seq<u8>, Seq<u8>> {
        self.identities@
    }

    /// The contract's own account, from which rewards are paid.
    pub closed spec fn spec_account(&self) -> AccountId {
        self.account
    }

    /// The notifications recorded so far, oldest first.
    pub closed spec fn spec_events(&self) -> Seq<RewardEvent> {
        self.events@
    }

    /// The contract is well formed when its identity registry is.
    pub closed spec fn wf(&self) -> bool {
        self.identities.wf()
    }
}

/// How `register_identity` relates the state before a call to the state
/// after it, for a given caller, identity and result.
pub open spec fn register_post(
    pre: SingleToken,
    post: SingleToken,
    caller: AccountId,
    identity: HashValue,
    r: Result<(), WorkflowError>,
) -> bool {
    if pre.spec_identities().contains_key(identity@) {
        r == Err::<(), WorkflowError>(WorkflowError::IdentityAlreadyRegistered) && post == pre
    } else {
        &&& r == Ok::<(), WorkflowError>(())
        &&& post.spec_identities() == pre.spec_identities().insert(identity@, caller@)
        &&& post.spec_events() == pre.spec_events().push(
            RewardEvent::IdentityRegistered(IdentityRegistered { identity, caller }),
        )
        &&& post.spec_owner() == pre.spec_owner()
        &&& post.spec_workflow() == pre.spec_workflow()
        &&& post.spec_reward() == pre.spec_reward()
        &&& post.spec_contribution() == pre.spec_contribution()
        &&& post.spec_account() == pre.spec_account()
    }
}

/// How `approve` relates the state before a call to the state after it,
/// for a given caller, contribution id, contributor identity and result.
pub open spec fn approve_post(
    pre: SingleToken,
    post: SingleToken,
    caller: AccountId,
    contribution_id: u64,
    contributor_identity: HashValue,
    r: Result<(), WorkflowError>,
) -> bool {
    if caller@ != pre.spec_owner()@ {
        r == Err::<(), WorkflowError>(WorkflowError::OwnableError(OwnableError::CallerIsNotOwner))
            && post == pre
    } else if pre.spec_contribution() is Some {
        r == Err::<(), WorkflowError>(WorkflowError::ContributionAlreadyApproved) && post == pre
    } else if !pre.spec_identities().contains_key(contributor_identity@) {
        r == Err::<(), WorkflowError>(WorkflowError::UnknownContributor) && post == pre
    } else {
        &&& r == Ok::<(), WorkflowError>(())
        &&& post.spec_contribution() matches Some(c) && c.id == contribution_id && c.contributor@
            == pre.spec_identities()[contributor_identity@] && !c.is_reward_claimed
            && post.spec_events() == pre.spec_events().push(
            RewardEvent::ContributionApproval(
                ContributionApproval { id: contribution_id, contributor: c.contributor },
            ),
        )
        &&& post.spec_identities() == pre.spec_identities()
        &&& post.spec_owner() == pre.spec_owner()
        &&& post.spec_workflow() == pre.spec_workflow()
        &&& post.spec_reward() == pre.spec_reward()
        &&& post.spec_account() == pre.spec_account()
    }
}

/// The validation every claim-side operation performs: which contribution
/// the claim refers to, or the first violated condition's error.
pub open spec fn claim_validation(st: SingleToken, caller: AccountId, contribution_id: u64) -> Result<
    Contribution,
    WorkflowError,
> {
    match st.spec_contribution() {
        Option::None => Err(WorkflowError::NoContributionApprovedYet),
        Option::Some(c) => if contribution_id != c.id {
            Err(WorkflowError::UnknownContribution)
        } else if caller@ != c.contributor@ {
            Err(WorkflowError::CallerIsNotContributor)
        } else if c.is_reward_claimed {
            Err(WorkflowError::AlreadyClaimed)
        } else {
            Ok(c)
        },
    }
}

/// What `can_claim` returns: success exactly when a claim would pass
/// validation now.
pub open spec fn can_claim_result(st: SingleToken, caller: AccountId, contribution_id: u64) -> Result<
    bool,
    WorkflowError,
> {
    match claim_validation(st, caller, contribution_id) {
        Ok(_) => Ok(true),
        Err(e) => Err(e),
    }
}

/// How `claim` relates contract and ledger before a call to contract and
/// ledger after it, for a given caller, contribution id and result.
pub open spec fn claim_post(
    pre: SingleToken,
    post: SingleToken,
    ledger_pre: Ledger,
    ledger_post: Ledger,
    caller: AccountId,
    contribution_id: u64,
    r: Result<(), WorkflowError>,
) -> bool {
    match claim_validation(pre, caller, contribution_id) {
        Err(e) => r == Err::<(), WorkflowError>(e) && post == pre && ledger_post@ == ledger_pre@,
        Ok(c) => {
            let amount = pre.spec_reward();
            let source = pre.spec_account();
            if balance_in(ledger_pre@, source@) < amount || (source@ != c.contributor@
                && balance_in(ledger_pre@, c.contributor@) + amount > u128::MAX) {
                r == Err::<(), WorkflowError>(WorkflowError::PaymentFailed) && post == pre
                    && ledger_post@ == ledger_pre@
            } else {
                &&& r == Ok::<(), WorkflowError>(())
                &&& post.spec_contribution() == Some(
                    Contribution { is_reward_claimed: true, ..c },
                )
                &&& post.spec_events() == pre.spec_events().push(
                    RewardEvent::RewardClaimed(
                        RewardClaimed {
                            contribution_id,
                            contributor: c.contributor,
                            reward: amount,
                        },
                    ),
                )
                &&& post.spec_identities() == pre.spec_identities()
                &&& post.spec_owner() == pre.spec_owner()
                &&& post.spec_workflow() == pre.spec_workflow()
                &&& post.spec_reward() == pre.spec_reward()
                &&& post.spec_account() == pre.spec_account()
                &&& (source@ == c.contributor@ ==> forall|x: Seq<u8>|
                    balance_in(ledger_post@, x) == balance_in(ledger_pre@, x))
                &&& (source@ != c.contributor@ ==> balance_in(ledger_post@, source@) == balance_in(
                    ledger_pre@,
                    source@,
                ) - amount && balance_in(ledger_post@, c.contributor@) == balance_in(
                    ledger_pre@,
                    c.contributor@,
                ) + amount && forall|x: Seq<u8>|
                    x != source@ && x != c.contributor@ ==> balance_in(ledger_post@, x)
                        == balance_in(ledger_pre@, x))
            }
        },
    }
}

/// How `transfer_ownership` relates the state before a call to the state
/// after it.
pub open spec fn transfer_ownership_post(
    pre: SingleToken,
    post: SingleToken,
    caller: AccountId,
    new_owner: AccountId,
    r: Result<(), OwnableError>,
) -> bool {
    if caller@ != pre.spec_owner()@ {
        r == Err::<(), OwnableError>(OwnableError::CallerIsNotOwner) && post == pre
    } else {
        &&& r == Ok::<(), OwnableError>(())
        &&& post.spec_owner() == new_owner
        &&& post.spec_workflow() == pre.spec_workflow()
        &&& post.spec_reward() == pre.spec_reward()
        &&& post.spec_contribution() == pre.spec_contribution()
        &&& post.spec_identities() == pre.spec_identities()
        &&& post.spec_account() == pre.spec_account()
        &&& post.spec_events() == pre.spec_events()
    }
}

impl SingleToken {
    /// Creates the contract: the deployer becomes the owner, the workflow
    /// content hash and the reward amount are fixed for good, and
    /// `contract_account` names the account rewards are paid from.
    pub fn new(
        contract_account: AccountId,
        caller: AccountId,
        workflow: HashValue,
        reward: Balance,
    ) -> (r: SingleToken)
        ensures
            r.wf(),
            r.spec_owner() == caller,
            r.spec_workflow() == workflow,
            r.spec_reward() == reward,
            r.spec_contribution() is None,
            r.spec_identities() == Map::<Seq<u8>, Seq<u8>>::empty(),
            r.spec_account() == contract_account,
            r.spec_events() == Seq::<RewardEvent>::empty(),
    {
        SingleToken {
            owner: caller,
            workflow,
            reward,
            contribution: None,
            identities: IdentityRegistry::new(),
            account: contract_account,
            events: Vec::new(),
        }
    }

    /// Registers the caller as an aspiring contributor under `identity`.
    /// Fails when the identity is already registered; a successful
    /// registration is recorded as an `IdentityRegistered` notification.
    pub fn register_identity(&mut self, caller: AccountId, identity: HashValue) -> (r: Result<
        (),
        WorkflowError,
    >)
        requires
            old(self).wf(),
        ensures
            final(self).wf(),
            register_post(*old(self), *final(self), caller, identity, r),
    {
        if self.identity_is_known(identity) {
            return Err(WorkflowError::IdentityAlreadyRegistered);
        }
        self.identities.insert(identity, caller);
        self.events.push(RewardEvent::IdentityRegistered(IdentityRegistered { identity, caller }));
        Ok(())
    }

    /// Approves a contribution for a registered contributor identity.
    /// Only the owner may approve; at most one contribution is ever
    /// approved, and an approval is recorded as a `ContributionApproval`
    /// notification.
    pub fn approve(
        &mut self,
        caller: AccountId,
        contribution_id: u64,
        contributor_identity: HashValue,
    ) -> (r: Result<(), WorkflowError>)
        requires
            old(self).wf(),
        ensures
            final(self).wf(),
            approve_post(*old(self), *final(self), caller, contribution_id, contributor_identity, r),
    {
        if !bytes32_eq(&caller, &self.owner) {
            return Err(WorkflowError::OwnableError(OwnableError::CallerIsNotOwner));
        }
        if self.contribution.is_some() {
            return Err(WorkflowError::ContributionAlreadyApproved);
        }
        let contributor = match self.identities.lookup(&contributor_identity) {
            Some(account) => account,
            None => {
                return Err(WorkflowError::UnknownContributor);
            },
        };
        self.contribution = Some(
            Contribution { id: contribution_id, contributor, is_reward_claimed: false },
        );
        self.events.push(
            RewardEvent::ContributionApproval(
                ContributionApproval { id: contribution_id, contributor },
            ),
        );
        Ok(())
    }

    /// Checks whether `caller` could claim `contribution_id` right now.
    /// A pure read: the claim itself re-validates from current state.
    pub fn can_claim(&self, caller: AccountId, contribution_id: u64) -> (r: Result<
        bool,
        WorkflowError,
    >)
        requires
            self.wf(),
        ensures
            r == can_claim_result(*self, caller, contribution_id),
    {
        match self.ensure_can_claim(caller, contribution_id) {
            Ok(_) => Ok(true),
            Err(e) => Err(e),
        }
    }

    /// Validates a claim request and hands back the contribution it refers
    /// to, or the first violated condition's error.
    pub fn ensure_can_claim(&self, caller: AccountId, contribution_id: u64) -> (r: Result<
        Contribution,
        WorkflowError,
    >)
        requires
            self.wf(),
        ensures
            r == claim_validation(*self, caller, contribution_id),
    {
        let contribution = match &self.contribution {
            Some(c) => c,
            None => {
                return Err(WorkflowError::NoContributionApprovedYet);
            },
        };
        if contribution_id != contribution.id {
            return Err(WorkflowError::UnknownContribution);
        }
        if !bytes32_eq(&caller, &contribution.contributor) {
            return Err(WorkflowError::CallerIsNotContributor);
        }
        if contribution.is_reward_claimed {
            return Err(WorkflowError::AlreadyClaimed);
        }
        Ok(*contribution)
    }

    /// Claims the reward for `contribution_id`: re-validates the claim
    /// against current state, transfers the reward from the contract's
    /// account to the contributor, and only after a successful transfer
    /// marks the contribution claimed and records a `RewardClaimed`
    /// notification. A failed transfer leaves contract and ledger exactly
    /// as they were.
    pub fn claim(&mut self, caller: AccountId, contribution_id: u64, ledger: &mut Ledger) -> (r:
        Result<(), WorkflowError>)
        requires
            old(self).wf(),
            old(ledger).wf(),
        ensures
            final(self).wf(),
            final(ledger).wf(),
            claim_post(
                *old(self),
                *final(self),
                *old(ledger),
                *final(ledger),
                caller,
                contribution_id,
                r,
            ),
    {
        let contribution = match self.ensure_can_claim(caller, contribution_id) {
            Ok(c) => c,
            Err(e) => {
                return Err(e);
            },
        };
        match ledger.transfer(&self.account, &contribution.contributor, self.reward) {
            Ok(_) => {},
            Err(_) => {
                return Err(WorkflowError::PaymentFailed);
            },
        }
        self.contribution = Some(Contribution { is_reward_claimed: true, ..contribution });
        self.events.push(
            RewardEvent::RewardClaimed(
                RewardClaimed {
                    contribution_id,
                    contributor: contribution.contributor,
                    reward: self.reward,
                },
            ),
        );
        Ok(())
    }

    /// Transfers ownership to `new_owner`; only the current owner may.
    /// The new owner is effective immediately.
    pub fn transfer_ownership(&mut self, caller: AccountId, new_owner: AccountId) -> (r: Result<
        (),
        OwnableError,
    >)
        requires
            old(self).wf(),
        ensures
            final(self).wf(),
            transfer_ownership_post(*old(self), *final(self), caller, new_owner, r),
    {
        if !bytes32_eq(&caller, &self.owner) {
            return Err(OwnableError::CallerIsNotOwner);
        }
        self.owner = new_owner;
        Ok(())
    }

    /// Returns the workflow content hash.
    pub fn get_workflow(&self) -> (r: HashValue)
        ensures
            r == self.spec_workflow(),
    {
        self.workflow
    }

    /// Returns the reward amount.
    pub fn get_reward(&self) -> (r: Balance)
        ensures
            r == self.spec_reward(),
    {
        self.reward
    }

    /// Returns the approved contribution, if some.
    pub fn get_contribution(&self) -> (r: Option<Contribution>)
        ensures
            r == self.spec_contribution(),
    {
        self.contribution
    }

    /// Returns the current owner.
    pub fn get_owner(&self) -> (r: AccountId)
        ensures
            r == self.spec_owner(),
    {
        self.owner
    }

    /// Returns the principal registered under `identity`, if any.
    pub fn get_account(&self, identity: HashValue) -> (r: Option<AccountId>)
        requires
            self.wf(),
        ensures
            match r {
                Some(account) => self.spec_identities().contains_key(identity@) && account@
                    == self.spec_identities()[identity@],
                None => !self.spec_identities().contains_key(identity@),
            },
    {
        self.identities.lookup(&identity)
    }

    /// Reports whether an aspiring contributor identity is registered.
    pub fn identity_is_known(&self, identity: HashValue) -> (r: bool)
        requires
            self.wf(),
        ensures
            r == self.spec_identities().contains_key(identity@),
    {
        self.identities.lookup(&identity).is_some()
    }

    /// The notifications recorded so far, oldest first.
    pub fn recorded_events(&self) -> (r: &Vec<RewardEvent>)
        ensures
            r@ == self.spec_events(),
    {
        &self.events
    }

    /// Hashes bytes, e.g. an identity or a workflow file, with the fixed
    /// digest function of this contract family.
    pub fn hash(input: &[u8]) -> (r: HashValue)
        ensures
            r@ == sha2_256_digest(input@),
    {
        sha2_256(input)
    }
}

impl crate::workflow::Workflow for SingleToken {
    open spec fn workflow_wf(&self) -> bool {
        self.wf()
    }

    open spec fn workflow_owner(&self) -> AccountId {
        self.spec_owner()
    }

    open spec fn workflow_identities(&self) -> Map<Seq<u8>, Seq<u8>> {
        self.spec_identities()
    }

    open spec fn workflow_claimable(&self, caller: AccountId, contribution_id: u64) -> bool {
        can_claim_result(*self, caller, contribution_id) is Ok
    }

    fn register_identity(&mut self, caller: AccountId, identity: HashValue) -> (r: Result<
        (),
        WorkflowError,
    >) {
        SingleToken::register_identity(self, caller, identity)
    }

    fn approve(
        &mut self,
        caller: AccountId,
        contribution_id: u64,
        contributor_identity: HashValue,
    ) -> (r: Result<(), WorkflowError>) {
        SingleToken::approve(self, caller, contribution_id, contributor_identity)
    }

    fn can_claim(&self, caller: AccountId, contribution_id: u64) -> (r: Result<
        bool,
        WorkflowError,
    >) {
        SingleToken::can_claim(self, caller, contribution_id)
    }

    fn claim(&mut self, caller: AccountId, contribution_id: u64, ledger: &mut Ledger) -> (r: Result<
        (),
        WorkflowError,
    >) {
        SingleToken::claim(self, caller, contribution_id, ledger)
    }
}

/// Registration is write-once: after a first success, a second
/// registration of the same identity is refused with
/// `IdentityAlreadyRegistered`, changes nothing, and the principal the
/// first call stored stays bound to the identity.
pub proof fn lemma_register_write_once(
    pre: SingleToken,
    mid: SingleToken,
    post: SingleToken,
    caller1: AccountId,
    caller2: AccountId,
    identity: HashValue,
    r2: Result<(), WorkflowError>,
)
    requires
        register_post(pre, mid, caller1, identity, Ok(())),
        register_post(mid, post, caller2, identity, r2),
    ensures
        r2 == Err::<(), WorkflowError>(WorkflowError::IdentityAlreadyRegistered),
        post == mid,
        post.spec_identities()[identity@] == caller1@,
{
}

/// A contribution is approved exactly once: after a successful approval,
/// any further approval attempt fails and changes nothing; when the second
/// caller is the owner, the error is `ContributionAlreadyApproved`.
pub proof fn lemma_approve_exactly_once(
    pre: SingleToken,
    mid: SingleToken,
    post: SingleToken,
    caller1: AccountId,
    caller2: AccountId,
    id1: u64,
    id2: u64,
    identity1: HashValue,
    identity2: HashValue,
    r2: Result<(), WorkflowError>,
)
    requires
        approve_post(pre, mid, caller1, id1, identity1, Ok(())),
        approve_post(mid, post, caller2, id2, identity2, r2),
    ensures
        r2 is Err,
        post == mid,
        caller2@ == mid.spec_owner()@ ==> r2 == Err::<(), WorkflowError>(
            WorkflowError::ContributionAlreadyApproved,
        ),
{
}

/// The claimed flag flips false to true at most once: after a successful
/// claim, any further claim attempt fails and moves no value; the
/// contributor's own retry for the same id fails with `AlreadyClaimed`.
pub proof fn lemma_claim_exactly_once(
    pre: SingleToken,
    mid: SingleToken,
    post: SingleToken,
    ledger1_pre: Ledger,
    ledger1_post: Ledger,
    ledger2_pre: Ledger,
    ledger2_post: Ledger,
    caller1: AccountId,
    caller2: AccountId,
    id1: u64,
    id2: u64,
    r2: Result<(), WorkflowError>,
)
    requires
        claim_post(pre, mid, ledger1_pre, ledger1_post, caller1, id1, Ok(())),
        claim_post(mid, post, ledger2_pre, ledger2_post, caller2, id2, r2),
    ensures
        r2 is Err,
        post == mid,
        ledger2_post@ == ledger2_pre@,
        mid.spec_contribution() matches Some(c) ==> (caller2@ == c.contributor@ && id2 == c.id
            ==> r2 == Err::<(), WorkflowError>(WorkflowError::AlreadyClaimed)),
{
}

/// Authorization comes before state effects: a non-owner's approval
/// attempt fails with the ownership error and leaves the whole state,
/// registries included, unchanged.
pub proof fn lemma_approve_requires_owner(
    pre: SingleToken,
    post: SingleToken,
    caller: AccountId,
    contribution_id: u64,
    contributor_identity: HashValue,
    r: Result<(), WorkflowError>,
)
    requires
        approve_post(pre, post, caller, contribution_id, contributor_identity, r),
        caller@ != pre.spec_owner()@,
    ensures
        r == Err::<(), WorkflowError>(WorkflowError::OwnableError(OwnableError::CallerIsNotOwner)),
        post == pre,
{
}

/// A claim by anyone but the approved contributor fails and changes
/// neither the contract state nor any balance.
pub proof fn lemma_claim_requires_contributor(
    pre: SingleToken,
    post: SingleToken,
    ledger_pre: Ledger,
    ledger_post: Ledger,
    caller: AccountId,
    contribution_id: u64,
    r: Result<(), WorkflowError>,
)
    requires
        claim_post(pre, post, ledger_pre, ledger_post, caller, contribution_id, r),
        match pre.spec_contribution() {
            Option::Some(c) => caller@ != c.contributor@,
            Option::None => true,
        },
    ensures
        r is Err,
        post == pre,
        ledger_post@ == ledger_pre@,
{
}

/// Payment is atomic: when the contract cannot fund the reward, the claim
/// fails with `PaymentFailed`, the claimed flag stays false and no
/// notification is recorded; a retry once the contract is funded succeeds
/// and flips the flag to true.
pub proof fn lemma_payment_atomicity(
    pre: SingleToken,
    mid: SingleToken,
    post: SingleToken,
    ledger1_pre: Ledger,
    ledger1_post: Ledger,
    ledger2_pre: Ledger,
    ledger2_post: Ledger,
    caller: AccountId,
    contribution_id: u64,
    c: Contribution,
    r1: Result<(), WorkflowError>,
    r2: Result<(), WorkflowError>,
)
    requires
        claim_validation(pre, caller, contribution_id) == Ok::<Contribution, WorkflowError>(c),
        balance_in(ledger1_pre@, pre.spec_account()@) < pre.spec_reward(),
        claim_post(pre, mid, ledger1_pre, ledger1_post, caller, contribution_id, r1),
        claim_post(mid, post, ledger2_pre, ledger2_post, caller, contribution_id, r2),
        balance_in(ledger2_pre@, mid.spec_account()@) >= mid.spec_reward(),
        mid.spec_account()@ != c.contributor@ ==> balance_in(ledger2_pre@, c.contributor@)
            + mid.spec_reward() <= u128::MAX,
    ensures
        r1 == Err::<(), WorkflowError>(WorkflowError::PaymentFailed),
        mid == pre,
        ledger1_post@ == ledger1_pre@,
        r2 == Ok::<(), WorkflowError>(()),
        post.spec_contribution() == Some(Contribution { is_reward_claimed: true, ..c }),
{
}

} // verus!
