//! The registry-backed reward workflow: many contributions, keyed by a
//! caller-supplied id, each approved once and claimed once. This variant
//! also carries the run attestation verifier: a detached signature over
//! the workflow's run message is checked against a trusted signer, and a
//! run id, once consumed, is refused forever.

use vstd::prelude::*;

use crate::contributions::ContributionRegistry;
use crate::crypto::build_run_message;
use crate::crypto::recover_signer;
use crate::crypto::recovered_signer;
use crate::crypto::run_message;
use crate::crypto::sha2_256;
use crate::crypto::sha2_256_digest;
use crate::crypto::check_signature_form;
use crate::crypto::signature_well_formed;
use crate::identity::IdentityRegistry;
use crate::ledger::Ledger;
use crate::ledger::balance_in;
use crate::runs::RunIdSet;
use crate::types::AccountId;
use crate::types::Balance;
use crate::types::Contribution;
use crate::types::HashValue;
use crate::types::PublicKey;
use crate::types::bytes32_eq;
use crate::types::bytes33_eq;
use crate::workflow::OwnableError;

verus! {

/// Errors that the registry-backed workflow can return.
#[derive(Debug, Copy, Clone, PartialEq, Eq)]
pub enum Error {
    /// The ownership gate refused the caller.
    OwnableError(OwnableError),
    /// An aspiring contributor identity is already registered.
    IdentityAlreadyRegistered,
    /// A contribution with this id is already approved.
    ContributionAlreadyApproved,
    /// The run id was already consumed by a successful verification.
    RunIdAlreadyUsed,
    /// The contributor identity is not registered.
    UnknownContributor,
    /// The contribution is not recorded.
    UnknownContribution,
    /// The attempted reward payment to a contributor failed.
    PaymentFailed,
    /// The caller is not the workflow controller while required to be.
    CallerIsNotWorkflowOwner,
    /// The caller is not the `contributor` while required to be.
    CallerIsNotContributor,
    /// The reward was already claimed.
    AlreadyClaimed,
    /// The run message was not signed by the trusted signer.
    InvalidSigner,
}

impl From<OwnableError> for Error {
    fn from(error: OwnableError) -> (r: Self) {
        Error::OwnableError(error)
    }
}

impl vstd::std_specs::convert::FromSpecImpl<OwnableError> for Error {
    open spec fn obeys_from_spec() -> bool {
        true
    }

    open spec fn from_spec(error: OwnableError) -> Self {
        Error::OwnableError(error)
    }
}

/// The registry-backed reward workflow contract.
pub struct AssetReward {
    owner: AccountId,
    workflow: HashValue,
    controller: AccountId,
    trusted_signer: PublicKey,
    reward: Balance,
    contributions: ContributionRegistry,
    identities: IdentityRegistry,
    used_run_ids: RunIdSet,
    account: AccountId,
}

impl AssetReward {
    /// The current owner, the only principal allowed to approve.
    pub closed spec fn spec_owner(&self) -> AccountId {
        self.owner
    }

    /// The content hash of the workflow definition being trusted.
    pub closed spec fn spec_workflow(&self) -> HashValue {
        self.workflow
    }

    /// The principal controlling the workflow; fixed at construction, it
    /// alone may submit run attestations.
    pub closed spec fn spec_controller(&self) -> AccountId {
        self.controller
    }

    /// The compressed public key run attestations must be signed with.
    pub closed spec fn spec_trusted_signer(&self) -> PublicKey {
        self.trusted_signer
    }

    /// The reward amount every contribution pays.
    pub closed spec fn spec_reward(&self) -> Balance {
        self.reward
    }

    /// The approved contributions, keyed by contribution id.
    pub closed spec fn spec_contributions(&self) -> Map<u64, Contribution> {
        self.contributions@
    }

    /// The identity registry's contents.
    pub closed spec fn spec_identities(&self) -> Map<Seq<u8>, Seq<u8>> {
        self.identities@
    }

    /// The run ids consumed so far.
    pub closed spec fn spec_used_run_ids(&self) -> Set<u64> {
        self.used_run_ids@
    }

    /// The contract's own account, from which rewards are paid.
    pub closed spec fn spec_account(&self) -> AccountId {
        self.account
    }

    /// The contract is well formed when both registries are.
    pub closed spec fn wf(&self) -> bool {
        self.identities.wf() && self.contributions.wf()
    }
}

/// How `register_identity` relates the state before a call to the state
/// after it, for a given account, identity and result.
pub open spec fn register_post(
    pre: AssetReward,
    post: AssetReward,
    account: AccountId,
    identity: HashValue,
    r: Result<(), Error>,
) -> bool {
    if pre.spec_identities().contains_key(identity@) {
        r == Err::<(), Error>(Error::IdentityAlreadyRegistered) && post == pre
    } else {
        &&& r == Ok::<(), Error>(())
        &&& post.spec_identities() == pre.spec_identities().insert(identity@, account@)
        &&& post.spec_contributions() == pre.spec_contributions()
        &&& post.spec_used_run_ids() == pre.spec_used_run_ids()
        &&& post.spec_owner() == pre.spec_owner()
        &&& post.spec_workflow() == pre.spec_workflow()
        &&& post.spec_controller() == pre.spec_controller()
        &&& post.spec_trusted_signer() == pre.spec_trusted_signer()
        &&& post.spec_reward() == pre.spec_reward()
        &&& post.spec_account() == pre.spec_account()
    }
}

/// How `approve` relates the state before a call to the state after it,
/// for a given caller, contribution id, contributor identity and result.
pub open spec fn approve_post(
    pre: AssetReward,
    post: AssetReward,
    caller: AccountId,
    contribution_id: u64,
    contributor_identity: HashValue,
    r: Result<(), Error>,
) -> bool {
    if caller@ != pre.spec_owner()@ {
        r == Err::<(), Error>(Error::OwnableError(OwnableError::CallerIsNotOwner)) && post == pre
    } else if pre.spec_contributions().contains_key(contribution_id) {
        r == Err::<(), Error>(Error::ContributionAlreadyApproved) && post == pre
    } else if !pre.spec_identities().contains_key(contributor_identity@) {
        r == Err::<(), Error>(Error::UnknownContributor) && post == pre
    } else {
        &&& r == Ok::<(), Error>(())
        &&& post.spec_contributions().contains_key(contribution_id)
        &&& post.spec_contributions()[contribution_id].id == contribution_id
        &&& post.spec_contributions()[contribution_id].contributor@ == pre.spec_identities()[contributor_identity@]
        &&& !post.spec_contributions()[contribution_id].is_reward_claimed
        &&& post.spec_contributions() == pre.spec_contributions().insert(
            contribution_id,
            post.spec_contributions()[contribution_id],
        )
        &&& post.spec_identities() == pre.spec_identities()
        &&& post.spec_used_run_ids() == pre.spec_used_run_ids()
        &&& post.spec_owner() == pre.spec_owner()
        &&& post.spec_workflow() == pre.spec_workflow()
        &&& post.spec_controller() == pre.spec_controller()
        &&& post.spec_trusted_signer() == pre.spec_trusted_signer()
        &&& post.spec_reward() == pre.spec_reward()
        &&& post.spec_account() == pre.spec_account()
    }
}

/// The validation a claim performs: the contribution the claim refers to,
/// or the first violated condition's error.
pub open spec fn claim_validation(st: AssetReward, caller: AccountId, contribution_id: u64) -> Result<
    Contribution,
    Error,
> {
    if !st.spec_contributions().contains_key(contribution_id) {
        Err(Error::UnknownContribution)
    } else {
        let c = st.spec_contributions()[contribution_id];
        if caller@ != c.contributor@ {
            Err(Error::CallerIsNotContributor)
        } else if c.is_reward_claimed {
            Err(Error::AlreadyClaimed)
        } else {
            Ok(c)
        }
    }
}

/// How `claim` relates contract and ledger before a call to contract and
/// ledger after it, for a given caller, contribution id and result.
pub open spec fn claim_post(
    pre: AssetReward,
    post: AssetReward,
    ledger_pre: Ledger,
    ledger_post: Ledger,
    caller: AccountId,
    contribution_id: u64,
    r: Result<bool, Error>,
) -> bool {
    match claim_validation(pre, caller, contribution_id) {
        Err(e) => r == Err::<bool, Error>(e) && post == pre && ledger_post@ == ledger_pre@,
        Ok(c) => {
            let amount = pre.spec_reward();
            let source = pre.spec_account();
            if balance_in(ledger_pre@, source@) < amount || (source@ != c.contributor@
                && balance_in(ledger_pre@, c.contributor@) + amount > u128::MAX) {
                r == Err::<bool, Error>(Error::PaymentFailed) && post == pre && ledger_post@
                    == ledger_pre@
            } else {
                &&& r == Ok::<bool, Error>(true)
                &&& post.spec_contributions() == pre.spec_contributions().insert(
                    contribution_id,
                    Contribution { is_reward_claimed: true, ..c },
                )
                &&& post.spec_identities() == pre.spec_identities()
                &&& post.spec_used_run_ids() == pre.spec_used_run_ids()
                &&& post.spec_owner() == pre.spec_owner()
                &&& post.spec_workflow() == pre.spec_workflow()
                &&& post.spec_controller() == pre.spec_controller()
                &&& post.spec_trusted_signer() == pre.spec_trusted_signer()
                &&& post.spec_reward() == pre.spec_reward()
                &&& post.spec_account() == pre.spec_account()
                &&& (source@ == c.contributor@ ==> forall|x: Seq<u8>|
                    balance_in(ledger_post@, x) == balance_in(ledger_pre@, x))
                &&& (source@ != c.contributor@ ==> balance_in(ledger_post@, source@) == balance_in(
                    ledger_pre@,
                    source@,
                ) - amount && balance_in(ledger_post@, c.contributor@) == balance_in(
                    ledger_pre@,
                    c.contributor@,
                ) + amount && forall|x: Seq<u8>|
                    x != source@ && x != c.contributor@ ==> balance_in(ledger_post@, x)
                        == balance_in(ledger_pre@, x))
            }
        },
    }
}

/// An attestation is accepted when the signature is well formed and the
/// key recovered from it over the digest of the run message is the trusted
/// signer's.
pub open spec fn attestation_accepted(st: AssetReward, run_id: u64, sig: Seq<u8>) -> bool {
    &&& signature_well_formed(sig)
    &&& recovered_signer(sig, sha2_256_digest(run_message(st.spec_workflow()@, run_id))) == Some(
        st.spec_trusted_signer()@,
    )
}

/// How `verify` relates the state before a call to the state after it,
/// for a given caller, run id, signature and result.
pub open spec fn verify_post(
    pre: AssetReward,
    post: AssetReward,
    caller: AccountId,
    run_id: u64,
    sig: Seq<u8>,
    r: Result<bool, Error>,
) -> bool {
    if caller@ != pre.spec_controller()@ {
        r == Err::<bool, Error>(Error::CallerIsNotWorkflowOwner) && post == pre
    } else if pre.spec_used_run_ids().contains(run_id) {
        r == Err::<bool, Error>(Error::RunIdAlreadyUsed) && post == pre
    } else if !attestation_accepted(pre, run_id, sig) {
        r == Err::<bool, Error>(Error::InvalidSigner) && post == pre
    } else {
        &&& r == Ok::<bool, Error>(true)
        &&& post.spec_used_run_ids() == pre.spec_used_run_ids().insert(run_id)
        &&& post.spec_contributions() == pre.spec_contributions()
        &&& post.spec_identities() == pre.spec_identities()
        &&& post.spec_owner() == pre.spec_owner()
        &&& post.spec_workflow() == pre.spec_workflow()
        &&& post.spec_controller() == pre.spec_controller()
        &&& post.spec_trusted_signer() == pre.spec_trusted_signer()
        &&& post.spec_reward() == pre.spec_reward()
        &&& post.spec_account() == pre.spec_account()
    }
}

/// How `transfer_ownership` relates the state before a call to the state
/// after it.
pub open spec fn transfer_ownership_post(
    pre: AssetReward,
    post: AssetReward,
    caller: AccountId,
    new_owner: AccountId,
    r: Result<(), OwnableError>,
) -> bool {
    if caller@ != pre.spec_owner()@ {
        r == Err::<(), OwnableError>(OwnableError::CallerIsNotOwner) && post == pre
    } else {
        &&& r == Ok::<(), OwnableError>(())
        &&& post.spec_owner() == new_owner
        &&& post.spec_workflow() == pre.spec_workflow()
        &&& post.spec_controller() == pre.spec_controller()
        &&& post.spec_trusted_signer() == pre.spec_trusted_signer()
        &&& post.spec_reward() == pre.spec_reward()
        &&& post.spec_contributions() == pre.spec_contributions()
        &&& post.spec_identities() == pre.spec_identities()
        &&& post.spec_used_run_ids() == pre.spec_used_run_ids()
        &&& post.spec_account() == pre.spec_account()
    }
}

impl AssetReward {
    /// Creates the contract: the deployer becomes both owner and workflow
    /// controller; the workflow content hash, the reward amount and the
    /// trusted signer are fixed for good, and `contract_account` names the
    /// account rewards are paid from.
    pub fn new(
        contract_account: AccountId,
        caller: AccountId,
        workflow: HashValue,
        reward: Balance,
        trusted_signer: PublicKey,
    ) -> (r: AssetReward)
        ensures
            r.wf(),
            r.spec_owner() == caller,
            r.spec_workflow() == workflow,
            r.spec_controller() == caller,
            r.spec_trusted_signer() == trusted_signer,
            r.spec_reward() == reward,
            r.spec_contributions() == Map::<u64, Contribution>::empty(),
            r.spec_identities() == Map::<Seq<u8>, Seq<u8>>::empty(),
            r.spec_used_run_ids() == Set::<u64>::empty(),
            r.spec_account() == contract_account,
    {
        AssetReward {
            owner: caller,
            workflow,
            controller: caller,
            trusted_signer,
            reward,
            contributions: ContributionRegistry::new(),
            identities: IdentityRegistry::new(),
            used_run_ids: RunIdSet::new(),
            account: contract_account,
        }
    }

    /// Registers an aspiring contributor's identity, binding it to
    /// `account`. Fails when the identity is already registered.
    pub fn register_identity(&mut self, account: AccountId, identity: HashValue) -> (r: Result<
        (),
        Error,
    >)
        requires
            old(self).wf(),
        ensures
            final(self).wf(),
            register_post(*old(self), *final(self), account, identity, r),
    {
        if self.identity_is_known(identity) {
            return Err(Error::IdentityAlreadyRegistered);
        }
        self.identities.insert(identity, account);
        Ok(())
    }

    /// Approves a contribution for a registered contributor identity.
    /// Only the owner may approve, and each contribution id is approved
    /// at most once.
    pub fn approve(
        &mut self,
        caller: AccountId,
        contribution_id: u64,
        contributor_identity: HashValue,
    ) -> (r: Result<(), Error>)
        requires
            old(self).wf(),
        ensures
            final(self).wf(),
            approve_post(*old(self), *final(self), caller, contribution_id, contributor_identity, r),
    {
        if !bytes32_eq(&caller, &self.owner) {
            return Err(Error::OwnableError(OwnableError::CallerIsNotOwner));
        }
        if self.contribution_is_known(contribution_id) {
            return Err(Error::ContributionAlreadyApproved);
        }
        let contributor = match self.identities.lookup(&contributor_identity) {
            Some(account) => account,
            None => {
                return Err(Error::UnknownContributor);
            },
        };
        self.contributions.insert(
            Contribution { id: contribution_id, contributor, is_reward_claimed: false },
        );
        Ok(())
    }

    /// Claims the reward for `contribution_id`: validates the claim
    /// against current state, transfers the reward from the contract's
    /// account to the contributor, and only after a successful transfer
    /// marks the contribution claimed. A failed transfer leaves contract
    /// and ledger exactly as they were.
    pub fn claim(&mut self, caller: AccountId, contribution_id: u64, ledger: &mut Ledger) -> (r:
        Result<bool, Error>)
        requires
            old(self).wf(),
            old(ledger).wf(),
        ensures
            final(self).wf(),
            final(ledger).wf(),
            claim_post(
                *old(self),
                *final(self),
                *old(ledger),
                *final(ledger),
                caller,
                contribution_id,
                r,
            ),
    {
        let contribution = match self.contributions.get(contribution_id) {
            Some(c) => c,
            None => {
                return Err(Error::UnknownContribution);
            },
        };
        if !bytes32_eq(&caller, &contribution.contributor) {
            return Err(Error::CallerIsNotContributor);
        }
        if contribution.is_reward_claimed {
            return Err(Error::AlreadyClaimed);
        }
        match ledger.transfer(&self.account, &contribution.contributor, self.reward) {
            Ok(_) => {},
            Err(_) => {
                return Err(Error::PaymentFailed);
            },
        }
        self.contributions.mark_claimed(contribution_id);
        Ok(true)
    }

    /// Verifies that an external workflow run is authentic and unused:
    /// only the workflow controller may submit a run, a run id is consumed
    /// at most once, and the detached signature over the run message must
    /// recover to the trusted signer. On success the run id is consumed.
    pub fn verify(&mut self, caller: AccountId, run_id: u64, signature: &[u8; 65]) -> (r: Result<
        bool,
        Error,
    >)
        requires
            old(self).wf(),
        ensures
            final(self).wf(),
            verify_post(*old(self), *final(self), caller, run_id, signature@, r),
    {
        if !bytes32_eq(&caller, &self.controller) {
            return Err(Error::CallerIsNotWorkflowOwner);
        }
        if self.used_run_ids.contains(run_id) {
            return Err(Error::RunIdAlreadyUsed);
        }
        if !check_signature_form(signature) {
            return Err(Error::InvalidSigner);
        }
        let message = build_run_message(&self.workflow, run_id);
        let digest = sha2_256(message.as_slice());
        let recovered = match recover_signer(signature, &digest) {
            Some(key) => key,
            None => {
                return Err(Error::InvalidSigner);
            },
        };
        if !bytes33_eq(&recovered, &self.trusted_signer) {
            return Err(Error::InvalidSigner);
        }
        self.used_run_ids.insert(run_id);
        Ok(true)
    }

    /// Transfers ownership to `new_owner`; only the current owner may.
    /// The new owner is effective immediately.
    pub fn transfer_ownership(&mut self, caller: AccountId, new_owner: AccountId) -> (r: Result<
        (),
        OwnableError,
    >)
        requires
            old(self).wf(),
        ensures
            final(self).wf(),
            transfer_ownership_post(*old(self), *final(self), caller, new_owner, r),
    {
        if !bytes32_eq(&caller, &self.owner) {
            return Err(OwnableError::CallerIsNotOwner);
        }
        self.owner = new_owner;
        Ok(())
    }

    /// Returns the workflow content hash.
    pub fn get_workflow(&self) -> (r: HashValue)
        ensures
            r == self.spec_workflow(),
    {
        self.workflow
    }

    /// Returns the reward amount.
    pub fn get_reward(&self) -> (r: Balance)
        ensures
            r == self.spec_reward(),
    {
        self.reward
    }

    /// Returns the current owner.
    pub fn get_owner(&self) -> (r: AccountId)
        ensures
            r == self.spec_owner(),
    {
        self.owner
    }

    /// Returns the contribution approved under `id`, if any.
    pub fn get_contribution(&self, id: u64) -> (r: Option<Contribution>)
        requires
            self.wf(),
        ensures
            match r {
                Some(c) => self.spec_contributions().contains_key(id) && c
                    == self.spec_contributions()[id],
                None => !self.spec_contributions().contains_key(id),
            },
    {
        self.contributions.get(id)
    }

    /// Reports whether a contribution is recorded under `contribution_id`.
    pub fn contribution_is_known(&self, contribution_id: u64) -> (r: bool)
        requires
            self.wf(),
        ensures
            r == self.spec_contributions().contains_key(contribution_id),
    {
        self.contributions.get(contribution_id).is_some()
    }

    /// Reports whether an aspiring contributor identity is registered.
    pub fn identity_is_known(&self, identity: HashValue) -> (r: bool)
        requires
            self.wf(),
        ensures
            r == self.spec_identities().contains_key(identity@),
    {
        self.identities.lookup(&identity).is_some()
    }

    /// Hashes bytes, e.g. an identity or a workflow file, with the fixed
    /// digest function of this contract family.
    pub fn hash(input: &[u8]) -> (r: HashValue)
        ensures
            r@ == sha2_256_digest(input@),
    {
        sha2_256(input)
    }
}

/// Replay protection: after a run id is consumed by a successful
/// verification, a second verification of the same run id fails with
/// `RunIdAlreadyUsed` and changes nothing, whatever signature it carries.
pub proof fn lemma_verify_replay_protected(
    pre: AssetReward,
    mid: AssetReward,
    post: AssetReward,
    caller1: AccountId,
    caller2: AccountId,
    run_id: u64,
    sig1: Seq<u8>,
    sig2: Seq<u8>,
    r2: Result<bool, Error>,
)
    requires
        verify_post(pre, mid, caller1, run_id, sig1, Ok(true)),
        verify_post(mid, post, caller2, run_id, sig2, r2),
        caller2@ == mid.spec_controller()@,
    ensures
        r2 == Err::<bool, Error>(Error::RunIdAlreadyUsed),
        post == mid,
{
}

/// A contribution id is approved exactly once: after a successful
/// approval, any further approval attempt for the same id fails and
/// changes nothing; when the second caller is the owner, the error is
/// `ContributionAlreadyApproved`.
pub proof fn lemma_approve_exactly_once(
    pre: AssetReward,
    mid: AssetReward,
    post: AssetReward,
    caller1: AccountId,
    caller2: AccountId,
    contribution_id: u64,
    identity1: HashValue,
    identity2: HashValue,
    r2: Result<(), Error>,
)
    requires
        approve_post(pre, mid, caller1, contribution_id, identity1, Ok(())),
        approve_post(mid, post, caller2, contribution_id, identity2, r2),
    ensures
        r2 is Err,
        post == mid,
        caller2@ == mid.spec_owner()@ ==> r2 == Err::<(), Error>(
            Error::ContributionAlreadyApproved,
        ),
{
}

/// The claimed flag flips false to true at most once per contribution:
/// after a successful claim, a further claim of the same id fails and
/// moves no value; the contributor's own retry fails with
/// `AlreadyClaimed`.
pub proof fn lemma_claim_exactly_once(
    pre: AssetReward,
    mid: AssetReward,
    post: AssetReward,
    ledger1_pre: Ledger,
    ledger1_post: Ledger,
    ledger2_pre: Ledger,
    ledger2_post: Ledger,
    caller1: AccountId,
    caller2: AccountId,
    contribution_id: u64,
    r2: Result<bool, Error>,
)
    requires
        claim_post(pre, mid, ledger1_pre, ledger1_post, caller1, contribution_id, Ok(true)),
        claim_post(mid, post, ledger2_pre, ledger2_post, caller2, contribution_id, r2),
    ensures
        r2 is Err,
        post == mid,
        ledger2_post@ == ledger2_pre@,
        caller2@ == mid.spec_contributions()[contribution_id].contributor@ ==> r2 == Err::<
            bool,
            Error,
        >(Error::AlreadyClaimed),
{
}

/// Registration is write-once: after a first success, a second
/// registration of the same identity is refused with
/// `IdentityAlreadyRegistered`, changes nothing, and the principal the
/// first call stored stays bound to the identity.
pub proof fn lemma_register_write_once(
    pre: AssetReward,
    mid: AssetReward,
    post: AssetReward,
    account1: AccountId,
    account2: AccountId,
    identity: HashValue,
    r2: Result<(), Error>,
)
    requires
        register_post(pre, mid, account1, identity, Ok(())),
        register_post(mid, post, account2, identity, r2),
    ensures
        r2 == Err::<(), Error>(Error::IdentityAlreadyRegistered),
        post == mid,
        post.spec_identities()[identity@] == account1@,
{
}

/// A claim by anyone but the recorded contributor fails and changes
/// neither the contract state nor any balance.
pub proof fn lemma_claim_requires_contributor(
    pre: AssetReward,
    post: AssetReward,
    ledger_pre: Ledger,
    ledger_post: Ledger,
    caller: AccountId,
    contribution_id: u64,
    r: Result<bool, Error>,
)
    requires
        claim_post(pre, post, ledger_pre, ledger_post, caller, contribution_id, r),
        pre.spec_contributions().contains_key(contribution_id) ==> caller@
            != pre.spec_contributions()[contribution_id].contributor@,
    ensures
        r is Err,
        post == pre,
        ledger_post@ == ledger_pre@,
{
}

/// Claiming one contribution leaves every other contribution untouched:
/// its presence and its record, the claimed flag included, are as before.
pub proof fn lemma_claim_is_independent(
    pre: AssetReward,
    post: AssetReward,
    ledger_pre: Ledger,
    ledger_post: Ledger,
    caller: AccountId,
    contribution_id: u64,
    other_id: u64,
    r: Result<bool, Error>,
)
    requires
        claim_post(pre, post, ledger_pre, ledger_post, caller, contribution_id, r),
        other_id != contribution_id,
    ensures
        post.spec_contributions().contains_key(other_id) == pre.spec_contributions().contains_key(
            other_id,
        ),
        pre.spec_contributions().contains_key(other_id) ==> post.spec_contributions()[other_id]
            == pre.spec_contributions()[other_id],
{
}

} // verus!
