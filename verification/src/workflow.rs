//! The workflow interface: the error taxonomy shared by the contract
//! variants, and the trait through which callers drive a reward workflow.

use vstd::prelude::*;

use crate::ledger::Ledger;
use crate::types::AccountId;
use crate::types::HashValue;

verus! {

/// Errors of the ownership gate.
#[derive(Debug, Copy, Clone, PartialEq, Eq)]
pub enum OwnableError {
    /// The caller is not the current owner.
    CallerIsNotOwner,
}

/// Errors that a workflow operation can return.
#[derive(Debug, Copy, Clone, PartialEq, Eq)]
pub enum WorkflowError {
    /// The ownership gate refused the caller.
    OwnableError(OwnableError),
    /// An aspiring contributor identity is already registered.
    IdentityAlreadyRegistered,
    /// A contribution is already approved.
    ContributionAlreadyApproved,
    /// No contribution is approved yet.
    NoContributionApprovedYet,
    /// The contributor identity is not registered.
    UnknownContributor,
    /// The contribution is not recorded.
    UnknownContribution,
    /// The attempted reward payment to a contributor failed.
    PaymentFailed,
    /// The caller is not the `contributor` while required to be.
    CallerIsNotContributor,
    /// The reward was already claimed.
    AlreadyClaimed,
}

impl From<OwnableError> for WorkflowError {
    fn from(error: OwnableError) -> (r: Self) {
        WorkflowError::OwnableError(error)
    }
}

impl vstd::std_specs::convert::FromSpecImpl<OwnableError> for WorkflowError {
    open spec fn obeys_from_spec() -> bool {
        true
    }

    open spec fn from_spec(error: OwnableError) -> Self {
        WorkflowError::OwnableError(error)
    }
}

/// The interface a reward workflow offers its callers: identity
/// registration, owner-gated approval, and claim settlement. The spec
/// methods expose the state the contracts below promise to maintain;
/// every implementation keeps registration write-once, approval
/// owner-gated, and a successful claim final.
pub trait Workflow: Sized {
    /// The implementation's internal validity.
    spec fn workflow_wf(&self) -> bool;

    /// The current owner.
    spec fn workflow_owner(&self) -> AccountId;

    /// The registered identities and the principals bound to them.
    spec fn workflow_identities(&self) -> Map<Seq<u8>, Seq<u8>>;

    /// Whether `caller` could claim `contribution_id` right now.
    spec fn workflow_claimable(&self, caller: AccountId, contribution_id: u64) -> bool;

    /// Registers the caller as an aspiring contributor under `identity`:
    /// exactly when the identity is free, it becomes bound to the caller;
    /// an existing binding is refused and never overwritten.
    fn register_identity(&mut self, caller: AccountId, identity: HashValue) -> (r: Result<
        (),
        WorkflowError,
    >)
        requires
            old(self).workflow_wf(),
        ensures
            final(self).workflow_wf(),
            old(self).workflow_identities().contains_key(identity@) ==> r == Err::<(),
            WorkflowError>(WorkflowError::IdentityAlreadyRegistered)
                && final(self).workflow_identities() == old(self).workflow_identities(),
            !old(self).workflow_identities().contains_key(identity@) ==> r == Ok::<(),
            WorkflowError>(())
                && final(self).workflow_identities()
                == old(self).workflow_identities().insert(identity@, caller@),
            final(self).workflow_owner() == old(self).workflow_owner(),
    ;

    /// Approves a contribution for a registered contributor identity.
    /// A caller other than the owner is refused before any state effect.
    fn approve(
        &mut self,
        caller: AccountId,
        contribution_id: u64,
        contributor_identity: HashValue,
    ) -> (r: Result<(), WorkflowError>)
        requires
            old(self).workflow_wf(),
        ensures
            final(self).workflow_wf(),
            caller@ != old(self).workflow_owner()@ ==> r == Err::<(), WorkflowError>(
                WorkflowError::OwnableError(OwnableError::CallerIsNotOwner),
            ) && *final(self) == *old(self),
            final(self).workflow_identities() == old(self).workflow_identities(),
            final(self).workflow_owner() == old(self).workflow_owner(),
    ;

    /// Checks whether `caller` could claim `contribution_id` right now.
    /// A pure read: a claim re-validates against current state.
    fn can_claim(&self, caller: AccountId, contribution_id: u64) -> (r: Result<
        bool,
        WorkflowError,
    >)
        requires
            self.workflow_wf(),
        ensures
            r matches Ok(b) ==> b,
            r is Ok <==> self.workflow_claimable(caller, contribution_id),
    ;

    /// Claims the reward for `contribution_id`, paying it out of the
    /// contract's account in `ledger`. Success requires a claimable
    /// contribution, and afterwards the same claim is closed for good.
    fn claim(&mut self, caller: AccountId, contribution_id: u64, ledger: &mut Ledger) -> (r: Result<
        (),
        WorkflowError,
    >)
        requires
            old(self).workflow_wf(),
            old(ledger).wf(),
        ensures
            final(self).workflow_wf(),
            final(ledger).wf(),
            r is Ok ==> old(self).workflow_claimable(caller, contribution_id),
            r is Ok ==> !final(self).workflow_claimable(caller, contribution_id),
            r is Err ==> *final(self) == *old(self) && final(ledger)@ == old(ledger)@,
            final(self).workflow_identities() == old(self).workflow_identities(),
            final(self).workflow_owner() == old(self).workflow_owner(),
    ;
}

} // verus!
