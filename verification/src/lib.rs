//! A verified reward-workflow core: contributors register an external
//! identity, a run of an external workflow is attested by a trusted
//! signer's detached signature and consumed at most once, the owner
//! approves contributions bound to registered identities, and each
//! approved contribution pays its reward exactly once.
//!
//! Two contract variants share the same building blocks: `SingleToken`
//! holds at most one contribution at a time; `AssetReward` keeps a
//! registry of contributions keyed by id and carries the run attestation
//! verifier.

pub mod asset_reward;
pub mod contributions;
pub mod crypto;
pub mod identity;
pub mod ledger;
pub mod runs;
pub mod single_token;
pub mod types;
pub mod workflow;

pub use types::AccountId;
pub use types::Balance;
pub use types::Contribution;
pub use types::HashValue;
