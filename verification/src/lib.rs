//! A custodial reward vault: verified authorization and custody accounting.
//!
//! The crate models the security core of a token vault that releases funds
//! only on presentation of a cryptographically authorized, time-bounded
//! instruction: a signer registry with a single owning authority, a replay
//! guard over consumed authorization signatures, a per-project deposit
//! ledger, and the coordinator operations that tie them together. Actual
//! token movement, account storage and event delivery belong to the
//! surrounding runtime; the operations here validate every precondition and
//! describe the resulting fund movement in their return values.

pub mod bytes;
pub mod claim;
pub mod config_signer;
pub mod crypto;
pub mod deposit;
pub mod error;
pub mod initialize;
pub mod ledger;
pub mod replay;
pub mod state;
pub mod transfer_ownership;
pub mod withdraw;

pub use claim::{claim, ClaimParam, TokenClaimed};
pub use config_signer::{config_signer, SignerConfigured};
pub use deposit::{deposit, DepositParam, SignatureParam, TokenDeposited};
pub use error::RewardVaultError;
pub use initialize::{initialize, RewardVaultInitialized};
pub use ledger::ProjectLedger;
pub use replay::ReplayGuard;
pub use state::{ProjectVault, Pubkey, RewardVault, MAX_SIGNERS};
pub use transfer_ownership::{transfer_ownership, RewardVaultOwnershipTransfered};
pub use withdraw::{withdraw, TokenWithdrawed, WithdrawalParam};
