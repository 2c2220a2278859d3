//! A value vault that gates every deposit by a configurable minimum and
//! maximum amount, set by a single administrator.
pub mod error;
pub mod laws;
pub mod limits;
pub mod vault;

pub use error::VaultError;
pub use limits::{DepositLimits, DEFAULT_MAX_DEPOSIT, MIN_DEPOSIT_FLOOR};
pub use vault::{DepositTransfer, LimitedVault};
