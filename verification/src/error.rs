//! Why an operation was rejected.

use vstd::prelude::*;

verus! {

/// The reason an operation ended without emitting any effect.
#[derive(Clone, Copy, Debug, PartialEq, Eq, Structural)]
pub enum ContractError {
    /// No configuration is stored for this vault.
    ConfigMissing,
    /// The caller is not the owner of the vault.
    Unauthorized,
    /// The oracle quoted a unit price of zero.
    InvalidPrice,
    /// The vault holds fewer tokens than the deposit would buy.
    InsufficientTokenInventory,
    /// The oracle could not be reached.
    OracleUnavailable,
    /// The oracle's reply could not be decoded.
    OracleMalformed,
    /// The staking subsystem did not deliver a delegation snapshot.
    StakingQueryFailed,
    /// The vault has no delegation with its validator.
    NoActiveDelegation,
}

} // verus!
