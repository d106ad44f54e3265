use vstd::prelude::*;

verus! {

/// Why a command was rejected. A rejected command leaves the contract state unchanged.
#[derive(Clone, Copy, Debug, PartialEq, Eq, Structural)]
pub enum ContractError {
    /// The caller is not the identity that the command requires (owner, minter or burner).
    Unauthorized,
    /// A chain id or a job id is empty.
    EmptyId,
    /// An amount of zero was asked for.
    ZeroAmount,
    /// The deposited amount does not exceed the chain's minimum.
    BelowMinimum,
    /// A retry delay of zero was asked for.
    InvalidRetryDelay,
    /// No setting is registered for the chain.
    NoChainSetting,
    /// No pending withdrawal is recorded under the nonce.
    NotFound,
    /// The retry delay has not elapsed since the last dispatch.
    RetryTooEarly,
    /// A cancellation came before the retry delay elapsed since the last dispatch.
    WithdrawPending,
    /// A remote address is not forty hex digits.
    InvalidAddress,
    /// An argument does not fit the remote function's parameter types.
    EncodingMismatch,
    /// The withdrawal nonce counter has reached its largest value.
    NonceExhausted,
    /// No funds were attached at instantiation.
    InsufficientFunds,
    /// No earlier configuration was found to migrate from.
    MigrationFailed,
}

} // verus!
