//! Stable error codes of the governance core and of the treasury ledger.
//!
//! Every failing operation reports exactly one of these codes, so external
//! callers can branch on the cause: timing errors may be retried later,
//! authorization errors must not be.

use vstd::prelude::*;

verus! {

/// Error codes of the governance operations.
#[derive(Clone, Copy, PartialEq, Eq, Structural, Debug)]
pub enum CoreError {
    /// The system was already initialized.
    AlreadyInitialized,
    /// The requested operational agent cap exceeds the hard limit.
    AgentCapExceedsHardLimit,
    /// The active-agent population cap was reached.
    AgentCapReached,
    /// The caller does not hold the required authority.
    Unauthorized,
    /// Evaluator agents may never hold execution permission.
    EvaluatorCannotExecute,
    /// A time-to-live must lie in the future.
    InvalidTTL,
    /// The agent is not in the `Active` status.
    AgentNotActive,
    /// The agent was already killed; killed agents are immutable.
    AgentAlreadyKilled,
    /// The immutable policy layer cannot be changed.
    ImmutableLayerCannotChange,
    /// The proposed delay is outside the bounds of the policy layer.
    InvalidDelay,
    /// The policy layer is unknown.
    InvalidPolicyLayer,
    /// The proposal is not in the `Pending` status.
    ProposalNotPending,
    /// The mandatory delay has not elapsed yet.
    DelayNotElapsed,
    /// The proposal's execution window has closed.
    ProposalExpired,
    /// A circuit breaker may only escalate, never de-escalate.
    InvalidModeTransition,
    /// A checked arithmetic operation overflowed.
    MathOverflow,
    /// The three governing authorities must be pairwise distinct.
    AuthoritiesMustBeDistinct,
    /// There is no pending top-authority transfer to accept.
    NoPendingSuperAuthority,
    /// Autonomous execution is not enabled for this user and agent.
    HermesNotAuthorized,
    /// The daily autonomous-transaction limit was reached.
    DailyLimitExceeded,
}

/// Error codes of the treasury ledger operations.
#[derive(Clone, Copy, PartialEq, Eq, Structural, Debug)]
pub enum TreasuryError {
    /// The treasury has not been initialized.
    NotInitialized,
    /// A checked arithmetic operation overflowed.
    ArithmeticOverflow,
    /// The amount must be greater than zero.
    ZeroAmount,
    /// The four-way split does not sum to the paid amount.
    SplitMismatch,
    /// The caller is not the configured creator wallet.
    InvalidCreatorWallet,
    /// The caller does not hold the operational authority.
    UnauthorizedAeon,
    /// The caller does not hold the keeper authority.
    UnauthorizedKeeper,
    /// The budget would exceed its cap relative to the free balance.
    AgentBudgetCapExceeded,
    /// The pending donation balance is zero.
    NothingToSweep,
    /// The creator's accumulated balance is too small.
    InsufficientCreatorBalance,
    /// The withdrawal would breach the reserve-ratio floor.
    ReserveRatioBreach,
    /// The treasury balance is too small for the withdrawal.
    InsufficientTreasuryBalance,
    /// The rolling daily spend cap was exceeded.
    DailySpendCapExceeded,
}

} // verus!
