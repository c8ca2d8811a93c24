//! The ways an operation of the token or of the treasury can fail.

use vstd::prelude::*;

verus! {

/// Why a configuration was refused.
#[derive(Clone, Copy, Debug, PartialEq, Eq, Structural)]
pub enum ConfigFault {
    /// The quote asset differs from that of the pair already configured.
    QuoteMismatch,
    /// The asset of interest of the liquidity pair is a native currency.
    TokenNotCw20,
    /// The asset of interest is not one of the pair contract's assets.
    TargetNotInPair,
    /// The quote asset is not one of the pair contract's assets.
    QuoteNotInPair,
    /// The reflection and burn shares together exceed the balance.
    SharesExceedBalance,
}

/// Why a request was refused although its sender was entitled to make it.
#[derive(Clone, Copy, Debug, PartialEq, Eq, Structural)]
pub enum ValidationFault {
    /// An address is not one the host accepts.
    InvalidAddress,
    /// The asset asked for is the share token of the liquidity pool.
    LiquidityTokenWithdrawal,
    /// The treasury holds nothing of the contract token asked for.
    NoCw20Balance,
    /// The treasury holds nothing of the native currency asked for.
    NoNativeBalance,
    /// The allowance would no longer fit in 128 bits.
    AllowanceOverflow,
    /// The initial balances together do not fit in 128 bits.
    SupplyOverflow,
}

/// Failure of one invocation. Nothing of a failed invocation is kept.
#[derive(Clone, Copy, Debug, PartialEq, Eq, Structural)]
pub enum ContractError {
    /// The sender lacks the role or membership the operation asks for.
    Unauthorized,
    /// The account holds less than the amount to be moved.
    InsufficientFunds,
    /// The spender is allowed less than the amount to be moved.
    InsufficientAllowance,
    /// The allowance has run out of time.
    AllowanceExpired,
    /// The configuration asked for, or found, is not acceptable.
    InvalidConfiguration(ConfigFault),
    /// Another contract did not answer a query, or answered nonsense.
    ExternalQueryFailure,
    /// The request itself is not acceptable.
    GenericValidationError(ValidationFault),
}

} // verus!
