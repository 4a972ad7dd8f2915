//! The reasons for which a call is refused.

use vstd::prelude::*;

verus! {

/// Why a call was refused. A refused call leaves the state untouched.
#[derive(Clone, Copy, Debug, PartialEq, Eq, Structural)]
pub enum TokenError {
    /// `init` was called on a token that already has a configuration.
    AlreadyInitialized,
    /// The operation needs a configuration and there is none yet.
    NotInitialized,
    /// `max_supply <= 0`, `base_price <= 0` or `slope < 0`.
    InvalidConfig,
    /// A negative initial supply or liquidity, or an initial supply above the cap.
    InvalidInit,
    /// The caller did not prove its identity, or lacks the owner's role.
    Unauthorized,
    /// The amount is zero or negative.
    InvalidAmount,
    /// The holder owns fewer units than the operation moves.
    InsufficientBalance,
    /// Selling the amount would take the supply below zero.
    InsufficientSupply,
    /// The pool holds less than it is asked to pay out.
    InsufficientLiquidity,
    /// The buyer's ceiling is below the cost.
    InsufficientPayment,
    /// The seller's floor is above the proceeds.
    Slippage,
    /// The purchase would take the supply above the cap.
    ExceedsMaxSupply,
    /// Buying and selling are switched off.
    TradingDisabled,
    /// A value left the range of a signed 128-bit integer.
    ArithmeticOverflow,
}

/// Why a call on the paper registry was refused.
#[derive(Clone, Copy, Debug, PartialEq, Eq, Structural)]
pub enum RegistryError {
    /// `init` was called on a registry that already has an administrator.
    AlreadyInitialized,
    /// The operation needs an administrator and there is none yet.
    NotInitialized,
    /// The caller did not prove its identity, or lacks the role asked for.
    Unauthorized,
    /// The metadata reference is empty.
    MetadataRequired,
    /// The identifiers are used up.
    IdOverflow,
    /// No paper has this identifier.
    PaperNotFound,
}

/// Why a call on the marketplace was refused.
#[derive(Clone, Copy, Debug, PartialEq, Eq, Structural)]
pub enum MarketplaceError {
    /// `init` was called on a marketplace that already has a configuration.
    AlreadyInitialized,
    /// The operation needs a configuration and there is none yet.
    NotInitialized,
    /// The caller did not prove its identity, or lacks the role asked for.
    Unauthorized,
    /// The paper is listed already.
    ListingExists,
    /// The paper is not listed.
    ListingNotFound,
    /// A trade with an amount or a cost of zero or less.
    InvalidTrade,
}

} // verus!
