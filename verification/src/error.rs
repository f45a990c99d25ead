//! Error kinds returned by the engine operations.

use vstd::prelude::*;

verus! {

/// Underlying storage / validation error class: failures that do not come
/// from the engines' own rules, such as a missing record.
#[derive(Clone, Copy, Debug, PartialEq, Eq, Structural)]
pub enum StdErr {
    /// A record was looked up under a key that is not present.
    NotFound,
}

/// Every way an engine operation can fail.  An error aborts the whole
/// request: no mutation and no outbound intent takes effect.
#[derive(Clone, Copy, Debug, PartialEq, Eq, Structural)]
pub enum ContractError {
    /// Wrapped storage / validation failure.
    Std(StdErr),
    /// Caller lacks the required role or whitelist entry.
    Unauthorized,
    /// Bid below the required minimum.
    InsufficientFundsSend,
    /// Bid placed after the closing height.
    AuctionEnded,
    /// Withdraw attempted at or before the closing height.
    AuctionNotEnded,
    /// Defined for minter-registry failures; the mint path reports
    /// authorization failures as `Unauthorized` instead.
    UnregisteredMinter,
    /// Royalty rates summing to more than one.
    InvalidRoyaltyRate,
}

} // verus!
