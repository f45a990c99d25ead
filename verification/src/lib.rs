//! Transactional core of an NFT auction-and-mint ledger.
//!
//! The library tracks listings of non-fungible assets put up for bid,
//! enforces auction timing and escrow rules, settles auctions by routing
//! funds and asset custody, and gates minting of new assets behind a
//! whitelist plus a royalty-sum constraint.  Every operation is a pure
//! transition: it takes the current state and plain request values, and
//! returns the new state together with the outbound intents the execution
//! environment must carry out.

pub mod coin_helpers;
pub mod contract;
pub mod error;
pub mod laws;
pub mod msg;
pub mod numfmt;
pub mod state;

pub use error::{ContractError, StdErr};
