//! A bonding-curve trading core with an NFT marketplace ledger.
//!
//! The crate prices and settles trades against a single-reserve bonding
//! curve and settles peer-to-peer NFT sales with primary/secondary pricing
//! rules. Custody of the underlying assets (moving balances, minting and
//! burning tokens) is delegated to a [`backend::LedgerBackend`]
//! implementation supplied by the caller; everything the core itself
//! decides — curve math, fees, threshold detection, the price-history ring
//! buffer, and the atomic state transitions of the two ledgers — is
//! verified.

pub mod account;
pub mod backend;
pub mod curve;
pub mod errors;
pub mod nft;
pub mod pool;
