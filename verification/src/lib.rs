//! A pooled-liquidity vault.
//!
//! Depositors hand liquidity-provider (LP) tokens to a shared pool and are
//! issued shares, each a proportional claim on the pooled units.  The vault
//! also tracks a position in an outside concentrated-liquidity market; when
//! the market price leaves the configured band, a rebalance pipeline closes
//! the position, harvests its accrued reward and fees, and opens a
//! replacement over freshly computed bounds, all within one all-or-nothing
//! transaction.
//!
//! The crate holds the verified core: the share-accounting ledger
//! ([`vault`]), the range policy ([`policy`]), and the rebalance
//! orchestrator ([`orchestrator`]).  The collaborators the core drives (the
//! token ledger, the liquidity pool, the price oracle) perform their work
//! outside this crate; the orchestrator tells a caller what to ask of them
//! and accounts for every outcome they can report.

pub mod errors;
pub mod orchestrator;
pub mod policy;
pub mod vault;
