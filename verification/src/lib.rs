//! A proportional-share custodial vault.
//!
//! Depositors contribute units of an underlying fungible asset and receive a
//! proportional claim on the vault's holdings, represented as units of a
//! second fungible "share" asset; later they redeem shares for a proportional
//! slice of the vault's underlying balance.
//!
//! The crate is organised around the share-accounting engine (the
//! deposit/redeem exchange-rate algorithm with its numeric-safety guards),
//! the registry of vault records, and an invariant oracle that drives the
//! engine through arbitrary scenarios and checks the economic invariants
//! against before/after snapshots.

pub mod accounts;
pub mod engine;
pub mod error;
pub mod laws;
pub mod math;
pub mod oracle;
pub mod registry;
pub mod state;
