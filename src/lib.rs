//! Stake-weighted governance engine: proposals, weighted votes, and ordered
//! dispatch of the instructions that an accepted proposal bundles.
pub mod accounts;
pub mod address;
pub mod error;
pub mod laws;
pub mod processor;
pub mod state;
pub mod threshold;
pub mod transaction;
