//! One module per operation. Each handler checks authorization and the preset
//! against the asset's record, updates the record, and returns the audit event;
//! the ledger operation that goes with it is performed by the caller within
//! the same atomic transaction.

pub mod mint;
pub mod burn;
pub mod transfer;
pub mod freeze;
pub mod roles;
pub mod compliance;
pub mod hook;
pub mod initialize;
