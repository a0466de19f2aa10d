//! A compliance and access-control policy layer for a fungible token ledger.
//!
//! Two presets are supported: a minimal one (mint and freeze authority) and a
//! compliant one, which adds an address blacklist, seizure through a permanent
//! delegate, and a policy check that runs before every transfer. The ledger
//! itself (balances, freeze flags, the movement of value) is an outside
//! collaborator: the functions here decide, update the per-asset records and
//! produce the audit events, and the caller performs the ledger operation in
//! the same atomic transaction.

pub mod pubkey;
pub mod errors;
pub mod state;
pub mod events;
pub mod instructions;
pub mod lemmas;
pub mod sss;
pub mod registry;
