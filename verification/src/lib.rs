//! Core logic for a clone-and-tweak workflow on smart contracts: checking
//! that an edited contract's storage layout is compatible with the deployed
//! original, and computing the account-state update that substitutes edited
//! bytecode for an address in a forked execution backend.

pub mod account;
pub mod compat;
pub mod fork;
pub mod layout;
