//! Binding checks for the proofs of a hidden-board shooting game.
//!
//! A proof (a risc0 receipt) is first checked for cryptographic validity
//! against the program identity of its action, then its journal is decoded
//! into a commitment whose public fields must match what the verifying party
//! asked for. The state digest chain advances only after both steps pass.
pub mod types;
pub mod codec;
pub mod receipt;
pub mod registry;
pub mod binding;
pub mod chain;
pub mod action;
