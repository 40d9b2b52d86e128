//! UltraCore Rift: a participant ledger driven by a global scalar field, and a
//! share token that is issued at a rate set by that field.
//!
//! * `rift_common` holds the protocol constants and the error codes.
//! * `account` holds the plain values an instruction works on: keys, accounts
//!   and the instruction context.
//! * `solana` holds the calls into the Solana runtime library.
//! * `address` says at which addresses the protocol's accounts stand.
//! * `ultra_core_rift` is the core program, `rift_token` the token program.
pub mod account;
pub mod address;
pub mod rift_common;
pub mod rift_token;
pub mod solana;
pub mod ultra_core_rift;
