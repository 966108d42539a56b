//! A two-party token escrow: an initializer deposits one asset and names the
//! amount of another asset it expects; a taker completes the swap in one
//! step. This crate holds the escrow's rules (decoding, the record's layout,
//! the two transitions and the authority that holds the deposit in between)
//! and proves them against their contracts.

pub mod wire;
pub mod pubkey;
pub mod error;
pub mod instruction;
pub mod state;
pub mod token;
pub mod account;
pub mod rent;
pub mod processor;
pub mod guarantees;
