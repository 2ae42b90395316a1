//! A fungible-token ledger and the vending machine that sells mint requests
//! against it, written as plain state transitions with proved contracts.
//!
//! Each unit is a value that is changed only through its own operations. What a
//! host would supply from outside (who is calling, what was attached to the
//! call, what a remote call answered) arrives as ordinary arguments.

pub mod access;
pub mod audit;
pub mod context;
pub mod counter;
pub mod errors;
pub mod exchange;
pub mod gateway;
pub mod json;
pub mod laws;
pub mod ledger;
pub mod metadata;
pub mod supply;
pub mod text;
pub mod token;
pub mod vending;
