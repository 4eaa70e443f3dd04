//! Decision core of a custodial staking vault.
//!
//! The vault sells a fungible token for deposits of the native asset at a
//! price quoted by an oracle, stakes every deposit with one validator, and
//! lets its owner harvest staking rewards or unwind the stake.
//!
//! Nothing here touches storage or the network. An operation is advanced
//! in steps: each step either asks the host for one read, or ends the
//! operation with the ordered batch of effects to submit, or with an error
//! and no effect at all.

pub mod amount;
pub mod contract;
pub mod effect;
pub mod error;
pub mod laws;
pub mod msg;
pub mod run;
pub mod state;
pub mod step;
