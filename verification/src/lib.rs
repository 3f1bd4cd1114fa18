//! Replays an ordered log of financial transactions into per-client account
//! balances, with deposit/withdrawal/dispute/resolve/chargeback semantics and
//! exact decimal arithmetic.

pub mod account;
pub mod amount;
pub mod processor;
pub mod transaction;
