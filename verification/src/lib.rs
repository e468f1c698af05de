//! Core of a two-asset constant-product liquidity pool: the curve arithmetic
//! that quotes deposits, withdrawals and swaps, and the operations that
//! validate a request, quote it, and move the pool's balances accordingly.
//! The ledger that actually custodies the tokens is the host's business; this
//! crate works on the balance figures it is handed.

pub mod curve;
pub mod deposit;
pub mod error;
pub mod initialize;
pub mod state;
pub mod swap;
pub mod withdraw;
