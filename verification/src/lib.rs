//! Accounting core of a two-asset constant-product automated market maker.
//!
//! The library computes how many liquidity shares to mint or burn when a
//! provider deposits into or withdraws from a pool, and how much output a
//! trader receives for a given input under a proportional fee on the input.
//! It never moves funds itself: callers hand it a consistent snapshot of the
//! two reserve balances together with the pool's share supply, and it returns
//! the amounts the custody layer should transfer, mint or burn.

pub mod error;
pub mod liquidity;
pub mod math;
pub mod state;
pub mod swap;
