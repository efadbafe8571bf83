//! Arithmetic core of a two-asset constant-product liquidity pool.
//!
//! Given pool reserves, the pool-share supply and a basis-points fee rate,
//! this library computes exchange outputs, proportional deposit/withdrawal
//! conversions and single-asset conversions, using exact integer and
//! fixed-point arithmetic with explicit rounding rules.  Every function is a
//! pure, deterministic function of its inputs and returns either a settled
//! amount or a typed failure; rounding always favors the pool.
//!
//! Account handling, authority checks and token transfers are the caller's
//! business: the library consumes and produces plain numeric values only.

pub mod arith;
pub mod curve;
pub mod error;
pub mod fees;
pub mod instructions;
pub mod precise;
pub mod state;
