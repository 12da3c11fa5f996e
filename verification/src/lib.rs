//! Detection and bookkeeping of riskless pairings across two correlated
//! binary-outcome markets.
//!
//! Three parts work together. The detector ([`arbitrage`]) judges one
//! snapshot of quoted prices and reports the pairings that cost less than
//! they pay. The monitor ([`monitor`]) knows which two markets are current
//! and which tokens stand for their outcomes, and assembles the snapshots.
//! The tracker ([`trader`]) sizes and records positions and settles them
//! once both markets have resolved.
//!
//! Nothing here reads a clock, queries a market or places an order: the
//! caller hands in the time and the price source's answers, and is handed
//! back what to ask and what to place. Amounts are fixed-precision decimals
//! ([`decimal`]).

pub mod arbitrage;
pub mod clock;
pub mod decimal;
pub mod models;
pub mod monitor;
pub mod text;
pub mod trader;
