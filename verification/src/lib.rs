//! A verified on-chain voting registry: proposals with a bounded choice list
//! and a deadline, one tally cell per choice, and a deletion cooldown that
//! keeps an expired proposal readable for thirty days before its storage can
//! be reclaimed.

pub mod errors;
pub mod proposal;
pub mod store;
