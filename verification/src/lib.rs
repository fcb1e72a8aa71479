//! A staking ledger: users stake coins, a global exchange rate grows with
//! time at the configured emission rate, and each user's pending rewards are
//! the growth of that rate since the user last acted, weighted by the stake.

pub mod contract;
pub mod error;
pub mod laws;
pub mod math;
pub mod msg;
pub mod state;
pub mod text;
