//! The stored state: the contract's configuration and each staker's record.

use vstd::prelude::*;

verus! {

/// An amount of one denomination.
#[derive(Clone, Debug, PartialEq, Eq)]
pub struct Coin {
    pub denom: String,
    pub amount: u128,
}

/// The contract-wide state.
///
/// `eps` is the emission per second; the global exchange rate grows by
/// `eps * elapsed * 1_000_000 / total_value_locked` whenever time passes while
/// something is staked.
#[derive(Clone, Debug, PartialEq, Eq)]
pub struct Config {
    pub monthly_reward: Coin,
    pub total_value_locked: Coin,
    pub eps: u128,
    pub last_update_time: u64,
    pub global_exchange_rate: u128,
}

/// One staker's record. `exchange_rate` is the global exchange rate at the
/// staker's last action; `rewards` are the rewards settled so far.
#[derive(Clone, Debug, PartialEq, Eq)]
pub struct User {
    pub staked_amount: Coin,
    pub exchange_rate: u128,
    pub last_staked_time: u64,
    pub rewards: u128,
}

} // verus!
