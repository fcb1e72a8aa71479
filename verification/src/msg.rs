//! The messages that the contract takes and the answers that it gives.

use vstd::prelude::*;
use crate::state::Coin;
use crate::text::Attribute;

verus! {

/// Sets the contract up. `eps` is carried but not read: the emission rate is
/// derived from `monthly_reward`.
#[derive(Clone, Debug, PartialEq, Eq)]
pub struct InstantiateMsg {
    pub monthly_reward: Coin,
    pub eps: u128,
}

/// The operations a staker can ask for.
#[derive(Clone, Debug, PartialEq, Eq)]
pub enum ExecuteMsg {
    Stake { amount: Coin },
    Withdraw { amount: Coin },
    Claim {},
}

/// The questions the contract answers.
#[derive(Clone, Debug, PartialEq, Eq)]
pub enum QueryMsg {
    Configure {},
    User { address: String },
}

/// A staker's position as a query reports it.
#[derive(Clone, Debug, PartialEq, Eq)]
pub struct UserResponse {
    pub staked_amount: Coin,
    pub exchange_rate: u128,
    pub rewards: u128,
}

/// The configuration as a query reports it.
#[derive(Clone, Debug, PartialEq, Eq)]
pub struct ConfigResponse {
    pub monthly_reward: Coin,
    pub total_value_locked: Coin,
    pub eps: u128,
    pub global_exchange_rate: u128,
}

/// The attributes that the set-up reports.
#[derive(Clone, Debug, PartialEq, Eq)]
pub struct Instantiated {
    pub config: crate::state::Config,
    pub attributes: Vec<Attribute>,
}

/// What a successful stake, withdrawal or claim leaves behind: the new
/// configuration, the acting staker's new record, and the attributes reported.
#[derive(Clone, Debug, PartialEq, Eq)]
pub struct Outcome {
    pub config: crate::state::Config,
    pub user: crate::state::User,
    pub attributes: Vec<Attribute>,
}

} // verus!
