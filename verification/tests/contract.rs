use std::collections::HashMap;

use staking::contract::{
    instantiate, query_config, query_user, query_user_fits, stake_fits, try_claim, try_stake,
    try_withdraw, update_global_state, withdraw_fits, claim_fits, INITIAL_EXCHANGE_RATE,
};
use staking::error::ContractError;
use staking::msg::{ConfigResponse, InstantiateMsg, UserResponse};
use staking::state::{Coin, Config, User};
use staking::text::Attribute;

/// The block time of the usual test environment, in seconds.
const START: u64 = 1_571_797_419;

/// The emission rate, as the contract's host computes it in floating point.
fn calculate_eps(config: &Config) -> u128 {
    if config.total_value_locked.amount == 0 {
        0
    } else {
        let monthly_seconds = 30 * 24 * 60 * 60;
        let reward_per_second = config.monthly_reward.amount as f64 / monthly_seconds as f64;
        let eps = reward_per_second / config.total_value_locked.amount as f64;
        (eps * 1_000_000_000.0).round() as u128
    }
}

fn orai(amount: u128) -> Coin {
    Coin { denom: "orai".to_string(), amount }
}

/// The contract's storage and clock, driven as the host drives it.
struct Chain {
    config: Config,
    users: HashMap<String, User>,
    now: u64,
}

impl Chain {
    fn new(monthly: u128) -> (Chain, Vec<Attribute>) {
        let msg = InstantiateMsg { monthly_reward: orai(monthly), eps: 1 };
        let probe = Config {
            monthly_reward: orai(monthly),
            total_value_locked: orai(1),
            eps: 0,
            last_update_time: START,
            global_exchange_rate: INITIAL_EXCHANGE_RATE,
        };
        let out = instantiate(msg, START, calculate_eps(&probe));
        (Chain { config: out.config, users: HashMap::new(), now: START }, out.attributes)
    }

    fn stake(&mut self, who: &str, amount: u128) -> Result<Vec<Attribute>, ContractError> {
        let user = self.users.get(who).cloned();
        let amount = orai(amount);
        assert!(stake_fits(&self.config, &user, &amount, self.now));
        let out = try_stake(self.config.clone(), user, amount, self.now);
        self.config = out.config;
        self.config.eps = calculate_eps(&self.config);
        self.users.insert(who.to_string(), out.user);
        Ok(out.attributes)
    }

    fn withdraw(&mut self, who: &str, amount: u128) -> Result<Vec<Attribute>, ContractError> {
        let user = self.users.get(who).cloned().expect("user not found");
        let amount = orai(amount);
        assert!(withdraw_fits(&self.config, &user, &amount, self.now));
        let out = try_withdraw(self.config.clone(), user, amount, self.now)?;
        self.config = out.config;
        self.config.eps = calculate_eps(&self.config);
        self.users.insert(who.to_string(), out.user);
        Ok(out.attributes)
    }

    fn claim(&mut self, who: &str) -> Result<Vec<Attribute>, ContractError> {
        let user = self.users.get(who).cloned().expect("user not found");
        assert!(claim_fits(&self.config, &user, self.now));
        let out = try_claim(self.config.clone(), user, self.now)?;
        self.config = out.config;
        self.users.insert(who.to_string(), out.user);
        Ok(out.attributes)
    }

    fn query_user(&self, who: &str) -> UserResponse {
        let user = self.users.get(who).cloned().expect("user not found");
        assert!(query_user_fits(&self.config, &user));
        query_user(&self.config, user, self.now)
    }

    fn query_config(&self) -> ConfigResponse {
        query_config(self.config.clone())
    }
}

#[test]
fn initialization() {
    let (chain, attributes) = Chain::new(1000000);
    assert_eq!(attributes.len(), 1);
    assert_eq!(attributes[0].key, "method");
    assert_eq!(attributes[0].value, "instantiate");

    let config = chain.query_config();
    assert_eq!(config.monthly_reward.amount, 1000000);
    assert_eq!(config.total_value_locked.amount, 0);
}

#[test]
fn stake_tokens() {
    let (mut chain, _) = Chain::new(1000000);
    let attributes = chain.stake("alice", 100).unwrap();
    assert_eq!(attributes[0].value, "stake");

    let user = chain.query_user("alice");
    assert_eq!(user.staked_amount.amount, 100);
}

#[test]
fn withdraw_tokens() {
    let (mut chain, _) = Chain::new(1000000);
    chain.stake("alice", 100).unwrap();

    chain.now += 86400; // 1 day later

    let attributes = chain.withdraw("alice", 50).unwrap();
    assert_eq!(attributes[0].value, "withdraw");

    let user = chain.query_user("alice");
    assert_eq!(user.staked_amount.amount, 50);
}

#[test]
fn two_person_acts() {
    let (mut chain, _) = Chain::new(1000000);

    // Alice stakes 100 ORAI
    chain.stake("alice", 100).unwrap();
    // Bob stakes 200 ORAI
    chain.stake("bob", 200).unwrap();

    // Forward time; bringing a copy up to date stores nothing
    chain.now += 1_296_000;
    let mut copy = chain.config.clone();
    update_global_state(&mut copy, chain.now);

    // Bob withdraws half (100 ORAI)
    chain.withdraw("bob", 100).unwrap();

    // Forward time
    chain.now += 2_206_000;
    let mut copy = chain.config.clone();
    update_global_state(&mut copy, chain.now);

    // Alice withdraws all (100 ORAI)
    chain.withdraw("alice", 100).unwrap();
    // Bob withdraws the rest (100 ORAI)
    chain.withdraw("bob", 100).unwrap();

    let user = chain.query_user("alice");
    println!("Alice - Staked amount: {}, Rewards: {}", user.staked_amount.amount, user.rewards);
    assert_eq!(user.staked_amount.amount, 0);
    assert!(user.rewards > 0);

    let user = chain.query_user("bob");
    println!("Bob - Staked amount: {}, Rewards: {}", user.staked_amount.amount, user.rewards);
    assert_eq!(user.staked_amount.amount, 0);
    assert!(user.rewards > 0);
}

#[test]
fn claim_rewards() {
    let (mut chain, _) = Chain::new(1000000);

    // Alice stakes 100 ORAI
    chain.stake("alice", 100).unwrap();

    // Forward time
    chain.now += 86400; // 1 day

    // Alice claims rewards
    let attributes = chain.claim("alice").unwrap();
    assert_eq!(attributes[0].value, "claim");
    assert!(attributes.iter().any(|attr| attr.key == "amount" && attr.value != "0"));

    // Query Alice's state
    let user = chain.query_user("alice");
    assert_eq!(user.rewards, 0);
}
