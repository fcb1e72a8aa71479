use staking::contract::{
    calculate_rewards, claim_fits, instantiate, query_config, query_user, query_user_fits,
    stake_fits, try_claim, try_stake, try_withdraw, update_global_state, withdraw_fits,
    INITIAL_EXCHANGE_RATE, RATE_SCALE,
};
use staking::error::ContractError;
use staking::msg::InstantiateMsg;
use staking::state::{Coin, Config, User};
use staking::text::{coin_string, decimal_string, push_decimal};

fn coin(denom: &str, amount: u128) -> Coin {
    Coin { denom: denom.to_string(), amount }
}

fn config(tvl: u128, eps: u128, last: u64, global: u128) -> Config {
    Config {
        monthly_reward: coin("orai", 1_000_000),
        total_value_locked: coin("orai", tvl),
        eps,
        last_update_time: last,
        global_exchange_rate: global,
    }
}

fn user(staked: u128, rate: u128, rewards: u128) -> User {
    User { staked_amount: coin("orai", staked), exchange_rate: rate, last_staked_time: 0, rewards }
}

#[test]
fn decimal_rendering() {
    assert_eq!(decimal_string(0), "0");
    assert_eq!(decimal_string(7), "7");
    assert_eq!(decimal_string(10), "10");
    assert_eq!(decimal_string(1234567890), "1234567890");
    assert_eq!(decimal_string(u128::MAX), u128::MAX.to_string());
    let mut s = "x=".to_string();
    push_decimal(&mut s, 405);
    assert_eq!(s, "x=405");
    assert_eq!(coin_string(&coin("orai", 100)), "100orai");
    assert_eq!(coin_string(&coin("uatom", 0)), "0uatom");
}

#[test]
fn instantiate_sets_up_empty_pool() {
    let msg = InstantiateMsg { monthly_reward: coin("orai", 5000), eps: 99 };
    let out = instantiate(msg, 42, 7);
    assert_eq!(out.config, Config {
        monthly_reward: coin("orai", 5000),
        total_value_locked: coin("orai", 0),
        eps: 7,
        last_update_time: 42,
        global_exchange_rate: INITIAL_EXCHANGE_RATE,
    });
    assert_eq!(out.attributes.len(), 1);
    assert_eq!(out.attributes[0].key, "method");
    assert_eq!(out.attributes[0].value, "instantiate");
}

#[test]
fn global_rate_growth_formula() {
    // growth = eps * elapsed * 1_000_000 / tvl = 10 * 10 * 1_000_000 / 100
    let mut c = config(100, 10, 0, 1_000_000);
    update_global_state(&mut c, 10);
    assert_eq!(c.global_exchange_rate, 2_000_000);
    assert_eq!(c.last_update_time, 10);
    // floored: 3 * 1 * 1_000_000 / 7 = 428571.42...
    let mut c = config(7, 3, 5, 0);
    update_global_state(&mut c, 6);
    assert_eq!(c.global_exchange_rate, 428_571);
}

#[test]
fn update_without_stake_or_time_only_moves_clock() {
    let mut c = config(0, 10, 0, 1_000_000);
    update_global_state(&mut c, 1000);
    assert_eq!(c.global_exchange_rate, 1_000_000);
    assert_eq!(c.last_update_time, 1000);
    let mut c = config(100, 10, 50, 1_000_000);
    update_global_state(&mut c, 50);
    assert_eq!(c.global_exchange_rate, 1_000_000);
}

#[test]
fn update_is_idempotent_at_same_time() {
    let mut once = config(300, 123, 0, 1_000_000);
    update_global_state(&mut once, 999);
    let mut twice = once.clone();
    update_global_state(&mut twice, 999);
    assert_eq!(once, twice);
}

#[test]
fn rewards_are_floored_ratio() {
    // 5 * 990_000 / 1_000_000 = 4.95, floored to 4
    let c = config(100, 0, 0, 1_990_000);
    assert_eq!(calculate_rewards(&c, &user(5, 1_000_000, 0), 0), 4);
    assert_eq!(calculate_rewards(&c, &user(100, 1_000_000, 0), 0), 99);
    // nothing locked: nothing pending
    let c = config(0, 0, 0, 1_990_000);
    assert_eq!(calculate_rewards(&c, &user(100, 1_000_000, 0), 0), 0);
}

#[test]
fn no_stake_no_rewards() {
    let c = config(100, 0, 0, 5_000_000);
    assert_eq!(calculate_rewards(&c, &user(0, 1_000_000, 0), 0), 0);
}

#[test]
fn first_stake_starts_at_current_rate() {
    let c = config(0, 0, 0, 1_000_000);
    let out = try_stake(c, None, coin("orai", 100), 10);
    assert_eq!(out.user, User {
        staked_amount: coin("orai", 100),
        exchange_rate: 1_000_000,
        last_staked_time: 10,
        rewards: 0,
    });
    assert_eq!(out.config.total_value_locked.amount, 100);
    assert_eq!(out.config.last_update_time, 10);
    assert_eq!(out.attributes[0].key, "action");
    assert_eq!(out.attributes[0].value, "stake");
    assert_eq!(out.attributes[1].key, "amount");
    assert_eq!(out.attributes[1].value, "100orai");
}

#[test]
fn stake_settles_rewards_and_moves_both_totals() {
    // growth over 10 s: 10 * 10 * 1_000_000 / 100 = 1_000_000
    let c = config(100, 10, 0, 1_000_000);
    let u = user(100, 1_000_000, 7);
    let out = try_stake(c, Some(u), coin("orai", 50), 10);
    assert_eq!(out.config.global_exchange_rate, 2_000_000);
    assert_eq!(out.config.total_value_locked.amount, 150);
    assert_eq!(out.config.eps, 10);
    assert_eq!(out.user.staked_amount.amount, 150);
    assert_eq!(out.user.rewards, 107);
    assert_eq!(out.user.exchange_rate, 2_000_000);
    assert_eq!(out.user.last_staked_time, 10);
}

#[test]
fn withdraw_more_than_staked_is_refused() {
    let c = config(100, 10, 0, 1_000_000);
    let u = user(100, 1_000_000, 0);
    let r = try_withdraw(c, u, coin("orai", 101), 10);
    assert_eq!(r, Err(ContractError::InsufficientStaked {}));
}

#[test]
fn withdraw_settles_and_takes_from_both_totals() {
    let c = config(100, 10, 0, 1_000_000);
    let u = user(100, 1_000_000, 0);
    let out = try_withdraw(c, u, coin("orai", 40), 10).unwrap();
    assert_eq!(out.config.total_value_locked.amount, 60);
    assert_eq!(out.user.staked_amount.amount, 60);
    assert_eq!(out.user.rewards, 100);
    assert_eq!(out.user.exchange_rate, 2_000_000);
    assert_eq!(out.attributes[0].value, "withdraw");
    assert_eq!(out.attributes[1].value, "40orai");
}

#[test]
fn withdraw_undoes_stake_at_same_time() {
    let c = config(100, 10, 0, 1_000_000);
    let u = user(100, 1_000_000, 0);
    let staked = try_stake(c.clone(), Some(u.clone()), coin("orai", 30), 10);
    let back = try_withdraw(staked.config, staked.user, coin("orai", 30), 10).unwrap();
    let mut brought_up = c;
    update_global_state(&mut brought_up, 10);
    assert_eq!(back.config, brought_up);
    assert_eq!(back.user.staked_amount, u.staked_amount);
    assert_eq!(back.user.rewards, 100);
}

#[test]
fn claim_pays_fresh_rewards_and_resets() {
    let c = config(100, 10, 0, 1_000_000);
    let u = user(100, 1_000_000, 55);
    let out = try_claim(c, u, 10).unwrap();
    assert_eq!(out.user.rewards, 0);
    assert_eq!(out.user.exchange_rate, 2_000_000);
    assert_eq!(out.user.last_staked_time, 10);
    assert_eq!(out.user.staked_amount.amount, 100);
    assert_eq!(out.config.global_exchange_rate, 2_000_000);
    assert_eq!(out.attributes[0].value, "claim");
    assert_eq!(out.attributes[1].key, "amount");
    assert_eq!(out.attributes[1].value, "100");
}

#[test]
fn claim_with_nothing_pending_is_refused() {
    let c = config(100, 10, 0, 1_000_000);
    let u = user(100, 1_000_000, 55);
    let r = try_claim(c, u, 0);
    assert_eq!(r, Err(ContractError::InvalidClaim {}));
}

#[test]
fn second_claim_at_same_time_is_refused() {
    let c = config(100, 10, 0, 1_000_000);
    let u = user(100, 1_000_000, 0);
    let first = try_claim(c, u, 10).unwrap();
    let q = query_user(&first.config, first.user.clone(), 10);
    assert_eq!(q.rewards, 0);
    assert_eq!(try_claim(first.config, first.user, 10), Err(ContractError::InvalidClaim {}));
}

#[test]
fn pending_grows_with_time() {
    let u = user(100, 1_000_000, 0);
    let mut c = config(100, 10, 0, 1_000_000);
    update_global_state(&mut c, 10);
    let early = calculate_rewards(&c, &u, 10);
    update_global_state(&mut c, 25);
    let late = calculate_rewards(&c, &u, 25);
    assert_eq!(early, 100);
    assert_eq!(late, 250);
}

#[test]
fn queries_report_stored_values() {
    let c = config(100, 10, 0, 2_000_000);
    let q = query_config(c.clone());
    assert_eq!(q.monthly_reward, c.monthly_reward);
    assert_eq!(q.total_value_locked, c.total_value_locked);
    assert_eq!(q.eps, 10);
    assert_eq!(q.global_exchange_rate, 2_000_000);
    let u = user(100, 1_000_000, 5);
    let r = query_user(&c, u, 999);
    assert_eq!(r.staked_amount, coin("orai", 100));
    assert_eq!(r.exchange_rate, 1_000_000);
    assert_eq!(r.rewards, 105);
}

#[test]
fn range_checks_refuse_overflow() {
    let c = config(u128::MAX, 0, 0, 1_000_000);
    assert!(!stake_fits(&c, &None, &coin("orai", 1), 0));
    assert!(stake_fits(&c, &None, &coin("orai", 0), 0));
    // time running backwards
    let c = config(100, 10, 50, 1_000_000);
    assert!(!claim_fits(&c, &user(100, 1_000_000, 0), 49));
    assert!(claim_fits(&c, &user(100, 1_000_000, 0), 50));
    // a staker ahead of the global rate
    assert!(!withdraw_fits(&c, &user(100, 3_000_000, 0), &coin("orai", 1), 50));
    // withdrawing more than is locked
    let c = config(10, 0, 0, 1_000_000);
    assert!(!withdraw_fits(&c, &user(100, 1_000_000, 0), &coin("orai", 50), 0));
    assert!(withdraw_fits(&c, &user(100, 1_000_000, 0), &coin("orai", 500), 0));
    // settled rewards at the limit
    let c = config(100, 0, 0, 2_000_000);
    assert!(!query_user_fits(&c, &user(100, 1_000_000, u128::MAX)));
    assert!(query_user_fits(&c, &user(100, 2_000_000, u128::MAX)));
    // a ratio that does not fit in 128 bits
    let c = config(1, u128::MAX, 0, 0);
    assert!(!claim_fits(&c, &user(1, 0, 0), 1));
    assert_eq!(RATE_SCALE, 1_000_000);
}

#[test]
fn error_messages() {
    assert_eq!(ContractError::Unauthorized {}.message(), "Unauthorized");
    assert_eq!(ContractError::InsufficientStaked {}.message(), "Insufficient staked amount");
    assert_eq!(ContractError::InsufficientFunds {}.message(), "Insufficient funds to withdraw");
    assert_eq!(ContractError::InvalidAmount {}.message(), "InvalidAmount");
    assert_eq!(ContractError::InvalidClaim {}.message(), "Zero Claim");
}
