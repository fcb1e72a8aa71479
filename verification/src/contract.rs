//! The staking rules: set-up, stake, withdraw, claim, and the two queries.
//!
//! Each operation takes the stored values it reads and the block time, and
//! gives back the values to store and the attributes to report. Refreshing
//! the emission rate `eps` after a stake or a withdrawal is left to the
//! caller: it is computed in floating point from the monthly reward and the
//! new total value locked.

use vstd::prelude::*;
use crate::error::ContractError;
use crate::math::{checked_multiply_ratio, multiply_ratio, ratio};
use crate::msg::{ConfigResponse, InstantiateMsg, Instantiated, Outcome, UserResponse};
use crate::state::{Coin, Config, User};
use crate::text::{attribute, attribute_texts, coin_string, coin_text, decimal, decimal_string, Attribute};

verus! {

/// The scale of exchange rates: a rate of `1_000_000` stands for one.
pub const RATE_SCALE: u128 = 1_000_000;

/// The global exchange rate that the set-up starts from.
pub const INITIAL_EXCHANGE_RATE: u128 = 1_000_000;

// ---------------------------------------------------------------------------
// The model
// ---------------------------------------------------------------------------

/// Seconds since the global state was last brought up to date.
pub open spec fn elapsed(c: Config, now: u64) -> int {
    now - c.last_update_time
}

/// Whether bringing the state up to `now` moves the global exchange rate:
/// time has passed and something is staked.
pub open spec fn accrues(c: Config, now: u64) -> bool {
    elapsed(c, now) > 0 && c.total_value_locked.amount != 0
}

/// The rewards emitted since the last update.
pub open spec fn emitted(c: Config, now: u64) -> int {
    c.eps * elapsed(c, now)
}

/// How much the global exchange rate grows when brought up to `now`.
pub open spec fn rate_growth(c: Config, now: u64) -> int {
    if accrues(c, now) {
        ratio(emitted(c, now), RATE_SCALE as int, c.total_value_locked.amount as int)
    } else {
        0
    }
}

/// Bringing the state up to `now` neither runs time backwards nor overflows.
pub open spec fn update_ok(c: Config, now: u64) -> bool {
    &&& c.last_update_time <= now
    &&& accrues(c, now) ==> {
        &&& emitted(c, now) <= u128::MAX
        &&& rate_growth(c, now) <= u128::MAX
        &&& c.global_exchange_rate + rate_growth(c, now) <= u128::MAX
    }
}

/// The configuration brought up to `now`.
pub open spec fn updated(c: Config, now: u64) -> Config {
    Config {
        global_exchange_rate: (c.global_exchange_rate + rate_growth(c, now)) as u128,
        last_update_time: now,
        ..c
    }
}

/// The rewards earned since the last action by a stake of `staked` that last
/// acted at rate `rate`, given the total value locked and the global rate.
pub open spec fn pending_at(tvl: u128, global_rate: u128, staked: u128, rate: u128) -> int {
    if tvl == 0 {
        0
    } else {
        ratio(staked as int, global_rate - rate, RATE_SCALE as int)
    }
}

/// Computing `pending_at` neither subtracts below zero nor overflows.
pub open spec fn pending_ok_at(tvl: u128, global_rate: u128, staked: u128, rate: u128) -> bool {
    tvl != 0 ==> {
        &&& rate <= global_rate
        &&& pending_at(tvl, global_rate, staked, rate) <= u128::MAX
    }
}

/// The rewards a staker has earned since the last action.
pub open spec fn pending(c: Config, u: User) -> int {
    pending_at(c.total_value_locked.amount, c.global_exchange_rate, u.staked_amount.amount, u.exchange_rate)
}

/// Computing `pending` neither subtracts below zero nor overflows.
pub open spec fn pending_ok(c: Config, u: User) -> bool {
    pending_ok_at(c.total_value_locked.amount, c.global_exchange_rate, u.staked_amount.amount, u.exchange_rate)
}

/// The record of someone who stakes for the first time: nothing staked yet,
/// in the denomination of the stake, at the current global rate.
pub open spec fn fresh_user(c: Config, amount: Coin, now: u64) -> User {
    User {
        staked_amount: Coin { denom: amount.denom, amount: 0 },
        exchange_rate: c.global_exchange_rate,
        last_staked_time: now,
        rewards: 0,
    }
}

/// The record that a stake starts from.
pub open spec fn staker(c: Config, user: Option<User>, amount: Coin, now: u64) -> User {
    match user {
        Some(u) => u,
        None => fresh_user(c, amount, now),
    }
}

/// A staker's record after settling rewards at configuration `c1` (already
/// brought up to `now`) and moving the stake to `new_stake`.
pub open spec fn settled(c1: Config, u: User, new_stake: int, now: u64) -> User {
    User {
        staked_amount: Coin { amount: new_stake as u128, ..u.staked_amount },
        exchange_rate: c1.global_exchange_rate,
        last_staked_time: now,
        rewards: (u.rewards + pending(c1, u)) as u128,
    }
}

/// `c` with its total value locked moved to `tvl`.
pub open spec fn with_tvl(c: Config, tvl: int) -> Config {
    Config { total_value_locked: Coin { amount: tvl as u128, ..c.total_value_locked }, ..c }
}

/// The configuration after staking `amount`.
pub open spec fn staked_config(c: Config, amount: Coin, now: u64) -> Config {
    let c1 = updated(c, now);
    with_tvl(c1, c1.total_value_locked.amount + amount.amount)
}

/// The staker's record after staking `amount`.
pub open spec fn staked_user(c: Config, user: Option<User>, amount: Coin, now: u64) -> User {
    let u = staker(c, user, amount, now);
    settled(updated(c, now), u, u.staked_amount.amount + amount.amount, now)
}

/// The configuration after withdrawing `amount`.
pub open spec fn withdrawn_config(c: Config, amount: Coin, now: u64) -> Config {
    let c1 = updated(c, now);
    with_tvl(c1, c1.total_value_locked.amount - amount.amount)
}

/// The staker's record after withdrawing `amount`.
pub open spec fn withdrawn_user(c: Config, u: User, amount: Coin, now: u64) -> User {
    settled(updated(c, now), u, u.staked_amount.amount - amount.amount, now)
}

/// The rewards a claim at `now` pays out: those earned since the last action,
/// at the rate brought up to `now`. Rewards settled earlier are not included.
pub open spec fn claimable(c: Config, u: User, now: u64) -> int {
    pending(updated(c, now), u)
}

/// The staker's record after a claim.
pub open spec fn claimed_user(c: Config, u: User, now: u64) -> User {
    User {
        rewards: 0,
        exchange_rate: updated(c, now).global_exchange_rate,
        last_staked_time: now,
        ..u
    }
}

/// A stake runs without arithmetic overflow.
pub open spec fn stake_ok(c: Config, user: Option<User>, amount: Coin, now: u64) -> bool {
    let u = staker(c, user, amount, now);
    let c1 = updated(c, now);
    &&& update_ok(c, now)
    &&& pending_ok(c1, u)
    &&& u.rewards + pending(c1, u) <= u128::MAX
    &&& c1.total_value_locked.amount + amount.amount <= u128::MAX
    &&& u.staked_amount.amount + amount.amount <= u128::MAX
}

/// A withdrawal runs without arithmetic overflow or underflow.
pub open spec fn withdraw_ok(c: Config, u: User, amount: Coin, now: u64) -> bool {
    let c1 = updated(c, now);
    &&& update_ok(c, now)
    &&& pending_ok(c1, u)
    &&& u.rewards + pending(c1, u) <= u128::MAX
    &&& amount.amount <= u.staked_amount.amount ==> amount.amount <= c1.total_value_locked.amount
}

/// A claim runs without arithmetic overflow or underflow.
pub open spec fn claim_ok(c: Config, u: User, now: u64) -> bool {
    &&& update_ok(c, now)
    &&& pending_ok(updated(c, now), u)
}

/// A staker's position as a query reports it, at the configuration as stored.
pub open spec fn user_report(c: Config, u: User) -> UserResponse {
    UserResponse {
        staked_amount: u.staked_amount,
        exchange_rate: u.exchange_rate,
        rewards: (u.rewards + pending(c, u)) as u128,
    }
}

/// A position query runs without arithmetic overflow or underflow.
pub open spec fn query_user_ok(c: Config, u: User) -> bool {
    &&& pending_ok(c, u)
    &&& u.rewards + pending(c, u) <= u128::MAX
}

// ---------------------------------------------------------------------------
// Accrual
// ---------------------------------------------------------------------------

/// Brings the global exchange rate up to `current_time` and records the time.
pub fn update_global_state(config: &mut Config, current_time: u64)
    requires
        update_ok(*old(config), current_time),
    ensures
        *final(config) == updated(*old(config), current_time),
        final(config).global_exchange_rate == old(config).global_exchange_rate + (if current_time
            > old(config).last_update_time && old(config).total_value_locked.amount != 0 {
            (old(config).eps * (current_time - old(config).last_update_time)) * 1_000_000 / (old(
                config,
            ).total_value_locked.amount as int)
        } else {
            0
        }),
        final(config).last_update_time == current_time,
        final(config).eps == old(config).eps,
        final(config).total_value_locked == old(config).total_value_locked,
        final(config).monthly_reward == old(config).monthly_reward,
{
    let time_elapsed = current_time - config.last_update_time;
    if time_elapsed > 0 && config.total_value_locked.amount != 0 {
        let rewards = config.eps * (time_elapsed as u128);
        let growth = multiply_ratio(rewards, RATE_SCALE, config.total_value_locked.amount);
        config.global_exchange_rate = config.global_exchange_rate + growth;
    }
    config.last_update_time = current_time;
}

/// The rewards `user` has earned since the last action, at the configuration
/// as it stands.
pub fn calculate_rewards(config: &Config, user: &User, current_time: u64) -> (r: u128)
    requires
        pending_ok(*config, *user),
    ensures
        r == pending(*config, *user),
        r == (if config.total_value_locked.amount != 0 {
            user.staked_amount.amount * (config.global_exchange_rate - user.exchange_rate)
                / 1_000_000
        } else {
            0
        }),
{
    if config.total_value_locked.amount == 0 {
        return 0;
    }
    let exchange_rate_diff = config.global_exchange_rate - user.exchange_rate;
    multiply_ratio(user.staked_amount.amount, exchange_rate_diff, RATE_SCALE)
}

// ---------------------------------------------------------------------------
// Operations
// ---------------------------------------------------------------------------

/// The configuration that the set-up stores: no value locked yet, the global
/// exchange rate at its initial value, the clock at `now`. `eps` is the
/// emission rate that the caller derived from the monthly reward.
pub open spec fn initial_config(msg: InstantiateMsg, now: u64, eps: u128) -> Config {
    Config {
        monthly_reward: msg.monthly_reward,
        total_value_locked: Coin { denom: msg.monthly_reward.denom, amount: 0 },
        eps,
        last_update_time: now,
        global_exchange_rate: INITIAL_EXCHANGE_RATE,
    }
}

/// Sets the contract up.
pub fn instantiate(msg: InstantiateMsg, now: u64, eps: u128) -> (out: Instantiated)
    ensures
        out.config == initial_config(msg, now, eps),
        out.config.monthly_reward == msg.monthly_reward,
        out.config.total_value_locked.amount == 0,
        out.config.total_value_locked.denom == msg.monthly_reward.denom,
        out.config.eps == eps,
        out.config.last_update_time == now,
        out.config.global_exchange_rate == 1_000_000,
        attribute_texts(out.attributes@) == seq![("method"@, "instantiate"@)],
{
    let denom = msg.monthly_reward.denom.clone();
    let config = Config {
        monthly_reward: msg.monthly_reward,
        total_value_locked: Coin { denom, amount: 0 },
        eps,
        last_update_time: now,
        global_exchange_rate: INITIAL_EXCHANGE_RATE,
    };
    let attributes = vec![attribute("method", String::from_str("instantiate"))];
    proof { assert(attribute_texts(attributes@) =~= seq![("method"@, "instantiate"@)]); }
    Instantiated { config, attributes }
}

/// Stakes `amount` for a staker whose record is `user` (`None` for someone
/// staking for the first time): settles the staker's rewards at the rate
/// brought up to `now`, adds `amount` to the stake and to the total value
/// locked, and moves the staker to the current rate. `eps` is left as it was.
pub fn try_stake(config: Config, user: Option<User>, amount: Coin, now: u64) -> (out: Outcome)
    requires
        stake_ok(config, user, amount, now),
    ensures
        out.config == staked_config(config, amount, now),
        out.user == staked_user(config, user, amount, now),
        out.config.global_exchange_rate == config.global_exchange_rate + (if now > config.last_update_time && config.total_value_locked.amount != 0 { (config.eps * (now - config.last_update_time)) * 1_000_000 / (config.total_value_locked.amount as int) } else { 0 }),
        out.config.total_value_locked.amount == config.total_value_locked.amount + amount.amount,
        out.config.eps == config.eps,
        out.config.last_update_time == now,
        out.user.exchange_rate == out.config.global_exchange_rate,
        out.user.last_staked_time == now,
        user matches Some(u) ==> {
            &&& out.user.rewards == u.rewards + (if config.total_value_locked.amount != 0 {
                u.staked_amount.amount * (out.config.global_exchange_rate - u.exchange_rate)
                    / 1_000_000
            } else {
                0
            })
            &&& out.user.staked_amount.amount == u.staked_amount.amount + amount.amount
            &&& out.user.staked_amount.denom == u.staked_amount.denom
        },
        user is None ==> out.user.rewards == 0 && out.user.staked_amount == amount,
        attribute_texts(out.attributes@) == seq![
            ("action"@, "stake"@),
            ("amount"@, coin_text(amount.amount as nat, amount.denom@)),
        ],
{
    let mut config = config;
    let mut user = match user {
        Some(u) => u,
        None => User {
            staked_amount: Coin { denom: amount.denom.clone(), amount: 0 },
            exchange_rate: config.global_exchange_rate,
            last_staked_time: now,
            rewards: 0,
        },
    };
    update_global_state(&mut config, now);
    let rewards = calculate_rewards(&config, &user, now);
    user.rewards = user.rewards + rewards;

    config.total_value_locked.amount = config.total_value_locked.amount + amount.amount;
    user.staked_amount.amount = user.staked_amount.amount + amount.amount;

    user.last_staked_time = now;
    user.exchange_rate = config.global_exchange_rate;

    let attributes = vec![
        attribute("action", String::from_str("stake")),
        attribute("amount", coin_string(&amount)),
    ];
    proof {
        assert(attribute_texts(attributes@) =~= seq![
            ("action"@, "stake"@),
            ("amount"@, coin_text(amount.amount as nat, amount.denom@)),
        ]);
    }
    Outcome { config, user, attributes }
}

/// Withdraws `amount` from `user`'s stake: refused with `InsufficientStaked`
/// when the stake is smaller; otherwise settles the staker's rewards at the
/// rate brought up to `now`, takes `amount` from the stake and from the total
/// value locked, and moves the staker to the current rate. `eps` is left as
/// it was.
pub fn try_withdraw(config: Config, user: User, amount: Coin, now: u64) -> (r: Result<Outcome, ContractError>)
    requires
        withdraw_ok(config, user, amount, now),
    ensures
        user.staked_amount.amount < amount.amount ==> r == Err::<Outcome, ContractError>(
            ContractError::InsufficientStaked {},
        ),
        amount.amount <= user.staked_amount.amount ==> (r matches Ok(out) && {
            &&& out.config == withdrawn_config(config, amount, now)
            &&& out.user == withdrawn_user(config, user, amount, now)
            &&& out.config.global_exchange_rate == config.global_exchange_rate + (if now > config.last_update_time && config.total_value_locked.amount != 0 { (config.eps * (now - config.last_update_time)) * 1_000_000 / (config.total_value_locked.amount as int) } else { 0 })
            &&& out.config.total_value_locked.amount == config.total_value_locked.amount
                - amount.amount
            &&& out.user.rewards == user.rewards + (if config.total_value_locked.amount != 0 {
                user.staked_amount.amount * (out.config.global_exchange_rate - user.exchange_rate)
                    / 1_000_000
            } else {
                0
            })
            &&& out.user.staked_amount.amount == user.staked_amount.amount - amount.amount
            &&& out.user.exchange_rate == out.config.global_exchange_rate
            &&& out.user.last_staked_time == now
            &&& attribute_texts(out.attributes@) == seq![
                ("action"@, "withdraw"@),
                ("amount"@, coin_text(amount.amount as nat, amount.denom@)),
            ]
        }),
{
    let mut config = config;
    let mut user = user;
    update_global_state(&mut config, now);
    let rewards = calculate_rewards(&config, &user, now);
    user.rewards = user.rewards + rewards;

    if user.staked_amount.amount < amount.amount {
        return Err(ContractError::InsufficientStaked {});
    }

    config.total_value_locked.amount = config.total_value_locked.amount - amount.amount;
    user.staked_amount.amount = user.staked_amount.amount - amount.amount;

    user.last_staked_time = now;
    user.exchange_rate = config.global_exchange_rate;

    let attributes = vec![
        attribute("action", String::from_str("withdraw")),
        attribute("amount", coin_string(&amount)),
    ];
    proof {
        assert(attribute_texts(attributes@) =~= seq![
            ("action"@, "withdraw"@),
            ("amount"@, coin_text(amount.amount as nat, amount.denom@)),
        ]);
    }
    Ok(Outcome { config, user, attributes })
}

/// Claims the rewards `user` has earned since the last action, at the rate
/// brought up to `now`: refused with `InvalidClaim` when they are zero;
/// otherwise the staker's settled rewards are reset to zero and the staker
/// moves to the current rate. The amount claimed is reported.
pub fn try_claim(config: Config, user: User, now: u64) -> (r: Result<Outcome, ContractError>)
    requires
        claim_ok(config, user, now),
    ensures
        ({
            let g: int = config.global_exchange_rate + (if now > config.last_update_time && config.total_value_locked.amount != 0 { (config.eps * (now - config.last_update_time)) * 1_000_000 / (config.total_value_locked.amount as int) } else { 0 });
            let paid: int = if config.total_value_locked.amount != 0 {
                user.staked_amount.amount * (g - user.exchange_rate) / 1_000_000
            } else {
                0
            };
            &&& paid == 0 ==> r == Err::<Outcome, ContractError>(ContractError::InvalidClaim {})
            &&& paid != 0 ==> (r matches Ok(out) && {
                &&& out.config.global_exchange_rate == g
                &&& out.config.total_value_locked == config.total_value_locked
                &&& out.user.rewards == 0
                &&& out.user.exchange_rate == g
                &&& out.user.staked_amount == user.staked_amount
                &&& attribute_texts(out.attributes@)[1].1 == decimal(paid as nat)
            })
        }),
        claimable(config, user, now) == 0 ==> r == Err::<Outcome, ContractError>(
            ContractError::InvalidClaim {},
        ),
        claimable(config, user, now) != 0 ==> (r matches Ok(out) && {
            &&& out.config == updated(config, now)
            &&& out.user == claimed_user(config, user, now)
            &&& attribute_texts(out.attributes@) == seq![
                ("action"@, "claim"@),
                ("amount"@, decimal(claimable(config, user, now) as nat)),
            ]
        }),
{
    let mut config = config;
    let mut user = user;
    update_global_state(&mut config, now);
    let rewards = calculate_rewards(&config, &user, now);
    if rewards == 0 {
        return Err(ContractError::InvalidClaim {});
    }
    user.rewards = 0;
    user.exchange_rate = config.global_exchange_rate;
    user.last_staked_time = now;

    let attributes = vec![
        attribute("action", String::from_str("claim")),
        attribute("amount", decimal_string(rewards)),
    ];
    proof {
        assert(attribute_texts(attributes@) =~= seq![
            ("action"@, "claim"@),
            ("amount"@, decimal(rewards as nat)),
        ]);
    }
    Ok(Outcome { config, user, attributes })
}

/// The configuration as a query reports it.
pub fn query_config(config: Config) -> (r: ConfigResponse)
    ensures
        r == (ConfigResponse {
            monthly_reward: config.monthly_reward,
            total_value_locked: config.total_value_locked,
            eps: config.eps,
            global_exchange_rate: config.global_exchange_rate,
        }),
{
    ConfigResponse {
        monthly_reward: config.monthly_reward,
        total_value_locked: config.total_value_locked,
        eps: config.eps,
        global_exchange_rate: config.global_exchange_rate,
    }
}

/// A staker's position: the stake, the rate of the last action, and the
/// settled rewards plus those earned since, at the configuration as stored
/// (the global rate is not brought up to `current_time`).
pub fn query_user(config: &Config, user: User, current_time: u64) -> (r: UserResponse)
    requires
        query_user_ok(*config, user),
    ensures
        r == user_report(*config, user),
        r.rewards == user.rewards + (if config.total_value_locked.amount != 0 {
            user.staked_amount.amount * (config.global_exchange_rate - user.exchange_rate)
                / 1_000_000
        } else {
            0
        }),
        r.staked_amount == user.staked_amount,
        r.exchange_rate == user.exchange_rate,
{
    let latest_rewards = calculate_rewards(config, &user, current_time);
    UserResponse {
        staked_amount: user.staked_amount,
        exchange_rate: user.exchange_rate,
        rewards: user.rewards + latest_rewards,
    }
}

// ---------------------------------------------------------------------------
// Range checks
// ---------------------------------------------------------------------------

/// The global exchange rate brought up to `now`, or `None` where that would
/// run time backwards or overflow.
fn checked_updated_rate(config: &Config, now: u64) -> (r: Option<u128>)
    ensures
        r is Some <==> update_ok(*config, now),
        r matches Some(g) ==> g == updated(*config, now).global_exchange_rate,
{
    if now < config.last_update_time {
        return None;
    }
    let time_elapsed = now - config.last_update_time;
    if time_elapsed == 0 || config.total_value_locked.amount == 0 {
        return Some(config.global_exchange_rate);
    }
    let elapsed_wide = time_elapsed as u128;
    if config.eps != 0 && elapsed_wide > u128::MAX / config.eps {
        proof {
            assert(config.eps * elapsed_wide > u128::MAX) by (nonlinear_arith)
                requires
                    config.eps != 0,
                    elapsed_wide > u128::MAX / config.eps,
            ;
        }
        return None;
    }
    proof {
        assert(config.eps * elapsed_wide <= u128::MAX) by (nonlinear_arith)
            requires
                config.eps == 0 || elapsed_wide <= u128::MAX / config.eps,
        ;
    }
    let rewards = config.eps * elapsed_wide;
    match checked_multiply_ratio(rewards, RATE_SCALE, config.total_value_locked.amount) {
        None => None,
        Some(growth) => {
            if growth > u128::MAX - config.global_exchange_rate {
                None
            } else {
                Some(config.global_exchange_rate + growth)
            }
        },
    }
}

/// `pending_at`, or `None` where computing it would subtract below zero or
/// overflow.
fn checked_pending(tvl: u128, global_rate: u128, staked: u128, rate: u128) -> (r: Option<u128>)
    ensures
        r is Some <==> pending_ok_at(tvl, global_rate, staked, rate),
        r matches Some(v) ==> v == pending_at(tvl, global_rate, staked, rate),
{
    if tvl == 0 {
        return Some(0);
    }
    if global_rate < rate {
        return None;
    }
    checked_multiply_ratio(staked, global_rate - rate, RATE_SCALE)
}

/// Whether `try_stake` may be called: the stake runs without overflow.
pub fn stake_fits(config: &Config, user: &Option<User>, amount: &Coin, now: u64) -> (b: bool)
    ensures
        b == stake_ok(*config, *user, *amount, now),
{
    let global_rate = match checked_updated_rate(config, now) {
        Some(g) => g,
        None => return false,
    };
    let (staked, rate, rewards) = match user {
        Some(u) => (u.staked_amount.amount, u.exchange_rate, u.rewards),
        None => (0, config.global_exchange_rate, 0),
    };
    let tvl = config.total_value_locked.amount;
    match checked_pending(tvl, global_rate, staked, rate) {
        None => false,
        Some(p) => p <= u128::MAX - rewards && amount.amount <= u128::MAX - tvl && amount.amount
            <= u128::MAX - staked,
    }
}

/// Whether `try_withdraw` may be called: the withdrawal runs without
/// overflow or underflow.
pub fn withdraw_fits(config: &Config, user: &User, amount: &Coin, now: u64) -> (b: bool)
    ensures
        b == withdraw_ok(*config, *user, *amount, now),
{
    let global_rate = match checked_updated_rate(config, now) {
        Some(g) => g,
        None => return false,
    };
    let tvl = config.total_value_locked.amount;
    match checked_pending(tvl, global_rate, user.staked_amount.amount, user.exchange_rate) {
        None => false,
        Some(p) => p <= u128::MAX - user.rewards && (amount.amount > user.staked_amount.amount
            || amount.amount <= tvl),
    }
}

/// Whether `try_claim` may be called: the claim runs without overflow or
/// underflow.
pub fn claim_fits(config: &Config, user: &User, now: u64) -> (b: bool)
    ensures
        b == claim_ok(*config, *user, now),
{
    let global_rate = match checked_updated_rate(config, now) {
        Some(g) => g,
        None => return false,
    };
    checked_pending(
        config.total_value_locked.amount,
        global_rate,
        user.staked_amount.amount,
        user.exchange_rate,
    ).is_some()
}

/// Whether `query_user` may be called: the query runs without overflow or
/// underflow.
pub fn query_user_fits(config: &Config, user: &User) -> (b: bool)
    ensures
        b == query_user_ok(*config, *user),
{
    match checked_pending(
        config.total_value_locked.amount,
        config.global_exchange_rate,
        user.staked_amount.amount,
        user.exchange_rate,
    ) {
        None => false,
        Some(p) => p <= u128::MAX - user.rewards,
    }
}

} // verus!
