//! Properties that hold across the staking operations.

use vstd::prelude::*;
use crate::contract::{
    accrues, claim_ok, claimable, claimed_user, elapsed, emitted, fresh_user, pending, pending_ok,
    query_user_ok, settled, user_report, stake_ok, staked_config, staked_user, staker, update_ok, updated,
    withdraw_ok, withdrawn_config, withdrawn_user, RATE_SCALE,
};
use crate::math::{lemma_ratio_monotone, lemma_ratio_nonneg, lemma_ratio_zero};
use crate::state::{Coin, Config, User};
use crate::text::{decimal, digit_char};

verus! {

/// Bringing the state up to date never lowers the global exchange rate; it
/// stamps the configuration with the time and touches nothing else.
pub proof fn law_global_rate_never_decreases(c: Config, now: u64)
    requires
        update_ok(c, now),
    ensures
        updated(c, now).global_exchange_rate >= c.global_exchange_rate,
        updated(c, now).last_update_time == now,
        updated(c, now).monthly_reward == c.monthly_reward,
        updated(c, now).total_value_locked == c.total_value_locked,
        updated(c, now).eps == c.eps,
{
    if accrues(c, now) {
        assert(emitted(c, now) >= 0) by (nonlinear_arith)
            requires
                c.eps >= 0,
                elapsed(c, now) > 0,
                emitted(c, now) == c.eps * elapsed(c, now),
        ;
        lemma_ratio_nonneg(emitted(c, now), RATE_SCALE as int, c.total_value_locked.amount as int);
    }
}

/// Bringing the state up to the same time twice is the same as doing it once.
pub proof fn law_update_is_idempotent(c: Config, now: u64)
    requires
        update_ok(c, now),
    ensures
        update_ok(updated(c, now), now),
        updated(updated(c, now), now) == updated(c, now),
{
}

/// No staker's rate ever runs ahead of the global rate: a staker at or behind
/// the global rate stays so when the state is brought up to date, and a
/// stake, a withdrawal or a claim moves the acting staker to the global rate
/// exactly, stamped with the time of the operation.
pub proof fn law_stakers_stay_behind_global_rate(
    c: Config,
    other: User,
    user: Option<User>,
    u: User,
    amount: Coin,
    now: u64,
)
    requires
        update_ok(c, now),
        other.exchange_rate <= c.global_exchange_rate,
    ensures
        other.exchange_rate <= updated(c, now).global_exchange_rate,
        staked_user(c, user, amount, now).exchange_rate == staked_config(
            c,
            amount,
            now,
        ).global_exchange_rate,
        staked_user(c, user, amount, now).last_staked_time == now,
        withdrawn_user(c, u, amount, now).exchange_rate == withdrawn_config(
            c,
            amount,
            now,
        ).global_exchange_rate,
        withdrawn_user(c, u, amount, now).last_staked_time == now,
        claimed_user(c, u, now).exchange_rate == updated(c, now).global_exchange_rate,
        claimed_user(c, u, now).last_staked_time == now,
{
    law_global_rate_never_decreases(c, now);
}

/// The total value locked is the sum of all stakes, and every operation keeps
/// it so: a stake adds the staked amount both to the total and to the
/// staker's stake, a withdrawal takes it from both, and the stakes of all
/// other stakers (`others`) are untouched.
pub proof fn law_total_is_sum_of_stakes(
    c: Config,
    user: Option<User>,
    u: User,
    amount: Coin,
    now: u64,
    others: int,
)
    ensures
        stake_ok(c, user, amount, now) && c.total_value_locked.amount == others + staker(
            c,
            user,
            amount,
            now,
        ).staked_amount.amount ==> {
            &&& staked_config(c, amount, now).total_value_locked.amount == others + staked_user(
                c,
                user,
                amount,
                now,
            ).staked_amount.amount
            &&& staked_config(c, amount, now).total_value_locked.amount == c.total_value_locked.amount
                + amount.amount
        },
        withdraw_ok(c, u, amount, now) && amount.amount <= u.staked_amount.amount
            && c.total_value_locked.amount == others + u.staked_amount.amount ==> {
            &&& withdrawn_config(c, amount, now).total_value_locked.amount == others
                + withdrawn_user(c, u, amount, now).staked_amount.amount
            &&& withdrawn_config(c, amount, now).total_value_locked.amount
                == c.total_value_locked.amount - amount.amount
        },
        claim_ok(c, u, now) ==> {
            &&& updated(c, now).total_value_locked == c.total_value_locked
            &&& claimed_user(c, u, now).staked_amount == u.staked_amount
        },
{
}

/// Right after a stake or a withdrawal, the position query reports the new
/// stake and exactly the rewards the operation settled: nothing more is
/// pending at that time.
pub proof fn law_query_after_action(
    c: Config,
    user: Option<User>,
    u: User,
    amount: Coin,
    now: u64,
)
    ensures
        stake_ok(c, user, amount, now) ==> ({
            let c2 = staked_config(c, amount, now);
            let u2 = staked_user(c, user, amount, now);
            &&& query_user_ok(c2, u2)
            &&& user_report(c2, u2).staked_amount.amount == staker(
                c,
                user,
                amount,
                now,
            ).staked_amount.amount + amount.amount
            &&& user_report(c2, u2).rewards == u2.rewards
        }),
        withdraw_ok(c, u, amount, now) && amount.amount <= u.staked_amount.amount ==> ({
            let c2 = withdrawn_config(c, amount, now);
            let u2 = withdrawn_user(c, u, amount, now);
            &&& query_user_ok(c2, u2)
            &&& user_report(c2, u2).staked_amount.amount == u.staked_amount.amount
                - amount.amount
            &&& user_report(c2, u2).rewards == u2.rewards
        }),
{
    if stake_ok(c, user, amount, now) {
        law_nothing_pending_at_global_rate(
            staked_config(c, amount, now),
            staked_user(c, user, amount, now),
        );
    }
    if withdraw_ok(c, u, amount, now) && amount.amount <= u.staked_amount.amount {
        law_nothing_pending_at_global_rate(
            withdrawn_config(c, amount, now),
            withdrawn_user(c, u, amount, now),
        );
    }
}

/// A first-time staker starts with exactly the staked amount, in the stake's
/// denomination, and no rewards.
pub proof fn law_first_stake(c: Config, amount: Coin, now: u64)
    requires
        stake_ok(c, None, amount, now),
    ensures
        staked_user(c, None, amount, now).staked_amount == amount,
        staked_user(c, None, amount, now).rewards == 0,
{
    let c1 = updated(c, now);
    let u = fresh_user(c, amount, now);
    if c1.total_value_locked.amount != 0 {
        lemma_ratio_zero(0, c1.global_exchange_rate - u.exchange_rate, RATE_SCALE as int);
    }
}

/// A staker with nothing staked earns nothing.
pub proof fn law_no_stake_no_rewards(c: Config, u: User)
    requires
        u.staked_amount.amount == 0,
    ensures
        pending(c, u) == 0,
{
    if c.total_value_locked.amount != 0 {
        lemma_ratio_zero(0, c.global_exchange_rate - u.exchange_rate, RATE_SCALE as int);
    }
}

/// A staker at the global rate has nothing pending.
pub proof fn law_nothing_pending_at_global_rate(c: Config, u: User)
    requires
        u.exchange_rate == c.global_exchange_rate,
    ensures
        pending_ok(c, u),
        pending(c, u) == 0,
{
    if c.total_value_locked.amount != 0 {
        lemma_ratio_zero(u.staked_amount.amount as int, 0, RATE_SCALE as int);
    }
}

/// While a staker does nothing, the rewards pending grow with time: they are
/// never fewer at a later time than at an earlier one.
pub proof fn law_pending_grows_with_time(c: Config, u: User, t1: u64, t2: u64)
    requires
        update_ok(c, t1),
        update_ok(updated(c, t1), t2),
        u.exchange_rate <= c.global_exchange_rate,
    ensures
        pending(updated(c, t1), u) <= pending(updated(updated(c, t1), t2), u),
{
    let c1 = updated(c, t1);
    let c2 = updated(c1, t2);
    law_global_rate_never_decreases(c, t1);
    law_global_rate_never_decreases(c1, t2);
    if c1.total_value_locked.amount != 0 {
        lemma_ratio_monotone(
            u.staked_amount.amount as int,
            c1.global_exchange_rate - u.exchange_rate,
            c2.global_exchange_rate - u.exchange_rate,
            RATE_SCALE as int,
        );
    }
}

/// Withdrawing, at the same time, what was just staked undoes the stake: the
/// configuration is the one brought up to that time, and the staker's record
/// is the one that settling alone, with the stake unchanged, would give.
pub proof fn law_withdraw_undoes_stake(c: Config, user: Option<User>, amount: Coin, now: u64)
    requires
        stake_ok(c, user, amount, now),
    ensures
        ({
            let c2 = staked_config(c, amount, now);
            let u2 = staked_user(c, user, amount, now);
            let u = staker(c, user, amount, now);
            &&& withdraw_ok(c2, u2, amount, now)
            &&& amount.amount <= u2.staked_amount.amount
            &&& withdrawn_config(c2, amount, now) == updated(c, now)
            &&& withdrawn_user(c2, u2, amount, now) == settled(
                updated(c, now),
                u,
                u.staked_amount.amount as int,
                now,
            )
        }),
{
    let c1 = updated(c, now);
    let c2 = staked_config(c, amount, now);
    let u2 = staked_user(c, user, amount, now);
    assert(updated(c2, now) == c2);
    law_nothing_pending_at_global_rate(c2, u2);
    assert(withdrawn_config(c2, amount, now) =~= c1);
}

/// A claim leaves nothing more to claim at the same time: a second claim is
/// refused, and the staker's position then reports no rewards.
pub proof fn law_claim_leaves_nothing(c: Config, u: User, now: u64)
    requires
        claim_ok(c, u, now),
    ensures
        ({
            let c1 = updated(c, now);
            let u1 = claimed_user(c, u, now);
            &&& claim_ok(c1, u1, now)
            &&& claimable(c1, u1, now) == 0
            &&& query_user_ok(c1, u1)
            &&& user_report(c1, u1).rewards == 0
        }),
{
    let c1 = updated(c, now);
    let u1 = claimed_user(c, u, now);
    assert(updated(c1, now) == c1);
    law_nothing_pending_at_global_rate(c1, u1);
}

/// Bringing the state up to `now` adds exactly
/// `eps * (now - last_update_time) * 1_000_000 / total_value_locked`
/// (floored) to the global rate when time has passed and something is
/// locked, however long the time, and nothing otherwise; the clock moves to
/// `now` and nothing else changes.
pub proof fn law_accrual_is_exact(c: Config, now: u64)
    requires
        ({
            let e: int = now - c.last_update_time;
            let tvl: int = c.total_value_locked.amount as int;
            let grow: int = if e > 0 && tvl != 0 { (c.eps * e) * 1_000_000 / tvl } else { 0 };
            &&& c.last_update_time <= now
            &&& e > 0 && tvl != 0 ==> c.eps * e <= u128::MAX
            &&& c.global_exchange_rate + grow <= u128::MAX
        }),
    ensures
        update_ok(c, now),
        ({
            let e: int = now - c.last_update_time;
            let tvl: int = c.total_value_locked.amount as int;
            let grow: int = if e > 0 && tvl != 0 { (c.eps * e) * 1_000_000 / tvl } else { 0 };
            &&& updated(c, now).global_exchange_rate == c.global_exchange_rate + grow
            &&& updated(c, now).last_update_time == now
            &&& updated(c, now).eps == c.eps
            &&& updated(c, now).total_value_locked == c.total_value_locked
            &&& updated(c, now).monthly_reward == c.monthly_reward
        }),
{
    let e: int = now - c.last_update_time;
    let tvl: int = c.total_value_locked.amount as int;
    if e > 0 && tvl != 0 {
        assert(c.eps * e >= 0) by (nonlinear_arith)
            requires
                c.eps >= 0,
                e > 0,
        ;
        lemma_ratio_nonneg(c.eps * e, 1_000_000, tvl);
    }
}

/// A stake by an existing staker settles, in full, the rewards earned since
/// the staker's last action: the settled rewards become the previous ones
/// plus `stake * (rate brought up to now - staker's rate) / 1_000_000`
/// (floored; nothing when nothing is locked), whatever the stake sizes; the
/// stake and the total locked both grow by the amount, and the staker moves
/// to the rate brought up to now.
pub proof fn law_stake_settles_in_full(c: Config, u: User, amount: Coin, now: u64)
    requires
        ({
            let e: int = now - c.last_update_time;
            let tvl: int = c.total_value_locked.amount as int;
            let grow: int = if e > 0 && tvl != 0 { (c.eps * e) * 1_000_000 / tvl } else { 0 };
            let g: int = c.global_exchange_rate + grow;
            let p: int = if tvl != 0 {
                u.staked_amount.amount * (g - u.exchange_rate) / 1_000_000
            } else {
                0
            };
            &&& c.last_update_time <= now
            &&& e > 0 && tvl != 0 ==> c.eps * e <= u128::MAX
            &&& g <= u128::MAX
            &&& tvl != 0 ==> u.exchange_rate <= g && p <= u128::MAX
            &&& u.rewards + p <= u128::MAX
            &&& tvl + amount.amount <= u128::MAX
            &&& u.staked_amount.amount + amount.amount <= u128::MAX
        }),
    ensures
        stake_ok(c, Some(u), amount, now),
        ({
            let e: int = now - c.last_update_time;
            let tvl: int = c.total_value_locked.amount as int;
            let grow: int = if e > 0 && tvl != 0 { (c.eps * e) * 1_000_000 / tvl } else { 0 };
            let g: int = c.global_exchange_rate + grow;
            let p: int = if tvl != 0 {
                u.staked_amount.amount * (g - u.exchange_rate) / 1_000_000
            } else {
                0
            };
            let u2 = staked_user(c, Some(u), amount, now);
            let c2 = staked_config(c, amount, now);
            &&& u2.rewards == u.rewards + p
            &&& u2.staked_amount.amount == u.staked_amount.amount + amount.amount
            &&& u2.staked_amount.denom == u.staked_amount.denom
            &&& u2.exchange_rate == g
            &&& u2.last_staked_time == now
            &&& c2.global_exchange_rate == g
            &&& c2.total_value_locked.amount == tvl + amount.amount
            &&& c2.last_update_time == now
            &&& c2.eps == c.eps
        }),
{
    law_accrual_is_exact(c, now);
}

/// A withdrawal of at most the stake settles, in full, the rewards earned
/// since the staker's last action, whatever was settled before: the settled
/// rewards become the previous ones plus
/// `stake * (rate brought up to now - staker's rate) / 1_000_000` (floored;
/// nothing when nothing is locked); the stake and the total locked both
/// shrink by the amount, and the staker moves to the rate brought up to now.
pub proof fn law_withdraw_settles_in_full(c: Config, u: User, amount: Coin, now: u64)
    requires
        ({
            let e: int = now - c.last_update_time;
            let tvl: int = c.total_value_locked.amount as int;
            let grow: int = if e > 0 && tvl != 0 { (c.eps * e) * 1_000_000 / tvl } else { 0 };
            let g: int = c.global_exchange_rate + grow;
            let p: int = if tvl != 0 {
                u.staked_amount.amount * (g - u.exchange_rate) / 1_000_000
            } else {
                0
            };
            &&& c.last_update_time <= now
            &&& e > 0 && tvl != 0 ==> c.eps * e <= u128::MAX
            &&& g <= u128::MAX
            &&& tvl != 0 ==> u.exchange_rate <= g && p <= u128::MAX
            &&& u.rewards + p <= u128::MAX
            &&& amount.amount <= u.staked_amount.amount
            &&& amount.amount <= tvl
        }),
    ensures
        withdraw_ok(c, u, amount, now),
        ({
            let e: int = now - c.last_update_time;
            let tvl: int = c.total_value_locked.amount as int;
            let grow: int = if e > 0 && tvl != 0 { (c.eps * e) * 1_000_000 / tvl } else { 0 };
            let g: int = c.global_exchange_rate + grow;
            let p: int = if tvl != 0 {
                u.staked_amount.amount * (g - u.exchange_rate) / 1_000_000
            } else {
                0
            };
            let u2 = withdrawn_user(c, u, amount, now);
            let c2 = withdrawn_config(c, amount, now);
            &&& u2.rewards == u.rewards + p
            &&& u2.staked_amount.amount == u.staked_amount.amount - amount.amount
            &&& u2.staked_amount.denom == u.staked_amount.denom
            &&& u2.exchange_rate == g
            &&& u2.last_staked_time == now
            &&& c2.global_exchange_rate == g
            &&& c2.total_value_locked.amount == tvl - amount.amount
            &&& c2.last_update_time == now
        }),
{
    law_accrual_is_exact(c, now);
}

/// A claim pays exactly `stake * (rate brought up to now - staker's rate) /
/// 1_000_000` (floored), and is refused exactly when that is zero; it does
/// not depend on the other stakers beyond something being locked. The
/// staker's settled rewards are reset, the stake is untouched, and the
/// staker moves to the rate brought up to now.
pub proof fn law_claim_pays_earned(c: Config, u: User, now: u64)
    requires
        ({
            let e: int = now - c.last_update_time;
            let tvl: int = c.total_value_locked.amount as int;
            let grow: int = if e > 0 && tvl != 0 { (c.eps * e) * 1_000_000 / tvl } else { 0 };
            let g: int = c.global_exchange_rate + grow;
            let p: int = if tvl != 0 {
                u.staked_amount.amount * (g - u.exchange_rate) / 1_000_000
            } else {
                0
            };
            &&& c.last_update_time <= now
            &&& e > 0 && tvl != 0 ==> c.eps * e <= u128::MAX
            &&& g <= u128::MAX
            &&& tvl != 0 ==> u.exchange_rate <= g && p <= u128::MAX
            &&& u.rewards + p <= u128::MAX
        }),
    ensures
        claim_ok(c, u, now),
        ({
            let e: int = now - c.last_update_time;
            let tvl: int = c.total_value_locked.amount as int;
            let grow: int = if e > 0 && tvl != 0 { (c.eps * e) * 1_000_000 / tvl } else { 0 };
            let g: int = c.global_exchange_rate + grow;
            let p: int = if tvl != 0 {
                u.staked_amount.amount * (g - u.exchange_rate) / 1_000_000
            } else {
                0
            };
            &&& claimable(c, u, now) == p
            &&& tvl == 0 ==> claimable(c, u, now) == 0
            &&& claimed_user(c, u, now).rewards == 0
            &&& claimed_user(c, u, now).staked_amount == u.staked_amount
            &&& claimed_user(c, u, now).exchange_rate == g
            &&& claimed_user(c, u, now).last_staked_time == now
            &&& updated(c, now).global_exchange_rate == g
            &&& updated(c, now).total_value_locked == c.total_value_locked
        }),
{
    law_accrual_is_exact(c, now);
}

/// The position query reports the stake, the staker's rate, and the settled
/// rewards plus `stake * (stored global rate - staker's rate) / 1_000_000`
/// (floored; nothing when nothing is locked), for every staker, whether or
/// not anything was settled before.
pub proof fn law_query_reports_earned(c: Config, u: User)
    requires
        ({
            let tvl: int = c.total_value_locked.amount as int;
            let p: int = if tvl != 0 {
                u.staked_amount.amount * (c.global_exchange_rate - u.exchange_rate) / 1_000_000
            } else {
                0
            };
            &&& tvl != 0 ==> u.exchange_rate <= c.global_exchange_rate && p <= u128::MAX
            &&& u.rewards + p <= u128::MAX
        }),
    ensures
        query_user_ok(c, u),
        ({
            let tvl: int = c.total_value_locked.amount as int;
            let p: int = if tvl != 0 {
                u.staked_amount.amount * (c.global_exchange_rate - u.exchange_rate) / 1_000_000
            } else {
                0
            };
            &&& user_report(c, u).rewards == u.rewards + p
            &&& user_report(c, u).staked_amount == u.staked_amount
            &&& user_report(c, u).exchange_rate == u.exchange_rate
        }),
{
}

/// The number that a string of decimal digits reads as.
pub open spec fn digits_value(s: Seq<char>) -> int
    decreases s.len(),
{
    if s.len() == 0 {
        0
    } else {
        digits_value(s.drop_last()) * 10 + (s.last() as int - '0' as int)
    }
}

/// The decimal rendering of an amount is a nonempty string of digits,
/// without a leading zero unless the amount is zero, that reads back as the
/// amount.
pub proof fn law_decimal_reads_back(n: nat)
    ensures
        decimal(n).len() >= 1,
        forall|i: int| 0 <= i < decimal(n).len() ==> '0' <= #[trigger] decimal(n)[i] <= '9',
        decimal(n)[0] == '0' ==> n == 0,
        digits_value(decimal(n)) == n,
    decreases n,
{
    if n < 10 {
        assert(decimal(n) == seq![digit_char(n)]);
        assert(seq![digit_char(n)].drop_last() =~= Seq::<char>::empty());
        assert(digits_value(Seq::<char>::empty()) == 0);
    } else {
        law_decimal_reads_back(n / 10);
        let d = decimal(n / 10);
        assert(decimal(n) == d.push(digit_char(n % 10)));
        assert(d.push(digit_char(n % 10)).drop_last() =~= d);
        assert forall|i: int| 0 <= i < decimal(n).len() implies '0' <= #[trigger] decimal(n)[i]
            <= '9' by {
            if i < d.len() {
                assert(decimal(n)[i] == d[i]);
            }
        }
        assert(decimal(n)[0] == d[0]);
    }
}

/// A first stake gives a record holding exactly the staked coin, no
/// rewards, the rate brought up to now (the accrual written out), and the
/// time of the stake; the total locked grows by the amount.
pub proof fn law_first_stake_exact(c: Config, amount: Coin, now: u64)
    requires
        ({
            let e: int = now - c.last_update_time;
            let tvl: int = c.total_value_locked.amount as int;
            let grow: int = if e > 0 && tvl != 0 { (c.eps * e) * 1_000_000 / tvl } else { 0 };
            &&& c.last_update_time <= now
            &&& e > 0 && tvl != 0 ==> c.eps * e <= u128::MAX
            &&& c.global_exchange_rate + grow <= u128::MAX
            &&& tvl + amount.amount <= u128::MAX
        }),
    ensures
        stake_ok(c, None, amount, now),
        ({
            let e: int = now - c.last_update_time;
            let tvl: int = c.total_value_locked.amount as int;
            let grow: int = if e > 0 && tvl != 0 { (c.eps * e) * 1_000_000 / tvl } else { 0 };
            let u2 = staked_user(c, None, amount, now);
            &&& u2.staked_amount == amount
            &&& u2.rewards == 0
            &&& u2.exchange_rate == c.global_exchange_rate + grow
            &&& u2.last_staked_time == now
            &&& staked_config(c, amount, now).total_value_locked.amount == tvl + amount.amount
        }),
{
    law_accrual_is_exact(c, now);
    let u = fresh_user(c, amount, now);
    let c1 = updated(c, now);
    if c1.total_value_locked.amount != 0 {
        lemma_ratio_zero(0, c1.global_exchange_rate - u.exchange_rate, RATE_SCALE as int);
    }
}

} // verus!
