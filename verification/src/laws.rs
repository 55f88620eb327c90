//! System-wide laws of the valuation and settlement arithmetic, stated and
//! proved against the spec functions the components' contracts use.

use vstd::prelude::*;
use vstd::arithmetic::div_mod::lemma_div_is_ordered;
use vstd::arithmetic::div_mod::lemma_fundamental_div_mod;
use crate::pool::spec_exchange_rate;
use crate::pool::BASIS_POINTS;
use crate::pool::MOTES_PER_CSPR;
use crate::pool::PROTOCOL_FEE_BPS;
use crate::vault::spec_collateral_to_usd;
use crate::vault::spec_health_factor;
use crate::vault::spec_undercollateralized;
use crate::vault::spec_weighted_price;
use crate::vault::Position;

verus! {

/// A position with no debt has the maximum representable health factor: it
/// can never be liquidated.
pub proof fn lemma_debt_free_never_liquidatable(
    position: Position,
    price: u128,
    liq_threshold: u64,
    exchange_rate: u128,
)
    requires
        position.debt == 0,
    ensures
        spec_health_factor(position, price, liq_threshold, exchange_rate) == Some(u64::MAX),
{
}

/// Wherever the health factor is defined, a position with debt is
/// liquidatable (health factor below 10000) exactly when its
/// threshold-adjusted collateral value falls below its debt:
/// `collateral_usd * liq_threshold < debt * 10000`.
pub proof fn lemma_liquidatable_iff_undercollateralized(
    position: Position,
    price: u128,
    liq_threshold: u64,
    exchange_rate: u128,
)
    requires
        position.debt > 0,
        spec_health_factor(position, price, liq_threshold, exchange_rate) is Some,
    ensures
        spec_health_factor(position, price, liq_threshold, exchange_rate)->Some_0 < 10000
            <==> spec_undercollateralized(position, price, liq_threshold, exchange_rate),
{
    let cu = spec_collateral_to_usd(position.collateral, price, exchange_rate)->Some_0 as int;
    let t = liq_threshold as int;
    let bps = BASIS_POINTS as int;
    let num = cu * t * bps;
    let denom = position.debt * bps;
    let health = spec_health_factor(position, price, liq_threshold, exchange_rate)->Some_0;
    assert(health == num / denom);
    lemma_fundamental_div_mod(num, denom);
    if health < 10000 {
        // num == denom * health + rem with rem < denom, so num < denom * 10000.
        assert(num % denom < denom && num % denom >= 0) by (nonlinear_arith)
            requires
                denom > 0,
                num >= 0,
        ;
        assert(denom * health + denom <= denom * 10000) by (nonlinear_arith)
            requires
                denom > 0,
                health < 10000,
                health >= 0,
        ;
        assert(cu * t * bps < (position.debt * bps) * 10000);
        assert(cu * t < position.debt * 10000) by (nonlinear_arith)
            requires
                bps == 10000,
                cu * t * bps < (position.debt * bps) * 10000,
                position.debt >= 0,
                cu >= 0,
                t >= 0,
        ;
    }
    if cu * t < position.debt * bps {
        assert(num < denom * 10000) by (nonlinear_arith)
            requires
                bps == 10000,
                num == cu * t * bps,
                denom == position.debt * bps,
                cu * t < position.debt * bps,
        ;
        assert(health < 10000) by (nonlinear_arith)
            requires
                denom > 0,
                num >= 0,
                num == denom * health + num % denom,
                num % denom >= 0,
                num < denom * 10000,
        ;
    }
}

/// While no derivative tokens exist the exchange rate is exactly par: one
/// base unit per derivative unit at the fixed-point scale.
pub proof fn lemma_exchange_rate_par_at_zero_supply(total_staked: u128)
    ensures
        spec_exchange_rate(total_staked, 0) == Some(MOTES_PER_CSPR),
{
}

/// With a fixed derivative supply, the exchange rate never falls when the
/// staked total grows, wherever the larger total's rate is defined.
pub proof fn lemma_exchange_rate_monotone(staked1: u128, staked2: u128, total_supply: u128)
    requires
        staked1 <= staked2,
        spec_exchange_rate(staked2, total_supply) is Some,
    ensures
        spec_exchange_rate(staked1, total_supply) is Some,
        spec_exchange_rate(staked1, total_supply)->Some_0 <= spec_exchange_rate(
            staked2,
            total_supply,
        )->Some_0,
{
    if total_supply > 0 {
        assert(staked1 * MOTES_PER_CSPR <= staked2 * MOTES_PER_CSPR) by (nonlinear_arith)
            requires
                staked1 <= staked2,
                MOTES_PER_CSPR >= 1,
        ;
        lemma_div_is_ordered(
            staked1 as int * MOTES_PER_CSPR as int,
            staked2 as int * MOTES_PER_CSPR as int,
            total_supply as int,
        );
    }
}

/// Adding rewards worth at least one scaled supply unit strictly raises
/// the exchange rate, wherever the raised total's rate is defined.
pub proof fn lemma_exchange_rate_strictly_increases(
    staked: u128,
    net_rewards: u128,
    total_supply: u128,
)
    requires
        total_supply > 0,
        staked + net_rewards <= u128::MAX,
        spec_exchange_rate((staked + net_rewards) as u128, total_supply) is Some,
        net_rewards * MOTES_PER_CSPR >= total_supply,
    ensures
        spec_exchange_rate(staked, total_supply) is Some,
        spec_exchange_rate((staked + net_rewards) as u128, total_supply)->Some_0
            > spec_exchange_rate(staked, total_supply)->Some_0,
{
    let m = MOTES_PER_CSPR as int;
    let s = total_supply as int;
    let a = staked as int * m;
    let b = (staked + net_rewards) as int * m;
    assert(a <= b) by (nonlinear_arith)
        requires
            a == staked as int * m,
            b == (staked as int + net_rewards as int) * m,
            net_rewards >= 0,
            m >= 1,
    ;
    assert(b == a + net_rewards as int * m) by (nonlinear_arith)
        requires
            b == (staked as int + net_rewards as int) * m,
            a == staked as int * m,
    ;
    assert(b >= a + s);
    lemma_fundamental_div_mod(a, s);
    lemma_fundamental_div_mod(b, s);
    assert(a % s < s && a % s >= 0 && b % s >= 0) by (nonlinear_arith)
        requires
            s > 0,
            a >= 0,
            b >= 0,
    ;
    // b >= a + s forces the quotient of b to exceed the quotient of a.
    assert(b / s > a / s) by (nonlinear_arith)
        requires
            s > 0,
            a == s * (a / s) + a % s,
            b == s * (b / s) + b % s,
            a % s < s,
            a % s >= 0,
            b % s >= 0,
            b >= a + s,
    ;
}

/// The protocol fee is always strictly smaller than the harvested rewards
/// it is carved from, so the net rewards of a harvest are at least one.
pub proof fn lemma_protocol_fee_below_rewards(rewards: u128)
    requires
        rewards >= 1,
        rewards * (PROTOCOL_FEE_BPS as int) <= u128::MAX,
    ensures
        ((rewards * (PROTOCOL_FEE_BPS as u128)) as u128) / (BASIS_POINTS as u128) < rewards,
{
    let bps = BASIS_POINTS as int;
    let x = rewards as int * PROTOCOL_FEE_BPS as int;
    let fee = x / bps;
    assert(x < rewards * bps) by (nonlinear_arith)
        requires
            rewards >= 1,
            bps == 10000,
            x == rewards * 500,
    ;
    lemma_fundamental_div_mod(x, bps);
    assert(fee < rewards) by (nonlinear_arith)
        requires
            bps > 0,
            x >= 0,
            x == bps * fee + x % bps,
            x % bps >= 0,
            x < rewards * bps,
    ;
}

/// The exact weighted-average entry price: wherever it is defined on a
/// nonzero total, depositing `new_amount` at `new_price` into a position
/// holding `old_amount` at `old_price` yields
/// `(old_price*old_amount + new_price*new_amount) / (old_amount+new_amount)`.
pub proof fn lemma_weighted_price_exact(
    old_price: u128,
    old_amount: u128,
    new_price: u128,
    new_amount: u128,
)
    requires
        old_amount + new_amount > 0,
        spec_weighted_price(old_price, old_amount, new_price, new_amount) is Some,
    ensures
        spec_weighted_price(old_price, old_amount, new_price, new_amount)->Some_0 == (old_price
            * old_amount + new_price * new_amount) / (old_amount + new_amount),
{
}

/// Covering a position's whole debt leaves it debt-free, hence at the
/// maximum representable health factor: a full liquidation restores the
/// position to at least its previous health.
pub proof fn lemma_full_cover_liquidation_health(
    position: Position,
    price: u128,
    liq_threshold: u64,
    exchange_rate: u128,
    seized: u128,
)
    requires
        seized <= position.collateral,
        spec_health_factor(position, price, liq_threshold, exchange_rate) is Some,
    ensures
        ({
            let after = Position {
                collateral: (position.collateral - seized) as u128,
                debt: 0,
                ..position
            };
            spec_health_factor(after, price, liq_threshold, exchange_rate) == Some(u64::MAX)
                && spec_health_factor(position, price, liq_threshold, exchange_rate)->Some_0
                <= u64::MAX
        }),
{
}

} // verus!
