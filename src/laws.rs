//! What holds of every operation on a pool.
use vstd::prelude::*;
use crate::curve::{
    deposit_outcome, input_after_fee, lemma_floor_div, lemma_payout_bounds, lemma_share_bounds, share_of, swap_outcome, withdraw_outcome,
    XYAmounts, BASIS_POINTS,
};
use vstd::arithmetic::div_mod::lemma_div_is_ordered;
use crate::deposit::{is_bootstrap, Deposit};
use crate::error::AMMErrorCode;
use crate::guard::is_expired;
use crate::swap::Swap;
use crate::withdraw::Withdraw;

verus! {

/// `lp` claim tokens' share, times the supply, falls short of `lp` times the
/// reserve by less than the supply.
proof fn lemma_share_rounding(reserve: int, supply: int, lp: int)
    requires
        0 <= reserve,
        0 < supply,
        0 <= lp,
    ensures
        0 <= lp * reserve - share_of(reserve, supply, lp) * supply < supply,
{
    assert(lp * reserve >= 0) by (nonlinear_arith)
        requires
            0 <= reserve,
            0 <= lp,
    ;
    lemma_floor_div(lp * reserve, supply);
    assert(share_of(reserve, supply, lp) * supply == supply * share_of(reserve, supply, lp)) by (
    nonlinear_arith);
}

/// A deposit into a pool that already holds liquidity keeps the ratio of each
/// reserve to the claim-token supply: with reserve `r`, supply `s` before and
/// `r'`, `s'` after, `r * s' - r' * s` lies in `[0, s)`, the rounding of one
/// division.
pub proof fn lemma_deposit_keeps_ratio(
    pool: Deposit,
    amount: u64,
    max_x: u64,
    max_y: u64,
    expiration: i64,
)
    requires
        !is_bootstrap(pool.vault_x, pool.vault_y, pool.lp_supply),
        pool.decision(amount, max_x, max_y, expiration) is Ok,
    ensures
        ({
            let a = pool.decision(amount, max_x, max_y, expiration)->Ok_0;
            let s = pool.lp_supply as int;
            let s2 = s + amount;
            &&& 0 <= pool.vault_x * s2 - (pool.vault_x + a.x) * s < s
            &&& 0 <= pool.vault_y * s2 - (pool.vault_y + a.y) * s < s
        }),
{
    let a = pool.decision(amount, max_x, max_y, expiration)->Ok_0;
    let s = pool.lp_supply as int;
    assert(deposit_outcome(pool.vault_x, pool.vault_y, pool.lp_supply, amount) == Ok::<
        XYAmounts,
        AMMErrorCode,
    >(a));
    lemma_share_rounding(pool.vault_x as int, s, amount as int);
    lemma_share_rounding(pool.vault_y as int, s, amount as int);
    let rx = pool.vault_x as int;
    let ry = pool.vault_y as int;
    let l = amount as int;
    assert(rx * (s + l) - (rx + a.x) * s == l * rx - a.x * s) by (nonlinear_arith);
    assert(ry * (s + l) - (ry + a.y) * s == l * ry - a.y * s) by (nonlinear_arith);
}

/// A withdrawal keeps the ratio of each reserve to the claim-token supply:
/// with reserve `r`, supply `s` before and `r'`, `s'` after, `r * s' - r' * s`
/// lies in `(-s, 0]`, the rounding of one division.
pub proof fn lemma_withdraw_keeps_ratio(
    pool: Withdraw,
    amount: u64,
    min_x: u64,
    min_y: u64,
    expiration: i64,
)
    requires
        pool.decision(amount, min_x, min_y, expiration) is Ok,
    ensures
        ({
            let a = pool.decision(amount, min_x, min_y, expiration)->Ok_0;
            let s = pool.lp_supply as int;
            let s2 = s - amount;
            &&& a.x <= pool.vault_x && a.y <= pool.vault_y && amount <= s
            &&& -s < pool.vault_x * s2 - (pool.vault_x - a.x) * s <= 0
            &&& -s < pool.vault_y * s2 - (pool.vault_y - a.y) * s <= 0
        }),
{
    let a = pool.decision(amount, min_x, min_y, expiration)->Ok_0;
    let s = pool.lp_supply as int;
    assert(withdraw_outcome(pool.vault_x, pool.vault_y, pool.lp_supply, amount) == Ok::<
        XYAmounts,
        AMMErrorCode,
    >(a));
    lemma_share_rounding(pool.vault_x as int, s, amount as int);
    lemma_share_rounding(pool.vault_y as int, s, amount as int);
    lemma_share_bounds(pool.vault_x as int, s, amount as int);
    lemma_share_bounds(pool.vault_y as int, s, amount as int);
    let rx = pool.vault_x as int;
    let ry = pool.vault_y as int;
    let l = amount as int;
    assert(a.x <= rx) by (nonlinear_arith)
        requires
            a.x * s <= l * rx,
            l <= s,
            0 < s,
            0 <= rx,
            0 <= a.x,
    ;
    assert(a.y <= ry) by (nonlinear_arith)
        requires
            a.y * s <= l * ry,
            l <= s,
            0 < s,
            0 <= ry,
            0 <= a.y,
    ;
    assert(rx * (s - l) - (rx - a.x) * s == a.x * s - l * rx) by (nonlinear_arith);
    assert(ry * (s - l) - (ry - a.y) * s == a.y * s - l * ry) by (nonlinear_arith);
}

/// A withdrawal never empties a pool that holds liquidity: reserves and a
/// supply that were positive stay positive, so the pool cannot return to
/// its empty starting state.
pub proof fn lemma_withdraw_never_empties_pool(
    pool: Withdraw,
    amount: u64,
    min_x: u64,
    min_y: u64,
    expiration: i64,
)
    requires
        pool.vault_x > 0,
        pool.vault_y > 0,
        pool.decision(amount, min_x, min_y, expiration) is Ok,
    ensures
        ({
            let a = pool.decision(amount, min_x, min_y, expiration)->Ok_0;
            &&& pool.vault_x - a.x > 0
            &&& pool.vault_y - a.y > 0
            &&& pool.lp_supply - amount > 0
        }),
{
    let s = pool.lp_supply as int;
    lemma_share_bounds(pool.vault_x as int, s, amount as int);
    lemma_share_bounds(pool.vault_y as int, s, amount as int);
}

/// A swap never lowers the product of the reserves: with `out` paid out,
/// `(reserve_in + amount) * (reserve_out - out) >= reserve_in * reserve_out`,
/// for every fee and so for every positive one; and it never empties the
/// output reserve.
pub proof fn lemma_swap_product_never_falls(
    pool: Swap,
    x: bool,
    amount: u64,
    min: u64,
    expiration: i64,
)
    requires
        pool.decision(x, amount, min, expiration) is Ok,
    ensures
        ({
            let out = pool.decision(x, amount, min, expiration)->Ok_0;
            let r_in = pool.reserve_in(x) as int;
            let r_out = pool.reserve_out(x) as int;
            &&& (r_in + amount) * (r_out - out) >= r_in * r_out
            &&& 0 < out < r_out
        }),
{
    lemma_payout_bounds(
        pool.reserve_in(x) as int,
        pool.reserve_out(x) as int,
        pool.config.fee as int,
        amount as int,
    );
}

/// A swap never pays better than the price before the trade: the payout
/// times the input reserve is at most the output reserve times the input
/// left after the fee.
pub proof fn lemma_swap_never_beats_spot_price(
    pool: Swap,
    x: bool,
    amount: u64,
    min: u64,
    expiration: i64,
)
    requires
        pool.decision(x, amount, min, expiration) is Ok,
    ensures
        pool.decision(x, amount, min, expiration)->Ok_0 * pool.reserve_in(x) <= pool.reserve_out(x)
            * input_after_fee(amount as int, pool.config.fee as int),
{
    lemma_payout_bounds(
        pool.reserve_in(x) as int,
        pool.reserve_out(x) as int,
        pool.config.fee as int,
        amount as int,
    );
}

/// `a / b <= c / d` whenever `a * d <= c * b`.
proof fn lemma_div_cross(a: int, b: int, c: int, d: int)
    requires
        0 <= a,
        0 <= c,
        0 < b,
        0 < d,
        a * d <= c * b,
    ensures
        a / b <= c / d,
{
    lemma_floor_div(a, b);
    lemma_floor_div(c, d);
    let q1 = a / b;
    let q2 = c / d;
    assert(q1 * d <= c) by (nonlinear_arith)
        requires
            b * q1 <= a,
            a * d <= c * b,
            0 < b,
            0 < d,
    ;
    assert(q1 <= q2) by (nonlinear_arith)
        requires
            q1 * d <= c,
            c < d * q2 + d,
            0 < d,
    ;
}

/// On the same pool, paying in more never buys less.
pub proof fn lemma_swap_more_in_never_less_out(
    reserve_in: u64,
    reserve_out: u64,
    fee: u16,
    amount: u64,
    more: u64,
)
    requires
        amount <= more,
        swap_outcome(reserve_in, reserve_out, fee, amount) is Ok,
    ensures
        swap_outcome(reserve_in, reserve_out, fee, more) is Ok,
        swap_outcome(reserve_in, reserve_out, fee, amount)->Ok_0 <= swap_outcome(
            reserve_in,
            reserve_out,
            fee,
            more,
        )->Ok_0,
{
    let r_in = reserve_in as int;
    let r_out = reserve_out as int;
    let keep = BASIS_POINTS - fee;
    lemma_payout_bounds(r_in, r_out, fee as int, amount as int);
    lemma_payout_bounds(r_in, r_out, fee as int, more as int);
    assert(amount * keep <= more * keep) by (nonlinear_arith)
        requires
            amount <= more,
            keep >= 0,
    ;
    assert(amount * keep >= 0) by (nonlinear_arith)
        requires
            amount >= 0,
            keep >= 0,
    ;
    lemma_div_is_ordered(amount * keep, more * keep, 10000);
    let e1 = input_after_fee(amount as int, fee as int);
    let e2 = input_after_fee(more as int, fee as int);
    assert(e1 <= e2);
    assert((r_out * e1) * (r_in + e2) <= (r_out * e2) * (r_in + e1)) by (nonlinear_arith)
        requires
            0 <= e1 <= e2,
            r_in > 0,
            r_out > 0,
    ;
    assert(r_out * e1 >= 0 && r_out * e2 >= 0) by (nonlinear_arith)
        requires
            0 <= e1 <= e2,
            r_out > 0,
    ;
    lemma_div_cross(r_out * e1, r_in + e1, r_out * e2, r_in + e2);
}

/// A deposit is refused whenever the price of the claim tokens exceeds either
/// of the caller's bounds, and for slippage once the lock, the deadline and
/// the amounts have passed.
pub proof fn lemma_deposit_slippage(
    pool: Deposit,
    amount: u64,
    max_x: u64,
    max_y: u64,
    expiration: i64,
    price: XYAmounts,
)
    requires
        deposit_outcome(pool.vault_x, pool.vault_y, pool.lp_supply, amount) == Ok::<
            XYAmounts,
            AMMErrorCode,
        >(price),
        price.x > max_x || price.y > max_y,
    ensures
        pool.decision(amount, max_x, max_y, expiration) is Err,
        !pool.config.locked && !is_expired(pool.now, expiration) && amount != 0 && max_x != 0
            && max_y != 0 ==> pool.decision(amount, max_x, max_y, expiration) == Err::<
            XYAmounts,
            AMMErrorCode,
        >(AMMErrorCode::SlippageExceeded),
{
}

/// A withdrawal is refused whenever either payout falls below the caller's
/// bound, and for slippage once the lock, the deadline and the amount have
/// passed.
pub proof fn lemma_withdraw_slippage(
    pool: Withdraw,
    amount: u64,
    min_x: u64,
    min_y: u64,
    expiration: i64,
    payout: XYAmounts,
)
    requires
        withdraw_outcome(pool.vault_x, pool.vault_y, pool.lp_supply, amount) == Ok::<
            XYAmounts,
            AMMErrorCode,
        >(payout),
        payout.x < min_x || payout.y < min_y,
    ensures
        pool.decision(amount, min_x, min_y, expiration) is Err,
        !pool.config.locked && !is_expired(pool.now, expiration) && amount != 0 ==> pool.decision(
            amount,
            min_x,
            min_y,
            expiration,
        ) == Err::<XYAmounts, AMMErrorCode>(AMMErrorCode::SlippageExceeded),
{
}

/// A swap is refused whenever its payout falls below the caller's bound, and
/// for slippage once the lock, the deadline and the amount have passed.
pub proof fn lemma_swap_slippage(
    pool: Swap,
    x: bool,
    amount: u64,
    min: u64,
    expiration: i64,
    out: u64,
)
    requires
        swap_outcome(pool.reserve_in(x), pool.reserve_out(x), pool.config.fee, amount) == Ok::<
            u64,
            AMMErrorCode,
        >(out),
        out < min,
    ensures
        pool.decision(x, amount, min, expiration) is Err,
        !pool.config.locked && !is_expired(pool.now, expiration) && amount != 0 ==> pool.decision(
            x,
            amount,
            min,
            expiration,
        ) == Err::<u64, AMMErrorCode>(AMMErrorCode::SlippageExceeded),
{
}

/// On a locked pool, deposits, withdrawals and swaps are all refused with
/// `PoolLocked`, whatever their other arguments.
pub proof fn lemma_lock_gates(
    dep: Deposit,
    wd: Withdraw,
    sw: Swap,
    x: bool,
    amount: u64,
    bound_x: u64,
    bound_y: u64,
    expiration: i64,
)
    requires
        dep.config.locked,
        wd.config.locked,
        sw.config.locked,
    ensures
        dep.decision(amount, bound_x, bound_y, expiration) == Err::<XYAmounts, AMMErrorCode>(
            AMMErrorCode::PoolLocked,
        ),
        wd.decision(amount, bound_x, bound_y, expiration) == Err::<XYAmounts, AMMErrorCode>(
            AMMErrorCode::PoolLocked,
        ),
        sw.decision(x, amount, bound_x, expiration) == Err::<u64, AMMErrorCode>(
            AMMErrorCode::PoolLocked,
        ),
{
}

/// On an unlocked pool, deposits, withdrawals and swaps whose deadline has
/// passed are all refused with `OfferExpired`, whatever their amounts.
pub proof fn lemma_deadline_gates(
    dep: Deposit,
    wd: Withdraw,
    sw: Swap,
    x: bool,
    amount: u64,
    bound_x: u64,
    bound_y: u64,
    expiration: i64,
)
    requires
        !dep.config.locked && is_expired(dep.now, expiration),
        !wd.config.locked && is_expired(wd.now, expiration),
        !sw.config.locked && is_expired(sw.now, expiration),
    ensures
        dep.decision(amount, bound_x, bound_y, expiration) == Err::<XYAmounts, AMMErrorCode>(
            AMMErrorCode::OfferExpired,
        ),
        wd.decision(amount, bound_x, bound_y, expiration) == Err::<XYAmounts, AMMErrorCode>(
            AMMErrorCode::OfferExpired,
        ),
        sw.decision(x, amount, bound_x, expiration) == Err::<u64, AMMErrorCode>(
            AMMErrorCode::OfferExpired,
        ),
{
}

/// The curve math is a function of its inputs: whatever the call, equal
/// reserves, supply, fee and amount give equal prices and payouts, errors
/// included.
pub proof fn lemma_curve_math_is_deterministic(
    reserve_a: u64,
    reserve_b: u64,
    supply: u64,
    fee: u16,
    amount: u64,
    reserve_a2: u64,
    reserve_b2: u64,
    supply2: u64,
    fee2: u16,
    amount2: u64,
)
    requires
        reserve_a == reserve_a2,
        reserve_b == reserve_b2,
        supply == supply2,
        fee == fee2,
        amount == amount2,
    ensures
        deposit_outcome(reserve_a, reserve_b, supply, amount) == deposit_outcome(
            reserve_a2,
            reserve_b2,
            supply2,
            amount2,
        ),
        withdraw_outcome(reserve_a, reserve_b, supply, amount) == withdraw_outcome(
            reserve_a2,
            reserve_b2,
            supply2,
            amount2,
        ),
        swap_outcome(reserve_a, reserve_b, fee, amount) == swap_outcome(
            reserve_a2,
            reserve_b2,
            fee2,
            amount2,
        ),
{
}

} // verus!
