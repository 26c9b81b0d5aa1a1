//! The pool's arithmetic: how much of each asset a number of claim tokens
//! is worth, and what a swap pays out.
use vstd::prelude::*;
use vstd::arithmetic::div_mod::{lemma_fundamental_div_mod, lemma_mod_pos_bound};
use crate::error::AMMErrorCode;

verus! {

/// The fee denominator: fees are counted in hundredths of a percent.
pub const BASIS_POINTS: u16 = 10000;

/// An amount of each of the pool's two assets.
#[derive(Clone, Copy, Debug, PartialEq, Eq, Structural)]
pub struct XYAmounts {
    pub x: u64,
    pub y: u64,
}

/// `lp` claim tokens' share of `reserve` when `supply` are outstanding,
/// rounded toward zero.
pub open spec fn share_of(reserve: int, supply: int, lp: int) -> int {
    lp * reserve / supply
}

/// What a deposit of `lp` claim tokens costs, or why it cannot be priced.
pub open spec fn deposit_outcome(
    reserve_x: u64,
    reserve_y: u64,
    supply: u64,
    lp: u64,
) -> Result<XYAmounts, AMMErrorCode> {
    if supply == 0 {
        Err(AMMErrorCode::ZeroBalance)
    } else if share_of(reserve_x as int, supply as int, lp as int) > u64::MAX
        || share_of(reserve_y as int, supply as int, lp as int) > u64::MAX {
        Err(AMMErrorCode::Overflow)
    } else {
        Ok(
            XYAmounts {
                x: share_of(reserve_x as int, supply as int, lp as int) as u64,
                y: share_of(reserve_y as int, supply as int, lp as int) as u64,
            },
        )
    }
}

/// What redeeming `lp` claim tokens pays out, or why it cannot be priced.
pub open spec fn withdraw_outcome(
    reserve_x: u64,
    reserve_y: u64,
    supply: u64,
    lp: u64,
) -> Result<XYAmounts, AMMErrorCode> {
    if supply == 0 {
        Err(AMMErrorCode::ZeroBalance)
    } else if share_of(reserve_x as int, supply as int, lp as int) > u64::MAX
        || share_of(reserve_y as int, supply as int, lp as int) > u64::MAX {
        Err(AMMErrorCode::Overflow)
    } else {
        Ok(
            XYAmounts {
                x: share_of(reserve_x as int, supply as int, lp as int) as u64,
                y: share_of(reserve_y as int, supply as int, lp as int) as u64,
            },
        )
    }
}

/// The part of `amount_in` left once the fee is taken, rounded toward zero.
pub open spec fn input_after_fee(amount_in: int, fee: int) -> int {
    amount_in * (BASIS_POINTS - fee) / (BASIS_POINTS as int)
}

/// The constant-product payout, rounded in the pool's favour:
/// `reserve_out * eff / (reserve_in + eff)` rounded down, which is
/// `reserve_out` less the old product over the new input reserve rounded up.
pub open spec fn payout(reserve_in: int, reserve_out: int, fee: int, amount_in: int) -> int {
    let eff = input_after_fee(amount_in, fee);
    reserve_out * eff / (reserve_in + eff)
}

/// What a swap pays out, or why it cannot be priced.
pub open spec fn swap_outcome(reserve_in: u64, reserve_out: u64, fee: u16, amount_in: u64) -> Result<
    u64,
    AMMErrorCode,
> {
    if fee > BASIS_POINTS {
        Err(AMMErrorCode::InvalidFee)
    } else if reserve_in == 0 || reserve_out == 0 {
        Err(AMMErrorCode::ZeroBalance)
    } else {
        Ok(payout(reserve_in as int, reserve_out as int, fee as int, amount_in as int) as u64)
    }
}

/// `n / d` is the largest multiple of `d` not above `n`.
pub proof fn lemma_floor_div(n: int, d: int)
    requires
        n >= 0,
        d > 0,
    ensures
        0 <= n / d,
        d * (n / d) <= n,
        n < d * (n / d) + d,
{
    lemma_fundamental_div_mod(n, d);
    lemma_mod_pos_bound(n, d);
    assert(0 <= n / d) by (nonlinear_arith)
        requires
            d * (n / d) + n % d == n,
            0 <= n % d < d,
            n >= 0,
            d > 0,
    ;
}

/// A share is never more than the reserve when `lp` is at most `supply`,
/// less than a non-empty reserve when `lp` is below `supply`, and at most
/// `lp * reserve` in any case.
pub(crate) proof fn lemma_share_bounds(reserve: int, supply: int, lp: int)
    requires
        0 <= reserve,
        0 < supply,
        0 <= lp,
    ensures
        0 <= share_of(reserve, supply, lp) <= lp * reserve,
        lp <= supply ==> share_of(reserve, supply, lp) <= reserve,
        lp < supply && reserve > 0 ==> share_of(reserve, supply, lp) < reserve,
{
    let n = lp * reserve;
    assert(n >= 0) by (nonlinear_arith)
        requires
            n == lp * reserve,
            0 <= reserve,
            0 <= lp,
    ;
    lemma_floor_div(n, supply);
    let q = n / supply;
    assert(q <= n) by (nonlinear_arith)
        requires
            supply * q <= n,
            supply >= 1,
            q >= 0,
    ;
    if lp <= supply {
        assert(q <= reserve) by (nonlinear_arith)
            requires
                supply * q <= lp * reserve,
                lp <= supply,
                0 <= reserve,
                supply > 0,
        ;
    }
    if lp < supply && reserve > 0 {
        assert(q < reserve) by (nonlinear_arith)
            requires
                supply * q <= lp * reserve,
                lp < supply,
                0 < reserve,
                supply > 0,
                q >= 0,
        ;
    }
}

/// The fee leaves at most the input, and strictly less of a positive input
/// when it is positive. A payout from non-empty reserves is below the output
/// reserve, never beats the price before the trade, and never lowers the
/// product of the reserves.
pub(crate) proof fn lemma_payout_bounds(reserve_in: int, reserve_out: int, fee: int, amount_in: int)
    requires
        0 < reserve_in,
        0 < reserve_out,
        0 <= fee <= BASIS_POINTS,
        0 <= amount_in,
    ensures
        ({
            let eff = input_after_fee(amount_in, fee);
            let out = payout(reserve_in, reserve_out, fee, amount_in);
            &&& 0 <= eff <= amount_in
            &&& (fee > 0 && amount_in > 0 ==> eff < amount_in)
            &&& 0 <= out < reserve_out
            &&& out * reserve_in <= reserve_out * eff
            &&& (reserve_in + amount_in) * (reserve_out - out) >= reserve_in * reserve_out
        }),
{
    let keep = BASIS_POINTS - fee;
    let m = amount_in * keep;
    assert(0 <= m <= amount_in * 10000) by (nonlinear_arith)
        requires
            m == amount_in * keep,
            0 <= keep <= 10000,
            0 <= amount_in,
    ;
    lemma_floor_div(m, 10000);
    if fee > 0 && amount_in > 0 {
        assert(m < amount_in * 10000) by (nonlinear_arith)
            requires
                m == amount_in * keep,
                keep < 10000,
                0 < amount_in,
        ;
    }
    let eff = input_after_fee(amount_in, fee);
    let d = reserve_in + eff;
    let n = reserve_out * eff;
    assert(n >= 0) by (nonlinear_arith)
        requires
            n == reserve_out * eff,
            reserve_out >= 0,
            eff >= 0,
    ;
    lemma_floor_div(n, d);
    let out = n / d;
    assert(out < reserve_out) by (nonlinear_arith)
        requires
            d * out <= n,
            n == reserve_out * eff,
            d == reserve_in + eff,
            reserve_in > 0,
            reserve_out > 0,
            eff >= 0,
            out >= 0,
    ;
    assert(out * reserve_in <= reserve_out * eff) by (nonlinear_arith)
        requires
            d * out <= n,
            n == reserve_out * eff,
            d == reserve_in + eff,
            eff >= 0,
            out >= 0,
    ;
    assert((reserve_in + amount_in) * (reserve_out - out) >= reserve_in * reserve_out) by (
    nonlinear_arith)
        requires
            d * out <= n,
            n == reserve_out * eff,
            d == reserve_in + eff,
            eff <= amount_in,
            out <= reserve_out,
    ;
}


/// Prices a deposit of `lp_amount` claim tokens into a pool that holds
/// `reserve_x` and `reserve_y` with `supply` claim tokens outstanding.
pub fn deposit_amounts(reserve_x: u64, reserve_y: u64, supply: u64, lp_amount: u64) -> (r: Result<
    XYAmounts,
    AMMErrorCode,
>)
    ensures
        r == deposit_outcome(reserve_x, reserve_y, supply, lp_amount),
{
    if supply == 0 {
        return Err(AMMErrorCode::ZeroBalance);
    }
    let x = share(reserve_x, supply, lp_amount);
    let y = share(reserve_y, supply, lp_amount);
    if x > u64::MAX as u128 || y > u64::MAX as u128 {
        return Err(AMMErrorCode::Overflow);
    }
    Ok(XYAmounts { x: x as u64, y: y as u64 })
}

/// Prices the redemption of `lp_amount` claim tokens from a pool that holds
/// `reserve_x` and `reserve_y` with `supply` claim tokens outstanding.
pub fn withdraw_amounts(reserve_x: u64, reserve_y: u64, supply: u64, lp_amount: u64) -> (r: Result<
    XYAmounts,
    AMMErrorCode,
>)
    ensures
        r == withdraw_outcome(reserve_x, reserve_y, supply, lp_amount),
        r is Ok && lp_amount <= supply ==> r->Ok_0.x <= reserve_x && r->Ok_0.y <= reserve_y,
        r is Ok && lp_amount < supply ==> (reserve_x > 0 ==> r->Ok_0.x < reserve_x) && (reserve_y
            > 0 ==> r->Ok_0.y < reserve_y),
{
    if supply == 0 {
        return Err(AMMErrorCode::ZeroBalance);
    }
    let x = share(reserve_x, supply, lp_amount);
    let y = share(reserve_y, supply, lp_amount);
    if x > u64::MAX as u128 || y > u64::MAX as u128 {
        return Err(AMMErrorCode::Overflow);
    }
    proof {
        lemma_share_bounds(reserve_x as int, supply as int, lp_amount as int);
        lemma_share_bounds(reserve_y as int, supply as int, lp_amount as int);
    }
    Ok(XYAmounts { x: x as u64, y: y as u64 })
}


/// `lp`'s share of `reserve`, computed in 128 bits where it cannot overflow.
fn share(reserve: u64, supply: u64, lp: u64) -> (r: u128)
    requires
        supply > 0,
    ensures
        r == share_of(reserve as int, supply as int, lp as int),
{
    proof {
        lemma_share_bounds(reserve as int, supply as int, lp as int);
        assert((lp as int) * (reserve as int) <= u64::MAX * u64::MAX) by (nonlinear_arith)
            requires
                lp <= u64::MAX,
                reserve <= u64::MAX,
        ;
    }
    (lp as u128) * (reserve as u128) / (supply as u128)
}

/// What a swap of `amount_in` pays out of a pool holding `reserve_in` of the
/// asset paid in and `reserve_out` of the asset paid out, with a fee of
/// `fee` basis points taken from the input.
pub fn swap_output(reserve_in: u64, reserve_out: u64, fee: u16, amount_in: u64) -> (r: Result<
    u64,
    AMMErrorCode,
>)
    ensures
        r == swap_outcome(reserve_in, reserve_out, fee, amount_in),
        r is Ok ==> r->Ok_0 < reserve_out,
        r is Ok ==> r->Ok_0 * reserve_in <= reserve_out * input_after_fee(amount_in as int, fee as int),
        r is Ok ==> (reserve_in + amount_in) * (reserve_out - r->Ok_0) >= reserve_in * reserve_out,
{
    if fee > BASIS_POINTS {
        return Err(AMMErrorCode::InvalidFee);
    }
    if reserve_in == 0 || reserve_out == 0 {
        return Err(AMMErrorCode::ZeroBalance);
    }
    let keep: u128 = (BASIS_POINTS - fee) as u128;
    proof {
        lemma_payout_bounds(reserve_in as int, reserve_out as int, fee as int, amount_in as int);
        assert((amount_in as int) * (keep as int) <= u64::MAX * 10000) by (nonlinear_arith)
            requires
                amount_in <= u64::MAX,
                keep <= 10000,
        ;
    }
    let effective: u128 = (amount_in as u128) * keep / (BASIS_POINTS as u128);
    proof {
        assert((reserve_out as int) * (effective as int) <= u64::MAX * u64::MAX) by (nonlinear_arith)
            requires
                reserve_out <= u64::MAX,
                effective <= u64::MAX,
        ;
    }
    let paid: u128 = (reserve_out as u128) * effective / ((reserve_in as u128) + effective);
    Ok(paid as u64)
}

} // verus!
