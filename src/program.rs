//! The pool's entry points, one per instruction.
use vstd::prelude::*;
use crate::curve::BASIS_POINTS;
use crate::deposit::Deposit;
use crate::error::AMMErrorCode;
use crate::initialize::{Initialize, InitializeBumps};
use crate::movement::Movement;
use crate::state::{Config, Pubkey};
use crate::swap::Swap;
use crate::withdraw::Withdraw;

verus! {

/// Creates the pool record of `ctx` with `fee` basis points and `authority`.
pub fn initialize(
    ctx: &mut Initialize,
    bumps: InitializeBumps,
    seed: u64,
    fee: u16,
    authority: Pubkey,
) -> (r: Result<(), AMMErrorCode>)
    ensures
        fee > BASIS_POINTS ==> r == Err::<(), AMMErrorCode>(AMMErrorCode::InvalidFee)
            && final(ctx).config == old(ctx).config,
        fee <= BASIS_POINTS ==> r == Ok::<(), AMMErrorCode>(()) && final(ctx).config == (Config {
            seed,
            authority,
            mint_x: old(ctx).mint_x,
            mint_y: old(ctx).mint_y,
            fee,
            locked: false,
            auth_bump: bumps.auth,
            config_bump: bumps.config,
            lp_bump: bumps.mint_lp,
        }),
{
    ctx.init(bumps, seed, fee, authority)
}

/// Deposits `amount` claim tokens' worth into the pool of `ctx`, paying at
/// most `max_x` and `max_y`.
pub fn deposit(ctx: &Deposit, amount: u64, max_x: u64, max_y: u64, expiration: i64) -> (r: Result<
    Vec<Movement>,
    AMMErrorCode,
>)
    ensures
        r is Err <==> ctx.decision(amount, max_x, max_y, expiration) is Err,
        r is Err ==> r->Err_0 == ctx.decision(amount, max_x, max_y, expiration)->Err_0,
        r is Ok ==> r->Ok_0@ == ctx.planned_moves(amount, max_x, max_y, expiration),
{
    ctx.deposit(amount, max_x, max_y, expiration)
}

/// Redeems `amount` claim tokens from the pool of `ctx` for at least `min_x`
/// and `min_y`.
pub fn withdraw(ctx: &Withdraw, amount: u64, min_x: u64, min_y: u64, expiration: i64) -> (r: Result<
    Vec<Movement>,
    AMMErrorCode,
>)
    ensures
        r is Err <==> ctx.decision(amount, min_x, min_y, expiration) is Err,
        r is Err ==> r->Err_0 == ctx.decision(amount, min_x, min_y, expiration)->Err_0,
        r is Ok ==> r->Ok_0@ == ctx.planned_moves(amount, min_x, min_y, expiration),
{
    ctx.withdraw(amount, min_x, min_y, expiration)
}

/// Swaps `amount` of X (when `x` holds, else of Y) in the pool of `ctx` for
/// at least `min` of the other asset.
pub fn swap(ctx: &Swap, x: bool, amount: u64, min: u64, expiration: i64) -> (r: Result<
    Vec<Movement>,
    AMMErrorCode,
>)
    ensures
        r is Err <==> ctx.decision(x, amount, min, expiration) is Err,
        r is Err ==> r->Err_0 == ctx.decision(x, amount, min, expiration)->Err_0,
        r is Ok ==> r->Ok_0@ == ctx.planned_moves(x, amount, min, expiration),
{
    ctx.swap(x, amount, min, expiration)
}

} // verus!
