//! Trading one of the pool's assets for the other.
use vstd::prelude::*;
use crate::curve::{input_after_fee, swap_outcome, swap_output};
use crate::error::AMMErrorCode;
use crate::guard::{assert_non_zero, assert_not_expired, assert_not_locked, is_expired};
use crate::movement::{asset_of, pick_asset, Movement};
use crate::state::{Config, Pubkey};

verus! {

/// A swap by `user` on the pool `config`, seen as of the start of the
/// operation: the pool's vault balances and the time.
#[derive(Clone, Copy, Debug)]
pub struct Swap {
    pub user: Pubkey,
    pub config: Config,
    pub vault_x: u64,
    pub vault_y: u64,
    pub now: i64,
}

impl Swap {
    /// The reserve of the asset paid in: X when `x` holds.
    pub open spec fn reserve_in(&self, x: bool) -> u64 {
        if x {
            self.vault_x
        } else {
            self.vault_y
        }
    }

    /// The reserve of the asset paid out: Y when `x` holds.
    pub open spec fn reserve_out(&self, x: bool) -> u64 {
        if x {
            self.vault_y
        } else {
            self.vault_x
        }
    }

    /// What paying in `amount` (of X when `x` holds, else of Y), for at
    /// least `min` of the other asset, pays out; or why it is refused.
    pub open spec fn decision(&self, x: bool, amount: u64, min: u64, expiration: i64) -> Result<
        u64,
        AMMErrorCode,
    > {
        if self.config.locked {
            Err(AMMErrorCode::PoolLocked)
        } else if is_expired(self.now, expiration) {
            Err(AMMErrorCode::OfferExpired)
        } else if amount == 0 {
            Err(AMMErrorCode::ZeroBalance)
        } else {
            match swap_outcome(self.reserve_in(x), self.reserve_out(x), self.config.fee, amount) {
                Err(e) => Err(e),
                Ok(out) => if out < min {
                    Err(AMMErrorCode::SlippageExceeded)
                } else if out == 0 {
                    Err(AMMErrorCode::ZeroBalance)
                } else {
                    Ok(out)
                },
            }
        }
    }

    /// The movements of an accepted swap: the input into its own vault,
    /// then the output out of the other vault.
    pub open spec fn planned_moves(&self, x: bool, amount: u64, min: u64, expiration: i64) -> Seq<
        Movement,
    > {
        seq![
            Movement::TransferIn { asset: asset_of(x), amount },
            Movement::TransferOut {
                asset: asset_of(!x),
                amount: self.decision(x, amount, min, expiration)->Ok_0,
            },
        ]
    }

    /// Decides a swap of `amount` (of X when `x` holds, else of Y) for at
    /// least `min` of the other asset, and lists the movements that carry it
    /// out: the input into its vault, then the output out of the other.
    pub fn swap(&self, x: bool, amount: u64, min: u64, expiration: i64) -> (r: Result<
        Vec<Movement>,
        AMMErrorCode,
    >)
        ensures
            r is Err <==> self.decision(x, amount, min, expiration) is Err,
            r is Err ==> r->Err_0 == self.decision(x, amount, min, expiration)->Err_0,
            r is Ok ==> r->Ok_0@ == self.planned_moves(x, amount, min, expiration),
            r is Ok ==> self.decision(x, amount, min, expiration)->Ok_0 < self.reserve_out(x),
            r is Ok ==> self.decision(x, amount, min, expiration)->Ok_0 * self.reserve_in(x)
                <= self.reserve_out(x) * input_after_fee(amount as int, self.config.fee as int),
            r is Ok ==> (self.reserve_in(x) + amount) * (self.reserve_out(x) - self.decision(
                x,
                amount,
                min,
                expiration,
            )->Ok_0) >= self.reserve_in(x) * self.reserve_out(x),
    {
        assert_not_locked(self.config.locked)?;
        assert_not_expired(self.now, expiration)?;
        let required = [amount];
        let res = assert_non_zero(&required);
        proof {
            assert(required@[0] == amount);
            if amount == 0 {
                assert(required@.contains(0u64));
            }
        }
        if res.is_err() {
            return Err(AMMErrorCode::ZeroBalance);
        }
        let (reserve_in, reserve_out) = if x {
            (self.vault_x, self.vault_y)
        } else {
            (self.vault_y, self.vault_x)
        };
        let out = swap_output(reserve_in, reserve_out, self.config.fee, amount)?;
        if out < min {
            return Err(AMMErrorCode::SlippageExceeded);
        }
        if out == 0 {
            return Err(AMMErrorCode::ZeroBalance);
        }
        let mut moves: Vec<Movement> = Vec::new();
        moves.push(self.deposit_token(x, amount));
        moves.push(self.withdraw_token(x, out));
        Ok(moves)
    }

    /// The movement of `amount` of the input asset (X when `x` holds) into
    /// the pool.
    pub fn deposit_token(&self, x: bool, amount: u64) -> (r: Movement)
        ensures
            r == (Movement::TransferIn { asset: asset_of(x), amount }),
    {
        Movement::TransferIn { asset: pick_asset(x), amount }
    }

    /// The movement of `amount` of the output asset (Y when `x` holds) out
    /// of the pool.
    pub fn withdraw_token(&self, x: bool, amount: u64) -> (r: Movement)
        ensures
            r == (Movement::TransferOut { asset: asset_of(!x), amount }),
    {
        Movement::TransferOut { asset: pick_asset(!x), amount }
    }
}

} // verus!
