//! Redeeming claim tokens for a share of both reserves.
use vstd::prelude::*;
use crate::curve::{withdraw_amounts, withdraw_outcome, XYAmounts};
use crate::error::AMMErrorCode;
use crate::guard::{assert_non_zero, assert_not_expired, assert_not_locked, is_expired};
use crate::movement::{asset_of, pick_asset, Movement};
use crate::state::{Config, Pubkey};

verus! {

/// A withdrawal by `user` from the pool `config`, seen as of the start of the
/// operation: the pool's vault balances, the claim-token supply and the time.
#[derive(Clone, Copy, Debug)]
pub struct Withdraw {
    pub user: Pubkey,
    pub config: Config,
    pub vault_x: u64,
    pub vault_y: u64,
    pub lp_supply: u64,
    pub now: i64,
}

impl Withdraw {
    /// What redeeming `amount` claim tokens, for at least `min_x` and
    /// `min_y`, pays the caller; or why it is refused. Redeeming the whole
    /// supply would empty the pool, so at least one claim token must stay out.
    pub open spec fn decision(&self, amount: u64, min_x: u64, min_y: u64, expiration: i64) -> Result<
        XYAmounts,
        AMMErrorCode,
    > {
        if self.config.locked {
            Err(AMMErrorCode::PoolLocked)
        } else if is_expired(self.now, expiration) {
            Err(AMMErrorCode::OfferExpired)
        } else if amount == 0 {
            Err(AMMErrorCode::ZeroBalance)
        } else {
            match withdraw_outcome(self.vault_x, self.vault_y, self.lp_supply, amount) {
                Err(e) => Err(e),
                Ok(a) => if a.x < min_x || a.y < min_y {
                    Err(AMMErrorCode::SlippageExceeded)
                } else if amount >= self.lp_supply {
                    Err(AMMErrorCode::InsufficientBalance)
                } else {
                    Ok(a)
                },
            }
        }
    }

    /// The movements of an accepted withdrawal: both assets out, then the
    /// claim tokens burnt.
    pub open spec fn planned_moves(&self, amount: u64, min_x: u64, min_y: u64, expiration: i64) -> Seq<
        Movement,
    > {
        let a = self.decision(amount, min_x, min_y, expiration)->Ok_0;
        seq![
            Movement::TransferOut { asset: asset_of(true), amount: a.x },
            Movement::TransferOut { asset: asset_of(false), amount: a.y },
            Movement::BurnLp { amount },
        ]
    }

    /// Decides the redemption of `amount` claim tokens for at least `min_x`
    /// and `min_y`, and lists the movements that carry it out: both assets
    /// out, then the claim tokens burnt.
    pub fn withdraw(&self, amount: u64, min_x: u64, min_y: u64, expiration: i64) -> (r: Result<
        Vec<Movement>,
        AMMErrorCode,
    >)
        ensures
            r is Err <==> self.decision(amount, min_x, min_y, expiration) is Err,
            r is Err ==> r->Err_0 == self.decision(amount, min_x, min_y, expiration)->Err_0,
            r is Ok ==> r->Ok_0@ == self.planned_moves(amount, min_x, min_y, expiration),
            r is Ok ==> amount < self.lp_supply,
            r is Ok ==> self.decision(amount, min_x, min_y, expiration)->Ok_0.x <= self.vault_x
                && self.decision(amount, min_x, min_y, expiration)->Ok_0.y <= self.vault_y,
            r is Ok && self.vault_x > 0 ==> self.decision(amount, min_x, min_y, expiration)->Ok_0.x
                < self.vault_x,
            r is Ok && self.vault_y > 0 ==> self.decision(amount, min_x, min_y, expiration)->Ok_0.y
                < self.vault_y,
    {
        assert_not_locked(self.config.locked)?;
        assert_not_expired(self.now, expiration)?;
        let required = [amount];
        let res = assert_non_zero(&required);
        proof {
            assert(required@[0] == amount);
            if amount == 0 {
                assert(required@.contains(0u64));
            }
        }
        if res.is_err() {
            return Err(AMMErrorCode::ZeroBalance);
        }
        let amounts = withdraw_amounts(self.vault_x, self.vault_y, self.lp_supply, amount)?;
        if amounts.x < min_x || amounts.y < min_y {
            return Err(AMMErrorCode::SlippageExceeded);
        }
        if amount >= self.lp_supply {
            return Err(AMMErrorCode::InsufficientBalance);
        }
        let mut moves: Vec<Movement> = Vec::new();
        moves.push(self.withdraw_tokens(true, amounts.x));
        moves.push(self.withdraw_tokens(false, amounts.y));
        moves.push(self.burn_lp_tokens(amount));
        Ok(moves)
    }

    /// The movement of `amount` of the asset named by `x` out of the pool.
    pub fn withdraw_tokens(&self, x: bool, amount: u64) -> (r: Movement)
        ensures
            r == (Movement::TransferOut { asset: asset_of(x), amount }),
    {
        Movement::TransferOut { asset: pick_asset(x), amount }
    }

    /// The burning of `amount` of the caller's claim tokens.
    pub fn burn_lp_tokens(&self, amount: u64) -> (r: Movement)
        ensures
            r == (Movement::BurnLp { amount }),
    {
        Movement::BurnLp { amount }
    }
}

} // verus!
