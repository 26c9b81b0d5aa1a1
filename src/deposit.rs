//! Adding liquidity to a pool in exchange for claim tokens.
use vstd::prelude::*;
use crate::curve::{deposit_amounts, deposit_outcome, XYAmounts};
use crate::error::AMMErrorCode;
use crate::guard::{assert_non_zero, assert_not_expired, assert_not_locked, is_expired};
use crate::movement::{asset_of, pick_asset, Movement};
use crate::state::{Config, Pubkey};

verus! {

/// A deposit by `user` into the pool `config`, seen as of the start of the
/// operation: the pool's vault balances, the claim-token supply and the time.
#[derive(Clone, Copy, Debug)]
pub struct Deposit {
    pub user: Pubkey,
    pub config: Config,
    pub vault_x: u64,
    pub vault_y: u64,
    pub lp_supply: u64,
    pub now: i64,
}

/// The state of a pool that has never held liquidity.
pub open spec fn is_bootstrap(vault_x: u64, vault_y: u64, lp_supply: u64) -> bool {
    lp_supply == 0 && vault_x == 0 && vault_y == 0
}

impl Deposit {
    /// What a deposit of `amount` claim tokens, paying at most `max_x` and
    /// `max_y`, takes from the caller; or why it is refused.
    pub open spec fn decision(&self, amount: u64, max_x: u64, max_y: u64, expiration: i64) -> Result<
        XYAmounts,
        AMMErrorCode,
    > {
        if self.config.locked {
            Err(AMMErrorCode::PoolLocked)
        } else if is_expired(self.now, expiration) {
            Err(AMMErrorCode::OfferExpired)
        } else if amount == 0 || max_x == 0 || max_y == 0 {
            Err(AMMErrorCode::ZeroBalance)
        } else if is_bootstrap(self.vault_x, self.vault_y, self.lp_supply) {
            Ok(XYAmounts { x: max_x, y: max_y })
        } else {
            match deposit_outcome(self.vault_x, self.vault_y, self.lp_supply, amount) {
                Err(e) => Err(e),
                Ok(a) => if a.x > max_x || a.y > max_y {
                    Err(AMMErrorCode::SlippageExceeded)
                } else {
                    Ok(a)
                },
            }
        }
    }

    /// The movements of an accepted deposit: both assets in, then the claim
    /// tokens out.
    pub open spec fn planned_moves(&self, amount: u64, max_x: u64, max_y: u64, expiration: i64) -> Seq<
        Movement,
    > {
        let a = self.decision(amount, max_x, max_y, expiration)->Ok_0;
        seq![
            Movement::TransferIn { asset: asset_of(true), amount: a.x },
            Movement::TransferIn { asset: asset_of(false), amount: a.y },
            Movement::MintLp { amount },
        ]
    }

    /// Decides a deposit of `amount` claim tokens for at most `max_x` and
    /// `max_y`, and lists the movements that carry it out: both assets in,
    /// then the claim tokens out.
    pub fn deposit(&self, amount: u64, max_x: u64, max_y: u64, expiration: i64) -> (r: Result<
        Vec<Movement>,
        AMMErrorCode,
    >)
        ensures
            r is Err <==> self.decision(amount, max_x, max_y, expiration) is Err,
            r is Err ==> r->Err_0 == self.decision(amount, max_x, max_y, expiration)->Err_0,
            r is Ok ==> r->Ok_0@ == self.planned_moves(amount, max_x, max_y, expiration),
    {
        assert_not_locked(self.config.locked)?;
        assert_not_expired(self.now, expiration)?;
        let required = [amount, max_x, max_y];
        let res = assert_non_zero(&required);
        proof {
            assert(required@[0] == amount && required@[1] == max_x && required@[2] == max_y);
            if amount == 0 || max_x == 0 || max_y == 0 {
                assert(required@.contains(0u64));
            }
        }
        if res.is_err() {
            return Err(AMMErrorCode::ZeroBalance);
        }
        let (x, y) = if self.lp_supply == 0 && self.vault_x == 0 && self.vault_y == 0 {
            (max_x, max_y)
        } else {
            let amounts = deposit_amounts(self.vault_x, self.vault_y, self.lp_supply, amount)?;
            if amounts.x > max_x || amounts.y > max_y {
                return Err(AMMErrorCode::SlippageExceeded);
            }
            (amounts.x, amounts.y)
        };
        let mut moves: Vec<Movement> = Vec::new();
        moves.push(self.deposit_tokens(true, x));
        moves.push(self.deposit_tokens(false, y));
        moves.push(self.mint_lp_token(amount));
        Ok(moves)
    }

    /// The movement of `amount` of the asset named by `is_x` into the pool.
    pub fn deposit_tokens(&self, is_x: bool, amount: u64) -> (r: Movement)
        ensures
            r == (Movement::TransferIn { asset: asset_of(is_x), amount }),
    {
        Movement::TransferIn { asset: pick_asset(is_x), amount }
    }

    /// The minting of `amount` claim tokens to the caller.
    pub fn mint_lp_token(&self, amount: u64) -> (r: Movement)
        ensures
            r == (Movement::MintLp { amount }),
    {
        Movement::MintLp { amount }
    }
}

} // verus!
