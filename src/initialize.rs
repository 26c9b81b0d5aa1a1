//! Creating a pool.
use vstd::prelude::*;
use crate::curve::BASIS_POINTS;
use crate::error::AMMErrorCode;
use crate::state::{Config, Pubkey};

verus! {

/// The address bumps found for the pool's derived accounts.
#[derive(Clone, Copy, Debug, PartialEq, Eq, Structural)]
pub struct InitializeBumps {
    pub auth: u8,
    pub config: u8,
    pub mint_lp: u8,
}

/// A request by `initializer` to create the pool `config` on the pair
/// `mint_x`, `mint_y`.
#[derive(Clone, Copy, Debug)]
pub struct Initialize {
    pub initializer: Pubkey,
    pub mint_x: Pubkey,
    pub mint_y: Pubkey,
    pub config: Config,
}

impl Initialize {
    /// Fills in the pool record, unlocked, or refuses a fee above 100%.
    pub fn init(&mut self, bumps: InitializeBumps, seeds: u64, fee: u16, authority: Pubkey) -> (r:
        Result<(), AMMErrorCode>)
        ensures
            fee > BASIS_POINTS ==> r == Err::<(), AMMErrorCode>(AMMErrorCode::InvalidFee)
                && final(self).config == old(self).config,
            fee <= BASIS_POINTS ==> r == Ok::<(), AMMErrorCode>(()) && final(self).config == (Config {
                seed: seeds,
                authority,
                mint_x: old(self).mint_x,
                mint_y: old(self).mint_y,
                fee,
                locked: false,
                auth_bump: bumps.auth,
                config_bump: bumps.config,
                lp_bump: bumps.mint_lp,
            }),
            fee <= BASIS_POINTS ==> final(self).config.wf(),
            final(self).initializer == old(self).initializer,
            final(self).mint_x == old(self).mint_x,
            final(self).mint_y == old(self).mint_y,
    {
        if fee > BASIS_POINTS {
            return Err(AMMErrorCode::InvalidFee);
        }
        let mint_x = self.mint_x;
        let mint_y = self.mint_y;
        self.config.init(seeds, authority, mint_x, mint_y, fee, bumps.auth, bumps.config, bumps.mint_lp);
        Ok(())
    }
}

} // verus!
