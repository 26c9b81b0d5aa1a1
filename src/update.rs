//! Locking and unlocking a pool.
use vstd::prelude::*;
use crate::error::AMMErrorCode;
use crate::state::{Config, Pubkey};

verus! {

/// A request by `user` to change the lock of the pool `config`.
#[derive(Clone, Copy, Debug)]
pub struct Update {
    pub user: Pubkey,
    pub config: Config,
}

impl Update {
    /// Whether the caller is the pool's authority.
    pub open spec fn is_authority(&self) -> bool {
        self.config.authority.0@ == self.user.0@
    }

    /// Locks the pool; only its authority may. The current lock is not consulted.
    pub fn lock(&mut self) -> (r: Result<(), AMMErrorCode>)
        ensures
            old(self).is_authority() ==> r == Ok::<(), AMMErrorCode>(())
                && final(self).config == (Config { locked: true, ..old(self).config }),
            !old(self).is_authority() ==> r == Err::<(), AMMErrorCode>(AMMErrorCode::InvalidAuth)
                && final(self).config == old(self).config,
            final(self).user == old(self).user,
    {
        if self.config.authority != self.user {
            return Err(AMMErrorCode::InvalidAuth);
        }
        self.config.locked = true;
        Ok(())
    }

    /// Unlocks the pool; only its authority may. The current lock is not consulted.
    pub fn unlock(&mut self) -> (r: Result<(), AMMErrorCode>)
        ensures
            old(self).is_authority() ==> r == Ok::<(), AMMErrorCode>(())
                && final(self).config == (Config { locked: false, ..old(self).config }),
            !old(self).is_authority() ==> r == Err::<(), AMMErrorCode>(AMMErrorCode::InvalidAuth)
                && final(self).config == old(self).config,
            final(self).user == old(self).user,
    {
        if self.config.authority != self.user {
            return Err(AMMErrorCode::InvalidAuth);
        }
        self.config.locked = false;
        Ok(())
    }
}

} // verus!
