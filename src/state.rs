//! The persistent record of one pool.
use vstd::prelude::*;
use crate::curve::BASIS_POINTS;

verus! {

/// A 32-byte identity: an account, a signer or an asset type.
#[derive(Clone, Copy, Debug)]
pub struct Pubkey(pub [u8; 32]);

impl PartialEq for Pubkey {
    fn eq(&self, other: &Pubkey) -> (r: bool)
        ensures
            r == (self.0@ == other.0@),
    {
        let mut i: usize = 0;
        while i < 32
            invariant
                0 <= i <= 32,
                self.0@.len() == 32,
                other.0@.len() == 32,
                forall|j: int| 0 <= j < i ==> self.0@[j] == other.0@[j],
            decreases 32 - i,
        {
            if self.0[i] != other.0[i] {
                return false;
            }
            i = i + 1;
        }
        proof {
            assert(self.0@ =~= other.0@);
        }
        true
    }
}

impl vstd::std_specs::cmp::PartialEqSpecImpl for Pubkey {
    open spec fn obeys_eq_spec() -> bool {
        true
    }

    open spec fn eq_spec(&self, other: &Pubkey) -> bool {
        self.0@ == other.0@
    }
}

impl Eq for Pubkey {}

/// One pool: its identity, its asset pair, its fee and its lock.
#[derive(Clone, Copy, Debug)]
pub struct Config {
    /// Tells apart pools on the same asset pair.
    pub seed: u64,
    /// The identity allowed to lock and unlock the pool.
    pub authority: Pubkey,
    pub mint_x: Pubkey,
    pub mint_y: Pubkey,
    /// Fee on swap input, in basis points.
    pub fee: u16,
    /// While set, deposits, withdrawals and swaps are refused.
    pub locked: bool,
    pub auth_bump: u8,
    pub config_bump: u8,
    pub lp_bump: u8,
}

impl Config {
    /// The record's invariant: the fee is a fraction of the input.
    pub open spec fn wf(&self) -> bool {
        self.fee <= BASIS_POINTS
    }

    /// Fills in a fresh record, unlocked.
    pub fn init(
        &mut self,
        seed: u64,
        authority: Pubkey,
        mint_x: Pubkey,
        mint_y: Pubkey,
        fee: u16,
        auth_bump: u8,
        config_bump: u8,
        lp_bump: u8,
    )
        ensures
            final(self).seed == seed,
            final(self).authority == authority,
            final(self).mint_x == mint_x,
            final(self).mint_y == mint_y,
            final(self).fee == fee,
            !final(self).locked,
            final(self).auth_bump == auth_bump,
            final(self).config_bump == config_bump,
            final(self).lp_bump == lp_bump,
    {
        self.seed = seed;
        self.authority = authority;
        self.mint_x = mint_x;
        self.mint_y = mint_y;
        self.fee = fee;
        self.locked = false;
        self.auth_bump = auth_bump;
        self.config_bump = config_bump;
        self.lp_bump = lp_bump;
    }
}

} // verus!
