//! What an operation asks the token ledger to do once it has decided.
use vstd::prelude::*;

verus! {

/// One of the pool's two assets.
#[derive(Clone, Copy, Debug, PartialEq, Eq, Structural)]
pub enum Asset {
    X,
    Y,
}

/// The asset named by a direction flag: `X` when `is_x` holds.
pub open spec fn asset_of(is_x: bool) -> Asset {
    if is_x {
        Asset::X
    } else {
        Asset::Y
    }
}

/// Picks the asset named by a direction flag.
pub fn pick_asset(is_x: bool) -> (r: Asset)
    ensures
        r == asset_of(is_x),
{
    if is_x {
        Asset::X
    } else {
        Asset::Y
    }
}

/// An asset movement for the token ledger to carry out.
#[derive(Clone, Copy, Debug, PartialEq, Eq, Structural)]
pub enum Movement {
    /// `amount` of `asset` from the caller's account into the pool's vault.
    TransferIn { asset: Asset, amount: u64 },
    /// `amount` of `asset` from the pool's vault to the caller's account.
    TransferOut { asset: Asset, amount: u64 },
    /// `amount` new claim tokens to the caller.
    MintLp { amount: u64 },
    /// `amount` of the caller's claim tokens destroyed.
    BurnLp { amount: u64 },
}

} // verus!
