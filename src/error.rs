use vstd::prelude::*;

verus! {

/// Every way an operation on a pool can be rejected.
#[derive(Clone, Copy, Debug, PartialEq, Eq, Structural)]
pub enum AMMErrorCode {
    /// The fee is above 10000 basis points.
    InvalidFee,
    /// A required amount is zero.
    ZeroBalance,
    /// The pool is locked.
    PoolLocked,
    /// The caller's deadline has passed.
    OfferExpired,
    /// The caller is not the pool's authority.
    InvalidAuth,
    /// A precision outside the supported range.
    InvalidPrecision,
    /// A result does not fit in 64 bits.
    Overflow,
    /// A result would be negative.
    Underflow,
    /// More was asked for than is held.
    InsufficientBalance,
    /// The computed amounts are worse than the caller's bound.
    SlippageExceeded,
}

/// The message shown to a caller for each error.
pub open spec fn message_of(e: AMMErrorCode) -> Seq<char> {
    match e {
        AMMErrorCode::InvalidFee => "Fee is too high"@,
        AMMErrorCode::ZeroBalance => "zero balance"@,
        AMMErrorCode::PoolLocked => "Pool is locked"@,
        AMMErrorCode::OfferExpired => "this offer is expired"@,
        AMMErrorCode::InvalidAuth => "invalid authority"@,
        AMMErrorCode::InvalidPrecision => "invalid precision"@,
        AMMErrorCode::Overflow => "overflow"@,
        AMMErrorCode::Underflow => "underflow"@,
        AMMErrorCode::InsufficientBalance => "insufficient balance"@,
        AMMErrorCode::SlippageExceeded => "slippage limit exceeded"@,
    }
}

impl AMMErrorCode {
    /// The message shown to a caller for this error.
    pub fn message(&self) -> (r: String)
        ensures
            r@ == message_of(*self),
            r@.len() > 0,
    {
        let s: &str = match self {
            AMMErrorCode::InvalidFee => "Fee is too high",
            AMMErrorCode::ZeroBalance => "zero balance",
            AMMErrorCode::PoolLocked => "Pool is locked",
            AMMErrorCode::OfferExpired => "this offer is expired",
            AMMErrorCode::InvalidAuth => "invalid authority",
            AMMErrorCode::InvalidPrecision => "invalid precision",
            AMMErrorCode::Overflow => "overflow",
            AMMErrorCode::Underflow => "underflow",
            AMMErrorCode::InsufficientBalance => "insufficient balance",
            AMMErrorCode::SlippageExceeded => "slippage limit exceeded",
        };
        proof {
            reveal_strlit("Fee is too high");
            reveal_strlit("zero balance");
            reveal_strlit("Pool is locked");
            reveal_strlit("this offer is expired");
            reveal_strlit("invalid authority");
            reveal_strlit("invalid precision");
            reveal_strlit("overflow");
            reveal_strlit("underflow");
            reveal_strlit("insufficient balance");
            reveal_strlit("slippage limit exceeded");
        }
        s.to_string()
    }
}

} // verus!
