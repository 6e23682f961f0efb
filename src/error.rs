use vstd::prelude::*;

verus! {

/// The ways a pool operation can fail. Each one aborts the operation and
/// leaves the pool as it was.
#[derive(Clone, Copy, Debug, PartialEq, Eq, Structural)]
pub enum AmmError {
    /// Deposit, withdraw and swap are refused while the pool is locked.
    PoolLocked,
    /// A requested amount is zero.
    InvalidAmount,
    /// The computed amounts fall outside the caller's bounds.
    SlippageExceeded,
    /// A swap is too small to produce any output at the current reserves.
    InsufficientOutput,
    /// A divisor (the share supply, or the swap's new input reserve) is zero.
    DivisionByZero,
    /// A result does not fit in 64 bits.
    Overflow,
    /// The caller is not the pool's authority.
    Unauthorized,
    /// The fee is above 10000 basis points.
    InvalidFee,
    /// The two assets of a pool are the same.
    IdenticalMints,
}

impl AmmError {
    /// A short human-readable description of the error.
    pub fn message(&self) -> (r: &'static str) {
        match self {
            AmmError::PoolLocked => "the pool is locked",
            AmmError::InvalidAmount => "the amount must not be zero",
            AmmError::SlippageExceeded => "the amounts exceed the given bounds",
            AmmError::InsufficientOutput => "the swap produces no output",
            AmmError::DivisionByZero => "division by zero",
            AmmError::Overflow => "arithmetic overflow",
            AmmError::Unauthorized => "the signer is not the pool authority",
            AmmError::InvalidFee => "the fee exceeds 10000 basis points",
            AmmError::IdenticalMints => "the two assets must differ",
        }
    }
}

} // verus!
