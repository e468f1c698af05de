use vstd::prelude::*;

verus! {

/// The closed set of failure kinds an operation on the pool can report.
/// Every failure leaves the pool's state exactly as it was.
#[derive(Clone, Copy, Debug, PartialEq, Eq, Structural)]
pub enum AmmError {
    DefaultError,
    OfferExpired,
    PoolLocked,
    SlippageExceded,
    Overflow,
    Underflow,
    InvalidToken,
    LiquidityLessThanMinium,
    NoLiquidityInPool,
    BumpError,
    CurveError,
    InvalidFee,
    InvalidAuthority,
    NoAuthoritySet,
    InvalidAmount,
    InvalidPrecision,
    Insufficientbalance,
    ZeroBalance,
}

/// Failure kinds of the curve arithmetic alone.  The operations translate
/// them into the shared taxonomy through `AmmError::from`.
#[derive(Clone, Copy, Debug, PartialEq, Eq, Structural)]
pub enum CurveError {
    InvalidPrecision,
    Overflow,
    Underflow,
    InvalidFeeAmount,
    InsufficientBalance,
    ZeroBalance,
    SlippageLimitExceeded,
}

impl From<CurveError> for AmmError {
    fn from(error: CurveError) -> (r: AmmError) {
        match error {
            CurveError::InvalidPrecision => AmmError::InvalidPrecision,
            CurveError::Overflow => AmmError::Overflow,
            CurveError::Underflow => AmmError::Underflow,
            CurveError::InvalidFeeAmount => AmmError::InvalidFee,
            CurveError::InsufficientBalance => AmmError::Insufficientbalance,
            CurveError::ZeroBalance => AmmError::ZeroBalance,
            CurveError::SlippageLimitExceeded => AmmError::SlippageExceded,
        }
    }
}

impl vstd::std_specs::convert::FromSpecImpl<CurveError> for AmmError {
    open spec fn obeys_from_spec() -> bool {
        true
    }

    open spec fn from_spec(error: CurveError) -> AmmError {
        match error {
            CurveError::InvalidPrecision => AmmError::InvalidPrecision,
            CurveError::Overflow => AmmError::Overflow,
            CurveError::Underflow => AmmError::Underflow,
            CurveError::InvalidFeeAmount => AmmError::InvalidFee,
            CurveError::InsufficientBalance => AmmError::Insufficientbalance,
            CurveError::ZeroBalance => AmmError::ZeroBalance,
            CurveError::SlippageLimitExceeded => AmmError::SlippageExceded,
        }
    }
}

} // verus!
