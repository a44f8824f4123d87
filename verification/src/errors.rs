use vstd::prelude::*;

verus! {

/// Error taxonomy of the distribution engine. Each failure kind is a
/// distinct, stable signal so callers can tell "retry later" (the 24h
/// gate) from "fix input" (validation) from "data integrity" (overflow,
/// base fees detected) conditions.
#[derive(Clone, Copy, Debug, PartialEq, Eq, Structural)]
pub enum KyoDlmmError {
    /// Invalid pool configuration - position would accrue base fees
    InvalidPoolConfig,
    /// Quote-only fee enforcement failed - base fees detected
    BaseFeesDetected,
    /// 24h gate not satisfied - too early for next distribution
    DistributionTooEarly,
    /// Daily cap exceeded
    DailyCapExceeded,
    /// Invalid investor data provided
    InvalidInvestorData,
    /// Position not active
    PositionNotActive,
    /// Invalid authority
    InvalidAuthority,
    /// Math overflow in distribution calculation
    MathOverflow,
    /// Invalid mint configuration
    InvalidMintConfig,
    /// Distribution already completed for this day
    DistributionAlreadyCompleted,
    /// Invalid pagination cursor
    InvalidCursor,
    /// Insufficient quote fees to distribute
    InsufficientFees,
    /// Streamflow data validation failed
    StreamflowValidationFailed,
}

} // verus!
