use vstd::prelude::*;

verus! {

/// Errors raised by the backstop's emissions engine. Every error aborts the
/// whole operation: no partial effects persist.
#[derive(Clone, Copy, Debug, PartialEq, Eq, Structural)]
pub enum BackstopError {
    /// A precondition was violated: a duplicate reward-zone insertion, a
    /// distribution attempted too early, a zone change without a recent
    /// distribution, or an empty reward zone.
    BadRequest,
    /// A pool below the eligibility threshold was added, a swap target did
    /// not hold strictly fewer tokens, or the pool to remove is not in the
    /// zone.
    InvalidRewardZoneEntry,
    /// The reward zone is full and no pool to remove was named.
    RewardZoneFull,
    /// The backfill accumulator would exceed its hard cap.
    MaxBackfillEmissions,
}

impl BackstopError {
    /// The numeric code this error carries on the wire.
    pub fn code(&self) -> (c: u32)
        ensures
            c == self.spec_code(),
    {
        match self {
            BackstopError::BadRequest => 1000,
            BackstopError::InvalidRewardZoneEntry => 1002,
            BackstopError::RewardZoneFull => 1009,
            BackstopError::MaxBackfillEmissions => 1010,
        }
    }

    pub open spec fn spec_code(&self) -> u32 {
        match self {
            BackstopError::BadRequest => 1000,
            BackstopError::InvalidRewardZoneEntry => 1002,
            BackstopError::RewardZoneFull => 1009,
            BackstopError::MaxBackfillEmissions => 1010,
        }
    }
}

/// Errors raised by the pool's auction engine and status machine.
#[derive(Clone, Copy, Debug, PartialEq, Eq, Structural)]
pub enum PoolError {
    /// The status update or admin status change is not permitted in the
    /// pool's current state.
    StatusNotAllowed,
    /// A liquidation fill named the liquidated user as its filler, or the
    /// fill percent lies outside 1..=100.
    InvalidLiquidation,
    /// An auction already exists for this auction type and user, or the
    /// requested auction does not exist.
    BadRequest,
}

} // verus!
