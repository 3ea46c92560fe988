use vstd::prelude::*;

verus! {

/// Token amounts and rates carry 7 fractional decimal digits.
pub const SCALAR_7: i128 = 10_000_000;

/// Emission indexes carry 14 fractional decimal digits.
pub const SCALAR_14: i128 = 100_000_000_000_000;

/// Upper bound on the number of pools in the reward zone.
pub const MAX_RZ_SIZE: usize = 50;

/// Hard cap on emissions accumulated while the emitter has no record of
/// this backstop.
pub const MAX_BACKFILLED_EMISSIONS: i128 = 10_000_000_000_000_000;

/// Length of one backstop emissions window, in seconds (seven days).
pub const EMISSION_WINDOW: u64 = 7 * 24 * 60 * 60;

/// Emissions may only be distributed when the emitter's clock has moved at
/// least this many seconds past the previous distribution.
pub const MIN_DISTRIBUTION_INTERVAL: u64 = 60 * 60;

/// A reward-zone change is only allowed while the previous distribution is
/// at most this many seconds old.
pub const RZ_CHANGE_WINDOW: u64 = 24 * 60 * 60;

/// Sentinel index marking a pool expelled from the reward zone: such a pool
/// accrues nothing further.
pub const EVICTED_INDEX: i128 = i128::MAX;

/// Share of a pool's realised emissions that goes to its backstop
/// depositors, with 7 decimals (the rest goes to the pool's own users).
pub const BACKSTOP_EMISSIONS_SHARE: i128 = 7_000_000;

/// Share of a pool's realised emissions granted to the pool contract for
/// its users, with 7 decimals.
pub const POOL_EMISSIONS_SHARE: i128 = 3_000_000;

/// A pool stays in the reward zone while the product constant of its
/// backstop deposit value stays at or above this bound.
pub const THRESHOLD_PC: i128 = 10_000_000_000_000_000_000_000_000;

/// Seconds a withdrawal must stay queued before it can be executed.
pub const Q4W_LOCK_TIME: u64 = 17 * 24 * 60 * 60;

} // verus!
