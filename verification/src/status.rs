use vstd::prelude::*;
use crate::errors::PoolError;

verus! {

/// Admin-set: all operations permitted while the admin holds the pool open.
pub const STATUS_ADMIN_ACTIVE: u32 = 0;

/// Backstop-driven: all operations permitted.
pub const STATUS_ACTIVE: u32 = 1;

/// Admin-set: no borrowing, no cancelling of liquidations.
pub const STATUS_ADMIN_ON_ICE: u32 = 2;

/// Backstop-driven: no borrowing, no cancelling of liquidations.
pub const STATUS_ON_ICE: u32 = 3;

/// Admin-set: frozen, and only the admin may change the status again.
pub const STATUS_ADMIN_FROZEN: u32 = 4;

/// Backstop-driven: no borrowing, no supplying, no cancelling.
pub const STATUS_FROZEN: u32 = 5;

/// Thirty percent, with 7 decimals; queued withdrawals at or above this
/// share put a pool on ice unless the admin holds it open.
pub const Q4W_ON_ICE_SOFT: i128 = 3_000_000;

/// Fifty percent: queued withdrawals at or above this share put a pool on
/// ice whatever the admin set.
pub const Q4W_ON_ICE_HARD: i128 = 5_000_000;

/// Sixty percent: queued withdrawals at or above this share freeze a pool
/// unless the admin has it on ice.
pub const Q4W_FROZEN_SOFT: i128 = 6_000_000;

/// Seventy-five percent: queued withdrawals at or above this share freeze a
/// pool whatever the admin set.
pub const Q4W_FROZEN_HARD: i128 = 7_500_000;

pub open spec fn spec_valid_status(status: u32) -> bool {
    status == STATUS_ADMIN_ACTIVE || status == STATUS_ACTIVE || status == STATUS_ADMIN_ON_ICE
        || status == STATUS_ON_ICE || status == STATUS_ADMIN_FROZEN || status == STATUS_FROZEN
}

/// The status an automatic update computes from the backstop's health:
/// heavy withdrawal queues freeze the pool, lighter ones or a missed
/// deposit threshold put it on ice, and a healthy backstop reactivates it;
/// the admin-set active and on-ice states soften one band each and persist
/// while nothing triggers.
pub open spec fn spec_updated_status(current: u32, threshold_met: bool, q4w_pct: int) -> u32 {
    if q4w_pct >= Q4W_FROZEN_HARD || (q4w_pct >= Q4W_FROZEN_SOFT && current
        != STATUS_ADMIN_ON_ICE) {
        STATUS_FROZEN
    } else if !threshold_met || q4w_pct >= Q4W_ON_ICE_HARD || (q4w_pct >= Q4W_ON_ICE_SOFT
        && current != STATUS_ADMIN_ACTIVE) {
        STATUS_ON_ICE
    } else if current == STATUS_ADMIN_ACTIVE || current == STATUS_ADMIN_ON_ICE {
        current
    } else {
        STATUS_ACTIVE
    }
}

/// Compute the pool's status from the backstop's state: `threshold_met`
/// says whether the backstop deposit meets the eligibility threshold, and
/// `q4w_pct` is the share of deposits queued for withdrawal, with 7
/// decimals. Rejected while the admin holds the pool frozen.
pub fn execute_update_pool_status(current: u32, threshold_met: bool, q4w_pct: i128) -> (r: Result<
    u32,
    PoolError,
>)
    requires
        spec_valid_status(current),
        0 <= q4w_pct,
    ensures
        match r {
            Ok(s) => current != STATUS_ADMIN_FROZEN && s == spec_updated_status(
                current,
                threshold_met,
                q4w_pct as int,
            ),
            Err(e) => current == STATUS_ADMIN_FROZEN && e == PoolError::BadRequest,
        },
{
    if current == STATUS_ADMIN_FROZEN {
        // only the admin can take a pool out of an admin freeze
        return Err(PoolError::BadRequest);
    }
    if q4w_pct >= Q4W_FROZEN_HARD || (q4w_pct >= Q4W_FROZEN_SOFT && current
        != STATUS_ADMIN_ON_ICE) {
        Ok(STATUS_FROZEN)
    } else if !threshold_met || q4w_pct >= Q4W_ON_ICE_HARD || (q4w_pct >= Q4W_ON_ICE_SOFT
        && current != STATUS_ADMIN_ACTIVE) {
        Ok(STATUS_ON_ICE)
    } else if current == STATUS_ADMIN_ACTIVE || current == STATUS_ADMIN_ON_ICE {
        Ok(current)
    } else {
        Ok(STATUS_ACTIVE)
    }
}

/// The admin may hold a pool open only over a healthy backstop, put it on
/// ice below the hard freeze band, and freeze it unconditionally.
pub open spec fn spec_set_status_allowed(
    pool_status: u32,
    threshold_met: bool,
    q4w_pct: int,
) -> bool {
    if pool_status == STATUS_ADMIN_ACTIVE {
        threshold_met && q4w_pct < Q4W_ON_ICE_HARD
    } else if pool_status == STATUS_ADMIN_ON_ICE {
        q4w_pct < Q4W_FROZEN_HARD
    } else {
        pool_status == STATUS_ADMIN_FROZEN
    }
}

/// Set an admin status: active requires a met threshold and a light queue,
/// on-ice a queue below the hard freeze band, and frozen is always
/// available. Other codes are reserved for automatic updates.
pub fn execute_set_pool_status(pool_status: u32, threshold_met: bool, q4w_pct: i128) -> (r: Result<
    u32,
    PoolError,
>)
    requires
        0 <= q4w_pct,
    ensures
        match r {
            Ok(s) => s == pool_status && spec_set_status_allowed(
                pool_status,
                threshold_met,
                q4w_pct as int,
            ),
            Err(e) => !spec_set_status_allowed(pool_status, threshold_met, q4w_pct as int) && e
                == PoolError::BadRequest,
        },
{
    if pool_status == STATUS_ADMIN_ACTIVE {
        if threshold_met && q4w_pct < Q4W_ON_ICE_HARD {
            Ok(pool_status)
        } else {
            Err(PoolError::BadRequest)
        }
    } else if pool_status == STATUS_ADMIN_ON_ICE {
        if q4w_pct < Q4W_FROZEN_HARD {
            Ok(pool_status)
        } else {
            Err(PoolError::BadRequest)
        }
    } else if pool_status == STATUS_ADMIN_FROZEN {
        Ok(pool_status)
    } else {
        Err(PoolError::BadRequest)
    }
}

/// Under a worsening backstop the automatic status only climbs: if the
/// queued-for-withdrawal share does not fall between two updates and the
/// threshold verdict stays the same, the second computed status code is at
/// least the first.
pub proof fn lemma_status_monotone_under_worsening(
    current: u32,
    threshold_met: bool,
    q4w_pct_1: int,
    q4w_pct_2: int,
)
    requires
        spec_valid_status(current),
        current != STATUS_ADMIN_FROZEN,
        0 <= q4w_pct_1 <= q4w_pct_2,
    ensures
        spec_updated_status(current, threshold_met, q4w_pct_1) != STATUS_ADMIN_FROZEN,
        spec_updated_status(
            spec_updated_status(current, threshold_met, q4w_pct_1),
            threshold_met,
            q4w_pct_2,
        ) >= spec_updated_status(current, threshold_met, q4w_pct_1),
{
}

} // verus!
