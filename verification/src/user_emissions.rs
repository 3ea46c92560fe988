use vstd::prelude::*;
use crate::constants::{SCALAR_7, SCALAR_14};
use crate::fixed_point::{fixed_div_floor, fixed_mul_floor, i128_of_u64};

verus! {

/// Per-(reserve, side) record of the emissions flowing to a pool's users:
/// a per-second rate with an expiration, and a cumulative per-share index
/// with 14 decimals.
#[derive(Clone, Copy, Debug, PartialEq, Eq, Structural)]
pub struct ReserveEmissionData {
    pub eps: u64,
    pub expiration: u64,
    pub index: i128,
    pub last_time: u64,
}

/// A user's stake in one reserve-side stream: the reserve index last
/// settled against, and the tokens accrued but not yet claimed.
#[derive(Clone, Copy, Debug, PartialEq, Eq, Structural)]
pub struct UserEmissionData {
    pub index: i128,
    pub accrued: i128,
}

impl ReserveEmissionData {
    pub open spec fn wf(&self) -> bool {
        0 <= self.index
    }
}

impl UserEmissionData {
    pub open spec fn wf(&self) -> bool {
        &&& 0 <= self.index
        &&& 0 <= self.accrued
    }
}

/// The moment up to which a reserve record may advance: the clock, capped
/// at the record's expiration.
pub open spec fn spec_reserve_capped_time(d: ReserveEmissionData, now: int) -> int {
    if now < d.expiration {
        now
    } else {
        d.expiration as int
    }
}

/// Whether an advance changes the record: an open window, elapsed time, a
/// rate, and shares to spread it over.
pub open spec fn spec_reserve_advances(d: ReserveEmissionData, supply: int, now: int) -> bool {
    &&& d.last_time < d.expiration
    &&& now != d.last_time
    &&& d.eps != 0
    &&& supply > 0
}

/// The per-share index gain of an advance.
pub open spec fn spec_reserve_index_gain(d: ReserveEmissionData, supply: int, now: int) -> int {
    (spec_reserve_capped_time(d, now) - d.last_time) * d.eps * (SCALAR_7 as int) / supply
}

/// A reserve record brought up to `now`; once the window has expired the
/// index ceases growing.
pub open spec fn spec_updated_reserve_data(
    d: ReserveEmissionData,
    supply: int,
    now: int,
) -> ReserveEmissionData {
    if spec_reserve_advances(d, supply, now) {
        ReserveEmissionData {
            eps: d.eps,
            expiration: d.expiration,
            index: (d.index + spec_reserve_index_gain(d, supply, now)) as i128,
            last_time: now as u64,
        }
    } else {
        d
    }
}

/// The machine limits an advance must respect.
pub open spec fn spec_reserve_update_fits(d: ReserveEmissionData, supply: int, now: int) -> bool {
    spec_reserve_advances(d, supply, now) ==> {
        let gain_num = (spec_reserve_capped_time(d, now) - d.last_time) * d.eps;
        &&& gain_num * (SCALAR_7 as int) <= i128::MAX
        &&& d.index + spec_reserve_index_gain(d, supply, now) <= i128::MAX
    }
}

/// Advance a reserve-side emission record to `now` under its rate, spread
/// over the share supply. The index never decreases.
pub fn update_reserve_emission_data(d: ReserveEmissionData, supply: i128, now: u64) -> (r:
    ReserveEmissionData)
    requires
        d.wf(),
        d.last_time <= now,
        spec_reserve_update_fits(d, supply as int, now as int),
    ensures
        r == spec_updated_reserve_data(d, supply as int, now as int),
        r.index >= d.index,
        r.eps == d.eps && r.expiration == d.expiration,
{
    if d.last_time >= d.expiration || now == d.last_time || d.eps == 0 || supply <= 0 {
        return d;
    }
    let max_timestamp = if now < d.expiration {
        now
    } else {
        d.expiration
    };
    let elapsed = i128_of_u64(max_timestamp - d.last_time);
    let eps = i128_of_u64(d.eps);
    proof {
        vstd::arithmetic::mul::lemma_mul_nonnegative(elapsed as int, eps as int);
    }
    let additional_idx = fixed_div_floor(elapsed * eps, supply, SCALAR_7);
    proof {
        vstd::arithmetic::mul::lemma_mul_nonnegative(elapsed as int * eps as int, SCALAR_7 as int);
        vstd::arithmetic::div_mod::lemma_div_pos_is_pos(
            elapsed as int * eps as int * SCALAR_7,
            supply as int,
        );
    }
    ReserveEmissionData {
        eps: d.eps,
        expiration: d.expiration,
        index: d.index + additional_idx,
        last_time: now,
    }
}

/// The tokens a user newly earns when settled against a reserve index:
/// their shares times the index gap, floored at 14 decimals.
pub open spec fn spec_user_accrual(user: UserEmissionData, user_shares: int, reserve_index: int) -> int {
    user_shares * (reserve_index - user.index) / (SCALAR_14 as int)
}

/// Settle a user against the current reserve index: their accrual grows by
/// their share of the index gap, and their stored index catches up. A user
/// already at the current index is left as they are (the update is
/// idempotent); a user without a record starts empty at the current index.
pub fn update_user_emissions(
    user: Option<UserEmissionData>,
    user_shares: i128,
    reserve_index: i128,
) -> (r: UserEmissionData)
    requires
        0 <= user_shares,
        0 <= reserve_index,
        match user {
            Some(u) => {
                &&& u.wf()
                &&& u.index <= reserve_index
                &&& user_shares * (reserve_index - u.index) <= i128::MAX
                &&& u.accrued + spec_user_accrual(u, user_shares as int, reserve_index as int)
                    <= i128::MAX
            },
            None => true,
        },
    ensures
        r.wf(),
        r.index == reserve_index,
        r.accrued == match user {
            Some(u) => u.accrued + spec_user_accrual(u, user_shares as int, reserve_index as int),
            None => 0,
        },
        // settling twice against one index adds nothing
        (match user {
            Some(u) => u.index == reserve_index ==> r.accrued == u.accrued,
            None => true,
        }),
{
    match user {
        Some(u) => {
            let delta = reserve_index - u.index;
            proof {
                vstd::arithmetic::mul::lemma_mul_nonnegative(user_shares as int, delta as int);
            }
            let accrual = fixed_mul_floor(user_shares, delta, SCALAR_14);
            proof {
                vstd::arithmetic::div_mod::lemma_div_pos_is_pos(
                    user_shares as int * delta as int,
                    SCALAR_14 as int,
                );
                if u.index == reserve_index {
                    vstd::arithmetic::mul::lemma_mul_by_zero_is_zero(user_shares as int);
                    vstd::arithmetic::div_mod::lemma_div_of0(SCALAR_14 as int);
                }
            }
            UserEmissionData { index: reserve_index, accrued: u.accrued + accrual }
        },
        None => UserEmissionData { index: reserve_index, accrued: 0 },
    }
}

/// Settle a user and hand their whole entitlement out: the returned amount
/// is everything accrued through the current index, and the stored record
/// is zeroed at that index.
pub fn claim_user_emissions(
    user: Option<UserEmissionData>,
    user_shares: i128,
    reserve_index: i128,
) -> (r: (i128, UserEmissionData))
    requires
        0 <= user_shares,
        0 <= reserve_index,
        match user {
            Some(u) => {
                &&& u.wf()
                &&& u.index <= reserve_index
                &&& user_shares * (reserve_index - u.index) <= i128::MAX
                &&& u.accrued + spec_user_accrual(u, user_shares as int, reserve_index as int)
                    <= i128::MAX
            },
            None => true,
        },
    ensures
        r.1.index == reserve_index,
        r.1.accrued == 0,
        r.0 == match user {
            Some(u) => u.accrued + spec_user_accrual(u, user_shares as int, reserve_index as int),
            None => 0,
        },
        r.0 >= 0,
{
    let updated = update_user_emissions(user, user_shares, reserve_index);
    (updated.accrued, UserEmissionData { index: reserve_index, accrued: 0 })
}

} // verus!
