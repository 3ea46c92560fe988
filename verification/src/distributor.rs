use vstd::prelude::*;
use crate::constants::SCALAR_7;
use crate::fixed_point::{fixed_div_floor, i128_of_u64};
use crate::pool_balance::PoolBalance;
use crate::store::{BackstopEmissionData, BackstopStore};

verus! {

/// The moment up to which a record's index may advance: the clock, capped at
/// the record's expiration.
pub open spec fn spec_capped_time(d: BackstopEmissionData, now: int) -> int {
    if now < d.expiration {
        now
    } else {
        d.expiration as int
    }
}

/// Whether an index advance changes the record at all: the window must still
/// be open at `last_time`, time must have passed, and there must be a rate
/// and shares to spread it over.
pub open spec fn spec_emission_advances(d: BackstopEmissionData, shares: int, now: int) -> bool {
    &&& d.last_time < d.expiration
    &&& now != d.last_time
    &&& d.eps != 0
    &&& shares > 0
}

/// The per-share index gain of an advance: the seconds elapsed up to the
/// window's end, times the rate, spread over the shares (floor).
pub open spec fn spec_emission_index_gain(d: BackstopEmissionData, shares: int, now: int) -> int {
    (spec_capped_time(d, now) - d.last_time) * d.eps * (SCALAR_7 as int) / shares
}

/// A record brought up to `now`: the index grows by the elapsed rate per
/// share and `last_time` moves to `now`; a closed window, a zero rate or an
/// empty pool leave the record unchanged.
pub open spec fn spec_updated_emission_data(
    d: BackstopEmissionData,
    shares: int,
    now: int,
) -> BackstopEmissionData {
    if spec_emission_advances(d, shares, now) {
        BackstopEmissionData {
            eps: d.eps,
            expiration: d.expiration,
            index: (d.index + spec_emission_index_gain(d, shares, now)) as i128,
            last_time: now as u64,
        }
    } else {
        d
    }
}

/// The machine limits an advance must respect: the elapsed-times-rate
/// product and the grown index stay within `i128`.
pub open spec fn spec_emission_update_fits(d: BackstopEmissionData, shares: int, now: int) -> bool {
    spec_emission_advances(d, shares, now) ==> {
        let gain_num = (spec_capped_time(d, now) - d.last_time) * d.eps;
        &&& gain_num * (SCALAR_7 as int) <= i128::MAX
        &&& d.index + spec_emission_index_gain(d, shares, now) <= i128::MAX
    }
}

/// Advance a pool's backstop emission record to `now` under its current
/// rate, without touching the store. Returns `None` when the pool has no
/// record yet.
pub fn update_emission_data(
    store: &BackstopStore,
    pool_id: u32,
    pool_balance: &PoolBalance,
    now: u64,
) -> (r: Option<BackstopEmissionData>)
    requires
        pool_balance.wf(),
        match store.spec_backstop_emis_data(pool_id) {
            Some(d) => {
                &&& d.wf()
                &&& d.last_time <= now
                &&& spec_emission_update_fits(d, pool_balance.shares as int, now as int)
            },
            None => true,
        },
    ensures
        r == match store.spec_backstop_emis_data(pool_id) {
            Some(d) => Some(spec_updated_emission_data(d, pool_balance.shares as int, now as int)),
            None => None::<BackstopEmissionData>,
        },
        // the index never decreases, and the rate and window are untouched
        match store.spec_backstop_emis_data(pool_id) {
            Some(d) => r matches Some(nd) && nd.index >= d.index && nd.eps == d.eps
                && nd.expiration == d.expiration,
            None => r is None,
        },
{
    match store.get_backstop_emis_data(pool_id) {
        Some(emis_data) => {
            if emis_data.last_time >= emis_data.expiration || now == emis_data.last_time
                || emis_data.eps == 0 || pool_balance.shares <= 0 {
                return Some(emis_data);
            }
            let max_timestamp = if now < emis_data.expiration {
                now
            } else {
                emis_data.expiration
            };
            let elapsed = i128_of_u64(max_timestamp - emis_data.last_time);
            let eps = i128_of_u64(emis_data.eps);
            proof {
                vstd::arithmetic::mul::lemma_mul_nonnegative(elapsed as int, eps as int);
            }
            let additional_idx = fixed_div_floor(elapsed * eps, pool_balance.shares, SCALAR_7);
            proof {
                vstd::arithmetic::mul::lemma_mul_nonnegative(
                    elapsed as int * eps as int,
                    SCALAR_7 as int,
                );
                vstd::arithmetic::div_mod::lemma_div_pos_is_pos(
                    elapsed as int * eps as int * SCALAR_7,
                    pool_balance.shares as int,
                );
            }
            Some(
                BackstopEmissionData {
                    eps: emis_data.eps,
                    expiration: emis_data.expiration,
                    index: emis_data.index + additional_idx,
                    last_time: now,
                },
            )
        },
        None => None,
    }
}

} // verus!
