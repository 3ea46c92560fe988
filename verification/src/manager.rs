use vstd::prelude::*;
use crate::constants::{
    BACKSTOP_EMISSIONS_SHARE, EMISSION_WINDOW, EVICTED_INDEX, MAX_BACKFILLED_EMISSIONS,
    MAX_RZ_SIZE, MIN_DISTRIBUTION_INTERVAL, POOL_EMISSIONS_SHARE, RZ_CHANGE_WINDOW, SCALAR_14,
    SCALAR_7, THRESHOLD_PC,
};
use crate::distributor::{
    spec_emission_update_fits, spec_updated_emission_data, update_emission_data,
};
use crate::errors::BackstopError;
use crate::fixed_point::{fixed_div_floor, fixed_mul_floor, i128_of_u64, u64_of_i128};
use crate::pool_balance::{
    load_pool_backstop_data, require_pool_above_threshold, spec_load_pool_backstop_data,
    spec_product_constant, LpTokenValue, PoolBalance,
};
use crate::store::{BackstopEmissionData, BackstopStore, RzEmissionData};

verus! {

broadcast use vstd::std_specs::hash::group_hash_axioms;

/// Everything in the store except the per-pool reward-zone emission records
/// is unchanged.
pub open spec fn same_but_rz_emis(a: &BackstopStore, b: &BackstopStore) -> bool {
    &&& b.reward_zone == a.reward_zone
    &&& b.rz_emission_index == a.rz_emission_index
    &&& b.last_distribution_time == a.last_distribution_time
    &&& b.backfill_status == a.backfill_status
    &&& b.backfill_emissions == a.backfill_emissions
    &&& b.pool_balances == a.pool_balances
    &&& b.backstop_emis_data == a.backstop_emis_data
}

/// The emissions a pool newly realises at the current global index: its
/// non-queued tokens times the index gap, floored at 14 decimals. An
/// expelled pool, a fully queued pool and a pool without a record realise
/// nothing.
pub open spec fn spec_rz_accrual(s: &BackstopStore, pool: u32) -> int {
    match s.spec_rz_emis_data(pool) {
        Some(d) => {
            if d.index == EVICTED_INDEX {
                0
            } else {
                let nq = s.spec_pool_balance(pool).spec_non_queued_tokens();
                if nq > 0 {
                    nq * (s.rz_emission_index - d.index) / (SCALAR_14 as int)
                } else {
                    0
                }
            }
        },
        None => 0,
    }
}

/// The record an update writes for a pool, or `None` where it leaves the
/// store untouched: a pool without a record is skipped, an expelled pool is
/// only touched by a gulp (which collects its remainder), and otherwise the
/// index moves up to the global one while the accrual is either kept or,
/// on a gulp, consumed.
pub open spec fn spec_update_rz_written(s: &BackstopStore, pool: u32, to_gulp: bool) -> Option<
    RzEmissionData,
> {
    match s.spec_rz_emis_data(pool) {
        Some(d) => {
            if d.index == EVICTED_INDEX {
                if to_gulp {
                    Some(RzEmissionData { index: EVICTED_INDEX, accrued: 0 })
                } else {
                    None
                }
            } else if d.index < s.rz_emission_index || to_gulp {
                let accrued = d.accrued + spec_rz_accrual(s, pool);
                Some(
                    RzEmissionData {
                        index: s.rz_emission_index,
                        accrued: if to_gulp {
                            0
                        } else {
                            accrued as i128
                        },
                    },
                )
            } else {
                None
            }
        },
        None => None,
    }
}

/// What a gulping update returns: the pool's whole entitlement, realised
/// and prior accrual together; a non-gulping update returns nothing.
pub open spec fn spec_update_rz_result(s: &BackstopStore, pool: u32, to_gulp: bool) -> int {
    if !to_gulp {
        0
    } else {
        match s.spec_rz_emis_data(pool) {
            Some(d) => d.accrued + spec_rz_accrual(s, pool),
            None => 0,
        }
    }
}

/// The machine limits an update must respect: the token-times-index-gap
/// product and the grown accrual stay within `i128`.
pub open spec fn spec_update_rz_fits(s: &BackstopStore, pool: u32) -> bool {
    match s.spec_rz_emis_data(pool) {
        Some(d) => d.index != EVICTED_INDEX ==> {
            let nq = s.spec_pool_balance(pool).spec_non_queued_tokens();
            let delta = s.rz_emission_index - d.index;
            &&& nq * delta <= i128::MAX
            &&& d.accrued + nq * delta / (SCALAR_14 as int) <= i128::MAX
        },
        None => true,
    }
}

/// Write a pool's reward-zone record. A gulp consumes the accrual and hands
/// it back; otherwise the accrual is stored and nothing is returned.
fn set_rz_emissions(
    store: &mut BackstopStore,
    pool_id: u32,
    index: i128,
    accrued: i128,
    to_gulp: bool,
) -> (r: i128)
    ensures
        final(store).rz_emis_data@ == old(store).rz_emis_data@.insert(
            pool_id,
            (RzEmissionData {
                index,
                accrued: if to_gulp {
                    0
                } else {
                    accrued
                },
            }),
        ),
        r == if to_gulp {
            accrued
        } else {
            0
        },
        same_but_rz_emis(old(store), final(store)),
{
    if to_gulp {
        store.set_rz_emis_data(pool_id, RzEmissionData { index, accrued: 0 });
        accrued
    } else {
        store.set_rz_emis_data(pool_id, RzEmissionData { index, accrued });
        0
    }
}

/// Realise a pool's share of the global emission stream since its last
/// update. With `to_gulp` the whole accrual is consumed and returned;
/// without it the accrual is only brought up to date. A pool that has never
/// held a record is left alone, and an expelled pool realises nothing
/// beyond what it is still owed.
pub fn update_rz_emis_data(store: &mut BackstopStore, pool: u32, to_gulp: bool) -> (r: i128)
    requires
        old(store).wf(),
        spec_update_rz_fits(old(store), pool),
    ensures
        final(store).wf(),
        same_but_rz_emis(old(store), final(store)),
        r == spec_update_rz_result(old(store), pool, to_gulp),
        final(store).rz_emis_data@ == (match spec_update_rz_written(old(store), pool, to_gulp) {
            Some(nd) => old(store).rz_emis_data@.insert(pool, nd),
            None => old(store).rz_emis_data@,
        }),
{
    match store.get_rz_emis_data(pool) {
        Some(emission_data) => {
            let pool_balance = store.get_pool_balance(pool);
            let gulp_index = store.rz_emission_index;
            if emission_data.index == EVICTED_INDEX {
                // an expelled pool accrues nothing further, but a gulp still
                // collects what it is owed
                if to_gulp {
                    return set_rz_emissions(store, pool, EVICTED_INDEX, emission_data.accrued, true);
                }
                return 0;
            }
            if emission_data.index < gulp_index || to_gulp {
                if pool_balance.non_queued_tokens() > 0 {
                    let delta = gulp_index - emission_data.index;
                    let new_emissions = fixed_mul_floor(
                        pool_balance.non_queued_tokens(),
                        delta,
                        SCALAR_14,
                    );
                    proof {
                        vstd::arithmetic::mul::lemma_mul_nonnegative(
                            pool_balance.spec_non_queued_tokens(),
                            delta as int,
                        );
                        vstd::arithmetic::div_mod::lemma_div_pos_is_pos(
                            pool_balance.spec_non_queued_tokens() * delta,
                            SCALAR_14 as int,
                        );
                    }
                    let accrued = emission_data.accrued + new_emissions;
                    set_rz_emissions(store, pool, gulp_index, accrued, to_gulp)
                } else {
                    set_rz_emissions(store, pool, gulp_index, emission_data.accrued, to_gulp)
                }
            } else {
                0
            }
        },
        None => 0,
    }
}

/// Everything in the store except the per-pool backstop emission records is
/// unchanged.
pub open spec fn same_but_backstop_emis(a: &BackstopStore, b: &BackstopStore) -> bool {
    &&& b.reward_zone == a.reward_zone
    &&& b.rz_emission_index == a.rz_emission_index
    &&& b.last_distribution_time == a.last_distribution_time
    &&& b.backfill_status == a.backfill_status
    &&& b.backfill_emissions == a.backfill_emissions
    &&& b.pool_balances == a.pool_balances
    &&& b.rz_emis_data == a.rz_emis_data
}

/// Tokens the old rate window still owes past `now`: the rate times the
/// remaining seconds, floored at 7 decimals.
pub open spec fn spec_eps_carry(d: BackstopEmissionData, now: int) -> int {
    if d.expiration > now {
        d.eps * (d.expiration - now) / (SCALAR_7 as int)
    } else {
        0
    }
}

/// The record installed for a new seven-day window: the index is first
/// brought up to `now` under the old rate, then the new rate spreads the
/// newly allocated tokens plus the carry evenly over the window.
pub open spec fn spec_new_eps_data(
    old_d: Option<BackstopEmissionData>,
    shares: int,
    new_tokens: int,
    now: int,
) -> BackstopEmissionData {
    match old_d {
        Some(d0) => {
            let adv = spec_updated_emission_data(d0, shares, now);
            let left = new_tokens + spec_eps_carry(d0, now);
            BackstopEmissionData {
                eps: (left * (SCALAR_7 as int) / (EMISSION_WINDOW as int)) as u64,
                expiration: (now + EMISSION_WINDOW) as u64,
                index: adv.index,
                last_time: now as u64,
            }
        },
        None => BackstopEmissionData {
            eps: (new_tokens * (SCALAR_7 as int) / (EMISSION_WINDOW as int)) as u64,
            expiration: (now + EMISSION_WINDOW) as u64,
            index: 0,
            last_time: now as u64,
        },
    }
}

/// The machine limits a window change must respect: the carry product, the
/// scaled rate numerator and the new expiration stay within their types,
/// and the new rate fits in `u64`.
pub open spec fn spec_eps_fits(
    old_d: Option<BackstopEmissionData>,
    shares: int,
    new_tokens: int,
    now: int,
) -> bool {
    &&& now + EMISSION_WINDOW <= u64::MAX
    &&& match old_d {
        Some(d0) => {
            let left = new_tokens + spec_eps_carry(d0, now);
            &&& spec_emission_update_fits(d0, shares, now)
            &&& (if d0.expiration > now {
                d0.eps * (d0.expiration - now)
            } else {
                0
            }) <= i128::MAX
            &&& left * (SCALAR_7 as int) <= i128::MAX
            &&& left * (SCALAR_7 as int) / (EMISSION_WINDOW as int) <= u64::MAX
        },
        None => {
            &&& new_tokens * (SCALAR_7 as int) <= i128::MAX
            &&& new_tokens * (SCALAR_7 as int) / (EMISSION_WINDOW as int) <= u64::MAX
        },
    }
}

/// Open a fresh seven-day emission window for a pool's backstop depositors.
/// The pool's index is first advanced to `now` under the old rate; whatever
/// the old window had not yet paid out is carried over into the new rate.
pub fn set_backstop_emission_eps(
    store: &mut BackstopStore,
    pool_id: u32,
    pool_balance: &PoolBalance,
    new_tokens: i128,
    now: u64,
)
    requires
        old(store).wf(),
        pool_balance.wf(),
        0 <= new_tokens,
        match old(store).spec_backstop_emis_data(pool_id) {
            Some(d) => d.last_time <= now,
            None => true,
        },
        spec_eps_fits(
            old(store).spec_backstop_emis_data(pool_id),
            pool_balance.shares as int,
            new_tokens as int,
            now as int,
        ),
    ensures
        final(store).wf(),
        same_but_backstop_emis(old(store), final(store)),
        final(store).backstop_emis_data@ == old(store).backstop_emis_data@.insert(
            pool_id,
            spec_new_eps_data(
                old(store).spec_backstop_emis_data(pool_id),
                pool_balance.shares as int,
                new_tokens as int,
                now as int,
            ),
        ),
{
    let expiration = now + EMISSION_WINDOW;
    match update_emission_data(store, pool_id, pool_balance, now) {
        Some(mut emission_data) => {
            // a previous window exists: bring its bookkeeping to `now`
            // before installing the new rate
            if emission_data.last_time != now {
                emission_data.last_time = now;
            }
            let mut tokens_left_to_emit = new_tokens;
            if emission_data.expiration > now {
                // the old window is still open: what it has not yet paid
                // out carries over
                let time_to_expiration = emission_data.expiration - now;
                let tokens_still_owed = fixed_mul_floor(
                    i128_of_u64(emission_data.eps),
                    i128_of_u64(time_to_expiration),
                    SCALAR_7,
                );
                proof {
                    vstd::arithmetic::mul::lemma_mul_nonnegative(
                        emission_data.eps as int,
                        time_to_expiration as int,
                    );
                    vstd::arithmetic::div_mod::lemma_div_pos_is_pos(
                        emission_data.eps as int * time_to_expiration as int,
                        SCALAR_7 as int,
                    );
                }
                tokens_left_to_emit = tokens_left_to_emit + tokens_still_owed;
            }
            proof {
                vstd::arithmetic::mul::lemma_mul_nonnegative(
                    tokens_left_to_emit as int,
                    SCALAR_7 as int,
                );
                vstd::arithmetic::div_mod::lemma_div_pos_is_pos(
                    tokens_left_to_emit as int * SCALAR_7 as int,
                    EMISSION_WINDOW as int,
                );
            }
            let eps = u64_of_i128(tokens_left_to_emit * SCALAR_7 / (EMISSION_WINDOW as i128));
            emission_data.eps = eps;
            emission_data.expiration = expiration;
            store.set_backstop_emis_data(pool_id, emission_data);
        },
        None => {
            // first time this pool's backstop receives emissions
            proof {
                vstd::arithmetic::mul::lemma_mul_nonnegative(new_tokens as int, SCALAR_7 as int);
                vstd::arithmetic::div_mod::lemma_div_pos_is_pos(
                    new_tokens as int * SCALAR_7 as int,
                    EMISSION_WINDOW as int,
                );
            }
            let eps = u64_of_i128(new_tokens * SCALAR_7 / (EMISSION_WINDOW as i128));
            store.set_backstop_emis_data(
                pool_id,
                BackstopEmissionData { eps, expiration, index: 0, last_time: now },
            );
        },
    }
}

/// The distribution time a run goes by: the emitter's clock where the
/// emitter knows this backstop, the ledger's where it does not.
pub open spec fn spec_emitter_time(emitter_last_distro: Option<u64>, now: u64) -> u64 {
    match emitter_last_distro {
        Some(t) => t,
        None => now,
    }
}

/// Whether a run bridges a period the emitter has no record of.
pub open spec fn spec_is_backfill(emitter_last_distro: Option<u64>) -> bool {
    emitter_last_distro is None
}

/// A backfill period just ended: the emitter acknowledged this backstop for
/// the first time since backfilling began.
pub open spec fn spec_needs_reset(s: &BackstopStore, emitter_last_distro: Option<u64>) -> bool {
    emitter_last_distro is Some && s.backfill_status == Some(true)
}

/// The backfill flag after a run: an acknowledged run closes an open
/// backfill period, an unacknowledged run opens one where none was
/// recorded.
pub open spec fn spec_new_backfill_status(
    s: &BackstopStore,
    emitter_last_distro: Option<u64>,
) -> Option<bool> {
    match emitter_last_distro {
        Some(_) => if s.backfill_status == Some(true) {
            Some(false)
        } else {
            s.backfill_status
        },
        None => if s.backfill_status is None {
            Some(true)
        } else {
            s.backfill_status
        },
    }
}

/// Sum of the non-queued tokens of the first `n` reward-zone pools.
pub open spec fn spec_sum_non_queued(s: &BackstopStore, n: int) -> int
    decreases n,
{
    if n <= 0 {
        0
    } else {
        spec_sum_non_queued(s, n - 1) + s.spec_pool_balance(
            s.reward_zone@[n - 1],
        ).spec_non_queued_tokens()
    }
}

/// The deposit base the stream is spread over: every reward-zone pool's
/// non-queued tokens.
pub open spec fn spec_total_non_queued(s: &BackstopStore) -> int {
    spec_sum_non_queued(s, s.reward_zone@.len() as int)
}

/// Partial sums of non-queued tokens grow with their length: every term is
/// non-negative in a well-formed store.
pub proof fn lemma_sum_non_queued_monotone(s: &BackstopStore, m: int, n: int)
    requires
        s.wf(),
        0 <= m <= n <= s.reward_zone@.len(),
    ensures
        spec_sum_non_queued(s, m) <= spec_sum_non_queued(s, n),
    decreases n - m,
{
    if m < n {
        lemma_sum_non_queued_monotone(s, m, n - 1);
        let p = s.reward_zone@[n - 1];
        if s.pool_balances@.contains_key(p) {
            assert(s.pool_balances@[p].wf());
        }
        s.spec_pool_balance(p).lemma_non_queued_bounds();
    }
}

/// The emissions a run releases: one token per second since the previous
/// distribution, in 7-decimal units.
pub open spec fn spec_new_emissions(s: &BackstopStore, emitter_last_distro: Option<u64>, now: u64) -> int {
    (spec_emitter_time(emitter_last_distro, now) - s.last_distribution_time) * (SCALAR_7 as int)
}

/// Which error a distribution run returns, if any: the bootstrap and
/// backfill-reset runs never fail; otherwise the zone must be non-empty,
/// the emitter's clock must have moved past the rounding guard, and a
/// backfill run must stay under the cap.
pub open spec fn spec_distribute_err(
    s: &BackstopStore,
    emitter_last_distro: Option<u64>,
    now: u64,
) -> Option<BackstopError> {
    if s.last_distribution_time == 0 || spec_needs_reset(s, emitter_last_distro) {
        None
    } else if s.reward_zone@.len() == 0 {
        Some(BackstopError::BadRequest)
    } else if spec_emitter_time(emitter_last_distro, now) <= s.last_distribution_time
        + MIN_DISTRIBUTION_INTERVAL {
        Some(BackstopError::BadRequest)
    } else if spec_is_backfill(emitter_last_distro) && s.backfill_emissions + spec_new_emissions(
        s,
        emitter_last_distro,
        now,
    ) > MAX_BACKFILLED_EMISSIONS {
        Some(BackstopError::MaxBackfillEmissions)
    } else {
        None
    }
}

/// Whether a run reaches the index update: it neither bootstraps, resets,
/// nor fails.
pub open spec fn spec_distribute_updates_index(
    s: &BackstopStore,
    emitter_last_distro: Option<u64>,
    now: u64,
) -> bool {
    &&& s.last_distribution_time != 0
    &&& !spec_needs_reset(s, emitter_last_distro)
    &&& spec_distribute_err(s, emitter_last_distro, now) is None
}

/// Sum every reward-zone pool's non-queued tokens.
fn total_non_queued_tokens(store: &BackstopStore) -> (r: i128)
    requires
        store.wf(),
        spec_total_non_queued(store) <= i128::MAX,
    ensures
        r == spec_total_non_queued(store),
{
    let rz_len = store.reward_zone.len();
    let mut total: i128 = 0;
    let mut i: usize = 0;
    while i < rz_len
        invariant
            0 <= i <= rz_len,
            rz_len == store.reward_zone@.len(),
            store.wf(),
            spec_total_non_queued(store) <= i128::MAX,
            total == spec_sum_non_queued(store, i as int),
        decreases rz_len - i,
    {
        let rz_pool = store.reward_zone[i];
        let pool_balance = store.get_pool_balance(rz_pool);
        proof {
            if store.pool_balances@.contains_key(rz_pool) {
                assert(store.pool_balances@[rz_pool].wf());
            }
            lemma_sum_non_queued_monotone(store, 0, i as int);
            lemma_sum_non_queued_monotone(store, i + 1, store.reward_zone@.len() as int);
        }
        total = total + pool_balance.non_queued_tokens();
        i = i + 1;
    }
    total
}

/// Advance the global emission index by the slice of the emitter's stream
/// owed since the last run, spread over the reward zone's non-queued
/// deposits. `emitter_last_distro` is the emitter's last distribution time
/// for this backstop, or `None` where the emitter has no record of it (a
/// backfill run); `now` is the ledger timestamp. Returns the emissions
/// released, and leaves the store untouched on an error.
pub fn distribute(
    store: &mut BackstopStore,
    emitter_last_distro: Option<u64>,
    now: u64,
) -> (r: Result<i128, BackstopError>)
    requires
        old(store).wf(),
        spec_total_non_queued(old(store)) <= i128::MAX,
        spec_distribute_updates_index(old(store), emitter_last_distro, now) ==> {
            &&& spec_total_non_queued(old(store)) > 0
            &&& spec_new_emissions(old(store), emitter_last_distro, now) * (SCALAR_14 as int)
                <= i128::MAX
            &&& old(store).rz_emission_index + spec_new_emissions(
                old(store),
                emitter_last_distro,
                now,
            ) * (SCALAR_14 as int) / spec_total_non_queued(old(store)) < EVICTED_INDEX
        },
    ensures
        final(store).wf(),
        final(store).reward_zone == old(store).reward_zone,
        final(store).pool_balances == old(store).pool_balances,
        final(store).rz_emis_data == old(store).rz_emis_data,
        final(store).backstop_emis_data == old(store).backstop_emis_data,
        match r {
            Err(e) => {
                &&& Some(e) == spec_distribute_err(old(store), emitter_last_distro, now)
                &&& *final(store) == *old(store)
            },
            Ok(amount) => {
                &&& spec_distribute_err(old(store), emitter_last_distro, now) is None
                &&& final(store).backfill_status == spec_new_backfill_status(
                    old(store),
                    emitter_last_distro,
                )
                &&& final(store).last_distribution_time == spec_emitter_time(
                    emitter_last_distro,
                    now,
                )
                &&& if spec_distribute_updates_index(old(store), emitter_last_distro, now) {
                    &&& amount == spec_new_emissions(old(store), emitter_last_distro, now)
                    &&& final(store).rz_emission_index == old(store).rz_emission_index + amount
                        * (SCALAR_14 as int) / spec_total_non_queued(old(store))
                    &&& final(store).backfill_emissions == old(store).backfill_emissions + (
                    if spec_is_backfill(emitter_last_distro) {
                        amount as int
                    } else {
                        0
                    })
                } else {
                    &&& amount == 0
                    &&& final(store).rz_emission_index == old(store).rz_emission_index
                    &&& final(store).backfill_emissions == old(store).backfill_emissions
                }
            },
        },
{
    let (is_backfill, emitter_time): (bool, u64) = match emitter_last_distro {
        Some(t) => (false, t),
        None => (true, now),
    };
    let had_backfill_true = match store.backfill_status {
        Some(b) => b,
        None => false,
    };
    let status_is_none = match store.backfill_status {
        Some(_) => false,
        None => true,
    };
    let needs_reset = !is_backfill && had_backfill_true;
    let new_status: Option<bool> = if is_backfill {
        if status_is_none {
            Some(true)
        } else {
            store.backfill_status
        }
    } else {
        if had_backfill_true {
            Some(false)
        } else {
            store.backfill_status
        }
    };

    // first run ever: start the stream at the effective time, emit nothing
    if store.last_distribution_time == 0 {
        store.backfill_status = new_status;
        store.last_distribution_time = emitter_time;
        return Ok(0);
    }
    // first acknowledged run after a backfill period: synchronise with the
    // emitter's clock, discarding the unattributable gap
    if needs_reset {
        store.backfill_status = new_status;
        store.last_distribution_time = emitter_time;
        return Ok(0);
    }
    if store.reward_zone.len() == 0 {
        return Err(BackstopError::BadRequest);
    }
    // the guard prevents rounding explosion on short intervals
    if emitter_time <= MIN_DISTRIBUTION_INTERVAL || emitter_time - MIN_DISTRIBUTION_INTERVAL
        <= store.last_distribution_time {
        return Err(BackstopError::BadRequest);
    }

    // the emitter releases one token per second
    let time_delta = emitter_time - store.last_distribution_time;
    let new_emissions = i128_of_u64(time_delta) * SCALAR_7;

    // a backfill run must fit within the emitter's eventual drop allotment
    let cur_backfill = store.backfill_emissions + new_emissions;
    if is_backfill && cur_backfill > MAX_BACKFILLED_EMISSIONS {
        return Err(BackstopError::MaxBackfillEmissions);
    }

    let total_non_queued = total_non_queued_tokens(store);
    let additional_index = fixed_div_floor(new_emissions, total_non_queued, SCALAR_14);
    proof {
        vstd::arithmetic::mul::lemma_mul_nonnegative(new_emissions as int, SCALAR_14 as int);
        vstd::arithmetic::div_mod::lemma_div_pos_is_pos(
            new_emissions as int * SCALAR_14 as int,
            spec_total_non_queued(old(store)),
        );
    }

    if is_backfill {
        store.backfill_emissions = cur_backfill;
    }
    store.backfill_status = new_status;
    store.last_distribution_time = emitter_time;
    store.rz_emission_index = store.rz_emission_index + additional_index;
    Ok(new_emissions)
}

/// Find the first position of a pool in the reward zone.
fn zone_index_of(zone: &Vec<u32>, pool: u32) -> (r: Option<usize>)
    ensures
        match r {
            Some(i) => {
                &&& i < zone@.len()
                &&& zone@[i as int] == pool
                &&& forall|j: int| 0 <= j < i ==> zone@[j] != pool
            },
            None => !zone@.contains(pool),
        },
{
    let len = zone.len();
    let mut i: usize = 0;
    while i < len
        invariant
            0 <= i <= len,
            len == zone@.len(),
            forall|j: int| 0 <= j < i ==> zone@[j] != pool,
        decreases len - i,
    {
        if zone[i] == pool {
            return Some(i);
        }
        i = i + 1;
    }
    None
}

/// Everything in the store except the reward zone and the per-pool
/// reward-zone records is unchanged.
pub open spec fn same_but_zone_and_rz_emis(a: &BackstopStore, b: &BackstopStore) -> bool {
    &&& b.rz_emission_index == a.rz_emission_index
    &&& b.last_distribution_time == a.last_distribution_time
    &&& b.backfill_status == a.backfill_status
    &&& b.backfill_emissions == a.backfill_emissions
    &&& b.pool_balances == a.pool_balances
    &&& b.backstop_emis_data == a.backstop_emis_data
}

/// Which error dropping a pool from the zone returns, if any: the pool must
/// be in the zone, and the previous distribution must be recent enough that
/// it loses no accrued emissions.
pub open spec fn spec_remove_pool_err(s: &BackstopStore, to_remove: u32, now: u64) -> Option<
    BackstopError,
> {
    if !s.reward_zone@.contains(to_remove) {
        Some(BackstopError::InvalidRewardZoneEntry)
    } else if s.last_distribution_time < now - RZ_CHANGE_WINDOW {
        Some(BackstopError::BadRequest)
    } else {
        None
    }
}

/// Drop a pool from the reward zone and stamp its record with the eviction
/// sentinel, preserving whatever it is still owed for a later claim.
fn remove_pool(store: &mut BackstopStore, to_remove: u32, now: u64) -> (r: Result<
    (),
    BackstopError,
>)
    requires
        old(store).wf(),
        now >= RZ_CHANGE_WINDOW,
        spec_remove_pool_err(old(store), to_remove, now) is None ==> old(store).spec_rz_emis_data(
            to_remove,
        ) is Some,
    ensures
        final(store).wf(),
        same_but_zone_and_rz_emis(old(store), final(store)),
        match r {
            Ok(_) => {
                &&& spec_remove_pool_err(old(store), to_remove, now) is None
                &&& final(store).reward_zone@ == old(store).reward_zone@.remove_value(to_remove)
                &&& final(store).rz_emis_data@ == old(store).rz_emis_data@.insert(
                    to_remove,
                    (RzEmissionData {
                        index: EVICTED_INDEX,
                        accrued: old(store).spec_rz_emis_data(to_remove).unwrap().accrued,
                    }),
                )
            },
            Err(e) => {
                &&& Some(e) == spec_remove_pool_err(old(store), to_remove, now)
                &&& *final(store) == *old(store)
            },
        },
{
    let idx = match zone_index_of(&store.reward_zone, to_remove) {
        Some(idx) => idx,
        None => {
            return Err(BackstopError::InvalidRewardZoneEntry);
        },
    };
    // a stale distribution would cost the evicted pool its recent share
    if store.last_distribution_time < now - RZ_CHANGE_WINDOW {
        return Err(BackstopError::BadRequest);
    }
    let to_remove_emis_data = match store.get_rz_emis_data(to_remove) {
        Some(d) => d,
        None => {
            proof {
                assert(false);
            }
            RzEmissionData { index: 0, accrued: 0 }
        },
    };
    set_rz_emissions(store, to_remove, EVICTED_INDEX, to_remove_emis_data.accrued, false);
    let ghost zone_before = store.reward_zone@;
    store.reward_zone.remove(idx);
    proof {
        zone_before.index_of_first_ensures(to_remove);
        let first = zone_before.index_of_first(to_remove).unwrap();
        assert(first == idx as int);
        assert(final(store).reward_zone@ == zone_before.remove_value(to_remove));
        // a removal keeps the zone free of duplicates
        assert forall|a: int, b: int|
            0 <= a < b < final(store).reward_zone@.len() implies final(store).reward_zone@[a]
            != final(store).reward_zone@[b] by {
            let la = if a < idx {
                a
            } else {
                a + 1
            };
            let lb = if b < idx {
                b
            } else {
                b + 1
            };
            assert(zone_before[la] == final(store).reward_zone@[a]);
            assert(zone_before[lb] == final(store).reward_zone@[b]);
        }
    }
    Ok(())
}

/// Which error adding a pool to the zone returns, if any: the pool must not
/// already be in the zone and must meet the deposit threshold; a full zone
/// further needs a named pool holding strictly fewer tokens, removable
/// under the removal rules.
pub open spec fn spec_add_err(
    s: &BackstopStore,
    to_add: u32,
    to_remove: Option<u32>,
    lp_value: LpTokenValue,
    now: u64,
) -> Option<BackstopError> {
    if s.reward_zone@.contains(to_add) {
        Some(BackstopError::BadRequest)
    } else if spec_product_constant(
        spec_load_pool_backstop_data(s.spec_pool_balance(to_add), lp_value),
    ) < THRESHOLD_PC {
        Some(BackstopError::InvalidRewardZoneEntry)
    } else if s.reward_zone@.len() < MAX_RZ_SIZE {
        None
    } else {
        match to_remove {
            None => Some(BackstopError::RewardZoneFull),
            Some(rm) => if s.spec_pool_balance(to_add).tokens <= s.spec_pool_balance(rm).tokens {
                Some(BackstopError::InvalidRewardZoneEntry)
            } else {
                spec_remove_pool_err(s, rm, now)
            },
        }
    }
}

/// The reward-zone record a newly added pool starts from: the current
/// global index, keeping any accrual it still holds from an earlier stay.
pub open spec fn spec_added_rz_data(s: &BackstopStore, to_add: u32) -> RzEmissionData {
    RzEmissionData {
        index: s.rz_emission_index,
        accrued: match s.spec_rz_emis_data(to_add) {
            Some(d) => d.accrued,
            None => 0,
        },
    }
}

/// Add a pool to the reward zone; where the zone is full, swap it in for
/// `to_remove`, which must hold strictly fewer tokens. The new pool accrues
/// only from the current global index onward; a swapped-out pool keeps its
/// accrual behind the eviction sentinel. Leaves the store untouched on an
/// error.
pub fn add_to_reward_zone(
    store: &mut BackstopStore,
    to_add: u32,
    to_remove: Option<u32>,
    lp_value: &LpTokenValue,
    now: u64,
) -> (r: Result<(), BackstopError>)
    requires
        old(store).wf(),
        lp_value.wf(),
        now >= RZ_CHANGE_WINDOW,
        old(store).spec_pool_balance(to_add).tokens * lp_value.blnd_per_token <= i128::MAX,
        old(store).spec_pool_balance(to_add).tokens * lp_value.usdc_per_token <= i128::MAX,
        (spec_add_err(old(store), to_add, to_remove, *lp_value, now) is None && old(
            store,
        ).reward_zone@.len() >= MAX_RZ_SIZE) ==> old(store).spec_rz_emis_data(
            to_remove.unwrap(),
        ) is Some,
    ensures
        final(store).wf(),
        same_but_zone_and_rz_emis(old(store), final(store)),
        match r {
            Ok(_) => {
                &&& spec_add_err(old(store), to_add, to_remove, *lp_value, now) is None
                &&& final(store).reward_zone@ == seq![to_add] + (if old(
                    store,
                ).reward_zone@.len() >= MAX_RZ_SIZE {
                    old(store).reward_zone@.remove_value(to_remove.unwrap())
                } else {
                    old(store).reward_zone@
                })
                &&& final(store).rz_emis_data@ == (if old(store).reward_zone@.len()
                    >= MAX_RZ_SIZE {
                    old(store).rz_emis_data@.insert(
                        to_remove.unwrap(),
                        (RzEmissionData {
                            index: EVICTED_INDEX,
                            accrued: old(store).spec_rz_emis_data(
                                to_remove.unwrap(),
                            ).unwrap().accrued,
                        }),
                    )
                } else {
                    old(store).rz_emis_data@
                }).insert(to_add, spec_added_rz_data(old(store), to_add))
            },
            Err(e) => {
                &&& Some(e) == spec_add_err(old(store), to_add, to_remove, *lp_value, now)
                &&& *final(store) == *old(store)
            },
        },
{
    if zone_index_of(&store.reward_zone, to_add).is_some() {
        // a pool cannot be in the reward zone twice
        return Err(BackstopError::BadRequest);
    }
    let balance = store.get_pool_balance(to_add);
    proof {
        if store.pool_balances@.contains_key(to_add) {
            assert(store.pool_balances@[to_add].wf());
        }
    }
    let pool_data = load_pool_backstop_data(&balance, lp_value);
    if !require_pool_above_threshold(&pool_data) {
        return Err(BackstopError::InvalidRewardZoneEntry);
    }

    let rz_emission_index = store.rz_emission_index;
    if store.reward_zone.len() < MAX_RZ_SIZE {
        // there is room in the reward zone
        store.reward_zone.insert(0, to_add);
        proof {
            let oz = old(store).reward_zone@;
            let nz = store.reward_zone@;
            assert forall|a: int, b: int| 0 <= a < b < nz.len() implies nz[a] != nz[b] by {
                if a == 0 {
                    assert(nz[b] == oz[b - 1]);
                    assert(!oz.contains(to_add));
                } else {
                    assert(nz[a] == oz[a - 1] && nz[b] == oz[b - 1]);
                }
            }
        }
    } else {
        match to_remove {
            None => {
                return Err(BackstopError::RewardZoneFull);
            },
            Some(rm) => {
                // the incoming pool must outweigh the outgoing one
                if pool_data.tokens <= store.get_pool_balance(rm).tokens {
                    return Err(BackstopError::InvalidRewardZoneEntry);
                }
                match remove_pool(store, rm, now) {
                    Ok(_) => {},
                    Err(e) => {
                        return Err(e);
                    },
                }
                proof {
                    let oz = old(store).reward_zone@;
                    oz.index_of_first_ensures(rm);
                    let fi = oz.index_of_first(rm).unwrap();
                    let rz = store.reward_zone@;
                    assert(rz.no_duplicates());
                    assert forall|j: int| 0 <= j < rz.len() implies rz[j] != to_add by {
                        if j < fi {
                            assert(rz[j] == oz[j]);
                        } else {
                            assert(rz[j] == oz[j + 1]);
                        }
                        assert(!oz.contains(to_add));
                    }
                }
                let ghost mid_zone = store.reward_zone@;
                store.reward_zone.insert(0, to_add);
                proof {
                    let nz = store.reward_zone@;
                    assert forall|a: int, b: int| 0 <= a < b < nz.len() implies nz[a] != nz[b] by {
                        if a == 0 {
                            assert(nz[b] == mid_zone[b - 1]);
                        } else {
                            assert(nz[a] == mid_zone[a - 1] && nz[b] == mid_zone[b - 1]);
                        }
                    }
                }
            },
        }
    }
    // the pool accrues only from this point forward
    let accrued = match store.get_rz_emis_data(to_add) {
        Some(d) => d.accrued,
        None => 0,
    };
    set_rz_emissions(store, to_add, rz_emission_index, accrued, false);
    Ok(())
}

/// Remove a pool that has fallen below the deposit threshold from the
/// reward zone. Leaves the store untouched on an error.
pub fn remove_from_reward_zone(
    store: &mut BackstopStore,
    to_remove: u32,
    lp_value: &LpTokenValue,
    now: u64,
) -> (r: Result<(), BackstopError>)
    requires
        old(store).wf(),
        lp_value.wf(),
        now >= RZ_CHANGE_WINDOW,
        old(store).spec_pool_balance(to_remove).tokens * lp_value.blnd_per_token <= i128::MAX,
        old(store).spec_pool_balance(to_remove).tokens * lp_value.usdc_per_token <= i128::MAX,
        (spec_product_constant(
            spec_load_pool_backstop_data(old(store).spec_pool_balance(to_remove), *lp_value),
        ) < THRESHOLD_PC && spec_remove_pool_err(old(store), to_remove, now) is None) ==> old(
            store,
        ).spec_rz_emis_data(to_remove) is Some,
    ensures
        final(store).wf(),
        same_but_zone_and_rz_emis(old(store), final(store)),
        match r {
            Ok(_) => {
                &&& spec_product_constant(
                    spec_load_pool_backstop_data(
                        old(store).spec_pool_balance(to_remove),
                        *lp_value,
                    ),
                ) < THRESHOLD_PC
                &&& spec_remove_pool_err(old(store), to_remove, now) is None
                &&& final(store).reward_zone@ == old(store).reward_zone@.remove_value(to_remove)
                &&& final(store).rz_emis_data@ == old(store).rz_emis_data@.insert(
                    to_remove,
                    (RzEmissionData {
                        index: EVICTED_INDEX,
                        accrued: old(store).spec_rz_emis_data(to_remove).unwrap().accrued,
                    }),
                )
            },
            Err(e) => {
                &&& *final(store) == *old(store)
                &&& if spec_product_constant(
                    spec_load_pool_backstop_data(
                        old(store).spec_pool_balance(to_remove),
                        *lp_value,
                    ),
                ) >= THRESHOLD_PC {
                    e == BackstopError::BadRequest
                } else {
                    Some(e) == spec_remove_pool_err(old(store), to_remove, now)
                }
            },
        },
{
    let balance = store.get_pool_balance(to_remove);
    proof {
        if store.pool_balances@.contains_key(to_remove) {
            assert(store.pool_balances@[to_remove].wf());
        }
    }
    let pool_data = load_pool_backstop_data(&balance, lp_value);
    if require_pool_above_threshold(&pool_data) {
        // only pools below the threshold may be pushed out
        return Err(BackstopError::BadRequest);
    }
    remove_pool(store, to_remove, now)
}

/// Realise a pool's accumulated share of the emission stream and split it:
/// the backstop depositors' share opens a fresh rate window, while the
/// pool's share, returned second, is granted to the pool contract by the
/// caller as a token allowance. Returns the two shares.
pub fn gulp_emissions(store: &mut BackstopStore, pool: u32, now: u64) -> (r: (i128, i128))
    requires
        old(store).wf(),
        spec_update_rz_fits(old(store), pool),
        spec_update_rz_result(old(store), pool, true) * (SCALAR_7 as int) <= i128::MAX,
        spec_update_rz_result(old(store), pool, true) > 0 ==> {
            &&& (match old(store).spec_backstop_emis_data(pool) {
                Some(d) => d.last_time <= now,
                None => true,
            })
            &&& spec_eps_fits(
                old(store).spec_backstop_emis_data(pool),
                old(store).spec_pool_balance(pool).shares as int,
                spec_update_rz_result(old(store), pool, true) * (BACKSTOP_EMISSIONS_SHARE as int)
                    / (SCALAR_7 as int),
                now as int,
            )
        },
    ensures
        final(store).wf(),
        final(store).reward_zone == old(store).reward_zone,
        final(store).rz_emission_index == old(store).rz_emission_index,
        final(store).last_distribution_time == old(store).last_distribution_time,
        final(store).backfill_status == old(store).backfill_status,
        final(store).backfill_emissions == old(store).backfill_emissions,
        final(store).pool_balances == old(store).pool_balances,
        final(store).rz_emis_data@ == (match spec_update_rz_written(old(store), pool, true) {
            Some(nd) => old(store).rz_emis_data@.insert(pool, nd),
            None => old(store).rz_emis_data@,
        }),
        ({
            let e = spec_update_rz_result(old(store), pool, true);
            let backstop_cut = e * (BACKSTOP_EMISSIONS_SHARE as int) / (SCALAR_7 as int);
            let pool_cut = e * (POOL_EMISSIONS_SHARE as int) / (SCALAR_7 as int);
            &&& r == (if e > 0 {
                (backstop_cut as i128, pool_cut as i128)
            } else {
                (0i128, 0i128)
            })
            &&& final(store).backstop_emis_data@ == (if e > 0 {
                old(store).backstop_emis_data@.insert(
                    pool,
                    spec_new_eps_data(
                        old(store).spec_backstop_emis_data(pool),
                        old(store).spec_pool_balance(pool).shares as int,
                        backstop_cut,
                        now as int,
                    ),
                )
            } else {
                old(store).backstop_emis_data@
            })
        }),
{
    let pool_balance = store.get_pool_balance(pool);
    proof {
        if store.pool_balances@.contains_key(pool) {
            assert(store.pool_balances@[pool].wf());
        }
    }
    let new_emissions = update_rz_emis_data(store, pool, true);
    if new_emissions > 0 {
        let new_backstop_emissions = fixed_mul_floor(
            new_emissions,
            BACKSTOP_EMISSIONS_SHARE,
            SCALAR_7,
        );
        let new_pool_emissions = fixed_mul_floor(new_emissions, POOL_EMISSIONS_SHARE, SCALAR_7);
        proof {
            vstd::arithmetic::mul::lemma_mul_nonnegative(
                new_emissions as int,
                BACKSTOP_EMISSIONS_SHARE as int,
            );
            vstd::arithmetic::div_mod::lemma_div_pos_is_pos(
                new_emissions as int * BACKSTOP_EMISSIONS_SHARE as int,
                SCALAR_7 as int,
            );
            vstd::arithmetic::mul::lemma_mul_upper_bound(
                new_emissions as int,
                new_emissions as int,
                BACKSTOP_EMISSIONS_SHARE as int,
                SCALAR_7 as int,
            );
            vstd::arithmetic::mul::lemma_mul_upper_bound(
                new_emissions as int,
                new_emissions as int,
                POOL_EMISSIONS_SHARE as int,
                SCALAR_7 as int,
            );
        }
        set_backstop_emission_eps(store, pool, &pool_balance, new_backstop_emissions, now);
        (new_backstop_emissions, new_pool_emissions)
    } else {
        (0, 0)
    }
}

} // verus!
