use blend_core::constants::{EMISSION_WINDOW, EVICTED_INDEX, SCALAR_7};
use blend_core::manager::{distribute, gulp_emissions, update_rz_emis_data};
use blend_core::pool_balance::PoolBalance;
use blend_core::store::{BackstopStore, RzEmissionData};

fn balance(shares: i128, tokens: i128, q4w: i128) -> PoolBalance {
    PoolBalance { shares, tokens, q4w }
}

fn zoned_store(last_distribution_time: u64) -> BackstopStore {
    let mut store = BackstopStore::new();
    store.last_distribution_time = last_distribution_time;
    store.reward_zone = vec![1, 2, 3];
    store
        .pool_balances
        .insert(1, balance(300_000_0000000, 300_000_0000000, 0));
    store
        .pool_balances
        .insert(2, balance(200_000_0000000, 200_000_0000000, 0));
    store
        .pool_balances
        .insert(3, balance(500_000_0000000, 500_000_0000000, 0));
    for pool in 1..4u32 {
        store
            .rz_emis_data
            .insert(pool, RzEmissionData { index: 0, accrued: 0 });
    }
    store
}

#[test]
fn global_index_advances_by_emissions_per_token() {
    // one day of the stream over a million non-queued tokens
    let now: u64 = 1713139200;
    let mut store = zoned_store(now - 86_400);
    let released = distribute(&mut store, Some(now), now).unwrap();
    assert_eq!(released, 86_400 * SCALAR_7);
    assert_eq!(store.rz_emission_index, 8_640_000_000_000);
}

#[test]
fn pool_gulp_splits_seventy_thirty() {
    let now: u64 = 1713139200;
    let mut store = zoned_store(now - 86_400);
    distribute(&mut store, Some(now), now).unwrap();

    // the pool realises its balance times the index, then splits it
    let (backstop_share, pool_share) = gulp_emissions(&mut store, 1, now);
    let realised: i128 = 300_000_0000000 * 8_640_000_000_000 / 100_000_000_000_000;
    assert_eq!(realised, 25_920_0000000);
    assert_eq!(backstop_share, 18_144_0000000);
    assert_eq!(pool_share, 7_776_0000000);
    assert_eq!(backstop_share + pool_share, realised);
    assert_eq!(store.get_rz_emis_data(1).unwrap().accrued, 0);
    assert_eq!(
        store.get_rz_emis_data(1).unwrap().index,
        store.rz_emission_index
    );
}

#[test]
fn evicted_pool_still_claims_its_accrual() {
    // a pool expelled from the zone keeps what it was owed
    let mut store = BackstopStore::new();
    store.rz_emission_index = 9_000_000_000_000;
    store
        .pool_balances
        .insert(5, balance(10_0000000, 10_0000000, 0));
    store
        .rz_emis_data
        .insert(5, RzEmissionData { index: EVICTED_INDEX, accrued: 100 });

    let claimed = update_rz_emis_data(&mut store, 5, true);
    assert_eq!(claimed, 100);
    let data = store.get_rz_emis_data(5).unwrap();
    assert_eq!(data.accrued, 0);
    // the sentinel stays: no further emissions accrue
    assert_eq!(data.index, EVICTED_INDEX);

    // and without a gulp the record is left alone
    let untouched = update_rz_emis_data(&mut store, 5, false);
    assert_eq!(untouched, 0);
    assert_eq!(store.get_rz_emis_data(5).unwrap().index, EVICTED_INDEX);
}

#[test]
fn one_cycle_conserves_emissions() {
    // an uneven zone forces rounding on every division; the realised
    // accruals stay at or under what the stream released
    let now: u64 = 1713139200;
    let mut store = BackstopStore::new();
    store.last_distribution_time = now - 7200;
    store.reward_zone = vec![1, 2, 3];
    store.pool_balances.insert(1, balance(7_0000001, 7_0000001, 0));
    store.pool_balances.insert(2, balance(11_0000003, 11_0000003, 0));
    store.pool_balances.insert(3, balance(13_0000007, 13_0000007, 0));
    for pool in 1..4u32 {
        store
            .rz_emis_data
            .insert(pool, RzEmissionData { index: 0, accrued: 0 });
    }
    let released = distribute(&mut store, Some(now), now).unwrap();
    let mut realised: i128 = 0;
    for pool in 1..4u32 {
        realised += update_rz_emis_data(&mut store, pool, true);
    }
    assert!(realised <= released);
    // the dust lost to flooring stays tiny: under one unit per pool
    assert!(released - realised < 3);
}

#[test]
fn index_only_grows_across_runs() {
    let now: u64 = 1713139200;
    let mut store = zoned_store(now - 86_400);
    let mut last_index = store.rz_emission_index;
    let mut clock = now;
    for _ in 0..5 {
        distribute(&mut store, Some(clock), clock).unwrap();
        assert!(store.rz_emission_index >= last_index);
        last_index = store.rz_emission_index;
        clock += 7200;
    }
}

#[test]
fn fresh_window_pays_carry_plus_new_tokens() {
    // open a window mid-stream and check what it will pay out
    let now: u64 = 1713139200;
    let mut store = zoned_store(now - 86_400);
    store.backstop_emis_data.insert(
        1,
        blend_core::store::BackstopEmissionData {
            eps: 0_10000000000000,
            expiration: now + 1000,
            index: 0,
            last_time: now - 500,
        },
    );
    distribute(&mut store, Some(now), now).unwrap();
    let (backstop_share, _) = gulp_emissions(&mut store, 1, now);

    // the old window still owed a thousand seconds of its rate
    let carry: i128 = 0_10000000000000 * 1000 / SCALAR_7;
    let owed = backstop_share + carry;
    let new_data = store.get_backstop_emis_data(1).unwrap();
    let payout = (new_data.eps as i128) * (EMISSION_WINDOW as i128) / SCALAR_7;
    assert!(owed - 1 <= payout && payout <= owed);
    assert_eq!(new_data.expiration, now + EMISSION_WINDOW);
}
