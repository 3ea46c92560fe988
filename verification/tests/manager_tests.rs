use blend_core::constants::{MAX_BACKFILLED_EMISSIONS, SCALAR_7};
use blend_core::errors::BackstopError;
use blend_core::manager::{distribute, gulp_emissions, update_rz_emis_data};
use blend_core::pool_balance::PoolBalance;
use blend_core::store::{BackstopEmissionData, BackstopStore, RzEmissionData};

fn balance(shares: i128, tokens: i128, q4w: i128) -> PoolBalance {
    PoolBalance { shares, tokens, q4w }
}

fn three_pool_store(last_distribution_time: u64) -> BackstopStore {
    let mut store = BackstopStore::new();
    store.last_distribution_time = last_distribution_time;
    store.reward_zone = vec![1, 2, 3];
    store
        .pool_balances
        .insert(1, balance(200_000_0000000, 300_000_0000000, 0));
    store
        .pool_balances
        .insert(2, balance(150_000_0000000, 200_000_0000000, 0));
    store
        .pool_balances
        .insert(3, balance(600_000_0000000, 500_000_0000000, 0));
    store
}

#[test]
fn test_gulp_emissions() {
    let now: u64 = 1713139200;
    let emitter_distro_time: u64 = now - 10;
    let mut store = three_pool_store(emitter_distro_time - 7 * 24 * 60 * 60);
    store.backstop_emis_data.insert(
        1,
        BackstopEmissionData {
            expiration: now + 1000,
            eps: 0_10000000000000,
            index: 8877660000000,
            last_time: now - 12345,
        },
    );
    store.backstop_emis_data.insert(
        2,
        BackstopEmissionData {
            expiration: now - 12345,
            eps: 0_05000000000000,
            index: 4532340000000,
            last_time: now - 12345,
        },
    );
    store
        .rz_emis_data
        .insert(1, RzEmissionData { index: 0, accrued: 0 });
    store
        .rz_emis_data
        .insert(2, RzEmissionData { index: 0, accrued: 0 });
    store
        .rz_emis_data
        .insert(3, RzEmissionData { index: 0, accrued: 0 });
    // a prior grant to pool 1, modelled as its standing allowance
    let mut allowance_1: i128 = 100_123_0000000;
    let mut allowance_2: i128 = 0;
    let mut allowance_3: i128 = 0;

    distribute(&mut store, Some(emitter_distro_time), now).unwrap();
    let (_, pool_1_grant) = gulp_emissions(&mut store, 1, now);
    let (_, pool_2_grant) = gulp_emissions(&mut store, 2, now);
    let (_, pool_3_grant) = gulp_emissions(&mut store, 3, now);
    allowance_1 += pool_1_grant;
    allowance_2 += pool_2_grant;
    allowance_3 += pool_3_grant;

    assert_eq!(store.last_distribution_time, emitter_distro_time);
    assert_eq!(store.pool_balances.get(&1).unwrap().tokens, 300_000_0000000);
    assert_eq!(store.pool_balances.get(&2).unwrap().tokens, 200_000_0000000);
    assert_eq!(store.pool_balances.get(&3).unwrap().tokens, 500_000_0000000);
    assert_eq!(allowance_1, 154_555_0000000);
    assert_eq!(allowance_2, 36_288_0000000);
    assert_eq!(allowance_3, 90_720_0000000);

    let new_pool_1_data = store.get_backstop_emis_data(1).unwrap();
    assert_eq!(new_pool_1_data.eps, 0_21016534391534);
    assert_eq!(new_pool_1_data.expiration, now + 7 * 24 * 60 * 60);
    assert_eq!(new_pool_1_data.index, 9494910000000);
    assert_eq!(new_pool_1_data.last_time, now);

    let new_pool_2_data = store.get_backstop_emis_data(2).unwrap();
    assert_eq!(new_pool_2_data.eps, 0_14000000000000);
    assert_eq!(new_pool_2_data.expiration, now + 7 * 24 * 60 * 60);
    assert_eq!(new_pool_2_data.index, 4532340000000);
    assert_eq!(new_pool_2_data.last_time, now);

    let new_pool_3_data = store.get_backstop_emis_data(3).unwrap();
    assert_eq!(new_pool_3_data.eps, 0_35000000000000);
    assert_eq!(new_pool_3_data.expiration, now + 7 * 24 * 60 * 60);
    assert_eq!(new_pool_3_data.index, 0);
    assert_eq!(new_pool_3_data.last_time, now);
}

#[test]
fn test_distribute() {
    let now: u64 = 1713139200;
    let emitter_distro_time: u64 = now - 10;
    let mut store = three_pool_store(emitter_distro_time - 60 * 60 * 24);

    distribute(&mut store, Some(emitter_distro_time), now).unwrap();

    assert_eq!(store.rz_emission_index, 8640000000000);
    assert_eq!(store.last_distribution_time, emitter_distro_time);
    assert_eq!(store.backfill_emissions, 0);
    // backfill status remains unchanged if not set
    assert_eq!(store.backfill_status, None);
}

#[test]
fn test_distribute_empty_rz() {
    let now: u64 = 1713139200;
    let emitter_distro_time: u64 = now - 10;
    let mut store = BackstopStore::new();
    store.last_distribution_time = emitter_distro_time - 60 * 60 * 24;
    store
        .pool_balances
        .insert(1, balance(200_000_0000000, 300_000_0000000, 0));

    let err = distribute(&mut store, Some(emitter_distro_time), now).unwrap_err();
    assert_eq!(err, BackstopError::BadRequest);
    assert_eq!(err.code(), 1000);
}

#[test]
fn test_distribute_too_soon() {
    let now: u64 = 1713139200;
    let emitter_distro_time: u64 = now - 1000;
    let mut store = three_pool_store(emitter_distro_time - 59 * 60);

    let err = distribute(&mut store, Some(emitter_distro_time), now).unwrap_err();
    assert_eq!(err, BackstopError::BadRequest);
    assert_eq!(err.code(), 1000);
}

#[test]
fn test_distribute_gulp_no_overflow() {
    let mut now: u64 = 1713139200 + 10_000_000_000;
    let mut emitter_distro_time: u64 = now;
    let mut store = BackstopStore::new();
    store.backfill_status = Some(false);
    store.last_distribution_time = 1713139200;
    store.reward_zone = vec![1];
    store.pool_balances.insert(1, balance(1_0000000, 1_0000000, 0));
    store
        .rz_emis_data
        .insert(1, RzEmissionData { index: 0, accrued: 0 });
    assert_eq!(store.rz_emission_index, 0);

    // run a hundred distribution cycles across century-scale gaps
    for _ in 0..100 {
        distribute(&mut store, Some(emitter_distro_time), now).unwrap();
        gulp_emissions(&mut store, 1, now);
        now += 10_000_000_000;
        emitter_distro_time = now + 10_000_000_000;
    }
    assert_eq!(store.rz_emission_index, 101000000000000000000000000);
    // backfill status remains unchanged if false
    assert_eq!(store.backfill_status, Some(false));
}

#[test]
fn test_distribute_no_last_dist_time() {
    let now: u64 = 1713139200;
    let emitter_distro_time: u64 = now - 10;
    let mut store = three_pool_store(0);

    let new_emissions = distribute(&mut store, Some(emitter_distro_time), now).unwrap();

    assert_eq!(new_emissions, 0);
    assert_eq!(store.last_distribution_time, emitter_distro_time);
}

#[test]
fn test_distribute_backfill_emissions() {
    let now: u64 = 1713139200;
    let emitter_distro_time: u64 = now - 10;
    let start_backfilled_emissions: i128 = 1_000_000 * SCALAR_7;
    let rz_emis_index: i128 = 1_0000000_0000000;
    let mut store = three_pool_store(emitter_distro_time - 60 * 60 * 24);
    store.backfill_status = Some(true);
    store.backfill_emissions = start_backfilled_emissions;
    store.rz_emission_index = rz_emis_index;

    // the emitter has no record of this backstop
    distribute(&mut store, None, now).unwrap();

    assert_eq!(store.rz_emission_index, rz_emis_index + 8641000000000);
    assert_eq!(store.last_distribution_time, now);
    assert_eq!(
        store.backfill_emissions,
        start_backfilled_emissions + (60 * 60 * 24 + 10) * SCALAR_7
    );
    assert_eq!(store.backfill_status, Some(true));
}

#[test]
fn test_distribute_backfill_emissions_first_call() {
    let now: u64 = 1713139200;
    let mut store = three_pool_store(0);

    distribute(&mut store, None, now).unwrap();

    assert_eq!(store.rz_emission_index, 0);
    assert_eq!(store.last_distribution_time, now);
    assert_eq!(store.backfill_emissions, 0);
    assert_eq!(store.backfill_status, Some(true));
}

#[test]
fn test_distribute_backfill_emissions_over_max() {
    let now: u64 = 1713139200;
    let emitter_distro_time: u64 = now - 10;
    let start_backfilled_emissions: i128 =
        MAX_BACKFILLED_EMISSIONS - (60 * 60 * 24 + 9) * SCALAR_7;
    let mut store = three_pool_store(emitter_distro_time - 60 * 60 * 24);
    store.backfill_emissions = start_backfilled_emissions;
    store.rz_emission_index = 100_0000000_0000000;

    let err = distribute(&mut store, None, now).unwrap_err();
    assert_eq!(err, BackstopError::MaxBackfillEmissions);
    assert_eq!(err.code(), 1010);
    // nothing persisted
    assert_eq!(store.backfill_emissions, start_backfilled_emissions);
    assert_eq!(store.backfill_status, None);
}

#[test]
fn test_distribute_backfill_emissions_over_needs_reset() {
    let now: u64 = 1713139200;
    let emitter_distro_time: u64 = now - 10;
    let start_backfilled_emissions: i128 = 1_000_000 * SCALAR_7;
    let rz_emis_index: i128 = 1_0000000_0000000;
    let mut store = three_pool_store(now - 10000);
    store.backfill_status = Some(true);
    store.backfill_emissions = start_backfilled_emissions;
    store.rz_emission_index = rz_emis_index;

    distribute(&mut store, Some(emitter_distro_time), now).unwrap();

    assert_eq!(store.rz_emission_index, rz_emis_index);
    assert_eq!(store.last_distribution_time, emitter_distro_time);
    assert_eq!(store.backfill_emissions, start_backfilled_emissions);
    assert_eq!(store.backfill_status, Some(false));
}

fn rz_update_store(tokens: i128) -> BackstopStore {
    let mut store = BackstopStore::new();
    store.rz_emission_index = 22_00000000000000;
    store.rz_emis_data.insert(
        7,
        RzEmissionData { index: 11_00000000000000, accrued: 100_0000000 },
    );
    store
        .pool_balances
        .insert(7, balance(150_0000000, tokens, 2_0000000));
    store
}

#[test]
fn test_update_rz_emis_data() {
    let mut store = rz_update_store(200_0000000);
    let result = update_rz_emis_data(&mut store, 7, false);
    let actual_data = store.get_rz_emis_data(7).unwrap();
    assert_eq!(result, 0);
    assert_eq!(actual_data.index, 22_00000000000000);
    assert_eq!(actual_data.accrued, 2270_6666674);
}

#[test]
fn test_update_rz_emis_data_consumes_accrued() {
    let mut store = rz_update_store(200_0000000);
    let result = update_rz_emis_data(&mut store, 7, true);
    let actual_data = store.get_rz_emis_data(7).unwrap();
    assert_eq!(result, 22706666674);
    assert_eq!(actual_data.index, 22_00000000000000);
    assert_eq!(actual_data.accrued, 0);
}

#[test]
fn test_update_rz_emis_data_zero_pool_tokens() {
    let mut store = rz_update_store(0);
    let result = update_rz_emis_data(&mut store, 7, false);
    let actual_data = store.get_rz_emis_data(7).unwrap();
    assert_eq!(result, 0);
    assert_eq!(actual_data.index, 22_00000000000000);
    assert_eq!(actual_data.accrued, 100_0000000);
}

#[test]
fn test_update_rz_emis_data_gulp_zero_pool_tokens() {
    let mut store = rz_update_store(0);
    let result = update_rz_emis_data(&mut store, 7, true);
    let actual_data = store.get_rz_emis_data(7).unwrap();
    assert_eq!(result, 100_0000000);
    assert_eq!(actual_data.index, 22_00000000000000);
    assert_eq!(actual_data.accrued, 0);
}

#[test]
fn test_update_rz_emis_data_index_already_updated() {
    let mut store = rz_update_store(0);
    store.rz_emis_data.insert(
        7,
        RzEmissionData { index: 22_00000000000000, accrued: 100_0000000 },
    );
    let result = update_rz_emis_data(&mut store, 7, false);
    let actual_data = store.get_rz_emis_data(7).unwrap();
    assert_eq!(result, 0);
    assert_eq!(actual_data.index, 22_00000000000000);
    assert_eq!(actual_data.accrued, 100_0000000);
}

#[test]
fn test_update_rz_emis_data_gulp_updated_index() {
    let mut store = rz_update_store(0);
    store.rz_emis_data.insert(
        7,
        RzEmissionData { index: 22_00000000000000, accrued: 100_0000000 },
    );
    let result = update_rz_emis_data(&mut store, 7, true);
    let actual_data = store.get_rz_emis_data(7).unwrap();
    assert_eq!(result, 100_0000000);
    assert_eq!(actual_data.index, 22_00000000000000);
    assert_eq!(actual_data.accrued, 0);
}

#[test]
fn test_update_rz_emis_data_no_emis_data() {
    let mut store = BackstopStore::new();
    store.rz_emission_index = 22_00000000000000;
    store
        .pool_balances
        .insert(7, balance(150_0000000, 0, 2_0000000));
    let result = update_rz_emis_data(&mut store, 7, false);
    let actual_data = store.get_rz_emis_data(7);
    assert_eq!(result, 0);
    assert!(actual_data.is_none());
}
