use blend_core::auction::{bid_modifier, lot_modifier, AssetAmount};
use blend_core::constants::Q4W_LOCK_TIME;
use blend_core::deposit::{
    execute_deposit, execute_dequeue_withdrawal, execute_queue_withdrawal, execute_withdraw,
    UserBalance,
};
use blend_core::errors::PoolError;
use blend_core::pool::{PoolContract, AUCTION_TYPE_BAD_DEBT, AUCTION_TYPE_USER_LIQUIDATION};
use blend_core::pool_balance::PoolBalance;
use blend_core::status::{
    execute_set_pool_status, execute_update_pool_status, STATUS_ACTIVE, STATUS_ADMIN_ACTIVE,
    STATUS_ADMIN_FROZEN, STATUS_ADMIN_ON_ICE, STATUS_FROZEN, STATUS_ON_ICE,
};
use blend_core::user_emissions::{
    claim_user_emissions, update_user_emissions, update_reserve_emission_data,
    ReserveEmissionData, UserEmissionData,
};
use blend_core::bad_debt::{bad_debt_is_burnt, transfer_bad_debt_allowed, ReservePosition};
use blend_core::pool_balance::PoolBackstopData;

fn asset(asset: u32, amount: i128) -> AssetAmount {
    AssetAmount { asset, amount }
}

fn pool_with_auction(block: u32) -> PoolContract {
    let mut pool = PoolContract::new(900, 901, 0_1000000, 4, 0);
    pool.new_auction(
        AUCTION_TYPE_USER_LIQUIDATION,
        42,
        vec![asset(10, 100)],
        vec![asset(20, 100)],
        100,
        block,
    )
    .unwrap();
    pool
}

#[test]
fn block_scaling_matches_piecewise_curve() {
    // lot ramps up over the first two hundred blocks
    assert_eq!(lot_modifier(0), 0);
    assert_eq!(lot_modifier(1), 0_0050000);
    assert_eq!(lot_modifier(100), 0_5000000);
    assert_eq!(lot_modifier(200), 1_0000000);
    assert_eq!(lot_modifier(201), 1_0000000);
    assert_eq!(lot_modifier(400), 1_0000000);
    assert_eq!(lot_modifier(u32::MAX), 1_0000000);
    // bid stays whole, then ramps down to nothing
    assert_eq!(bid_modifier(0), 1_0000000);
    assert_eq!(bid_modifier(200), 1_0000000);
    assert_eq!(bid_modifier(201), 0_9950000);
    assert_eq!(bid_modifier(250), 0_7500000);
    assert_eq!(bid_modifier(300), 0_5000000);
    assert_eq!(bid_modifier(399), 0_0050000);
    assert_eq!(bid_modifier(400), 0);
    assert_eq!(bid_modifier(u32::MAX), 0);
}

#[test]
fn fill_at_block_200_takes_half() {
    let mut pool = pool_with_auction(0);
    let quote = pool
        .fill_auction(AUCTION_TYPE_USER_LIQUIDATION, 42, 77, 50, 200)
        .unwrap();
    // dif = 200: both modifiers are whole
    assert_eq!(quote.bid, vec![asset(10, 50)]);
    assert_eq!(quote.lot, vec![asset(20, 50)]);
    let remaining = pool
        .get_auction(AUCTION_TYPE_USER_LIQUIDATION, 42)
        .unwrap();
    assert_eq!(remaining.bid, vec![asset(10, 50)]);
    assert_eq!(remaining.lot, vec![asset(20, 50)]);
    assert_eq!(remaining.block, 0);
}

#[test]
fn fill_at_dif_250_scales_bid_down_and_deletes() {
    let mut pool = pool_with_auction(0);
    pool.fill_auction(AUCTION_TYPE_USER_LIQUIDATION, 42, 77, 50, 200)
        .unwrap();
    // dif = 250: the bid pays three quarters, floored
    let quote = pool
        .fill_auction(AUCTION_TYPE_USER_LIQUIDATION, 42, 77, 100, 250)
        .unwrap();
    assert_eq!(quote.bid, vec![asset(10, 37)]);
    assert_eq!(quote.lot, vec![asset(20, 50)]);
    // a total fill deletes the auction
    let err = pool
        .get_auction(AUCTION_TYPE_USER_LIQUIDATION, 42)
        .unwrap_err();
    assert_eq!(err, PoolError::BadRequest);
}

#[test]
fn full_fill_deletes_auction() {
    let mut pool = pool_with_auction(100);
    let quote = pool
        .fill_auction(AUCTION_TYPE_USER_LIQUIDATION, 42, 77, 100, 400)
        .unwrap();
    assert_eq!(quote.bid, vec![asset(10, 50)]);
    assert_eq!(quote.lot, vec![asset(20, 100)]);
    assert!(pool
        .get_auction(AUCTION_TYPE_USER_LIQUIDATION, 42)
        .is_err());
}

#[test]
fn split_fill_matches_single_fill_at_one_block() {
    // a 100% fill in one call...
    let mut single = pool_with_auction(0);
    let full = single
        .fill_auction(AUCTION_TYPE_USER_LIQUIDATION, 42, 77, 100, 300)
        .unwrap();
    // ...moves what a 50% fill and a fill of the remainder move together
    let mut split = pool_with_auction(0);
    let first = split
        .fill_auction(AUCTION_TYPE_USER_LIQUIDATION, 42, 77, 50, 300)
        .unwrap();
    let second = split
        .fill_auction(AUCTION_TYPE_USER_LIQUIDATION, 42, 77, 100, 300)
        .unwrap();
    assert_eq!(
        full.bid[0].amount,
        first.bid[0].amount + second.bid[0].amount
    );
    assert_eq!(
        full.lot[0].amount,
        first.lot[0].amount + second.lot[0].amount
    );
    assert!(split
        .get_auction(AUCTION_TYPE_USER_LIQUIDATION, 42)
        .is_err());
}

#[test]
fn self_fill_is_rejected() {
    let mut pool = pool_with_auction(0);
    let err = pool
        .fill_auction(AUCTION_TYPE_USER_LIQUIDATION, 42, 42, 100, 100)
        .unwrap_err();
    assert_eq!(err, PoolError::InvalidLiquidation);
    // a different address is enough to pass the check
    assert!(pool
        .fill_auction(AUCTION_TYPE_USER_LIQUIDATION, 42, 43, 100, 100)
        .is_ok());
}

#[test]
fn fill_percent_out_of_range_is_rejected() {
    let mut pool = pool_with_auction(0);
    let err = pool
        .fill_auction(AUCTION_TYPE_USER_LIQUIDATION, 42, 77, 0, 100)
        .unwrap_err();
    assert_eq!(err, PoolError::InvalidLiquidation);
    let err = pool
        .fill_auction(AUCTION_TYPE_USER_LIQUIDATION, 42, 77, 101, 100)
        .unwrap_err();
    assert_eq!(err, PoolError::InvalidLiquidation);
}

#[test]
fn duplicate_auction_is_rejected() {
    let mut pool = pool_with_auction(0);
    let err = pool
        .new_auction(
            AUCTION_TYPE_USER_LIQUIDATION,
            42,
            vec![asset(10, 5)],
            vec![asset(20, 5)],
            100,
            7,
        )
        .unwrap_err();
    assert_eq!(err, PoolError::BadRequest);
    // the same user may still be in an auction of another type
    assert!(pool
        .new_auction(
            AUCTION_TYPE_BAD_DEBT,
            42,
            vec![asset(10, 5)],
            vec![asset(20, 5)],
            100,
            7,
        )
        .is_ok());
}

#[test]
fn status_transition_scenario() {
    // a third of deposits queued, threshold met, no admin override: on ice
    assert_eq!(
        execute_update_pool_status(STATUS_ACTIVE, true, 0_3200000).unwrap(),
        STATUS_ON_ICE
    );
    // the queue worsens past sixty percent: frozen
    assert_eq!(
        execute_update_pool_status(STATUS_ON_ICE, true, 0_6200000).unwrap(),
        STATUS_FROZEN
    );
    // an admin freeze blocks automatic updates
    let err = execute_update_pool_status(STATUS_ADMIN_FROZEN, true, 0_6200000).unwrap_err();
    assert_eq!(err, PoolError::BadRequest);
}

#[test]
fn status_bands_respect_admin_overrides() {
    // a healthy backstop reactivates an automatic status
    assert_eq!(
        execute_update_pool_status(STATUS_FROZEN, true, 0_1000000).unwrap(),
        STATUS_ACTIVE
    );
    // a missed threshold puts the pool on ice
    assert_eq!(
        execute_update_pool_status(STATUS_ACTIVE, false, 0).unwrap(),
        STATUS_ON_ICE
    );
    // admin-active rides out the soft on-ice band but not the hard one
    assert_eq!(
        execute_update_pool_status(STATUS_ADMIN_ACTIVE, true, 0_4000000).unwrap(),
        STATUS_ADMIN_ACTIVE
    );
    assert_eq!(
        execute_update_pool_status(STATUS_ADMIN_ACTIVE, true, 0_5000000).unwrap(),
        STATUS_ON_ICE
    );
    // admin-on-ice rides out the soft freeze band, though the hard on-ice
    // band still marks it as backstop-driven
    assert_eq!(
        execute_update_pool_status(STATUS_ADMIN_ON_ICE, true, 0_6500000).unwrap(),
        STATUS_ON_ICE
    );
    assert_eq!(
        execute_update_pool_status(STATUS_ADMIN_ON_ICE, true, 0_2000000).unwrap(),
        STATUS_ADMIN_ON_ICE
    );
    assert_eq!(
        execute_update_pool_status(STATUS_ADMIN_ON_ICE, true, 0_7500000).unwrap(),
        STATUS_FROZEN
    );
}

#[test]
fn set_status_admin_rules() {
    // admin-active needs a met threshold and a light queue
    assert!(execute_set_pool_status(STATUS_ADMIN_ACTIVE, true, 0_4000000).is_ok());
    assert_eq!(
        execute_set_pool_status(STATUS_ADMIN_ACTIVE, false, 0).unwrap_err(),
        PoolError::BadRequest
    );
    assert_eq!(
        execute_set_pool_status(STATUS_ADMIN_ACTIVE, true, 0_5000000).unwrap_err(),
        PoolError::BadRequest
    );
    // admin-on-ice needs a queue below the hard freeze band
    assert!(execute_set_pool_status(STATUS_ADMIN_ON_ICE, true, 0_7000000).is_ok());
    assert_eq!(
        execute_set_pool_status(STATUS_ADMIN_ON_ICE, true, 0_7500000).unwrap_err(),
        PoolError::BadRequest
    );
    // admin-frozen is always available; automatic codes are not admin's
    assert!(execute_set_pool_status(STATUS_ADMIN_FROZEN, false, 0_9000000).is_ok());
    assert_eq!(
        execute_set_pool_status(STATUS_FROZEN, true, 0).unwrap_err(),
        PoolError::BadRequest
    );
}

#[test]
fn deposit_queue_withdraw_round_trip() {
    let mut pool = PoolBalance { shares: 5_000_0000000, tokens: 5_000_0000000, q4w: 0 };
    let mut user = UserBalance { shares: 0, q4w: Vec::new() };
    let now: u64 = 1713139200;

    let minted = execute_deposit(&mut pool, &mut user, 100_0000000);
    assert_eq!(minted, 100_0000000);
    assert_eq!(pool.tokens, 5_100_0000000);
    assert_eq!(pool.shares, 5_100_0000000);
    assert_eq!(user.shares, 100_0000000);

    let entry = execute_queue_withdrawal(&mut pool, &mut user, minted, now);
    assert_eq!(entry.amount, 100_0000000);
    assert_eq!(entry.exp, now + Q4W_LOCK_TIME);
    assert_eq!(pool.q4w, 100_0000000);
    assert_eq!(user.shares, 0);

    let paid = execute_withdraw(&mut pool, &mut user, 0, now + Q4W_LOCK_TIME);
    assert_eq!(paid, 100_0000000);
    assert_eq!(pool, PoolBalance { shares: 5_000_0000000, tokens: 5_000_0000000, q4w: 0 });
    assert_eq!(user.shares, 0);
    assert!(user.q4w.is_empty());
}

#[test]
fn user_emission_accrual_and_claim() {
    let reserve = ReserveEmissionData {
        eps: 0_10000000000000,
        expiration: 2000,
        index: 100_00000000000000,
        last_time: 1000,
    };
    // a thousand seconds over a thousand shares: the index grows by the
    // rate spread per share
    let advanced = update_reserve_emission_data(reserve, 1000_0000000, 2500);
    assert_eq!(
        advanced.index,
        100_00000000000000 + 1000 * 0_10000000000000 * 1_0000000 / 1000_0000000
    );
    assert_eq!(advanced.last_time, 2500);

    // a user holding a tenth of the shares realises a tenth of the gap
    let user = UserEmissionData { index: 100_00000000000000, accrued: 5_0000000 };
    let updated = update_user_emissions(Some(user), 100_0000000, advanced.index);
    assert_eq!(updated.index, advanced.index);
    assert_eq!(
        updated.accrued,
        5_0000000 + 100_0000000 * (advanced.index - 100_00000000000000) / 100_000_000_000_000
    );

    // settling twice against one index adds nothing
    let again = update_user_emissions(Some(updated), 100_0000000, advanced.index);
    assert_eq!(again, updated);

    // a claim empties the record
    let (amount, cleared) = claim_user_emissions(Some(updated), 100_0000000, advanced.index);
    assert_eq!(amount, updated.accrued);
    assert_eq!(cleared, UserEmissionData { index: advanced.index, accrued: 0 });

    // a user with no record starts empty at the current index
    let fresh = update_user_emissions(None, 50_0000000, advanced.index);
    assert_eq!(fresh, UserEmissionData { index: advanced.index, accrued: 0 });
}

#[test]
fn reserve_index_stops_at_expiration() {
    let reserve = ReserveEmissionData {
        eps: 0_10000000000000,
        expiration: 2000,
        index: 0,
        last_time: 1500,
    };
    // the advance counts only the seconds up to the window's end
    let at_3000 = update_reserve_emission_data(reserve, 10_0000000, 3000);
    let at_2000 = update_reserve_emission_data(reserve, 10_0000000, 2000);
    assert_eq!(at_3000.index, at_2000.index);
    // and a closed window no longer grows the index at all
    let later = update_reserve_emission_data(at_3000, 10_0000000, 5000);
    assert_eq!(later.index, at_3000.index);
}

#[test]
fn bad_debt_transfer_needs_debt_without_collateral() {
    let pos = |collateral: i128, liabilities: i128| ReservePosition { collateral, liabilities };
    // debt with no collateral anywhere: transferable
    assert!(transfer_bad_debt_allowed(&vec![pos(0, 0), pos(0, 25_0000000)]));
    // any collateral left blocks the transfer
    assert!(!transfer_bad_debt_allowed(&vec![pos(1, 0), pos(0, 25_0000000)]));
    // and so does having no debt at all
    assert!(!transfer_bad_debt_allowed(&vec![pos(0, 0), pos(0, 0)]));
    assert!(!transfer_bad_debt_allowed(&vec![]));
}

#[test]
fn bad_debt_burns_only_under_critical_threshold() {
    let critical: i128 = 10_000_000_000_000_000_000_000_000 / 100;
    // a backstop at a quarter of the eligibility deposit is still over the
    // one-percent critical bound: the debt goes to auction
    let healthy = PoolBackstopData {
        tokens: 25_000_0000000,
        blnd: 125_000_0000000,
        usdc: 2_500_0000000,
    };
    assert!(!bad_debt_is_burnt(&healthy, critical));
    // a drained backstop burns the debt as a pool loss
    let drained = PoolBackstopData { tokens: 100_0000000, blnd: 500_0000000, usdc: 10_0000000 };
    assert!(bad_debt_is_burnt(&drained, critical));
}

#[test]
fn dequeue_restores_queued_shares() {
    let mut pool = PoolBalance { shares: 1_000_0000000, tokens: 1_200_0000000, q4w: 0 };
    let mut user = UserBalance { shares: 50_0000000, q4w: Vec::new() };
    let now: u64 = 1713139200;
    execute_queue_withdrawal(&mut pool, &mut user, 50_0000000, now);
    assert_eq!(pool.q4w, 50_0000000);
    assert_eq!(user.shares, 0);

    let shares = execute_dequeue_withdrawal(&mut pool, &mut user, 0);
    assert_eq!(shares, 50_0000000);
    assert_eq!(pool.q4w, 0);
    assert_eq!(user.shares, 50_0000000);
    assert!(user.q4w.is_empty());
}
