use vstd::prelude::*;
use crate::auction::{
    spec_amounts_wf, spec_base_amount, spec_quote_side, spec_remaining_side, spec_scaled_amount,
    AssetAmount, MAX_AUCTION_AMOUNT,
};
use crate::constants::{EMISSION_WINDOW, EVICTED_INDEX, SCALAR_14, SCALAR_7};
use crate::manager::spec_update_rz_written;
use crate::store::BackstopStore;
use vstd::arithmetic::div_mod::{
    lemma_div_is_ordered, lemma_div_multiples_vanish, lemma_div_pos_is_pos,
    lemma_fundamental_div_mod, lemma_mod_division_less_than_divisor,
};
use vstd::arithmetic::mul::{
    lemma_mul_inequality, lemma_mul_is_commutative, lemma_mul_is_distributive_add,
    lemma_mul_is_distributive_sub, lemma_mul_nonnegative, lemma_mul_strict_inequality,
};

verus! {

/// Sum of a sequence of token balances.
pub open spec fn spec_token_total(tokens: Seq<int>) -> int
    decreases tokens.len(),
{
    if tokens.len() == 0 {
        0
    } else {
        spec_token_total(tokens.drop_last()) + tokens.last()
    }
}

/// The accruals one index advance hands the pools: each pool realises its
/// balance times the advance, floored at 14 decimals.
pub open spec fn spec_accrual_total(tokens: Seq<int>, delta: int) -> int
    decreases tokens.len(),
{
    if tokens.len() == 0 {
        0
    } else {
        spec_accrual_total(tokens.drop_last(), delta) + tokens.last() * delta / (SCALAR_14 as int)
    }
}

/// Scaled to 14 decimals, the accruals never outrun the balances times the
/// advance.
proof fn lemma_accrual_total_scaled(tokens: Seq<int>, delta: int)
    requires
        forall|i: int| 0 <= i < tokens.len() ==> #[trigger] tokens[i] >= 0,
        0 <= delta,
    ensures
        (SCALAR_14 as int) * spec_accrual_total(tokens, delta) <= spec_token_total(tokens) * delta,
        0 <= spec_accrual_total(tokens, delta),
    decreases tokens.len(),
{
    if tokens.len() == 0 {
    } else {
        let rest = tokens.drop_last();
        let t = tokens.last();
        lemma_accrual_total_scaled(rest, delta);
        lemma_mul_nonnegative(t, delta);
        lemma_fundamental_div_mod(t * delta, SCALAR_14 as int);
        lemma_mod_division_less_than_divisor(t * delta, SCALAR_14 as int);
        lemma_div_pos_is_pos(t * delta, SCALAR_14 as int);
        // the scaled sum distributes over the last pool
        lemma_mul_is_distributive_add(
            SCALAR_14 as int,
            spec_accrual_total(rest, delta),
            t * delta / (SCALAR_14 as int),
        );
        lemma_mul_is_distributive_add(delta, spec_token_total(rest), t);
        lemma_mul_is_commutative(delta, spec_token_total(rest) + t);
        lemma_mul_is_commutative(delta, spec_token_total(rest));
        lemma_mul_is_commutative(delta, t);
    }
}

/// Scaled to 14 decimals, the accruals fall short of the balances times
/// the advance by less than one unit per pool.
proof fn lemma_accrual_total_scaled_lower(tokens: Seq<int>, delta: int)
    requires
        forall|i: int| 0 <= i < tokens.len() ==> #[trigger] tokens[i] >= 0,
        0 <= delta,
    ensures
        (SCALAR_14 as int) * spec_accrual_total(tokens, delta) >= spec_token_total(tokens) * delta
            - tokens.len() * (SCALAR_14 as int),
    decreases tokens.len(),
{
    if tokens.len() == 0 {
    } else {
        let rest = tokens.drop_last();
        let t = tokens.last();
        lemma_accrual_total_scaled_lower(rest, delta);
        lemma_mul_nonnegative(t, delta);
        lemma_fundamental_div_mod(t * delta, SCALAR_14 as int);
        lemma_mod_division_less_than_divisor(t * delta, SCALAR_14 as int);
        lemma_mul_is_distributive_add(
            SCALAR_14 as int,
            spec_accrual_total(rest, delta),
            t * delta / (SCALAR_14 as int),
        );
        lemma_mul_is_distributive_add(delta, spec_token_total(rest), t);
        lemma_mul_is_commutative(delta, spec_token_total(rest) + t);
        lemma_mul_is_commutative(delta, spec_token_total(rest));
        lemma_mul_is_commutative(delta, t);
        lemma_mul_is_distributive_add(SCALAR_14 as int, rest.len() as int, 1);
        lemma_mul_is_commutative(SCALAR_14 as int, rest.len() as int);
        lemma_mul_is_commutative(SCALAR_14 as int, tokens.len() as int);
    }
}

/// Emission conservation in one cycle: when the global index advances by
/// the released emissions spread over the zone's combined balance, the
/// accruals the pools can together realise from that advance never exceed
/// the emissions released, and fall short of them by no more than one
/// unit per pool plus the dust of the index advance itself. The index
/// advance and the per-pool accrual here are exactly the ones `distribute`
/// and `update_rz_emis_data` compute; the floor roundings only ever lose
/// dust, never mint it.
pub proof fn lemma_emission_conservation(tokens: Seq<int>, emissions: int, delta: int)
    requires
        forall|i: int| 0 <= i < tokens.len() ==> #[trigger] tokens[i] >= 0,
        0 <= emissions,
        spec_token_total(tokens) > 0,
        delta == emissions * (SCALAR_14 as int) / spec_token_total(tokens),
    ensures
        0 <= spec_accrual_total(tokens, delta) <= emissions,
        spec_accrual_total(tokens, delta) >= emissions - tokens.len() - spec_token_total(tokens)
            / (SCALAR_14 as int) - 1,
{
    let s14 = SCALAR_14 as int;
    let total = spec_token_total(tokens);
    let n = tokens.len() as int;
    lemma_mul_nonnegative(emissions, s14);
    lemma_div_pos_is_pos(emissions * s14, total);
    lemma_accrual_total_scaled(tokens, delta);
    lemma_accrual_total_scaled_lower(tokens, delta);
    // the advance, scaled back up, sits within one zone-total of the
    // emissions
    lemma_fundamental_div_mod(emissions * s14, total);
    lemma_mod_division_less_than_divisor(emissions * s14, total);
    let acc = spec_accrual_total(tokens, delta);
    assert(total * delta <= emissions * s14);
    assert(total * delta > emissions * s14 - total);
    // upper: balances times the advance stay below the scaled emissions
    assert(s14 * acc <= s14 * emissions) by {
        lemma_mul_is_commutative(emissions, s14);
    }
    if acc > emissions {
        lemma_mul_strict_inequality(emissions, acc, s14);
        lemma_mul_is_commutative(acc, s14);
        lemma_mul_is_commutative(emissions, s14);
    }
    // lower: the dust stays under one unit per pool plus the advance's own
    // remainder
    let floor_total = total / s14;
    lemma_fundamental_div_mod(total, s14);
    lemma_mod_division_less_than_divisor(total, s14);
    assert(s14 * acc >= total * delta - n * s14);
    assert(s14 * acc > emissions * s14 - total - n * s14);
    assert(total < s14 * floor_total + s14);
    if acc < emissions - n - floor_total - 1 {
        lemma_mul_strict_inequality(acc, emissions - n - floor_total - 1, s14);
        lemma_mul_is_commutative(acc, s14);
        lemma_mul_is_commutative(emissions - n - floor_total - 1, s14);
        lemma_mul_is_distributive_sub(s14, emissions - n - floor_total, 1);
        lemma_mul_is_distributive_sub(s14, emissions - n, floor_total);
        lemma_mul_is_distributive_sub(s14, emissions, n);
        lemma_mul_is_commutative(s14, emissions);
        lemma_mul_is_commutative(s14, n);
        lemma_mul_is_commutative(s14, floor_total);
    }
}

/// The global emission index never decreases: the advance a distribution
/// adds is a quotient of non-negative values.
pub proof fn lemma_index_advance_nonnegative(emissions: int, total: int)
    requires
        0 <= emissions,
        0 < total,
    ensures
        emissions * (SCALAR_14 as int) / total >= 0,
{
    lemma_mul_nonnegative(emissions, SCALAR_14 as int);
    lemma_div_pos_is_pos(emissions * (SCALAR_14 as int), total);
}

/// A pool's stored reward-zone index never decreases: an update moves it
/// up to the global index, and the eviction sentinel, once set, stays.
pub proof fn lemma_rz_record_monotone(s: &BackstopStore, pool: u32, to_gulp: bool)
    requires
        s.wf(),
    ensures
        match (s.spec_rz_emis_data(pool), spec_update_rz_written(s, pool, to_gulp)) {
            (Some(d), Some(nd)) => nd.index >= d.index || d.index == EVICTED_INDEX,
            (None, w) => w is None,
            (Some(d), None) => true,
        },
{
    if s.rz_emis_data@.contains_key(pool) {
        assert(s.rz_emis_data@[pool].index <= s.rz_emission_index || s.rz_emis_data@[pool].index
            == EVICTED_INDEX);
    }
}

/// What a rate window pays out over its full span, in 7-decimal tokens.
pub open spec fn spec_window_payout(eps: int) -> int {
    eps * (EMISSION_WINDOW as int) / (SCALAR_7 as int)
}

/// Window carry-over: the rate a fresh window installs pays out, over the
/// whole window, the newly allocated tokens plus the old window's unpaid
/// carry, short at most one unit to the floor roundings. `tokens_left` is
/// the sum the rate is computed from, exactly as `set_backstop_emission_eps`
/// forms it.
pub proof fn lemma_eps_window_payout(tokens_left: int)
    requires
        0 <= tokens_left,
    ensures
        ({
            let eps = tokens_left * (SCALAR_7 as int) / (EMISSION_WINDOW as int);
            tokens_left - 1 <= spec_window_payout(eps) <= tokens_left
        }),
{
    let w = EMISSION_WINDOW as int;
    let s = SCALAR_7 as int;
    let eps = tokens_left * s / w;
    lemma_mul_nonnegative(tokens_left, s);
    lemma_fundamental_div_mod(tokens_left * s, w);
    lemma_mod_division_less_than_divisor(tokens_left * s, w);
    let r1 = (tokens_left * s) % w;
    // eps * w == tokens_left * s - r1
    lemma_mul_is_commutative(w, eps);
    assert(eps * w == tokens_left * s - r1);
    lemma_div_pos_is_pos(tokens_left * s, w);
    lemma_mul_nonnegative(eps, w);
    // upper bound: the window pays at most what was put in
    lemma_div_is_ordered(eps * w, tokens_left * s, s);
    lemma_mul_is_commutative(tokens_left, s);
    lemma_div_multiples_vanish(tokens_left, s);
    // lower bound: the roundings lose less than one token
    assert(eps * w > (tokens_left - 1) * s) by {
        lemma_mul_is_distributive_sub(s, tokens_left, 1);
        lemma_mul_is_commutative(tokens_left - 1, s);
        lemma_mul_is_commutative(tokens_left, s);
    }
    assert(spec_window_payout(eps) >= tokens_left - 1) by {
        lemma_mul_is_commutative(tokens_left - 1, s);
        lemma_div_multiples_vanish(tokens_left - 1, s);
        lemma_div_is_ordered((tokens_left - 1) * s + 1, eps * w, s);
        lemma_fundamental_div_mod((tokens_left - 1) * s + 1, s);
        lemma_mod_division_less_than_divisor((tokens_left - 1) * s + 1, s);
        assert(((tokens_left - 1) * s + 1) / s == tokens_left - 1) by {
            lemma_fundamental_div_mod((tokens_left - 1) * s, s);
            vstd::arithmetic::div_mod::lemma_hoist_over_denominator(
                1,
                tokens_left - 1,
                SCALAR_7 as nat,
            );
        }
    }
}

/// One amount splits across two fills without loss: when the amount halves
/// evenly and each half scales by the block modifier without remainder, a
/// 100% fill moves exactly what a 50% fill followed by a fill of the whole
/// remainder moves.
pub proof fn lemma_split_fill_amount(amount: int, modifier: int)
    requires
        0 <= amount,
        amount % 2 == 0,
        0 <= modifier,
        ((amount / 2) * modifier) % (SCALAR_7 as int) == 0,
    ensures
        spec_scaled_amount(amount, 100, modifier) == spec_scaled_amount(amount, 50, modifier)
            + spec_scaled_amount(amount - spec_base_amount(amount, 50), 100, modifier),
{
    let s = SCALAR_7 as int;
    let half = amount / 2;
    lemma_fundamental_div_mod(amount, 2);
    // the half slice is exact
    assert(spec_base_amount(amount, 50) == half) by {
        assert(amount * 50 == half * 100) by {
            lemma_mul_is_commutative(half, 2);
            lemma_mul_is_distributive_add(50, half, half);
        }
        lemma_mul_is_commutative(half, 100);
        lemma_div_multiples_vanish(half, 100);
    }
    // a full slice is the whole amount
    assert(spec_base_amount(amount, 100) == amount) by {
        lemma_mul_is_commutative(amount, 100);
        lemma_div_multiples_vanish(amount, 100);
    }
    assert(spec_base_amount(half, 100) == half) by {
        lemma_mul_is_commutative(half, 100);
        lemma_div_multiples_vanish(half, 100);
    }
    // both halves scale exactly, so the whole does too
    let q = (half * modifier) / s;
    lemma_mul_nonnegative(half, modifier);
    lemma_fundamental_div_mod(half * modifier, s);
    assert(half * modifier == s * q);
    assert(amount * modifier == s * (2 * q)) by {
        lemma_mul_is_commutative(half, 2);
        lemma_mul_is_distributive_add(modifier, half, half);
        lemma_mul_is_commutative(modifier, half + half);
        lemma_mul_is_commutative(modifier, half);
        lemma_mul_is_distributive_add(s, q, q);
    }
    lemma_div_multiples_vanish(2 * q, s);
    lemma_div_multiples_vanish(q, s);
}

/// A fill's slice and its scaled value stay between nothing and the whole
/// amount.
proof fn lemma_scaled_bounds(amount: int, percent: int, modifier: int)
    requires
        0 <= amount <= MAX_AUCTION_AMOUNT,
        1 <= percent <= 100,
        0 <= modifier <= SCALAR_7,
    ensures
        0 <= spec_base_amount(amount, percent) <= amount,
        0 <= spec_scaled_amount(amount, percent, modifier) <= amount,
{
    let base = spec_base_amount(amount, percent);
    lemma_mul_nonnegative(amount, percent);
    lemma_div_pos_is_pos(amount * percent, 100);
    lemma_mul_is_commutative(amount, percent);
    lemma_mul_inequality(percent, 100, amount);
    lemma_mul_is_commutative(amount, 100);
    lemma_div_is_ordered(amount * percent, amount * 100, 100);
    lemma_div_multiples_vanish(amount, 100);
    lemma_mul_nonnegative(base, modifier);
    lemma_div_pos_is_pos(base * modifier, SCALAR_7 as int);
    lemma_mul_is_commutative(base, modifier);
    lemma_mul_inequality(modifier, SCALAR_7 as int, base);
    lemma_mul_is_commutative(base, SCALAR_7 as int);
    lemma_div_is_ordered(base * modifier, base * (SCALAR_7 as int), SCALAR_7 as int);
    lemma_div_multiples_vanish(base, SCALAR_7 as int);
}

/// Partial-fill linearity at a fixed block, asset by asset: a 100% fill of
/// an auction side moves exactly what a 50% fill and then a 100% fill of
/// the remainder move together, at one block, provided every amount halves
/// evenly and each half scales by the modifier without remainder.
pub proof fn lemma_split_fill_side(side: Seq<AssetAmount>, modifier: int)
    requires
        0 <= modifier <= SCALAR_7,
        spec_amounts_wf(side),
        forall|i: int|
            0 <= i < side.len() ==> (#[trigger] side[i]).amount % 2 == 0 && ((side[i].amount / 2)
                * modifier) % (SCALAR_7 as int) == 0,
    ensures
        forall|i: int|
            0 <= i < side.len() ==> (#[trigger] spec_quote_side(side, 100, modifier)[i]).amount
                == spec_quote_side(side, 50, modifier)[i].amount + spec_quote_side(
                spec_remaining_side(side, 50),
                100,
                modifier,
            )[i].amount,
{
    assert forall|i: int|
        0 <= i < side.len() implies (#[trigger] spec_quote_side(side, 100, modifier)[i]).amount
        == spec_quote_side(side, 50, modifier)[i].amount + spec_quote_side(
        spec_remaining_side(side, 50),
        100,
        modifier,
    )[i].amount by {
        let a = side[i].amount as int;
        lemma_split_fill_amount(a, modifier);
        // the scaled values fit back into their machine type
        lemma_scaled_bounds(a, 100, modifier);
        lemma_scaled_bounds(a, 50, modifier);
        let rem = a - spec_base_amount(a, 50);
        assert(spec_remaining_side(side, 50)[i].amount == rem as i128);
        lemma_scaled_bounds(rem, 100, modifier);
    }
}

} // verus!
