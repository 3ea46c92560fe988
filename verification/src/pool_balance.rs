use vstd::prelude::*;
use crate::constants::{SCALAR_7, THRESHOLD_PC};
use crate::fixed_point::fixed_mul_floor;

verus! {

/// The largest deposit book a pool may carry on either axis: two such
/// values still multiply within `i128`.
pub const MAX_POOL_BALANCE: i128 = 10_000_000_000_000_000_000;

/// A pool's deposit book in the backstop: the tokens deposited on its
/// behalf, the shares minted against them, and the shares queued for
/// withdrawal (q4w).
#[derive(Clone, Copy, Debug, PartialEq, Eq, Structural)]
pub struct PoolBalance {
    pub shares: i128,
    pub tokens: i128,
    pub q4w: i128,
}

impl PoolBalance {
    /// All amounts non-negative and bounded, and no more shares queued than
    /// minted.
    pub open spec fn wf(&self) -> bool {
        &&& 0 <= self.tokens <= MAX_POOL_BALANCE
        &&& 0 <= self.shares <= MAX_POOL_BALANCE
        &&& 0 <= self.q4w <= self.shares
    }

    /// The queued shares valued in tokens at the going share price.
    pub open spec fn spec_q4w_tokens(&self) -> int {
        if self.shares == 0 {
            0
        } else {
            self.q4w * self.tokens / (self.shares as int)
        }
    }

    pub open spec fn spec_non_queued_tokens(&self) -> int {
        self.tokens - self.spec_q4w_tokens()
    }

    /// The queued shares never outvalue the deposit.
    pub proof fn lemma_non_queued_bounds(&self)
        requires
            self.wf(),
        ensures
            0 <= self.spec_q4w_tokens() <= self.tokens,
            0 <= self.spec_non_queued_tokens() <= self.tokens,
    {
        if self.shares != 0 {
            vstd::arithmetic::mul::lemma_mul_nonnegative(self.q4w as int, self.tokens as int);
            vstd::arithmetic::div_mod::lemma_div_pos_is_pos(
                self.q4w as int * self.tokens as int,
                self.shares as int,
            );
            vstd::arithmetic::mul::lemma_mul_inequality(
                self.q4w as int,
                self.shares as int,
                self.tokens as int,
            );
            vstd::arithmetic::mul::lemma_mul_is_commutative(self.shares as int, self.tokens as int);
            vstd::arithmetic::div_mod::lemma_div_multiples_vanish(
                self.tokens as int,
                self.shares as int,
            );
            vstd::arithmetic::div_mod::lemma_div_is_ordered(
                self.q4w as int * self.tokens as int,
                self.shares as int * self.tokens as int,
                self.shares as int,
            );
        }
    }

    /// The deposit that counts for emissions: everything not queued for
    /// withdrawal, with the queued shares valued at the going price.
    pub fn non_queued_tokens(&self) -> (r: i128)
        requires
            self.wf(),
        ensures
            r == self.spec_non_queued_tokens(),
            0 <= r <= self.tokens,
    {
        proof {
            self.lemma_non_queued_bounds();
            vstd::arithmetic::mul::lemma_mul_upper_bound(
                self.q4w as int,
                MAX_POOL_BALANCE as int,
                self.tokens as int,
                MAX_POOL_BALANCE as int,
            );
        }
        if self.shares == 0 {
            self.tokens
        } else {
            self.tokens - fixed_mul_floor(self.q4w, self.tokens, self.shares)
        }
    }
}

/// A pool's backstop deposit valued in the reward token's LP composition:
/// the deposited LP tokens and the reward-token and stable-token balances
/// they stand for.
#[derive(Clone, Copy, Debug, PartialEq, Eq, Structural)]
pub struct PoolBackstopData {
    pub tokens: i128,
    pub blnd: i128,
    pub usdc: i128,
}

/// What one LP token is composed of: its reward-token and stable-token
/// balances, each with 7 decimals.
#[derive(Clone, Copy, Debug, PartialEq, Eq, Structural)]
pub struct LpTokenValue {
    pub blnd_per_token: i128,
    pub usdc_per_token: i128,
}

impl LpTokenValue {
    pub open spec fn wf(&self) -> bool {
        &&& 0 <= self.blnd_per_token
        &&& 0 <= self.usdc_per_token
    }
}

/// A pool's deposit valued through the LP token's composition, floored at
/// 7 decimals.
pub open spec fn spec_load_pool_backstop_data(
    balance: PoolBalance,
    lp_value: LpTokenValue,
) -> PoolBackstopData {
    PoolBackstopData {
        tokens: balance.tokens,
        blnd: ((balance.tokens * lp_value.blnd_per_token) / (SCALAR_7 as int)) as i128,
        usdc: ((balance.tokens * lp_value.usdc_per_token) / (SCALAR_7 as int)) as i128,
    }
}

/// Value a pool's backstop deposit through the LP token's composition.
pub fn load_pool_backstop_data(balance: &PoolBalance, lp_value: &LpTokenValue) -> (r:
    PoolBackstopData)
    requires
        balance.wf(),
        lp_value.wf(),
        balance.tokens * lp_value.blnd_per_token <= i128::MAX,
        balance.tokens * lp_value.usdc_per_token <= i128::MAX,
    ensures
        r == spec_load_pool_backstop_data(*balance, *lp_value),
        r.tokens == balance.tokens,
        r.blnd == (balance.tokens * lp_value.blnd_per_token) / (SCALAR_7 as int),
        r.usdc == (balance.tokens * lp_value.usdc_per_token) / (SCALAR_7 as int),
{
    let blnd = fixed_mul_floor(balance.tokens, lp_value.blnd_per_token, SCALAR_7);
    let usdc = fixed_mul_floor(balance.tokens, lp_value.usdc_per_token, SCALAR_7);
    PoolBackstopData { tokens: balance.tokens, blnd, usdc }
}

/// The saturating product of two non-negative `i128` values.
pub open spec fn sat_mul(x: int, y: int) -> int {
    if x * y > i128::MAX {
        i128::MAX as int
    } else {
        x * y
    }
}

/// Multiply two non-negative values, saturating at `i128::MAX`.
fn saturating_mul(x: i128, y: i128) -> (r: i128)
    requires
        0 <= x,
        0 <= y,
    ensures
        r == sat_mul(x as int, y as int),
{
    match x.checked_mul(y) {
        Some(p) => p,
        None => {
            proof {
                // the product of non-negative values cannot underflow
                vstd::arithmetic::mul::lemma_mul_nonnegative(x as int, y as int);
            }
            i128::MAX
        },
    }
}

/// The product constant of a pool's backstop deposit: whole-unit reward
/// token balance to the fourth power times the whole-unit stable balance,
/// saturating at `i128::MAX`.
pub open spec fn spec_product_constant(data: PoolBackstopData) -> int {
    let b = (data.blnd as int) / (SCALAR_7 as int);
    let u = (data.usdc as int) / (SCALAR_7 as int);
    sat_mul(sat_mul(sat_mul(sat_mul(b, b), b), b), u)
}

/// The product constant over whole-unit balances: the reward balance to
/// the fourth power times the stable balance, saturating at `i128::MAX`.
pub(crate) fn product_constant(bal_blnd: i128, bal_usdc: i128) -> (r: i128)
    requires
        0 <= bal_blnd,
        0 <= bal_usdc,
    ensures
        r == sat_mul(sat_mul(sat_mul(sat_mul(bal_blnd as int, bal_blnd as int), bal_blnd as int),
            bal_blnd as int), bal_usdc as int),
{
    proof {
        vstd::arithmetic::mul::lemma_mul_nonnegative(bal_blnd as int, bal_blnd as int);
        vstd::arithmetic::mul::lemma_mul_nonnegative(
            sat_mul(bal_blnd as int, bal_blnd as int),
            bal_blnd as int,
        );
        vstd::arithmetic::mul::lemma_mul_nonnegative(
            sat_mul(sat_mul(bal_blnd as int, bal_blnd as int), bal_blnd as int),
            bal_blnd as int,
        );
    }
    let pc_4 = saturating_mul(saturating_mul(saturating_mul(bal_blnd, bal_blnd), bal_blnd),
        bal_blnd);
    saturating_mul(pc_4, bal_usdc)
}

/// A pool is eligible for the reward zone exactly when the product constant
/// of its backstop deposit meets the protocol's threshold.
pub fn require_pool_above_threshold(pool_backstop_data: &PoolBackstopData) -> (r: bool)
    requires
        0 <= pool_backstop_data.blnd,
        0 <= pool_backstop_data.usdc,
    ensures
        r == (spec_product_constant(*pool_backstop_data) >= THRESHOLD_PC),
{
    let bal_blnd = pool_backstop_data.blnd / SCALAR_7;
    let bal_usdc = pool_backstop_data.usdc / SCALAR_7;
    product_constant(bal_blnd, bal_usdc) >= THRESHOLD_PC
}

} // verus!
