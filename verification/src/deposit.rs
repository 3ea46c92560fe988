use vstd::prelude::*;
use crate::constants::Q4W_LOCK_TIME;
use crate::fixed_point::fixed_mul_floor;
use crate::pool_balance::{PoolBalance, MAX_POOL_BALANCE};

verus! {

/// One queued withdrawal: shares locked until the unlock time passes.
#[derive(Clone, Copy, Debug, PartialEq, Eq, Structural)]
pub struct Q4W {
    pub amount: i128,
    pub exp: u64,
}

/// A single depositor's stake in a pool's backstop: live shares and the
/// withdrawals they have queued.
#[derive(Debug, PartialEq, Eq)]
pub struct UserBalance {
    pub shares: i128,
    pub q4w: Vec<Q4W>,
}

impl UserBalance {
    pub open spec fn wf(&self) -> bool {
        &&& 0 <= self.shares
        &&& forall|i: int|
            0 <= i < self.q4w@.len() ==> 0 <= (#[trigger] self.q4w@[i]).amount
    }
}

/// The shares a token deposit mints: at the going share price, or one for
/// one into an empty pool.
pub open spec fn spec_convert_to_shares(pool: PoolBalance, tokens: int) -> int {
    if pool.shares == 0 || pool.tokens == 0 {
        tokens
    } else {
        tokens * pool.shares / (pool.tokens as int)
    }
}

/// The tokens a share withdrawal redeems, at the going share price.
pub open spec fn spec_convert_to_tokens(pool: PoolBalance, shares: int) -> int {
    if pool.shares == 0 {
        0
    } else {
        shares * pool.tokens / (pool.shares as int)
    }
}

impl PoolBalance {
    /// Price a token amount in shares.
    pub fn convert_to_shares(&self, tokens: i128) -> (r: i128)
        requires
            self.wf(),
            0 <= tokens,
            tokens * self.shares <= i128::MAX,
        ensures
            r == spec_convert_to_shares(*self, tokens as int),
            r >= 0,
    {
        if self.shares == 0 || self.tokens == 0 {
            tokens
        } else {
            proof {
                vstd::arithmetic::mul::lemma_mul_nonnegative(tokens as int, self.shares as int);
                vstd::arithmetic::div_mod::lemma_div_pos_is_pos(
                    tokens as int * self.shares as int,
                    self.tokens as int,
                );
            }
            fixed_mul_floor(tokens, self.shares, self.tokens)
        }
    }

    /// Price a share amount in tokens.
    pub fn convert_to_tokens(&self, shares: i128) -> (r: i128)
        requires
            self.wf(),
            0 <= shares,
            shares * self.tokens <= i128::MAX,
        ensures
            r == spec_convert_to_tokens(*self, shares as int),
            r >= 0,
    {
        if self.shares == 0 {
            0
        } else {
            proof {
                vstd::arithmetic::mul::lemma_mul_nonnegative(shares as int, self.tokens as int);
                vstd::arithmetic::div_mod::lemma_div_pos_is_pos(
                    shares as int * self.tokens as int,
                    self.shares as int,
                );
            }
            fixed_mul_floor(shares, self.tokens, self.shares)
        }
    }
}

/// Deposit tokens into a pool's backstop: the depositor is minted shares
/// at the going price, and the pool's books grow by both.
pub fn execute_deposit(pool: &mut PoolBalance, user: &mut UserBalance, amount: i128) -> (minted:
    i128)
    requires
        old(pool).wf(),
        old(user).wf(),
        0 <= amount,
        amount * old(pool).shares <= i128::MAX,
        old(pool).tokens + amount <= i128::MAX,
        old(pool).tokens + amount <= crate::pool_balance::MAX_POOL_BALANCE,
        old(pool).shares + spec_convert_to_shares(*old(pool), amount as int)
            <= crate::pool_balance::MAX_POOL_BALANCE,
        old(user).shares + spec_convert_to_shares(*old(pool), amount as int) <= i128::MAX,
    ensures
        final(pool).wf(),
        final(user).wf(),
        minted == spec_convert_to_shares(*old(pool), amount as int),
        *final(pool) == (PoolBalance {
            shares: (old(pool).shares + minted) as i128,
            tokens: (old(pool).tokens + amount) as i128,
            q4w: old(pool).q4w,
        }),
        final(user).shares == old(user).shares + minted,
        final(user).q4w == old(user).q4w,
{
    let minted = pool.convert_to_shares(amount);
    pool.shares = pool.shares + minted;
    pool.tokens = pool.tokens + amount;
    user.shares = user.shares + minted;
    minted
}

/// Queue shares for withdrawal: the shares leave the depositor's live
/// stake into a locked entry, and stop counting for emissions.
pub fn execute_queue_withdrawal(
    pool: &mut PoolBalance,
    user: &mut UserBalance,
    shares: i128,
    now: u64,
) -> (q: Q4W)
    requires
        old(pool).wf(),
        old(user).wf(),
        0 <= shares <= old(user).shares,
        now + Q4W_LOCK_TIME <= u64::MAX,
        old(pool).q4w + shares <= old(pool).shares,
    ensures
        final(pool).wf(),
        final(user).wf(),
        q == (Q4W { amount: shares, exp: (now + Q4W_LOCK_TIME) as u64 }),
        *final(pool) == (PoolBalance {
            shares: old(pool).shares,
            tokens: old(pool).tokens,
            q4w: (old(pool).q4w + shares) as i128,
        }),
        final(user).shares == old(user).shares - shares,
        final(user).q4w@ == old(user).q4w@.push(q),
{
    let entry = Q4W { amount: shares, exp: now + Q4W_LOCK_TIME };
    pool.q4w = pool.q4w + shares;
    user.shares = user.shares - shares;
    user.q4w.push(entry);
    entry
}

/// Cancel one queued withdrawal: the shares return to the depositor's
/// live stake, whether or not the lock has passed.
pub fn execute_dequeue_withdrawal(
    pool: &mut PoolBalance,
    user: &mut UserBalance,
    entry_index: usize,
) -> (shares: i128)
    requires
        old(pool).wf(),
        old(user).wf(),
        entry_index < old(user).q4w@.len(),
        old(user).q4w@[entry_index as int].amount <= old(pool).q4w,
        old(user).shares + old(user).q4w@[entry_index as int].amount <= i128::MAX,
    ensures
        final(pool).wf(),
        final(user).wf(),
        shares == old(user).q4w@[entry_index as int].amount,
        *final(pool) == (PoolBalance {
            shares: old(pool).shares,
            tokens: old(pool).tokens,
            q4w: (old(pool).q4w - shares) as i128,
        }),
        final(user).shares == old(user).shares + shares,
        final(user).q4w@ == old(user).q4w@.remove(entry_index as int),
{
    let entry = user.q4w[entry_index];
    pool.q4w = pool.q4w - entry.amount;
    user.shares = user.shares + entry.amount;
    user.q4w.remove(entry_index);
    entry.amount
}

/// Redeem one expired queued entry: the shares burn against the pool at
/// the going price and the depositor is owed the tokens returned.
pub fn execute_withdraw(
    pool: &mut PoolBalance,
    user: &mut UserBalance,
    entry_index: usize,
    now: u64,
) -> (tokens: i128)
    requires
        old(pool).wf(),
        old(user).wf(),
        entry_index < old(user).q4w@.len(),
        now >= old(user).q4w@[entry_index as int].exp,
        old(user).q4w@[entry_index as int].amount <= old(pool).q4w,
    ensures
        final(pool).wf(),
        final(user).wf(),
        tokens == spec_convert_to_tokens(
            *old(pool),
            old(user).q4w@[entry_index as int].amount as int,
        ),
        *final(pool) == (PoolBalance {
            shares: (old(pool).shares - old(user).q4w@[entry_index as int].amount) as i128,
            tokens: (old(pool).tokens - tokens) as i128,
            q4w: (old(pool).q4w - old(user).q4w@[entry_index as int].amount) as i128,
        }),
        final(user).shares == old(user).shares,
        final(user).q4w@ == old(user).q4w@.remove(entry_index as int),
{
    let entry = user.q4w[entry_index];
    proof {
        vstd::arithmetic::mul::lemma_mul_upper_bound(
            entry.amount as int,
            MAX_POOL_BALANCE as int,
            pool.tokens as int,
            MAX_POOL_BALANCE as int,
        );
        vstd::arithmetic::mul::lemma_mul_nonnegative(entry.amount as int, pool.tokens as int);
    }
    let tokens = pool.convert_to_tokens(entry.amount);
    proof {
        if pool.shares != 0 {
            // a burn never redeems more than the pool holds
            vstd::arithmetic::mul::lemma_mul_inequality(
                entry.amount as int,
                pool.shares as int,
                pool.tokens as int,
            );
            vstd::arithmetic::mul::lemma_mul_is_commutative(entry.amount as int, pool.tokens as int);
            vstd::arithmetic::mul::lemma_mul_is_commutative(pool.shares as int, pool.tokens as int);
            vstd::arithmetic::div_mod::lemma_div_multiples_vanish(
                pool.tokens as int,
                pool.shares as int,
            );
            vstd::arithmetic::div_mod::lemma_div_is_ordered(
                entry.amount as int * pool.tokens as int,
                pool.shares as int * pool.tokens as int,
                pool.shares as int,
            );
        }
    }
    pool.shares = pool.shares - entry.amount;
    pool.tokens = pool.tokens - tokens;
    pool.q4w = pool.q4w - entry.amount;
    user.q4w.remove(entry_index);
    tokens
}

/// A full round trip leaves no tokens behind: into a pool whose shares and
/// tokens stand one for one, depositing, queueing the minted shares and
/// redeeming them after the lock pays back exactly the deposit and returns
/// the pool's books to where they were. With emissions realised in
/// between, or a share price away from one for one, the payout differs by
/// the emissions realised and the price rounding.
pub proof fn lemma_deposit_queue_withdraw_round_trip(pool: PoolBalance, x: int)
    requires
        pool.wf(),
        pool.shares == pool.tokens,
        0 <= x,
        pool.tokens + x <= MAX_POOL_BALANCE,
        x * (pool.tokens + x) <= i128::MAX,
    ensures
        ({
            let minted = spec_convert_to_shares(pool, x);
            let pool_deposited = PoolBalance {
                shares: (pool.shares + minted) as i128,
                tokens: (pool.tokens + x) as i128,
                q4w: pool.q4w,
            };
            let pool_queued = PoolBalance {
                shares: pool_deposited.shares,
                tokens: pool_deposited.tokens,
                q4w: (pool_deposited.q4w + minted) as i128,
            };
            let paid = spec_convert_to_tokens(pool_queued, minted);
            &&& minted == x
            &&& paid == x
            &&& (PoolBalance {
                shares: (pool_queued.shares - minted) as i128,
                tokens: (pool_queued.tokens - paid) as i128,
                q4w: (pool_queued.q4w - minted) as i128,
            }) == pool
        }),
{
    let s = pool.shares as int;
    if s == 0 || pool.tokens == 0 {
        // the pool starts empty, so everything converts one for one
        assert(spec_convert_to_shares(pool, x) == x);
        if x == 0 {
        } else {
            vstd::arithmetic::mul::lemma_mul_is_commutative(x, x);
            vstd::arithmetic::div_mod::lemma_div_multiples_vanish(x, x);
        }
    } else {
        vstd::arithmetic::mul::lemma_mul_is_commutative(x, s);
        vstd::arithmetic::div_mod::lemma_div_multiples_vanish(x, s);
        assert(spec_convert_to_shares(pool, x) == x);
        vstd::arithmetic::mul::lemma_mul_is_commutative(x, s + x);
        vstd::arithmetic::div_mod::lemma_div_multiples_vanish(x, s + x);
    }
}

} // verus!
