use vstd::prelude::*;
use crate::pool_balance::{spec_product_constant, PoolBackstopData};

verus! {

/// A position summary per reserve: the collateral and liability token
/// balances a user holds there.
#[derive(Clone, Copy, Debug, PartialEq, Eq, Structural)]
pub struct ReservePosition {
    pub collateral: i128,
    pub liabilities: i128,
}

pub open spec fn spec_no_collateral(positions: Seq<ReservePosition>) -> bool {
    forall|i: int| 0 <= i < positions.len() ==> (#[trigger] positions[i]).collateral == 0
}

pub open spec fn spec_some_liability(positions: Seq<ReservePosition>) -> bool {
    exists|i: int| 0 <= i < positions.len() && (#[trigger] positions[i]).liabilities > 0
}

/// Debt is bad exactly when a user still owes somewhere but no reserve
/// holds any collateral of theirs: only then may the debt move onto the
/// backstop's books.
pub fn transfer_bad_debt_allowed(positions: &Vec<ReservePosition>) -> (r: bool)
    ensures
        r == (spec_no_collateral(positions@) && spec_some_liability(positions@)),
{
    let len = positions.len();
    let mut has_liability = false;
    let mut i: usize = 0;
    while i < len
        invariant
            0 <= i <= len,
            len == positions@.len(),
            forall|j: int| 0 <= j < i ==> (#[trigger] positions@[j]).collateral == 0,
            has_liability == exists|j: int|
                0 <= j < i && (#[trigger] positions@[j]).liabilities > 0,
        decreases len - i,
    {
        if positions[i].collateral != 0 {
            return false;
        }
        if positions[i].liabilities > 0 {
            has_liability = true;
        }
        i = i + 1;
    }
    has_liability
}

/// Bad debt held by the backstop itself is burnt rather than auctioned
/// once the backstop's deposit has fallen under the critical bound on its
/// product constant; above it, the debt goes to auction.
pub fn bad_debt_is_burnt(backstop_data: &PoolBackstopData, critical_pc: i128) -> (r: bool)
    requires
        0 <= backstop_data.blnd,
        0 <= backstop_data.usdc,
    ensures
        r == (spec_product_constant(*backstop_data) < critical_pc),
{
    let bal_blnd = backstop_data.blnd / crate::constants::SCALAR_7;
    let bal_usdc = backstop_data.usdc / crate::constants::SCALAR_7;
    let pc = crate::pool_balance::product_constant(bal_blnd, bal_usdc);
    pc < critical_pc
}

} // verus!
