use vstd::prelude::*;
use crate::constants::SCALAR_7;
use crate::errors::PoolError;
use crate::fixed_point::fixed_mul_floor;

verus! {

/// The per-block price step of the Dutch auction: one two-hundredth of the
/// full scale, with 7 decimals.
pub const PER_BLOCK_SCALAR: i128 = 50_000;

/// Blocks over which the lot ramps from nothing to its full size; the bid
/// then shrinks to nothing over the same span again.
pub const AUCTION_RAMP_BLOCKS: u32 = 200;

/// The largest nominal amount an auction may carry: any larger value could
/// no longer be scaled by a 7-decimal modifier within `i128`.
pub const MAX_AUCTION_AMOUNT: i128 = 17_014_118_346_046_923_173_168_730_371_588;

/// An amount of one asset, named by a plain identifier.
#[derive(Clone, Copy, Debug, PartialEq, Eq, Structural)]
pub struct AssetAmount {
    pub asset: u32,
    pub amount: i128,
}

/// A Dutch auction's stored state: the block it was created at and the
/// nominal amounts the filler pays (bid) and receives (lot), before block
/// scaling.
#[derive(Debug, PartialEq, Eq)]
pub struct AuctionData {
    pub block: u32,
    pub bid: Vec<AssetAmount>,
    pub lot: Vec<AssetAmount>,
}

/// What one fill moves: the scaled amounts the filler pays and receives.
#[derive(Debug, PartialEq, Eq)]
pub struct FillQuote {
    pub bid: Vec<AssetAmount>,
    pub lot: Vec<AssetAmount>,
}

pub open spec fn spec_amounts_wf(side: Seq<AssetAmount>) -> bool {
    forall|i: int|
        0 <= i < side.len() ==> 0 <= (#[trigger] side[i]).amount <= MAX_AUCTION_AMOUNT
}

impl AuctionData {
    /// Every nominal amount is non-negative and small enough to scale.
    pub open spec fn wf(&self) -> bool {
        &&& spec_amounts_wf(self.bid@)
        &&& spec_amounts_wf(self.lot@)
    }
}

/// The share of the lot a fill at `dif` blocks after creation receives,
/// with 7 decimals: it ramps linearly from nothing at the creation block to
/// everything one ramp later, and stays there.
pub open spec fn spec_lot_modifier(dif: int) -> int {
    if dif <= AUCTION_RAMP_BLOCKS {
        dif * PER_BLOCK_SCALAR
    } else {
        SCALAR_7 as int
    }
}

/// The share of the bid a fill at `dif` blocks after creation pays, with 7
/// decimals: everything through the first ramp, then linearly down to
/// nothing at twice the ramp, and nothing thereafter.
pub open spec fn spec_bid_modifier(dif: int) -> int {
    if dif <= AUCTION_RAMP_BLOCKS {
        SCALAR_7 as int
    } else if dif < 2 * AUCTION_RAMP_BLOCKS {
        SCALAR_7 - (dif - AUCTION_RAMP_BLOCKS) * PER_BLOCK_SCALAR
    } else {
        0
    }
}

/// The lot modifier matches its three-segment curve and stays clamped to
/// the unit scale.
pub fn lot_modifier(dif: u32) -> (r: i128)
    ensures
        r == spec_lot_modifier(dif as int),
        0 <= r <= SCALAR_7,
{
    if dif <= AUCTION_RAMP_BLOCKS {
        (dif as i128) * PER_BLOCK_SCALAR
    } else {
        SCALAR_7
    }
}

/// The bid modifier matches its three-segment curve and stays clamped to
/// the unit scale.
pub fn bid_modifier(dif: u32) -> (r: i128)
    ensures
        r == spec_bid_modifier(dif as int),
        0 <= r <= SCALAR_7,
{
    if dif <= AUCTION_RAMP_BLOCKS {
        SCALAR_7
    } else if dif < 2 * AUCTION_RAMP_BLOCKS {
        SCALAR_7 - ((dif as i128) - (AUCTION_RAMP_BLOCKS as i128)) * PER_BLOCK_SCALAR
    } else {
        0
    }
}

/// The pre-modifier slice a fill takes of one nominal amount.
pub open spec fn spec_base_amount(amount: int, percent: int) -> int {
    amount * percent / 100
}

/// What a fill moves of one nominal amount: the percent slice, then the
/// block modifier, each floored.
pub open spec fn spec_scaled_amount(amount: int, percent: int, modifier: int) -> int {
    spec_base_amount(amount, percent) * modifier / (SCALAR_7 as int)
}

/// One side of a quote: every asset kept, every amount scaled by the
/// percent slice and the modifier.
pub open spec fn spec_quote_side(side: Seq<AssetAmount>, percent: int, modifier: int) -> Seq<
    AssetAmount,
> {
    side.map_values(
        |a: AssetAmount|
            AssetAmount {
                asset: a.asset,
                amount: spec_scaled_amount(a.amount as int, percent, modifier) as i128,
            },
    )
}

/// One side of the remainder: every asset kept, the percent slice taken
/// out of every amount.
pub open spec fn spec_remaining_side(side: Seq<AssetAmount>, percent: int) -> Seq<AssetAmount> {
    side.map_values(
        |a: AssetAmount|
            AssetAmount {
                asset: a.asset,
                amount: (a.amount - spec_base_amount(a.amount as int, percent)) as i128,
            },
    )
}

pub open spec fn spec_side_is_zero(side: Seq<AssetAmount>) -> bool {
    forall|i: int| 0 <= i < side.len() ==> (#[trigger] side[i]).amount == 0
}

/// Scale one side of an auction at a fill: returns the moved amounts and
/// the remainder.
fn scale_side(side: &Vec<AssetAmount>, percent: u32, modifier: i128) -> (r: (
    Vec<AssetAmount>,
    Vec<AssetAmount>,
))
    requires
        spec_amounts_wf(side@),
        1 <= percent <= 100,
        0 <= modifier <= SCALAR_7,
    ensures
        r.0@ == spec_quote_side(side@, percent as int, modifier as int),
        r.1@ == spec_remaining_side(side@, percent as int),
        spec_amounts_wf(r.1@),
{
    let len = side.len();
    let mut quote: Vec<AssetAmount> = Vec::new();
    let mut remaining: Vec<AssetAmount> = Vec::new();
    let mut i: usize = 0;
    while i < len
        invariant
            0 <= i <= len,
            len == side@.len(),
            spec_amounts_wf(side@),
            1 <= percent <= 100,
            0 <= modifier <= SCALAR_7,
            quote@ == spec_quote_side(side@.take(i as int), percent as int, modifier as int),
            remaining@ == spec_remaining_side(side@.take(i as int), percent as int),
            spec_amounts_wf(remaining@),
        decreases len - i,
    {
        let entry = side[i];
        proof {
            vstd::arithmetic::mul::lemma_mul_nonnegative(entry.amount as int, percent as int);
            vstd::arithmetic::mul::lemma_mul_upper_bound(
                entry.amount as int,
                MAX_AUCTION_AMOUNT as int,
                percent as int,
                100,
            );
        }
        let base = fixed_mul_floor(entry.amount, percent as i128, 100);
        proof {
            vstd::arithmetic::div_mod::lemma_div_pos_is_pos(
                entry.amount as int * percent as int,
                100,
            );
            // the slice never exceeds the whole
            vstd::arithmetic::mul::lemma_mul_inequality(percent as int, 100, entry.amount as int);
            vstd::arithmetic::mul::lemma_mul_is_commutative(entry.amount as int, percent as int);
            vstd::arithmetic::div_mod::lemma_div_multiples_vanish(entry.amount as int, 100);
            vstd::arithmetic::div_mod::lemma_div_is_ordered(
                entry.amount as int * percent as int,
                entry.amount as int * 100,
                100,
            );
            vstd::arithmetic::mul::lemma_mul_nonnegative(base as int, modifier as int);
            vstd::arithmetic::mul::lemma_mul_upper_bound(
                base as int,
                MAX_AUCTION_AMOUNT as int,
                modifier as int,
                SCALAR_7 as int,
            );
        }
        let scaled = fixed_mul_floor(base, modifier, SCALAR_7);
        quote.push(AssetAmount { asset: entry.asset, amount: scaled });
        remaining.push(AssetAmount { asset: entry.asset, amount: entry.amount - base });
        proof {
            assert(side@.take(i + 1).drop_last() == side@.take(i as int));
            assert(quote@ =~= spec_quote_side(
                side@.take(i + 1),
                percent as int,
                modifier as int,
            ));
            assert(remaining@ =~= spec_remaining_side(side@.take(i + 1), percent as int));
        }
        i = i + 1;
    }
    proof {
        assert(side@.take(len as int) == side@);
    }
    (quote, remaining)
}

/// A fill's remainder is all zero exactly when the fill was total or the
/// side already held nothing.
proof fn lemma_remaining_zero_iff(side: Seq<AssetAmount>, percent: int)
    requires
        spec_amounts_wf(side),
        1 <= percent <= 100,
    ensures
        spec_side_is_zero(spec_remaining_side(side, percent)) <==> (percent == 100
            || spec_side_is_zero(side)),
{
    let rem = spec_remaining_side(side, percent);
    if percent == 100 {
        assert forall|i: int| 0 <= i < rem.len() implies (#[trigger] rem[i]).amount == 0 by {
            let a = side[i].amount as int;
            vstd::arithmetic::mul::lemma_mul_is_commutative(a, 100);
            vstd::arithmetic::div_mod::lemma_div_multiples_vanish(a, 100);
        }
    } else {
        if spec_side_is_zero(side) {
            assert forall|i: int| 0 <= i < rem.len() implies (#[trigger] rem[i]).amount == 0 by {
                assert(side[i].amount == 0);
                assert(spec_base_amount(0, percent) == 0) by {
                    vstd::arithmetic::div_mod::lemma_div_of0(100);
                }
            }
        } else {
            let w = choose|i: int| 0 <= i < side.len() && (#[trigger] side[i]).amount != 0;
            let a = side[w].amount as int;
            // a partial slice always leaves something behind
            vstd::arithmetic::mul::lemma_mul_strict_inequality(percent, 100, a);
            vstd::arithmetic::mul::lemma_mul_is_commutative(a, percent);
            vstd::arithmetic::mul::lemma_mul_is_commutative(a, 100);
            vstd::arithmetic::div_mod::lemma_multiply_divide_lt(a * percent, a, 100);
            assert(rem[w].amount > 0);
        }
    }
}

/// Price and split an auction at a fill: `percent_filled` of the stored
/// nominal amounts is taken, the bid and lot are scaled by the block
/// curve at `fill_block`, and the remainder keeps the auction's creation
/// block. The remainder is `None` exactly when the fill was total or
/// nothing was left to sell.
pub fn scale_auction(auction: &AuctionData, percent_filled: u32, fill_block: u32) -> (r: Result<
    (FillQuote, Option<AuctionData>),
    PoolError,
>)
    requires
        auction.wf(),
        fill_block >= auction.block,
    ensures
        match r {
            Ok(pair) => {
                let dif = fill_block - auction.block;
                &&& 1 <= percent_filled <= 100
                &&& pair.0.bid@ == spec_quote_side(
                    auction.bid@,
                    percent_filled as int,
                    spec_bid_modifier(dif as int),
                )
                &&& pair.0.lot@ == spec_quote_side(
                    auction.lot@,
                    percent_filled as int,
                    spec_lot_modifier(dif as int),
                )
                &&& match pair.1 {
                    Some(rem) => {
                        &&& rem.block == auction.block
                        &&& rem.wf()
                        &&& rem.bid@ == spec_remaining_side(auction.bid@, percent_filled as int)
                        &&& rem.lot@ == spec_remaining_side(auction.lot@, percent_filled as int)
                        &&& !(percent_filled == 100 || (spec_side_is_zero(auction.bid@)
                            && spec_side_is_zero(auction.lot@)))
                    },
                    None => percent_filled == 100 || (spec_side_is_zero(auction.bid@)
                        && spec_side_is_zero(auction.lot@)),
                }
            },
            Err(e) => {
                &&& e == PoolError::InvalidLiquidation
                &&& (percent_filled == 0 || percent_filled > 100)
            },
        },
{
    if percent_filled == 0 || percent_filled > 100 {
        return Err(PoolError::InvalidLiquidation);
    }
    let dif = fill_block - auction.block;
    let (bid_quote, bid_remaining) = scale_side(&auction.bid, percent_filled, bid_modifier(dif));
    let (lot_quote, lot_remaining) = scale_side(&auction.lot, percent_filled, lot_modifier(dif));
    let quote = FillQuote { bid: bid_quote, lot: lot_quote };
    proof {
        lemma_remaining_zero_iff(auction.bid@, percent_filled as int);
        lemma_remaining_zero_iff(auction.lot@, percent_filled as int);
    }
    let all_zero = side_is_zero(&bid_remaining) && side_is_zero(&lot_remaining);
    if percent_filled == 100 || all_zero {
        // a total fill, or nothing left on either side: the auction ends
        Ok((quote, None))
    } else {
        Ok(
            (
                quote,
                Some(AuctionData { block: auction.block, bid: bid_remaining, lot: lot_remaining }),
            ),
        )
    }
}

/// Whether every amount on a side is zero.
fn side_is_zero(side: &Vec<AssetAmount>) -> (r: bool)
    ensures
        r == spec_side_is_zero(side@),
{
    let len = side.len();
    let mut i: usize = 0;
    while i < len
        invariant
            0 <= i <= len,
            len == side@.len(),
            forall|j: int| 0 <= j < i ==> (#[trigger] side@[j]).amount == 0,
        decreases len - i,
    {
        if side[i].amount != 0 {
            return false;
        }
        i = i + 1;
    }
    true
}

} // verus!
