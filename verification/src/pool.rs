use vstd::prelude::*;
use crate::auction::{
    scale_auction, spec_amounts_wf, spec_bid_modifier, spec_lot_modifier, spec_quote_side,
    spec_remaining_side, spec_side_is_zero, AssetAmount, AuctionData, FillQuote,
};
use crate::errors::PoolError;
use crate::status::{
    execute_set_pool_status, execute_update_pool_status, spec_set_status_allowed,
    spec_updated_status, spec_valid_status, STATUS_ADMIN_FROZEN, STATUS_ON_ICE,
};

verus! {

/// Auction type: a liquidation of an unhealthy user position.
pub const AUCTION_TYPE_USER_LIQUIDATION: u32 = 0;

/// Auction type: bad debt moved onto the backstop, sold for backstop shares.
pub const AUCTION_TYPE_BAD_DEBT: u32 = 1;

/// Auction type: accumulated protocol interest sold for a pool-chosen token.
pub const AUCTION_TYPE_INTEREST: u32 = 2;

/// A pool's configuration, with its status code.
#[derive(Clone, Copy, Debug, PartialEq, Eq, Structural)]
pub struct PoolConfig {
    pub oracle: u32,
    pub bstop_rate: u32,
    pub max_positions: u32,
    pub min_collateral: i128,
    pub status: u32,
}

/// One live auction, keyed by its type and the user it settles.
#[derive(Debug, PartialEq, Eq)]
pub struct AuctionEntry {
    pub auction_type: u32,
    pub user: u32,
    pub data: AuctionData,
}

/// An isolated lending pool's verified core: its configuration, its status
/// machine and its auction book. Position accounting and host plumbing live
/// with the caller.
#[derive(Debug)]
pub struct PoolContract {
    pub admin: u32,
    pub config: PoolConfig,
    pub auctions: Vec<AuctionEntry>,
}

pub open spec fn spec_entry_matches(e: AuctionEntry, auction_type: u32, user: u32) -> bool {
    e.auction_type == auction_type && e.user == user
}

impl PoolContract {
    /// At most one auction per type and user, every stored auction
    /// well-formed, and a valid status code.
    pub open spec fn wf(&self) -> bool {
        &&& spec_valid_status(self.config.status)
        &&& forall|i: int, j: int|
            0 <= i < j < self.auctions@.len() ==> !(
            (#[trigger] self.auctions@[i]).auction_type == (
            #[trigger] self.auctions@[j]).auction_type && self.auctions@[i].user
                == self.auctions@[j].user)
        &&& forall|i: int|
            0 <= i < self.auctions@.len() ==> (#[trigger] self.auctions@[i]).data.wf()
                && self.auctions@[i].auction_type <= AUCTION_TYPE_INTEREST
    }

    pub open spec fn spec_has_auction(&self, auction_type: u32, user: u32) -> bool {
        exists|i: int|
            0 <= i < self.auctions@.len() && spec_entry_matches(
                #[trigger] self.auctions@[i],
                auction_type,
                user,
            )
    }

    /// The stored auction for a type and user, where one exists; with the
    /// uniqueness invariant there is at most one.
    pub open spec fn spec_auction_data(&self, auction_type: u32, user: u32) -> Option<
        AuctionData,
    > {
        if self.spec_has_auction(auction_type, user) {
            let i = choose|i: int|
                0 <= i < self.auctions@.len() && spec_entry_matches(
                    #[trigger] self.auctions@[i],
                    auction_type,
                    user,
                );
            Some(self.auctions@[i].data)
        } else {
            None
        }
    }

    /// A fresh pool: the given configuration, no auctions, and the pool on
    /// ice until its backstop proves healthy.
    pub fn new(admin: u32, oracle: u32, bstop_rate: u32, max_positions: u32, min_collateral: i128)
        -> (r: PoolContract)
        ensures
            r.wf(),
            r.admin == admin,
            r.config == (PoolConfig {
                oracle,
                bstop_rate,
                max_positions,
                min_collateral,
                status: STATUS_ON_ICE,
            }),
            r.auctions@.len() == 0,
    {
        PoolContract {
            admin,
            config: PoolConfig {
                oracle,
                bstop_rate,
                max_positions,
                min_collateral,
                status: STATUS_ON_ICE,
            },
            auctions: Vec::new(),
        }
    }

    pub fn get_config(&self) -> (r: PoolConfig)
        ensures
            r == self.config,
    {
        self.config
    }

    pub fn get_admin(&self) -> (r: u32)
        ensures
            r == self.admin,
    {
        self.admin
    }

    /// Hand the pool to a new admin.
    pub fn set_admin(&mut self, new_admin: u32)
        ensures
            final(self).admin == new_admin,
            final(self).config == old(self).config,
            final(self).auctions == old(self).auctions,
    {
        self.admin = new_admin;
    }

    /// Update the pool's take rate, position limit and collateral floor;
    /// the status is untouched.
    pub fn update_pool(&mut self, backstop_take_rate: u32, max_positions: u32, min_collateral: i128)
        ensures
            final(self).admin == old(self).admin,
            final(self).auctions == old(self).auctions,
            final(self).config == (PoolConfig {
                oracle: old(self).config.oracle,
                bstop_rate: backstop_take_rate,
                max_positions,
                min_collateral,
                status: old(self).config.status,
            }),
    {
        self.config = PoolConfig {
            oracle: self.config.oracle,
            bstop_rate: backstop_take_rate,
            max_positions,
            min_collateral,
            status: self.config.status,
        };
    }

    /// Recompute the pool's status from the backstop's health; rejected
    /// while the admin holds the pool frozen. Returns the new status.
    pub fn update_status(&mut self, threshold_met: bool, q4w_pct: i128) -> (r: Result<
        u32,
        PoolError,
    >)
        requires
            old(self).wf(),
            0 <= q4w_pct,
        ensures
            final(self).wf(),
            final(self).admin == old(self).admin,
            final(self).auctions == old(self).auctions,
            match r {
                Ok(s) => {
                    &&& old(self).config.status != STATUS_ADMIN_FROZEN
                    &&& s == spec_updated_status(
                        old(self).config.status,
                        threshold_met,
                        q4w_pct as int,
                    )
                    &&& final(self).config == (PoolConfig { status: s, ..old(self).config })
                },
                Err(e) => {
                    &&& old(self).config.status == STATUS_ADMIN_FROZEN
                    &&& e == PoolError::BadRequest
                    &&& *final(self) == *old(self)
                },
            },
    {
        match execute_update_pool_status(self.config.status, threshold_met, q4w_pct) {
            Ok(new_status) => {
                self.config = PoolConfig { status: new_status, ..self.config };
                Ok(new_status)
            },
            Err(e) => Err(e),
        }
    }

    /// Set an admin status, under the status machine's admin rules.
    pub fn set_status(&mut self, pool_status: u32, threshold_met: bool, q4w_pct: i128) -> (r:
        Result<(), PoolError>)
        requires
            old(self).wf(),
            0 <= q4w_pct,
        ensures
            final(self).wf(),
            final(self).admin == old(self).admin,
            final(self).auctions == old(self).auctions,
            match r {
                Ok(_) => {
                    &&& spec_set_status_allowed(pool_status, threshold_met, q4w_pct as int)
                    &&& final(self).config == (PoolConfig {
                        status: pool_status,
                        ..old(self).config
                    })
                },
                Err(e) => {
                    &&& !spec_set_status_allowed(pool_status, threshold_met, q4w_pct as int)
                    &&& e == PoolError::BadRequest
                    &&& *final(self) == *old(self)
                },
            },
    {
        match execute_set_pool_status(pool_status, threshold_met, q4w_pct) {
            Ok(new_status) => {
                self.config = PoolConfig { status: new_status, ..self.config };
                Ok(())
            },
            Err(e) => Err(e),
        }
    }
}

/// Copy one side of an auction, element by element.
fn copy_side(side: &Vec<AssetAmount>) -> (r: Vec<AssetAmount>)
    ensures
        r@ == side@,
{
    let len = side.len();
    let mut out: Vec<AssetAmount> = Vec::new();
    let mut i: usize = 0;
    while i < len
        invariant
            0 <= i <= len,
            len == side@.len(),
            out@ == side@.take(i as int),
        decreases len - i,
    {
        out.push(side[i]);
        proof {
            assert(out@ =~= side@.take(i + 1));
        }
        i = i + 1;
    }
    proof {
        assert(side@.take(len as int) == side@);
    }
    out
}

/// Copy an auction's stored state.
fn copy_auction(data: &AuctionData) -> (r: AuctionData)
    ensures
        r.block == data.block,
        r.bid@ == data.bid@,
        r.lot@ == data.lot@,
{
    AuctionData { block: data.block, bid: copy_side(&data.bid), lot: copy_side(&data.lot) }
}

/// Overwrite one auction book entry in place.
fn set_entry(v: &mut Vec<AuctionEntry>, i: usize, e: AuctionEntry)
    requires
        i < old(v)@.len(),
    ensures
        final(v)@ == old(v)@.update(i as int, e),
{
    let slot = &mut v[i];
    *slot = e;
}

/// Find the position of an auction in the book.
fn find_auction(auctions: &Vec<AuctionEntry>, auction_type: u32, user: u32) -> (r: Option<usize>)
    ensures
        match r {
            Some(i) => {
                &&& i < auctions@.len()
                &&& spec_entry_matches(auctions@[i as int], auction_type, user)
            },
            None => !exists|i: int|
                0 <= i < auctions@.len() && spec_entry_matches(
                    #[trigger] auctions@[i],
                    auction_type,
                    user,
                ),
        },
{
    let len = auctions.len();
    let mut i: usize = 0;
    while i < len
        invariant
            0 <= i <= len,
            len == auctions@.len(),
            forall|j: int|
                0 <= j < i ==> !spec_entry_matches(#[trigger] auctions@[j], auction_type, user),
        decreases len - i,
    {
        if auctions[i].auction_type == auction_type && auctions[i].user == user {
            return Some(i);
        }
        i = i + 1;
    }
    None
}

impl PoolContract {
    /// Open an auction: store the creation block with the nominal bid and
    /// lot. At most one auction may exist per type and user, the type must
    /// be one of the three known kinds, and the fill percent window 1..=100
    /// is enforced at creation for the caller-chosen slice. What the bid
    /// and lot contain is the caller's valuation work; this book only
    /// prices and splits it.
    pub fn new_auction(
        &mut self,
        auction_type: u32,
        user: u32,
        bid: Vec<AssetAmount>,
        lot: Vec<AssetAmount>,
        percent: u32,
        block: u32,
    ) -> (r: Result<(), PoolError>)
        requires
            old(self).wf(),
            spec_amounts_wf(bid@),
            spec_amounts_wf(lot@),
        ensures
            final(self).wf(),
            final(self).admin == old(self).admin,
            final(self).config == old(self).config,
            match r {
                Ok(_) => {
                    &&& auction_type <= AUCTION_TYPE_INTEREST
                    &&& 1 <= percent <= 100
                    &&& !old(self).spec_has_auction(auction_type, user)
                    &&& final(self).auctions@ == old(self).auctions@.push(
                        (AuctionEntry { auction_type, user, data: (AuctionData { block, bid, lot }) }),
                    )
                },
                Err(e) => {
                    &&& *final(self) == *old(self)
                    &&& if auction_type > AUCTION_TYPE_INTEREST {
                        e == PoolError::BadRequest
                    } else if percent == 0 || percent > 100 {
                        e == PoolError::InvalidLiquidation
                    } else {
                        e == PoolError::BadRequest && old(self).spec_has_auction(
                            auction_type,
                            user,
                        )
                    }
                },
            },
    {
        if auction_type > AUCTION_TYPE_INTEREST {
            return Err(PoolError::BadRequest);
        }
        if percent == 0 || percent > 100 {
            return Err(PoolError::InvalidLiquidation);
        }
        if find_auction(&self.auctions, auction_type, user).is_some() {
            // one auction per type and user
            return Err(PoolError::BadRequest);
        }
        let entry = AuctionEntry { auction_type, user, data: AuctionData { block, bid, lot } };
        let ghost before = self.auctions@;
        self.auctions.push(entry);
        proof {
            assert forall|i: int, j: int|
                0 <= i < j < self.auctions@.len() implies !((
            #[trigger] self.auctions@[i]).auction_type == (
            #[trigger] self.auctions@[j]).auction_type && self.auctions@[i].user
                == self.auctions@[j].user) by {
                if j == before.len() as int {
                    assert(self.auctions@[i] == before[i]);
                }
            }
        }
        Ok(())
    }

    /// Fetch a stored auction; `BadRequest` where none exists.
    pub fn get_auction(&self, auction_type: u32, user: u32) -> (r: Result<AuctionData, PoolError>)
        requires
            self.wf(),
        ensures
            match r {
                Ok(d) => {
                    &&& self.spec_has_auction(auction_type, user)
                    &&& (self.spec_auction_data(auction_type, user) matches Some(sd) && d.block
                        == sd.block && d.bid@ == sd.bid@ && d.lot@ == sd.lot@)
                },
                Err(e) => {
                    &&& !self.spec_has_auction(auction_type, user)
                    &&& e == PoolError::BadRequest
                },
            },
    {
        match find_auction(&self.auctions, auction_type, user) {
            Some(i) => {
                let d = copy_auction(&self.auctions[i].data);
                proof {
                    self.lemma_auction_unique(auction_type, user, i as int);
                }
                Ok(d)
            },
            None => Err(PoolError::BadRequest),
        }
    }

    /// With the uniqueness invariant, any matching position holds the
    /// auction `spec_auction_data` speaks of.
    proof fn lemma_auction_unique(&self, auction_type: u32, user: u32, i: int)
        requires
            self.wf(),
            0 <= i < self.auctions@.len(),
            spec_entry_matches(self.auctions@[i], auction_type, user),
        ensures
            self.spec_auction_data(auction_type, user) == Some(self.auctions@[i].data),
    {
        let w = choose|k: int|
            0 <= k < self.auctions@.len() && spec_entry_matches(
                #[trigger] self.auctions@[k],
                auction_type,
                user,
            );
        if w != i {
            assert(!(self.auctions@[if w < i {
                w
            } else {
                i
            }].auction_type == self.auctions@[if w < i {
                i
            } else {
                w
            }].auction_type && self.auctions@[if w < i {
                w
            } else {
                i
            }].user == self.auctions@[if w < i {
                i
            } else {
                w
            }].user));
        }
    }

    /// Fill a stored auction: the filler pays the scaled bid and receives
    /// the scaled lot, the filled slice leaves the book, and a total fill
    /// (or an emptied book entry) deletes the auction. A filler may not
    /// settle their own position.
    pub fn fill_auction(
        &mut self,
        auction_type: u32,
        user: u32,
        filler: u32,
        percent_filled: u32,
        block: u32,
    ) -> (r: Result<FillQuote, PoolError>)
        requires
            old(self).wf(),
            match old(self).spec_auction_data(auction_type, user) {
                Some(d) => d.block <= block,
                None => true,
            },
        ensures
            final(self).wf(),
            final(self).admin == old(self).admin,
            final(self).config == old(self).config,
            match r {
                Ok(quote) => {
                    let d = old(self).spec_auction_data(auction_type, user).unwrap();
                    let dif = block - d.block;
                    &&& filler != user
                    &&& 1 <= percent_filled <= 100
                    &&& old(self).spec_has_auction(auction_type, user)
                    &&& quote.bid@ == spec_quote_side(
                        d.bid@,
                        percent_filled as int,
                        spec_bid_modifier(dif as int),
                    )
                    &&& quote.lot@ == spec_quote_side(
                        d.lot@,
                        percent_filled as int,
                        spec_lot_modifier(dif as int),
                    )
                    &&& if percent_filled == 100 || (spec_side_is_zero(d.bid@)
                        && spec_side_is_zero(d.lot@)) {
                        !final(self).spec_has_auction(auction_type, user)
                    } else {
                        final(self).spec_auction_data(auction_type, user) matches Some(rd)
                            && rd.block == d.block && rd.bid@ == spec_remaining_side(
                            d.bid@,
                            percent_filled as int,
                        ) && rd.lot@ == spec_remaining_side(d.lot@, percent_filled as int)
                    }
                    &&& forall|t: u32, u: u32|
                        !(t == auction_type && u == user)
                            ==> #[trigger] final(self).spec_auction_data(t, u) == old(
                            self,
                        ).spec_auction_data(t, u)
                },
                Err(e) => {
                    &&& *final(self) == *old(self)
                    &&& if filler == user {
                        e == PoolError::InvalidLiquidation
                    } else if !old(self).spec_has_auction(auction_type, user) {
                        e == PoolError::BadRequest
                    } else {
                        e == PoolError::InvalidLiquidation && (percent_filled == 0
                            || percent_filled > 100)
                    }
                },
            },
    {
        if filler == user {
            // no settling one's own position
            return Err(PoolError::InvalidLiquidation);
        }
        let i = match find_auction(&self.auctions, auction_type, user) {
            Some(i) => i,
            None => {
                return Err(PoolError::BadRequest);
            },
        };
        proof {
            self.lemma_auction_unique(auction_type, user, i as int);
        }
        let (quote, remaining) = match scale_auction(
            &self.auctions[i].data,
            percent_filled,
            block,
        ) {
            Ok(pair) => pair,
            Err(e) => {
                return Err(e);
            },
        };
        let ghost before = *self;
        match remaining {
            None => {
                self.auctions.remove(i);
                proof {
                    self.lemma_book_after_removal(before, auction_type, user, i as int);
                }
            },
            Some(rem) => {
                set_entry(&mut self.auctions, i, AuctionEntry { auction_type, user, data: rem });
                proof {
                    self.lemma_book_after_update(before, auction_type, user, i as int);
                }
            },
        }
        Ok(quote)
    }

    /// Removing an entry keeps the rest of the book intact.
    proof fn lemma_book_after_removal(&self, before: PoolContract, auction_type: u32, user: u32, i: int)
        requires
            before.wf(),
            0 <= i < before.auctions@.len(),
            spec_entry_matches(before.auctions@[i], auction_type, user),
            self.auctions@ == before.auctions@.remove(i),
        ensures
            self.wf() == spec_valid_status(self.config.status),
            !self.spec_has_auction(auction_type, user),
            forall|t: u32, u: u32|
                !(t == auction_type && u == user) ==> #[trigger] self.spec_auction_data(t, u)
                    == before.spec_auction_data(t, u),
            forall|k: int, l: int|
                0 <= k < l < self.auctions@.len() ==> !((#[trigger] self.auctions@[k]).auction_type
                    == (#[trigger] self.auctions@[l]).auction_type && self.auctions@[k].user
                    == self.auctions@[l].user),
            forall|k: int|
                0 <= k < self.auctions@.len() ==> (#[trigger] self.auctions@[k]).data.wf()
                    && self.auctions@[k].auction_type <= AUCTION_TYPE_INTEREST,
    {
        let a = self.auctions@;
        let b = before.auctions@;
        assert forall|k: int| 0 <= k < a.len() implies a[k] == b[if k < i {
            k
        } else {
            k + 1
        }] by {}
        assert forall|k: int, l: int|
            0 <= k < l < a.len() implies !((#[trigger] a[k]).auction_type == (
        #[trigger] a[l]).auction_type && a[k].user == a[l].user) by {
            let bk = if k < i {
                k
            } else {
                k + 1
            };
            let bl = if l < i {
                l
            } else {
                l + 1
            };
            assert(a[k] == b[bk] && a[l] == b[bl]);
        }
        assert forall|k: int|
            0 <= k < a.len() implies !spec_entry_matches(#[trigger] a[k], auction_type, user) by {
            let bk = if k < i {
                k
            } else {
                k + 1
            };
            assert(a[k] == b[bk]);
            if bk != i {
                before.lemma_entry_distinct(auction_type, user, i, bk);
            }
        }
        assert forall|t: u32, u: u32|
            !(t == auction_type && u == user) implies #[trigger] self.spec_auction_data(t, u)
            == before.spec_auction_data(t, u) by {
            self.lemma_lookup_agrees(before, t, u, i);
        }
    }

    /// Entries at two different positions cannot share a key with a match.
    proof fn lemma_entry_distinct(&self, auction_type: u32, user: u32, i: int, k: int)
        requires
            self.wf(),
            0 <= i < self.auctions@.len(),
            0 <= k < self.auctions@.len(),
            i != k,
            spec_entry_matches(self.auctions@[i], auction_type, user),
        ensures
            !spec_entry_matches(self.auctions@[k], auction_type, user),
    {
        if k < i {
            assert(!(self.auctions@[k].auction_type == self.auctions@[i].auction_type
                && self.auctions@[k].user == self.auctions@[i].user));
        } else {
            assert(!(self.auctions@[i].auction_type == self.auctions@[k].auction_type
                && self.auctions@[i].user == self.auctions@[k].user));
        }
    }

    /// After dropping position `i`, lookups for every other key agree with
    /// the book before.
    proof fn lemma_lookup_agrees(&self, before: PoolContract, t: u32, u: u32, i: int)
        requires
            before.wf(),
            0 <= i < before.auctions@.len(),
            self.auctions@ == before.auctions@.remove(i),
            !spec_entry_matches(before.auctions@[i], t, u),
        ensures
            self.spec_auction_data(t, u) == before.spec_auction_data(t, u),
    {
        let a = self.auctions@;
        let b = before.auctions@;
        assert forall|k: int| 0 <= k < a.len() implies a[k] == b[if k < i {
            k
        } else {
            k + 1
        }] by {}
        if self.spec_has_auction(t, u) {
            let k = choose|k: int|
                0 <= k < a.len() && spec_entry_matches(#[trigger] a[k], t, u);
            let bk = if k < i {
                k
            } else {
                k + 1
            };
            assert(spec_entry_matches(b[bk], t, u));
            before.lemma_auction_unique(t, u, bk);
            assert(self.spec_auction_data(t, u) == Some(a[choose|k: int|
                0 <= k < a.len() && spec_entry_matches(#[trigger] a[k], t, u)].data));
            let w = choose|k: int| 0 <= k < a.len() && spec_entry_matches(#[trigger] a[k], t, u);
            let bw = if w < i {
                w
            } else {
                w + 1
            };
            assert(a[w] == b[bw]);
            before.lemma_auction_unique(t, u, bw);
        } else {
            if before.spec_has_auction(t, u) {
                let bk = choose|k: int|
                    0 <= k < b.len() && spec_entry_matches(#[trigger] b[k], t, u);
                assert(bk != i);
                let k = if bk < i {
                    bk
                } else {
                    bk - 1
                };
                assert(a[k] == b[bk]);
                assert(spec_entry_matches(a[k], t, u));
            }
        }
    }

    /// Updating the entry at `i` in place keeps the rest of the book
    /// intact; the key stays, the data changes.
    proof fn lemma_book_after_update(&self, before: PoolContract, auction_type: u32, user: u32, i: int)
        requires
            before.wf(),
            0 <= i < before.auctions@.len(),
            spec_entry_matches(before.auctions@[i], auction_type, user),
            self.auctions@ == before.auctions@.update(
                i,
                (AuctionEntry { auction_type, user, data: self.auctions@[i].data }),
            ),
            self.auctions@[i].data.wf(),
            before.auctions@[i].auction_type <= AUCTION_TYPE_INTEREST,
        ensures
            forall|k: int, l: int|
                0 <= k < l < self.auctions@.len() ==> !((#[trigger] self.auctions@[k]).auction_type
                    == (#[trigger] self.auctions@[l]).auction_type && self.auctions@[k].user
                    == self.auctions@[l].user),
            forall|k: int|
                0 <= k < self.auctions@.len() ==> (#[trigger] self.auctions@[k]).data.wf()
                    && self.auctions@[k].auction_type <= AUCTION_TYPE_INTEREST,
            self.spec_auction_data(auction_type, user) == Some(self.auctions@[i].data),
            forall|t: u32, u: u32|
                !(t == auction_type && u == user) ==> #[trigger] self.spec_auction_data(t, u)
                    == before.spec_auction_data(t, u),
    {
        let a = self.auctions@;
        let b = before.auctions@;
        assert forall|k: int| 0 <= k < a.len() implies (#[trigger] a[k]).auction_type
            == b[k].auction_type && a[k].user == b[k].user by {}
        assert forall|k: int, l: int|
            0 <= k < l < a.len() implies !((#[trigger] a[k]).auction_type == (
        #[trigger] a[l]).auction_type && a[k].user == a[l].user) by {
            assert(!(b[k].auction_type == b[l].auction_type && b[k].user == b[l].user));
        }
        assert(spec_entry_matches(a[i], auction_type, user));
        self.lemma_unique_from_pointwise(auction_type, user, i);
        assert forall|t: u32, u: u32|
            !(t == auction_type && u == user) implies #[trigger] self.spec_auction_data(t, u)
            == before.spec_auction_data(t, u) by {
            if self.spec_has_auction(t, u) {
                let k = choose|k: int|
                    0 <= k < a.len() && spec_entry_matches(#[trigger] a[k], t, u);
                assert(k != i);
                assert(a[k] == b[k]);
                assert(spec_entry_matches(b[k], t, u));
                before.lemma_auction_unique(t, u, k);
                self.lemma_unique_from_pointwise(t, u, k);
            } else {
                if before.spec_has_auction(t, u) {
                    let k = choose|k: int|
                        0 <= k < b.len() && spec_entry_matches(#[trigger] b[k], t, u);
                    assert(k != i);
                    assert(a[k] == b[k]);
                    assert(spec_entry_matches(a[k], t, u));
                }
            }
        }
    }

    /// A book whose keys are pairwise distinct resolves a matching position
    /// as the lookup's witness.
    proof fn lemma_unique_from_pointwise(&self, auction_type: u32, user: u32, i: int)
        requires
            0 <= i < self.auctions@.len(),
            spec_entry_matches(self.auctions@[i], auction_type, user),
            forall|k: int, l: int|
                0 <= k < l < self.auctions@.len() ==> !((#[trigger] self.auctions@[k]).auction_type
                    == (#[trigger] self.auctions@[l]).auction_type && self.auctions@[k].user
                    == self.auctions@[l].user),
        ensures
            self.spec_auction_data(auction_type, user) == Some(self.auctions@[i].data),
    {
        let w = choose|k: int|
            0 <= k < self.auctions@.len() && spec_entry_matches(
                #[trigger] self.auctions@[k],
                auction_type,
                user,
            );
        if w != i {
            if w < i {
                assert(!(self.auctions@[w].auction_type == self.auctions@[i].auction_type
                    && self.auctions@[w].user == self.auctions@[i].user));
            } else {
                assert(!(self.auctions@[i].auction_type == self.auctions@[w].auction_type
                    && self.auctions@[i].user == self.auctions@[w].user));
            }
        }
    }
}

} // verus!
