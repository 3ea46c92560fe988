use vstd::prelude::*;
use std::collections::HashMap;
use crate::constants::EVICTED_INDEX;
use crate::pool_balance::PoolBalance;

verus! {

broadcast use vstd::std_specs::hash::group_hash_axioms;

/// Per-pool record of the global reward-zone emission stream.
#[derive(Clone, Copy, Debug, PartialEq, Eq, Structural)]
pub struct RzEmissionData {
    /// The global index at which this pool last realised emissions, or
    /// `EVICTED_INDEX` once the pool has been expelled from the reward zone.
    pub index: i128,
    /// Emissions owed to the pool and not yet consumed by a gulp.
    pub accrued: i128,
}

impl RzEmissionData {
    pub open spec fn wf(&self) -> bool {
        &&& 0 <= self.index
        &&& 0 <= self.accrued
    }
}

/// Per-pool record of the emissions flowing to the pool's backstop
/// depositors: a rate with a seven-day window and a per-share index.
#[derive(Clone, Copy, Debug, PartialEq, Eq, Structural)]
pub struct BackstopEmissionData {
    /// Emissions per second, with 14 decimals.
    pub eps: u64,
    /// Timestamp at which the current rate window ends.
    pub expiration: u64,
    /// Cumulative emissions per backstop share, with 14 decimals.
    pub index: i128,
    /// Timestamp of the last index advance.
    pub last_time: u64,
}

impl BackstopEmissionData {
    pub open spec fn wf(&self) -> bool {
        0 <= self.index
    }
}

/// The backstop's durable state: an in-memory image of the contract's
/// key-value entries, with pools named by plain identifiers.
#[derive(Debug)]
pub struct BackstopStore {
    /// The pools currently receiving a share of the emission stream.
    pub reward_zone: Vec<u32>,
    /// Cumulative emissions per non-queued reward-zone token, 14 decimals.
    pub rz_emission_index: i128,
    /// Timestamp up to which the stream has been distributed; zero before
    /// the first distribution.
    pub last_distribution_time: u64,
    /// `None` before any distribution, `Some(true)` while emissions are
    /// backfilled without the emitter's acknowledgement, `Some(false)` once
    /// an acknowledged distribution has run.
    pub backfill_status: Option<bool>,
    /// Emissions accumulated while backfilling.
    pub backfill_emissions: i128,
    pub pool_balances: HashMap<u32, PoolBalance>,
    pub rz_emis_data: HashMap<u32, RzEmissionData>,
    pub backstop_emis_data: HashMap<u32, BackstopEmissionData>,
}

impl BackstopStore {
    /// A store with no pools, no zone and no distribution history.
    pub fn new() -> (r: BackstopStore)
        ensures
            r.reward_zone@ == Seq::<u32>::empty(),
            r.rz_emission_index == 0,
            r.last_distribution_time == 0,
            r.backfill_status is None,
            r.backfill_emissions == 0,
            r.pool_balances@ == Map::<u32, PoolBalance>::empty(),
            r.rz_emis_data@ == Map::<u32, RzEmissionData>::empty(),
            r.backstop_emis_data@ == Map::<u32, BackstopEmissionData>::empty(),
    {
        BackstopStore {
            reward_zone: Vec::new(),
            rz_emission_index: 0,
            last_distribution_time: 0,
            backfill_status: None,
            backfill_emissions: 0,
            pool_balances: HashMap::new(),
            rz_emis_data: HashMap::new(),
            backstop_emis_data: HashMap::new(),
        }
    }

    /// The balance stored for a pool; a pool with no entry holds nothing.
    pub open spec fn spec_pool_balance(&self, pool: u32) -> PoolBalance {
        if self.pool_balances@.contains_key(pool) {
            self.pool_balances@[pool]
        } else {
            PoolBalance { shares: 0, tokens: 0, q4w: 0 }
        }
    }

    pub open spec fn spec_rz_emis_data(&self, pool: u32) -> Option<RzEmissionData> {
        if self.rz_emis_data@.contains_key(pool) {
            Some(self.rz_emis_data@[pool])
        } else {
            None
        }
    }

    pub open spec fn spec_backstop_emis_data(&self, pool: u32) -> Option<BackstopEmissionData> {
        if self.backstop_emis_data@.contains_key(pool) {
            Some(self.backstop_emis_data@[pool])
        } else {
            None
        }
    }

    pub fn get_pool_balance(&self, pool: u32) -> (r: PoolBalance)
        ensures
            r == self.spec_pool_balance(pool),
    {
        match self.pool_balances.get(&pool) {
            Some(b) => *b,
            None => PoolBalance { shares: 0, tokens: 0, q4w: 0 },
        }
    }

    pub fn set_pool_balance(&mut self, pool: u32, balance: PoolBalance)
        ensures
            final(self).pool_balances@ == old(self).pool_balances@.insert(pool, balance),
            final(self).reward_zone == old(self).reward_zone,
            final(self).rz_emission_index == old(self).rz_emission_index,
            final(self).last_distribution_time == old(self).last_distribution_time,
            final(self).backfill_status == old(self).backfill_status,
            final(self).backfill_emissions == old(self).backfill_emissions,
            final(self).rz_emis_data == old(self).rz_emis_data,
            final(self).backstop_emis_data == old(self).backstop_emis_data,
    {
        self.pool_balances.insert(pool, balance);
    }

    pub fn get_rz_emis_data(&self, pool: u32) -> (r: Option<RzEmissionData>)
        ensures
            r == self.spec_rz_emis_data(pool),
    {
        match self.rz_emis_data.get(&pool) {
            Some(d) => Some(*d),
            None => None,
        }
    }

    pub fn set_rz_emis_data(&mut self, pool: u32, data: RzEmissionData)
        ensures
            final(self).rz_emis_data@ == old(self).rz_emis_data@.insert(pool, data),
            final(self).reward_zone == old(self).reward_zone,
            final(self).rz_emission_index == old(self).rz_emission_index,
            final(self).last_distribution_time == old(self).last_distribution_time,
            final(self).backfill_status == old(self).backfill_status,
            final(self).backfill_emissions == old(self).backfill_emissions,
            final(self).pool_balances == old(self).pool_balances,
            final(self).backstop_emis_data == old(self).backstop_emis_data,
    {
        self.rz_emis_data.insert(pool, data);
    }

    pub fn get_backstop_emis_data(&self, pool: u32) -> (r: Option<BackstopEmissionData>)
        ensures
            r == self.spec_backstop_emis_data(pool),
    {
        match self.backstop_emis_data.get(&pool) {
            Some(d) => Some(*d),
            None => None,
        }
    }

    pub fn set_backstop_emis_data(&mut self, pool: u32, data: BackstopEmissionData)
        ensures
            final(self).backstop_emis_data@ == old(self).backstop_emis_data@.insert(pool, data),
            final(self).reward_zone == old(self).reward_zone,
            final(self).rz_emission_index == old(self).rz_emission_index,
            final(self).last_distribution_time == old(self).last_distribution_time,
            final(self).backfill_status == old(self).backfill_status,
            final(self).backfill_emissions == old(self).backfill_emissions,
            final(self).pool_balances == old(self).pool_balances,
            final(self).rz_emis_data == old(self).rz_emis_data,
    {
        self.backstop_emis_data.insert(pool, data);
    }

    /// The store's invariant: the reward zone is a bounded set without
    /// duplicates, all amounts are non-negative, the backfill accumulator
    /// respects its cap, and no pool's stored index runs ahead of the global
    /// one except for the eviction sentinel.
    pub open spec fn wf(&self) -> bool {
        &&& 0 <= self.rz_emission_index < EVICTED_INDEX
        &&& 0 <= self.backfill_emissions <= crate::constants::MAX_BACKFILLED_EMISSIONS
        &&& self.reward_zone@.no_duplicates()
        &&& self.reward_zone@.len() <= crate::constants::MAX_RZ_SIZE
        &&& forall|p: u32|
            #[trigger] self.pool_balances@.contains_key(p) ==> self.pool_balances@[p].wf()
        &&& forall|p: u32|
            #[trigger] self.rz_emis_data@.contains_key(p) ==> {
                let d = self.rz_emis_data@[p];
                &&& 0 <= d.accrued
                &&& 0 <= d.index
                &&& (d.index <= self.rz_emission_index || d.index == EVICTED_INDEX)
            }
        &&& forall|p: u32|
            #[trigger] self.backstop_emis_data@.contains_key(p) ==> self.backstop_emis_data@[p].wf()
    }
}

} // verus!
