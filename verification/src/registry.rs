//! Validator-scoring registry: per-validator performance data and a
//! network-average score, refreshed in batches by a trusted keeper.
//!
//! A batch stores, for every entry, `p_score = (100 - fee) * 100 *
//! decay_factor / 10000` (zero when inactive) and advances the global
//! update era. Staleness is global by design: one missed keeper update
//! invalidates all validators network-wide until the next batch.

use vstd::prelude::*;
use vstd::hash_map::HashMapWithView;
use crate::arith::sat_mul_u64;
use crate::arith::spec_sat_mul_u64;

verus! {

broadcast use vstd::std_specs::hash::group_hash_axioms;

/// Lowest acceptable network-average score.
pub const MIN_P_AVG: u64 = 10;

/// Highest acceptable network-average score.
pub const MAX_P_AVG: u64 = 100;

/// Largest batch a single update may carry.
pub const MAX_VALIDATORS_PER_UPDATE: u32 = 50;

/// Number of eras after which the whole registry counts as stale.
pub const STALE_DATA_ERAS: u64 = 3;

/// Stored per-validator record.
#[derive(Clone, Copy, Debug, PartialEq, Eq, Structural)]
pub struct ValidatorData {
    /// Validator fee on a 0..=100 scale.
    pub fee: u64,
    pub is_active: bool,
    pub decay_factor: u64,
    /// Derived quality score; zero for inactive validators.
    pub p_score: u64,
    /// Era of the batch that wrote this record.
    pub updated_era: u64,
}

/// One entry of an update batch.
#[derive(Clone, Copy, Debug, PartialEq, Eq, Structural)]
pub struct ValidatorUpdateData {
    pub pubkey: u64,
    pub fee: u64,
    pub is_active: bool,
    pub decay_factor: u64,
}

/// Event reported by a successful batch update.
#[derive(Clone, Copy, Debug, PartialEq, Eq, Structural)]
pub struct ValidatorsUpdated {
    pub era: u64,
    pub count: u32,
    pub p_avg: u64,
}

/// Errors on which a registry call reverts.
#[derive(Clone, Copy, Debug, PartialEq, Eq, Structural)]
pub enum Error {
    Unauthorized,
    NotInitialized,
    TooManyValidators,
    InvalidPAvg,
    InvalidEra,
}

/// Quality score of a validator: zero when inactive, else
/// `(100 - fee) * 100 * decay_factor / 10000` with saturating steps.
pub open spec fn spec_p_score(fee: u64, is_active: bool, decay_factor: u64) -> u64 {
    if !is_active {
        0
    } else {
        let fee_component = if fee > 100 {
            0u64
        } else {
            (100 - fee) as u64
        };
        spec_sat_mul_u64(spec_sat_mul_u64(fee_component, 100), decay_factor) / 10000
    }
}

/// The record a batch entry stores when applied in era `era`.
pub open spec fn spec_batch_entry(v: ValidatorUpdateData, era: u64) -> ValidatorData {
    ValidatorData {
        fee: v.fee,
        is_active: v.is_active,
        decay_factor: v.decay_factor,
        p_score: spec_p_score(v.fee, v.is_active, v.decay_factor),
        updated_era: era,
    }
}

/// The validator map after applying a whole batch in order; later entries
/// for the same key override earlier ones.
pub open spec fn spec_apply_batch(
    m: Map<u64, ValidatorData>,
    batch: Seq<ValidatorUpdateData>,
    era: u64,
) -> Map<u64, ValidatorData>
    decreases batch.len(),
{
    if batch.len() == 0 {
        m
    } else {
        spec_apply_batch(m, batch.drop_last(), era).insert(
            batch.last().pubkey,
            spec_batch_entry(batch.last(), era),
        )
    }
}

/// Registry state: the validator table plus the network-wide aggregates the
/// staking pool reads.
pub struct ValidatorRegistry {
    pub validators: HashMapWithView<u64, ValidatorData>,
    pub network_p_avg: u64,
    pub last_update_era: u64,
    pub keeper: u64,
    pub owner: u64,
}

impl ValidatorRegistry {
    /// Whether `addr` may push batch updates.
    pub open spec fn spec_is_keeper_or_owner(&self, addr: u64) -> bool {
        addr == self.keeper || addr == self.owner
    }

    /// Whether a validator counts as usable at `current_era`: present,
    /// active, scored above zero, and the whole registry fresh.
    pub open spec fn spec_is_valid(&self, pubkey: u64, current_era: u64) -> bool {
        &&& self.validators@.contains_key(pubkey)
        &&& self.validators@[pubkey].p_score > 0
        &&& self.validators@[pubkey].is_active
        &&& current_era - self.last_update_era <= STALE_DATA_ERAS
    }

    /// Creates the registry: the deployer becomes owner, the network
    /// average starts at 80 and the update era at 0.
    pub fn init(caller: u64, keeper_address: u64) -> (registry: Self)
        ensures
            registry.validators@ == Map::<u64, ValidatorData>::empty(),
            registry.network_p_avg == 80,
            registry.last_update_era == 0,
            registry.keeper == keeper_address,
            registry.owner == caller,
    {
        ValidatorRegistry {
            validators: HashMapWithView::new(),
            network_p_avg: 80,
            last_update_era: 0,
            keeper: keeper_address,
            owner: caller,
        }
    }

    /// Applies a scored batch (keeper or owner only): rejects oversized
    /// batches, a network average outside the sane range, and non-increasing
    /// eras; stores every entry's derived record and advances the network
    /// average and update era atomically with the batch.
    pub fn update_validators(
        &mut self,
        caller: u64,
        validators_data: Vec<ValidatorUpdateData>,
        p_avg: u64,
        current_era: u64,
    ) -> (r: Result<ValidatorsUpdated, Error>)
        ensures
            r is Err ==> *final(self) == *old(self),
            !old(self).spec_is_keeper_or_owner(caller) ==> r == Err::<ValidatorsUpdated, Error>(
                Error::Unauthorized,
            ),
            old(self).spec_is_keeper_or_owner(caller) && validators_data@.len()
                > MAX_VALIDATORS_PER_UPDATE as int ==> r == Err::<ValidatorsUpdated, Error>(
                Error::TooManyValidators,
            ),
            old(self).spec_is_keeper_or_owner(caller) && validators_data@.len()
                <= MAX_VALIDATORS_PER_UPDATE as int && !(MIN_P_AVG <= p_avg <= MAX_P_AVG) ==> r
                == Err::<ValidatorsUpdated, Error>(Error::InvalidPAvg),
            old(self).spec_is_keeper_or_owner(caller) && validators_data@.len()
                <= MAX_VALIDATORS_PER_UPDATE as int && MIN_P_AVG <= p_avg <= MAX_P_AVG
                && current_era <= old(self).last_update_era ==> r == Err::<
                ValidatorsUpdated,
                Error,
            >(Error::InvalidEra),
            old(self).spec_is_keeper_or_owner(caller) && validators_data@.len()
                <= MAX_VALIDATORS_PER_UPDATE as int && MIN_P_AVG <= p_avg <= MAX_P_AVG
                && current_era > old(self).last_update_era ==> {
                &&& r == Ok::<ValidatorsUpdated, Error>(
                    ValidatorsUpdated {
                        era: current_era,
                        count: validators_data@.len() as u32,
                        p_avg,
                    },
                )
                &&& final(self).validators@ == spec_apply_batch(
                    old(self).validators@,
                    validators_data@,
                    current_era,
                )
                &&& final(self).network_p_avg == p_avg
                &&& final(self).last_update_era == current_era
                &&& final(self).keeper == old(self).keeper
                &&& final(self).owner == old(self).owner
            },
    {
        if caller != self.keeper && caller != self.owner {
            return Err(Error::Unauthorized);
        }
        if validators_data.len() > MAX_VALIDATORS_PER_UPDATE as usize {
            return Err(Error::TooManyValidators);
        }
        if p_avg < MIN_P_AVG || p_avg > MAX_P_AVG {
            return Err(Error::InvalidPAvg);
        }
        if current_era <= self.last_update_era {
            return Err(Error::InvalidEra);
        }

        let ghost pre = *self;
        let count = validators_data.len() as u32;
        let mut i: usize = 0;
        while i < validators_data.len()
            invariant
                i <= validators_data.len(),
                self.validators@ == spec_apply_batch(
                    pre.validators@,
                    validators_data@.take(i as int),
                    current_era,
                ),
                self.network_p_avg == pre.network_p_avg,
                self.last_update_era == pre.last_update_era,
                self.keeper == pre.keeper,
                self.owner == pre.owner,
            decreases validators_data.len() - i,
        {
            let v = validators_data[i];
            let p_score = calculate_p_score(v.fee, v.is_active, v.decay_factor);
            self.validators.insert(
                v.pubkey,
                ValidatorData {
                    fee: v.fee,
                    is_active: v.is_active,
                    decay_factor: v.decay_factor,
                    p_score,
                    updated_era: current_era,
                },
            );
            proof {
                assert(validators_data@.take(i + 1 as int).drop_last() =~= validators_data@.take(
                    i as int,
                ));
            }
            i = i + 1;
        }
        proof {
            assert(validators_data@.take(validators_data@.len() as int) =~= validators_data@);
        }

        self.network_p_avg = p_avg;
        self.last_update_era = current_era;

        Ok(ValidatorsUpdated { era: current_era, count, p_avg })
    }

    /// Stored record for `pubkey`, if any.
    pub fn get_validator(&self, pubkey: u64) -> (r: Option<ValidatorData>)
        ensures
            self.validators@.contains_key(pubkey) ==> r == Some(self.validators@[pubkey]),
            !self.validators@.contains_key(pubkey) ==> r is None,
    {
        match self.validators.get(&pubkey) {
            Some(v) => Some(*v),
            None => None,
        }
    }

    /// Current network-average score.
    pub fn get_network_p_avg(&self) -> (r: u64)
        ensures
            r == self.network_p_avg,
    {
        self.network_p_avg
    }

    /// Era of the last applied batch.
    pub fn get_last_update_era(&self) -> (r: u64)
        ensures
            r == self.last_update_era,
    {
        self.last_update_era
    }

    /// Whether `pubkey` is a usable validator at `current_era`.
    pub fn is_valid(&self, pubkey: u64, current_era: u64) -> (r: bool)
        requires
            current_era >= self.last_update_era,
        ensures
            r == self.spec_is_valid(pubkey, current_era),
    {
        match self.validators.get(&pubkey) {
            Some(v) => v.p_score > 0 && v.is_active && current_era - self.last_update_era
                <= STALE_DATA_ERAS,
            None => false,
        }
    }

    /// Replaces the keeper (owner only).
    pub fn set_keeper(&mut self, caller: u64, new_keeper: u64) -> (r: Result<(), Error>)
        ensures
            caller != old(self).owner ==> r == Err::<(), Error>(Error::Unauthorized) && *final(self)
                == *old(self),
            caller == old(self).owner ==> r == Ok::<(), Error>(()) && *final(self) == (Self {
                keeper: new_keeper,
                ..*old(self)
            }),
    {
        if caller != self.owner {
            return Err(Error::Unauthorized);
        }
        self.keeper = new_keeper;
        Ok(())
    }
}

/// Derived quality score for one batch entry.
fn calculate_p_score(fee: u64, is_active: bool, decay_factor: u64) -> (r: u64)
    ensures
        r == spec_p_score(fee, is_active, decay_factor),
{
    if !is_active {
        return 0;
    }

    let fee_component = 100u64.saturating_sub(fee);
    let weighted = sat_mul_u64(sat_mul_u64(fee_component, 100), decay_factor);
    weighted / 10000
}

} // verus!
