//! Price oracle: a single trusted price with timestamp and round tracking,
//! staleness detection, and an owner-controlled fallback override.
//!
//! The oracle never silently trusts a frozen price: once the stored data is
//! older than `max_age`, reads divert to the fallback price and fail loudly
//! when none is set. Feed ingestion and block time are host inputs, so
//! `fetch_from_styks` takes the feed's response and every read takes `now`.

use vstd::prelude::*;
use vstd::hash_map::HashMapWithView;

verus! {

broadcast use vstd::std_specs::hash::group_hash_axioms;

/// Default maximum acceptable price age, in seconds.
pub const MAX_AGE_DEFAULT: u64 = 7200;

/// Lowest price a manual or feed update may carry.
pub const MIN_ACCEPTABLE_PRICE: u64 = 10;

/// Highest price a manual or feed update may carry.
pub const MAX_ACCEPTABLE_PRICE: u64 = 1_000_000_000;

/// The stored price together with its provenance.
#[derive(Clone, Copy, Debug, PartialEq, Eq, Structural)]
pub struct PriceData {
    /// Price in the oracle's fixed-point scale.
    pub price: u128,
    /// Timestamp of the update that stored this price.
    pub updated_at: u64,
    /// Strictly increasing update counter.
    pub round_id: u64,
}

/// Event reported by a successful price update.
#[derive(Clone, Copy, Debug, PartialEq, Eq, Structural)]
pub struct PriceUpdated {
    pub price: u128,
    pub round_id: u64,
    pub timestamp: u64,
}

/// Event reported by an owner-side configuration change.
#[derive(Debug, PartialEq, Eq)]
pub struct OracleConfigUpdated {
    pub config_name: String,
    pub new_value: String,
}

/// Errors on which an oracle call reverts.
#[derive(Clone, Copy, Debug, PartialEq, Eq, Structural)]
pub enum Error {
    Unauthorized,
    PriceOutOfRange,
    InvalidConfig,
    StyksPriceUnavailable,
    PriceNotInitialized,
    FallbackNotSet,
    StalePriceAndNoFallback,
    NotInitialized,
}

/// Oracle state: one trusted price, an updater access list, and the
/// fallback configuration.
pub struct PriceOracle {
    /// Current trusted price data.
    pub price_data: PriceData,
    /// Maximum acceptable data age in seconds.
    pub max_age: u64,
    /// Address of the external price feed contract.
    pub styks_oracle: u64,
    /// Addresses authorized for manual updates; an entry mapped to `false`
    /// is a revoked updater.
    pub updaters: HashMapWithView<u64, bool>,
    /// Contract owner.
    pub owner: u64,
    /// Price served when the stored one is stale or the fallback mode is on.
    pub fallback_price: Option<u128>,
    /// When set, every read returns the fallback price.
    pub use_fallback: bool,
}

impl PriceOracle {
    /// Whether `addr` is currently allowed to push manual price updates.
    pub open spec fn spec_is_updater(&self, addr: u64) -> bool {
        self.updaters@.contains_key(addr) && self.updaters@[addr]
    }

    /// Whether the stored price is older than `max_age` at time `now`.
    pub open spec fn spec_is_stale(&self, now: u64) -> bool {
        now > self.price_data.updated_at && now - self.price_data.updated_at > self.max_age
    }

    /// The exact outcome of a price read at time `now`.
    pub open spec fn spec_price(&self, now: u64) -> Result<u128, Error> {
        if self.use_fallback {
            match self.fallback_price {
                Some(p) => Ok(p),
                None => Err(Error::FallbackNotSet),
            }
        } else if self.spec_is_stale(now) {
            match self.fallback_price {
                Some(p) => Ok(p),
                None => Err(Error::StalePriceAndNoFallback),
            }
        } else {
            Ok(self.price_data.price)
        }
    }

    /// Whether `p` lies in the sane range every update must respect.
    pub open spec fn spec_price_in_range(p: u128) -> bool {
        MIN_ACCEPTABLE_PRICE as u128 <= p <= MAX_ACCEPTABLE_PRICE as u128
    }

    /// Creates the oracle: the deployer becomes owner and first updater, the
    /// initial price doubles as the initial fallback, fallback mode is off.
    pub fn init(caller: u64, now: u64, initial_price: u128, styks_address: u64) -> (oracle: Self)
        ensures
            oracle.price_data == (PriceData { price: initial_price, updated_at: now, round_id: 1 }),
            oracle.max_age == MAX_AGE_DEFAULT,
            oracle.styks_oracle == styks_address,
            oracle.updaters@ == Map::<u64, bool>::empty().insert(caller, true),
            oracle.owner == caller,
            oracle.fallback_price == Some(initial_price),
            !oracle.use_fallback,
    {
        let mut updaters: HashMapWithView<u64, bool> = HashMapWithView::new();
        updaters.insert(caller, true);
        PriceOracle {
            price_data: PriceData { price: initial_price, updated_at: now, round_id: 1 },
            max_age: MAX_AGE_DEFAULT,
            styks_oracle: styks_address,
            updaters,
            owner: caller,
            fallback_price: Some(initial_price),
            use_fallback: false,
        }
    }

    /// Current price at time `now`: the fallback when fallback mode is on or
    /// the stored data is stale (failing when no fallback is set), the
    /// stored price otherwise.
    pub fn get_price(&self, now: u64) -> (r: Result<u128, Error>)
        ensures
            r == self.spec_price(now),
    {
        if self.use_fallback {
            return match self.fallback_price {
                Some(p) => Ok(p),
                None => Err(Error::FallbackNotSet),
            };
        }
        if now > self.price_data.updated_at {
            let age = now - self.price_data.updated_at;
            if age > self.max_age {
                return match self.fallback_price {
                    Some(p) => Ok(p),
                    None => Err(Error::StalePriceAndNoFallback),
                };
            }
        }
        Ok(self.price_data.price)
    }

    /// Full price record: in fallback mode a synthetic record carrying the
    /// fallback price at time `now` with round 0, else the stored data.
    pub fn get_latest_price_data(&self, now: u64) -> (r: Result<PriceData, Error>)
        ensures
            self.use_fallback && self.fallback_price is Some ==> r == Ok::<PriceData, Error>(
                PriceData {
                    price: self.fallback_price->Some_0,
                    updated_at: now,
                    round_id: 0,
                },
            ),
            self.use_fallback && self.fallback_price is None ==> r == Err::<PriceData, Error>(
                Error::FallbackNotSet,
            ),
            !self.use_fallback ==> r == Ok::<PriceData, Error>(self.price_data),
    {
        if self.use_fallback {
            return match self.fallback_price {
                Some(p) => Ok(PriceData { price: p, updated_at: now, round_id: 0 }),
                None => Err(Error::FallbackNotSet),
            };
        }
        Ok(self.price_data)
    }

    /// Pull-model ingestion: `feed_price` is what the external feed returned
    /// for the requested id; an empty response reverts, a price follows the
    /// same validated update path as a manual update.
    pub fn fetch_from_styks(&mut self, now: u64, feed_price: Option<u64>) -> (r: Result<
        PriceUpdated,
        Error,
    >)
        requires
            old(self).price_data.round_id < u64::MAX,
        ensures
            r is Err ==> *final(self) == *old(self),
            feed_price is None ==> r == Err::<PriceUpdated, Error>(Error::StyksPriceUnavailable),
            feed_price matches Some(p) ==> r == old(self).spec_update_outcome(now, p as u128)
                && *final(self) == old(self).spec_update_state(now, p as u128),
    {
        match feed_price {
            Some(p) => self.update_price_internal(now, p as u128),
            None => Err(Error::StyksPriceUnavailable),
        }
    }

    /// Push-model ingestion, restricted to authorized updaters.
    pub fn update_price(&mut self, caller: u64, now: u64, new_price: u128) -> (r: Result<
        PriceUpdated,
        Error,
    >)
        requires
            old(self).price_data.round_id < u64::MAX,
        ensures
            r is Err ==> *final(self) == *old(self),
            !old(self).spec_is_updater(caller) ==> r == Err::<PriceUpdated, Error>(
                Error::Unauthorized,
            ),
            old(self).spec_is_updater(caller) ==> r == old(self).spec_update_outcome(
                now,
                new_price,
            ) && *final(self) == old(self).spec_update_state(now, new_price),
    {
        if !self.require_updater(caller) {
            return Err(Error::Unauthorized);
        }
        self.update_price_internal(now, new_price)
    }

    /// Result of a validated price update on this state.
    pub open spec fn spec_update_outcome(&self, now: u64, new_price: u128) -> Result<
        PriceUpdated,
        Error,
    > {
        if !Self::spec_price_in_range(new_price) {
            Err(Error::PriceOutOfRange)
        } else {
            Ok(
                PriceUpdated {
                    price: new_price,
                    round_id: (self.price_data.round_id + 1) as u64,
                    timestamp: now,
                },
            )
        }
    }

    /// State after a validated price update: out-of-range prices leave the
    /// state unchanged, otherwise the price record is replaced wholesale
    /// with the next round id.
    pub open spec fn spec_update_state(&self, now: u64, new_price: u128) -> Self {
        if !Self::spec_price_in_range(new_price) {
            *self
        } else {
            Self {
                price_data: PriceData {
                    price: new_price,
                    updated_at: now,
                    round_id: (self.price_data.round_id + 1) as u64,
                },
                ..*self
            }
        }
    }

    /// Shared update path: range validation, then wholesale replacement of
    /// the price record with an incremented round id.
    fn update_price_internal(&mut self, now: u64, new_price: u128) -> (r: Result<
        PriceUpdated,
        Error,
    >)
        requires
            old(self).price_data.round_id < u64::MAX,
        ensures
            r == old(self).spec_update_outcome(now, new_price),
            *final(self) == old(self).spec_update_state(now, new_price),
    {
        if new_price < MIN_ACCEPTABLE_PRICE as u128 || new_price > MAX_ACCEPTABLE_PRICE as u128 {
            return Err(Error::PriceOutOfRange);
        }
        let new_round = self.price_data.round_id + 1;
        self.price_data = PriceData { price: new_price, updated_at: now, round_id: new_round };
        Ok(PriceUpdated { price: new_price, round_id: new_round, timestamp: now })
    }

    /// Whether the stored price would be considered stale at time `now`;
    /// always fresh while fallback mode is on.
    pub fn is_price_stale(&self, now: u64) -> (r: bool)
        ensures
            r == (!self.use_fallback && self.spec_is_stale(now)),
    {
        if self.use_fallback {
            return false;
        }
        if now <= self.price_data.updated_at {
            return false;
        }
        now - self.price_data.updated_at > self.max_age
    }

    /// Age of the stored price at time `now`, zero for timestamps from the
    /// future.
    pub fn get_price_age(&self, now: u64) -> (r: u64)
        ensures
            now <= self.price_data.updated_at ==> r == 0,
            now > self.price_data.updated_at ==> r == now - self.price_data.updated_at,
    {
        if now <= self.price_data.updated_at {
            return 0;
        }
        now - self.price_data.updated_at
    }

    /// Configured maximum acceptable price age.
    pub fn get_max_age(&self) -> (r: u64)
        ensures
            r == self.max_age,
    {
        self.max_age
    }

    /// Points the oracle at a new external feed contract (owner only).
    pub fn set_styks_oracle(&mut self, caller: u64, new_oracle: u64) -> (r: Result<
        OracleConfigUpdated,
        Error,
    >)
        ensures
            caller != old(self).owner ==> r == Err::<OracleConfigUpdated, Error>(
                Error::Unauthorized,
            ) && *final(self) == *old(self),
            caller == old(self).owner ==> *final(self) == (Self {
                styks_oracle: new_oracle,
                ..*old(self)
            }) && (r matches Ok(ev) && ev.config_name@ == "styks_oracle"@ && ev.new_value@
                == "updated"@),
    {
        if caller != self.owner {
            return Err(Error::Unauthorized);
        }
        self.styks_oracle = new_oracle;
        Ok(
            OracleConfigUpdated {
                config_name: "styks_oracle".to_owned(),
                new_value: "updated".to_owned(),
            },
        )
    }

    /// Sets the staleness threshold (owner only); zero is rejected.
    pub fn set_max_age(&mut self, caller: u64, new_max_age: u64) -> (r: Result<(), Error>)
        ensures
            caller != old(self).owner ==> r == Err::<(), Error>(Error::Unauthorized) && *final(self)
                == *old(self),
            caller == old(self).owner && new_max_age == 0 ==> r == Err::<(), Error>(
                Error::InvalidConfig,
            ) && *final(self) == *old(self),
            caller == old(self).owner && new_max_age != 0 ==> r == Ok::<(), Error>(())
                && *final(self) == (Self { max_age: new_max_age, ..*old(self) }),
    {
        if caller != self.owner {
            return Err(Error::Unauthorized);
        }
        if new_max_age == 0 {
            return Err(Error::InvalidConfig);
        }
        self.max_age = new_max_age;
        Ok(())
    }

    /// Sets the fallback price (owner only).
    pub fn set_fallback_price(&mut self, caller: u64, price: u128) -> (r: Result<(), Error>)
        ensures
            caller != old(self).owner ==> r == Err::<(), Error>(Error::Unauthorized) && *final(self)
                == *old(self),
            caller == old(self).owner ==> r == Ok::<(), Error>(()) && *final(self) == (Self {
                fallback_price: Some(price),
                ..*old(self)
            }),
    {
        if caller != self.owner {
            return Err(Error::Unauthorized);
        }
        self.fallback_price = Some(price);
        Ok(())
    }

    /// Toggles fallback mode (owner only).
    pub fn set_use_fallback(&mut self, caller: u64, enabled: bool) -> (r: Result<(), Error>)
        ensures
            caller != old(self).owner ==> r == Err::<(), Error>(Error::Unauthorized) && *final(self)
                == *old(self),
            caller == old(self).owner ==> r == Ok::<(), Error>(()) && *final(self) == (Self {
                use_fallback: enabled,
                ..*old(self)
            }),
    {
        if caller != self.owner {
            return Err(Error::Unauthorized);
        }
        self.use_fallback = enabled;
        Ok(())
    }

    /// Grants manual-update rights to `updater` (owner only).
    pub fn add_updater(&mut self, caller: u64, updater: u64) -> (r: Result<(), Error>)
        ensures
            caller != old(self).owner ==> r == Err::<(), Error>(Error::Unauthorized) && *final(self)
                == *old(self),
            caller == old(self).owner ==> r == Ok::<(), Error>(()) && final(self).updaters@ == old(
                self,
            ).updaters@.insert(updater, true) && final(self).spec_config_unchanged(*old(self)),
    {
        if caller != self.owner {
            return Err(Error::Unauthorized);
        }
        self.updaters.insert(updater, true);
        Ok(())
    }

    /// Revokes manual-update rights from `updater` (owner only).
    pub fn remove_updater(&mut self, caller: u64, updater: u64) -> (r: Result<(), Error>)
        ensures
            caller != old(self).owner ==> r == Err::<(), Error>(Error::Unauthorized) && *final(self)
                == *old(self),
            caller == old(self).owner ==> r == Ok::<(), Error>(()) && final(self).updaters@ == old(
                self,
            ).updaters@.insert(updater, false) && final(self).spec_config_unchanged(*old(self)),
    {
        if caller != self.owner {
            return Err(Error::Unauthorized);
        }
        self.updaters.insert(updater, false);
        Ok(())
    }

    /// All fields but the updater list agree with `other`.
    pub open spec fn spec_config_unchanged(&self, other: Self) -> bool {
        &&& self.price_data == other.price_data
        &&& self.max_age == other.max_age
        &&& self.styks_oracle == other.styks_oracle
        &&& self.owner == other.owner
        &&& self.fallback_price == other.fallback_price
        &&& self.use_fallback == other.use_fallback
    }

    /// Whether `caller` may push manual updates right now.
    fn require_updater(&self, caller: u64) -> (r: bool)
        ensures
            r == self.spec_is_updater(caller),
    {
        match self.updaters.get(&caller) {
            Some(flag) => *flag,
            None => false,
        }
    }
}

} // verus!
