//! Vault engine: collateralized debt positions in the staking derivative,
//! valued in USD through the oracle price and the pool's exchange rate.
//!
//! The two collaborator reads every valuation needs - the oracle price and
//! the derivative-to-base exchange rate - come in as parameters, exactly as
//! the synchronous read calls of the host would deliver them; token mints,
//! burns and transfers are reported through the returned events. Positions
//! are never deleted: repayment and liquidation only degenerate them
//! towards zero.
//!
//! Arithmetic faults are fatal: every valuation spec function returns
//! `None` where a step of the fixed-point pipeline would overflow (or a
//! divisor is zero), and the operations turn that into the `Overflow` or
//! `Underflow` error, reverting the call. No value is ever silently
//! clamped.

use vstd::prelude::*;
use vstd::hash_map::HashMapWithView;
use crate::laws::lemma_liquidatable_iff_undercollateralized;

verus! {

broadcast use vstd::std_specs::hash::group_hash_axioms;

/// Default loan-to-value ratio (50%).
pub const DEFAULT_LTV: u64 = 5000;

/// Default liquidation threshold (110%).
pub const DEFAULT_LIQ_THRESHOLD: u64 = 11000;

/// Default liquidation penalty (10%).
pub const DEFAULT_LIQ_PENALTY: u64 = 1000;

/// Default annual stability fee (2%).
pub const DEFAULT_STABILITY_FEE: u64 = 200;

/// Default minimum collateral (100 base units in motes).
pub const DEFAULT_MIN_COLLATERAL: u128 = 100_000_000_000;

/// Fixed-point scale of base-asset amounts and of the exchange rate.
pub const MOTES_PER_CSPR: u128 = 1_000_000_000;

/// Basis-point denominator.
pub const BASIS_POINTS: u64 = 10000;

/// One collateralized debt position.
#[derive(Clone, Copy, Debug, PartialEq, Eq, Structural)]
pub struct Position {
    /// Owner of the position.
    pub owner: u64,
    /// Locked derivative-token collateral, in motes.
    pub collateral: u128,
    /// Outstanding stable-token debt, in its smallest unit.
    pub debt: u128,
    /// Collateral-weighted average acquisition price.
    pub entry_price: u128,
    /// Timestamp of the first deposit.
    pub opened_at: u64,
}

/// Vault configuration, all ratios in basis points.
#[derive(Clone, Copy, Debug, PartialEq, Eq, Structural)]
pub struct VaultParams {
    /// Loan-to-value ratio.
    pub ltv: u64,
    /// Liquidation threshold; must exceed `ltv`.
    pub liq_threshold: u64,
    /// Liquidation penalty awarded to the liquidator.
    pub liq_penalty: u64,
    /// Annual stability fee.
    pub stability_fee: u64,
    /// Minimum collateral a position must hold, in motes.
    pub min_collateral: u128,
}

impl Default for VaultParams {
    /// The parameters the vault starts with.
    fn default() -> (d: Self)
        ensures
            d == (VaultParams {
                ltv: DEFAULT_LTV,
                liq_threshold: DEFAULT_LIQ_THRESHOLD,
                liq_penalty: DEFAULT_LIQ_PENALTY,
                stability_fee: DEFAULT_STABILITY_FEE,
                min_collateral: DEFAULT_MIN_COLLATERAL,
            }),
    {
        VaultParams {
            ltv: DEFAULT_LTV,
            liq_threshold: DEFAULT_LIQ_THRESHOLD,
            liq_penalty: DEFAULT_LIQ_PENALTY,
            stability_fee: DEFAULT_STABILITY_FEE,
            min_collateral: DEFAULT_MIN_COLLATERAL,
        }
    }
}

/// The validation `set_params` enforces.
pub open spec fn spec_params_valid(p: VaultParams) -> bool {
    &&& 0 < p.ltv <= 10000
    &&& p.liq_threshold > p.ltv
    &&& p.liq_penalty <= 5000
}

/// Event reported by a successful deposit; the vault mints `collateral`
/// derivative units one-to-one to the depositor.
#[derive(Clone, Copy, Debug, PartialEq, Eq, Structural)]
pub struct Deposit {
    pub user: u64,
    pub collateral: u128,
    pub debt_minted: u128,
    pub price: u128,
}

/// Event reported by a successful withdrawal; `collateral_returned` is
/// burned from the caller and paid back as base asset.
#[derive(Clone, Copy, Debug, PartialEq, Eq, Structural)]
pub struct Withdraw {
    pub user: u64,
    pub collateral_returned: u128,
    pub debt_burned: u128,
}

/// Event reported by a successful borrow; `amount` stable tokens are minted
/// to the borrower.
#[derive(Clone, Copy, Debug, PartialEq, Eq, Structural)]
pub struct Borrow {
    pub user: u64,
    pub amount: u128,
}

/// Event reported by a successful repayment; `amount` stable tokens are
/// burned from the caller.
#[derive(Clone, Copy, Debug, PartialEq, Eq, Structural)]
pub struct Repay {
    pub user: u64,
    pub amount: u128,
}

/// Event reported by a successful liquidation; the liquidator's
/// `debt_covered` stable tokens are burned and `collateral_seized` is
/// transferred to the liquidator.
#[derive(Clone, Copy, Debug, PartialEq, Eq, Structural)]
pub struct Liquidate {
    pub user: u64,
    pub liquidator: u64,
    pub debt_covered: u128,
    pub collateral_seized: u128,
    pub price: u128,
}

/// Errors on which a vault call reverts.
#[derive(Clone, Copy, Debug, PartialEq, Eq, Structural)]
pub enum Error {
    Unauthorized,
    PositionNotFound,
    InsufficientCollateral,
    InsufficientDebt,
    ExceedsCollateral,
    PositionHealthy,
    CollateralTooLow,
    InvalidLTV,
    InvalidThreshold,
    InvalidPenalty,
    Paused,
    ExceedsMaxDebt,
    ExceedsDebt,
    UnhealthyPosition,
    InvalidConfig,
    Overflow,
    Underflow,
}

/// USD value of derivative-token collateral: first into base units at the
/// exchange rate, then into USD at the oracle price, flooring at each
/// stage; `None` when a product overflows.
pub open spec fn spec_collateral_to_usd(
    yscspr_collateral: u128,
    cspr_price: u128,
    exchange_rate: u128,
) -> Option<u128> {
    if yscspr_collateral * exchange_rate > u128::MAX {
        None
    } else {
        let cspr_equivalent = ((yscspr_collateral * exchange_rate) as u128) / MOTES_PER_CSPR;
        if cspr_equivalent * cspr_price > u128::MAX {
            None
        } else {
            Some(((cspr_equivalent * cspr_price) as u128) / MOTES_PER_CSPR)
        }
    }
}

/// Largest debt the loan-to-value ratio allows against `collateral`;
/// `None` when the valuation overflows.
pub open spec fn spec_max_debt(
    collateral: u128,
    price: u128,
    ltv: u64,
    exchange_rate: u128,
) -> Option<u128> {
    match spec_collateral_to_usd(collateral, price, exchange_rate) {
        None => None,
        Some(usd) => if usd * (ltv as u128) > u128::MAX {
            None
        } else {
            Some(((usd * (ltv as u128)) as u128) / (BASIS_POINTS as u128))
        },
    }
}

/// Base-asset units worth `debt` at `price`; `None` when the product
/// overflows or the price is zero.
pub open spec fn spec_debt_to_collateral(debt: u128, price: u128) -> Option<u128> {
    if debt * MOTES_PER_CSPR > u128::MAX {
        None
    } else if price == 0 {
        None
    } else {
        Some(((debt * MOTES_PER_CSPR) as u128) / price)
    }
}

/// Health factor of a position in basis points: the maximum representable
/// value for a debt-free position (never liquidatable), else the
/// threshold-adjusted collateral value over the debt, with the exact
/// divide-then-floor order of the computation. `None` when a step
/// overflows or the value exceeds 64 bits. Values below 10000 mean the
/// position is liquidatable.
pub open spec fn spec_health_factor(
    position: Position,
    price: u128,
    liq_threshold: u64,
    exchange_rate: u128,
) -> Option<u64> {
    if position.debt == 0 {
        Some(u64::MAX)
    } else {
        match spec_collateral_to_usd(position.collateral, price, exchange_rate) {
            None => None,
            Some(collateral_value) => {
                if collateral_value * (liq_threshold as u128) > u128::MAX {
                    None
                } else {
                    let threshold_value = (collateral_value * (liq_threshold as u128)) as u128;
                    if threshold_value * (BASIS_POINTS as u128) > u128::MAX {
                        None
                    } else {
                        let num = (threshold_value * (BASIS_POINTS as u128)) as u128;
                        if position.debt * (BASIS_POINTS as u128) > u128::MAX {
                            None
                        } else {
                            let denom = (position.debt * (BASIS_POINTS as u128)) as u128;
                            let health = num / denom;
                            if health > u64::MAX as u128 {
                                None
                            } else {
                                Some(health as u64)
                            }
                        }
                    }
                }
            },
        }
    }
}

/// Whether a position's threshold-adjusted collateral value falls below
/// its debt: `collateral_usd * liq_threshold < debt * 10000`, the
/// liquidatability criterion. False where the valuation itself overflows.
pub open spec fn spec_undercollateralized(
    position: Position,
    price: u128,
    liq_threshold: u64,
    exchange_rate: u128,
) -> bool {
    match spec_collateral_to_usd(position.collateral, price, exchange_rate) {
        Some(collateral_value) => position.debt > 0 && collateral_value * (liq_threshold as int)
            < position.debt * (BASIS_POINTS as int),
        None => false,
    }
}

/// Collateral seized for covering `debt` at `price` with `penalty`: the
/// debt plus penalty converted into base units through the price, then
/// into derivative units through the exchange rate (the inverse of
/// [`spec_collateral_to_usd`]), flooring at each stage. `None` when a
/// step overflows or a divisor is zero.
pub open spec fn spec_seize_amount(
    debt: u128,
    price: u128,
    penalty: u64,
    exchange_rate: u128,
) -> Option<u128> {
    if BASIS_POINTS + penalty > u64::MAX {
        None
    } else {
        let multiplier = (BASIS_POINTS + penalty) as u64;
        if debt * (multiplier as u128) > u128::MAX {
            None
        } else {
            let weighted = (debt * (multiplier as u128)) as u128;
            if weighted * MOTES_PER_CSPR > u128::MAX {
                None
            } else {
                let num = (weighted * MOTES_PER_CSPR) as u128;
                if price * (BASIS_POINTS as u128) > u128::MAX || price == 0 {
                    None
                } else {
                    let base_units = num / ((price * (BASIS_POINTS as u128)) as u128);
                    if base_units * MOTES_PER_CSPR > u128::MAX || exchange_rate == 0 {
                        None
                    } else {
                        Some(((base_units * MOTES_PER_CSPR) as u128) / exchange_rate)
                    }
                }
            }
        }
    }
}

/// Weighted-average acquisition price after adding `new_amount` at
/// `new_price` to `old_amount` held at `old_price`:
/// `(old_price*old_amount + new_price*new_amount) / (old_amount+new_amount)`,
/// flooring; the new price alone when both amounts are zero, `None` when a
/// product or the sum overflows.
pub open spec fn spec_weighted_price(
    old_price: u128,
    old_amount: u128,
    new_price: u128,
    new_amount: u128,
) -> Option<u128> {
    if old_amount + new_amount > u128::MAX {
        None
    } else {
        let total_amount = (old_amount + new_amount) as u128;
        if total_amount == 0 {
            Some(new_price)
        } else if old_price * old_amount > u128::MAX {
            None
        } else if new_price * new_amount > u128::MAX {
            None
        } else if old_price * old_amount + new_price * new_amount > u128::MAX {
            None
        } else {
            Some(((old_price * old_amount + new_price * new_amount) as u128) / total_amount)
        }
    }
}

/// The position a first deposit would create for `caller` at time `now`
/// and price `price`.
pub open spec fn spec_new_position(caller: u64, now: u64, price: u128) -> Position {
    Position { owner: caller, collateral: 0, debt: 0, entry_price: price, opened_at: now }
}

/// Vault state: the position table, the global accumulators, and the
/// collaborator addresses.
pub struct StayerVault {
    /// Total derivative-token collateral locked, in motes.
    pub total_collateral: u128,
    /// Total outstanding stable-token debt.
    pub total_debt: u128,
    /// One position per user.
    pub positions: HashMapWithView<u64, Position>,
    pub params: VaultParams,
    /// Address of the price oracle contract.
    pub oracle: u64,
    /// Address of the stable token contract.
    pub cusd_token: u64,
    /// Address of the derivative token contract.
    pub yscspr_token: u64,
    /// Address of the liquid-staking pool contract.
    pub liquid_staking: u64,
    pub owner: u64,
    /// Emergency circuit breaker: blocks every position operation.
    pub paused: bool,
}

impl StayerVault {
    /// The position of `user`, if one was ever created.
    pub open spec fn spec_position(&self, user: u64) -> Position
        recommends
            self.positions@.contains_key(user),
    {
        self.positions@[user]
    }

    /// All fields but the position table and the two accumulators agree
    /// with `o`.
    pub open spec fn spec_same_config(&self, o: Self) -> bool {
        &&& self.params == o.params
        &&& self.oracle == o.oracle
        &&& self.cusd_token == o.cusd_token
        &&& self.yscspr_token == o.yscspr_token
        &&& self.liquid_staking == o.liquid_staking
        &&& self.owner == o.owner
        &&& self.paused == o.paused
    }

    /// Creates the vault: the deployer becomes owner, parameters start at
    /// their defaults, the accumulators at zero, unpaused.
    pub fn init(
        caller: u64,
        oracle: u64,
        cusd_token: u64,
        yscspr_token: u64,
        liquid_staking: u64,
    ) -> (vault: Self)
        ensures
            vault.total_collateral == 0,
            vault.total_debt == 0,
            vault.positions@ == Map::<u64, Position>::empty(),
            vault.params == (VaultParams {
                ltv: DEFAULT_LTV,
                liq_threshold: DEFAULT_LIQ_THRESHOLD,
                liq_penalty: DEFAULT_LIQ_PENALTY,
                stability_fee: DEFAULT_STABILITY_FEE,
                min_collateral: DEFAULT_MIN_COLLATERAL,
            }),
            vault.oracle == oracle,
            vault.cusd_token == cusd_token,
            vault.yscspr_token == yscspr_token,
            vault.liquid_staking == liquid_staking,
            vault.owner == caller,
            !vault.paused,
    {
        StayerVault {
            total_collateral: 0,
            total_debt: 0,
            positions: HashMapWithView::new(),
            params: VaultParams::default(),
            oracle,
            cusd_token,
            yscspr_token,
            liquid_staking,
            owner: caller,
            paused: false,
        }
    }

    /// Deposits `amount` derivative units as collateral at the oracle price
    /// `price` read at time `now`: rejects a zero amount and any deposit
    /// whose resulting collateral stays below the minimum; creates or grows
    /// the caller's position, recomputing the entry price as a
    /// collateral-weighted average (a first deposit takes the current price
    /// directly). The vault mints the same amount of derivative tokens to
    /// the caller, reported in the event.
    pub fn deposit(&mut self, caller: u64, now: u64, amount: u128, price: u128) -> (r: Result<
        Deposit,
        Error,
    >)
        ensures
            r is Err ==> *final(self) == *old(self),
            old(self).paused ==> r == Err::<Deposit, Error>(Error::Paused),
            !old(self).paused && amount == 0 ==> r == Err::<Deposit, Error>(Error::CollateralTooLow),
            ({
                let pos0 = if old(self).positions@.contains_key(caller) {
                    old(self).positions@[caller]
                } else {
                    spec_new_position(caller, now, price)
                };
                let entry_opt = if pos0.collateral + amount > amount {
                    spec_weighted_price(pos0.entry_price, pos0.collateral, price, amount)
                } else {
                    Some(price)
                };
                &&& !old(self).paused && amount > 0 && pos0.collateral + amount > u128::MAX ==> r
                    == Err::<Deposit, Error>(Error::Overflow)
                &&& !old(self).paused && amount > 0 && pos0.collateral + amount <= u128::MAX
                    && pos0.collateral + amount < old(self).params.min_collateral ==> r == Err::<
                    Deposit,
                    Error,
                >(Error::CollateralTooLow)
                &&& !old(self).paused && amount > 0 && pos0.collateral + amount <= u128::MAX
                    && pos0.collateral + amount >= old(self).params.min_collateral && entry_opt
                    is None ==> r == Err::<Deposit, Error>(Error::Overflow)
                &&& !old(self).paused && amount > 0 && pos0.collateral + amount <= u128::MAX
                    && pos0.collateral + amount >= old(self).params.min_collateral && entry_opt
                    is Some && old(self).total_collateral + amount > u128::MAX ==> r == Err::<
                    Deposit,
                    Error,
                >(Error::Overflow)
                &&& !old(self).paused && amount > 0 && pos0.collateral + amount <= u128::MAX
                    && pos0.collateral + amount >= old(self).params.min_collateral && entry_opt
                    is Some && old(self).total_collateral + amount <= u128::MAX ==> {
                    &&& r == Ok::<Deposit, Error>(
                        Deposit { user: caller, collateral: amount, debt_minted: 0, price },
                    )
                    &&& final(self).positions@ == old(self).positions@.insert(
                        caller,
                        Position {
                            owner: pos0.owner,
                            collateral: (pos0.collateral + amount) as u128,
                            debt: pos0.debt,
                            entry_price: entry_opt->Some_0,
                            opened_at: pos0.opened_at,
                        },
                    )
                    &&& final(self).total_collateral == old(self).total_collateral + amount
                    &&& final(self).total_debt == old(self).total_debt
                    &&& final(self).spec_same_config(*old(self))
                }
            }),
    {
        if self.paused {
            return Err(Error::Paused);
        }
        if amount == 0 {
            return Err(Error::CollateralTooLow);
        }

        let position = match self.positions.get(&caller) {
            Some(p) => *p,
            None => Position {
                owner: caller,
                collateral: 0,
                debt: 0,
                entry_price: price,
                opened_at: now,
            },
        };

        let new_collateral = match position.collateral.checked_add(amount) {
            Some(v) => v,
            None => {
                return Err(Error::Overflow);
            },
        };
        if new_collateral < self.params.min_collateral {
            return Err(Error::CollateralTooLow);
        }

        let entry_price = if new_collateral > amount {
            match self.calculate_weighted_price(
                position.entry_price,
                new_collateral - amount,
                price,
                amount,
            ) {
                Ok(v) => v,
                Err(e) => {
                    return Err(e);
                },
            }
        } else {
            price
        };

        let new_total = match self.total_collateral.checked_add(amount) {
            Some(v) => v,
            None => {
                return Err(Error::Overflow);
            },
        };

        self.positions.insert(
            caller,
            Position {
                owner: position.owner,
                collateral: new_collateral,
                debt: position.debt,
                entry_price,
                opened_at: position.opened_at,
            },
        );
        self.total_collateral = new_total;

        Ok(Deposit { user: caller, collateral: amount, debt_minted: 0, price })
    }

    /// Borrows `cusd_amount` stable tokens against the caller's collateral,
    /// valued at `price` and `exchange_rate`: the position's total debt may
    /// not exceed the loan-to-value bound. The stable token mints the
    /// borrowed amount to the caller.
    pub fn borrow(&mut self, caller: u64, cusd_amount: u128, price: u128, exchange_rate: u128) -> (r:
        Result<Borrow, Error>)
        ensures
            r is Err ==> *final(self) == *old(self),
            old(self).paused ==> r == Err::<Borrow, Error>(Error::Paused),
            !old(self).paused && !old(self).positions@.contains_key(caller) ==> r == Err::<
                Borrow,
                Error,
            >(Error::PositionNotFound),
            !old(self).paused && old(self).positions@.contains_key(caller) && old(
                self,
            ).positions@[caller].collateral == 0 ==> r == Err::<Borrow, Error>(
                Error::InsufficientCollateral,
            ),
            ({
                let pos = old(self).positions@[caller];
                let max_opt = spec_max_debt(pos.collateral, price, old(self).params.ltv, exchange_rate);
                &&& !old(self).paused && old(self).positions@.contains_key(caller)
                    && pos.collateral > 0 && max_opt is None ==> r == Err::<Borrow, Error>(
                    Error::Overflow,
                )
                &&& !old(self).paused && old(self).positions@.contains_key(caller)
                    && pos.collateral > 0 && max_opt is Some && pos.debt + cusd_amount > u128::MAX
                    ==> r == Err::<Borrow, Error>(Error::Overflow)
                &&& !old(self).paused && old(self).positions@.contains_key(caller)
                    && pos.collateral > 0 && max_opt is Some && pos.debt + cusd_amount <= u128::MAX
                    && pos.debt + cusd_amount > max_opt->Some_0 ==> r == Err::<Borrow, Error>(
                    Error::ExceedsMaxDebt,
                )
                &&& !old(self).paused && old(self).positions@.contains_key(caller)
                    && pos.collateral > 0 && max_opt is Some && pos.debt + cusd_amount <= u128::MAX
                    && pos.debt + cusd_amount <= max_opt->Some_0 && old(self).total_debt
                    + cusd_amount > u128::MAX ==> r == Err::<Borrow, Error>(Error::Overflow)
                &&& !old(self).paused && old(self).positions@.contains_key(caller)
                    && pos.collateral > 0 && max_opt is Some && pos.debt + cusd_amount <= u128::MAX
                    && pos.debt + cusd_amount <= max_opt->Some_0 && old(self).total_debt
                    + cusd_amount <= u128::MAX ==> {
                    &&& r == Ok::<Borrow, Error>(Borrow { user: caller, amount: cusd_amount })
                    &&& final(self).positions@ == old(self).positions@.insert(
                        caller,
                        Position { debt: (pos.debt + cusd_amount) as u128, ..pos },
                    )
                    &&& final(self).total_debt == old(self).total_debt + cusd_amount
                    &&& final(self).total_collateral == old(self).total_collateral
                    &&& final(self).spec_same_config(*old(self))
                }
            }),
    {
        if self.paused {
            return Err(Error::Paused);
        }
        let position = match self.positions.get(&caller) {
            Some(p) => *p,
            None => {
                return Err(Error::PositionNotFound);
            },
        };
        if position.collateral == 0 {
            return Err(Error::InsufficientCollateral);
        }

        let max_debt = match self.calculate_max_debt(
            position.collateral,
            price,
            self.params.ltv,
            exchange_rate,
        ) {
            Ok(v) => v,
            Err(e) => {
                return Err(e);
            },
        };
        let new_total_debt = match position.debt.checked_add(cusd_amount) {
            Some(v) => v,
            None => {
                return Err(Error::Overflow);
            },
        };
        if new_total_debt > max_debt {
            return Err(Error::ExceedsMaxDebt);
        }
        let new_global_debt = match self.total_debt.checked_add(cusd_amount) {
            Some(v) => v,
            None => {
                return Err(Error::Overflow);
            },
        };

        self.positions.insert(caller, Position { debt: new_total_debt, ..position });
        self.total_debt = new_global_debt;

        Ok(Borrow { user: caller, amount: cusd_amount })
    }

    /// Repays `cusd_amount` of the caller's debt; the stable token burns
    /// that amount from the caller.
    pub fn repay(&mut self, caller: u64, cusd_amount: u128) -> (r: Result<Repay, Error>)
        ensures
            r is Err ==> *final(self) == *old(self),
            old(self).paused ==> r == Err::<Repay, Error>(Error::Paused),
            !old(self).paused && !old(self).positions@.contains_key(caller) ==> r == Err::<
                Repay,
                Error,
            >(Error::PositionNotFound),
            !old(self).paused && old(self).positions@.contains_key(caller) && cusd_amount > old(
                self,
            ).positions@[caller].debt ==> r == Err::<Repay, Error>(Error::ExceedsDebt),
            !old(self).paused && old(self).positions@.contains_key(caller) && cusd_amount <= old(
                self,
            ).positions@[caller].debt && old(self).total_debt < cusd_amount ==> r == Err::<
                Repay,
                Error,
            >(Error::Underflow),
            !old(self).paused && old(self).positions@.contains_key(caller) && cusd_amount <= old(
                self,
            ).positions@[caller].debt && old(self).total_debt >= cusd_amount ==> {
                let pos = old(self).positions@[caller];
                &&& r == Ok::<Repay, Error>(Repay { user: caller, amount: cusd_amount })
                &&& final(self).positions@ == old(self).positions@.insert(
                    caller,
                    Position { debt: (pos.debt - cusd_amount) as u128, ..pos },
                )
                &&& final(self).total_debt == old(self).total_debt - cusd_amount
                &&& final(self).total_collateral == old(self).total_collateral
                &&& final(self).spec_same_config(*old(self))
            },
    {
        if self.paused {
            return Err(Error::Paused);
        }
        let position = match self.positions.get(&caller) {
            Some(p) => *p,
            None => {
                return Err(Error::PositionNotFound);
            },
        };
        if cusd_amount > position.debt {
            return Err(Error::ExceedsDebt);
        }
        let new_global_debt = match self.total_debt.checked_sub(cusd_amount) {
            Some(v) => v,
            None => {
                return Err(Error::Underflow);
            },
        };

        self.positions.insert(
            caller,
            Position { debt: position.debt - cusd_amount, ..position },
        );
        self.total_debt = new_global_debt;

        Ok(Repay { user: caller, amount: cusd_amount })
    }

    /// Withdraws `yscspr_amount` collateral by burning that much derivative
    /// token from the caller. With outstanding debt, the withdrawal is
    /// simulated first and rejected if the remaining position's health
    /// factor would fall below 10000 basis points; a valuation overflow in
    /// that simulation is fatal.
    pub fn withdraw(
        &mut self,
        caller: u64,
        yscspr_amount: u128,
        price: u128,
        exchange_rate: u128,
    ) -> (r: Result<Withdraw, Error>)
        ensures
            r is Err ==> *final(self) == *old(self),
            old(self).paused ==> r == Err::<Withdraw, Error>(Error::Paused),
            !old(self).paused && !old(self).positions@.contains_key(caller) ==> r == Err::<
                Withdraw,
                Error,
            >(Error::PositionNotFound),
            !old(self).paused && old(self).positions@.contains_key(caller) && yscspr_amount > old(
                self,
            ).positions@[caller].collateral ==> r == Err::<Withdraw, Error>(
                Error::InsufficientCollateral,
            ),
            ({
                let pos = old(self).positions@[caller];
                let remaining = Position {
                    collateral: (pos.collateral - yscspr_amount) as u128,
                    ..pos
                };
                let hf_opt = spec_health_factor(
                    remaining,
                    price,
                    old(self).params.liq_threshold,
                    exchange_rate,
                );
                &&& !old(self).paused && old(self).positions@.contains_key(caller)
                    && yscspr_amount <= pos.collateral && pos.debt > 0 && hf_opt is None ==> r
                    == Err::<Withdraw, Error>(Error::Overflow)
                &&& !old(self).paused && old(self).positions@.contains_key(caller)
                    && yscspr_amount <= pos.collateral && pos.debt > 0 && hf_opt is Some
                    && hf_opt->Some_0 < 10000 ==> r == Err::<Withdraw, Error>(
                    Error::UnhealthyPosition,
                )
                &&& !old(self).paused && old(self).positions@.contains_key(caller)
                    && yscspr_amount <= pos.collateral && (pos.debt == 0 || (hf_opt is Some
                    && hf_opt->Some_0 >= 10000)) && old(self).total_collateral < yscspr_amount
                    ==> r == Err::<Withdraw, Error>(Error::Underflow)
                &&& !old(self).paused && old(self).positions@.contains_key(caller)
                    && yscspr_amount <= pos.collateral && (pos.debt == 0 || (hf_opt is Some
                    && hf_opt->Some_0 >= 10000)) && old(self).total_collateral >= yscspr_amount
                    ==> {
                    &&& r == Ok::<Withdraw, Error>(
                        Withdraw {
                            user: caller,
                            collateral_returned: yscspr_amount,
                            debt_burned: 0,
                        },
                    )
                    &&& final(self).positions@ == old(self).positions@.insert(caller, remaining)
                    &&& final(self).total_collateral == old(self).total_collateral - yscspr_amount
                    &&& final(self).total_debt == old(self).total_debt
                    &&& final(self).spec_same_config(*old(self))
                }
            }),
    {
        if self.paused {
            return Err(Error::Paused);
        }
        let position = match self.positions.get(&caller) {
            Some(p) => *p,
            None => {
                return Err(Error::PositionNotFound);
            },
        };
        if yscspr_amount > position.collateral {
            return Err(Error::InsufficientCollateral);
        }

        let new_collateral = position.collateral - yscspr_amount;

        if position.debt != 0 {
            let temp_position = Position { collateral: new_collateral, ..position };
            let health_factor = match self.calculate_health_factor(
                &temp_position,
                price,
                self.params.liq_threshold,
                exchange_rate,
            ) {
                Ok(h) => h,
                Err(e) => {
                    return Err(e);
                },
            };
            if health_factor < 10000 {
                return Err(Error::UnhealthyPosition);
            }
        }

        let new_total = match self.total_collateral.checked_sub(yscspr_amount) {
            Some(v) => v,
            None => {
                return Err(Error::Underflow);
            },
        };

        self.positions.insert(caller, Position { collateral: new_collateral, ..position });
        self.total_collateral = new_total;

        Ok(Withdraw { user: caller, collateral_returned: yscspr_amount, debt_burned: 0 })
    }

    /// Liquidates part of an unhealthy position: burns `debt_to_cover`
    /// stable tokens from the liquidator and hands them the matching
    /// collateral plus the liquidation penalty, converted through the
    /// oracle price and the exchange rate. Never force-closes: only the
    /// covered fraction moves, and only while the seized collateral fits in
    /// the position. A valuation overflow is fatal.
    pub fn liquidate(
        &mut self,
        caller: u64,
        user: u64,
        debt_to_cover: u128,
        price: u128,
        exchange_rate: u128,
    ) -> (r: Result<Liquidate, Error>)
        ensures
            r is Err ==> *final(self) == *old(self),
            old(self).paused ==> r == Err::<Liquidate, Error>(Error::Paused),
            !old(self).paused && !old(self).positions@.contains_key(user) ==> r == Err::<
                Liquidate,
                Error,
            >(Error::PositionNotFound),
            ({
                let pos = old(self).positions@[user];
                let hf_opt = spec_health_factor(
                    pos,
                    price,
                    old(self).params.liq_threshold,
                    exchange_rate,
                );
                let seize_opt = spec_seize_amount(
                    debt_to_cover,
                    price,
                    old(self).params.liq_penalty,
                    exchange_rate,
                );
                &&& !old(self).paused && old(self).positions@.contains_key(user) && hf_opt
                    is None ==> r == Err::<Liquidate, Error>(Error::Overflow)
                &&& !old(self).paused && old(self).positions@.contains_key(user) && hf_opt
                    is Some && hf_opt->Some_0 >= 10000 ==> r == Err::<Liquidate, Error>(
                    Error::PositionHealthy,
                )
                &&& !old(self).paused && old(self).positions@.contains_key(user) && hf_opt
                    is Some && hf_opt->Some_0 < 10000 && debt_to_cover > pos.debt ==> r == Err::<
                    Liquidate,
                    Error,
                >(Error::ExceedsDebt)
                &&& !old(self).paused && old(self).positions@.contains_key(user) && hf_opt
                    is Some && hf_opt->Some_0 < 10000 && debt_to_cover <= pos.debt && seize_opt
                    is None ==> r == Err::<Liquidate, Error>(Error::Overflow)
                &&& !old(self).paused && old(self).positions@.contains_key(user) && hf_opt
                    is Some && hf_opt->Some_0 < 10000 && debt_to_cover <= pos.debt && seize_opt
                    is Some ==> {
                    let seize = seize_opt->Some_0;
                    &&& seize > pos.collateral ==> r == Err::<Liquidate, Error>(
                        Error::InsufficientCollateral,
                    )
                    &&& seize <= pos.collateral && old(self).total_collateral < seize ==> r
                        == Err::<Liquidate, Error>(Error::Underflow)
                    &&& seize <= pos.collateral && old(self).total_collateral >= seize && old(
                        self,
                    ).total_debt < debt_to_cover ==> r == Err::<Liquidate, Error>(Error::Underflow)
                    &&& seize <= pos.collateral && old(self).total_collateral >= seize && old(
                        self,
                    ).total_debt >= debt_to_cover ==> {
                        &&& r == Ok::<Liquidate, Error>(
                            Liquidate {
                                user,
                                liquidator: caller,
                                debt_covered: debt_to_cover,
                                collateral_seized: seize,
                                price,
                            },
                        )
                        &&& seize <= pos.collateral
                        &&& final(self).positions@ == old(self).positions@.insert(
                            user,
                            Position {
                                collateral: (pos.collateral - seize) as u128,
                                debt: (pos.debt - debt_to_cover) as u128,
                                ..pos
                            },
                        )
                        &&& final(self).total_collateral == old(self).total_collateral - seize
                        &&& final(self).total_debt == old(self).total_debt - debt_to_cover
                        &&& final(self).spec_same_config(*old(self))
                    }
                }
            }),
    {
        if self.paused {
            return Err(Error::Paused);
        }
        let position = match self.positions.get(&user) {
            Some(p) => *p,
            None => {
                return Err(Error::PositionNotFound);
            },
        };

        let health_factor = match self.calculate_health_factor(
            &position,
            price,
            self.params.liq_threshold,
            exchange_rate,
        ) {
            Ok(h) => h,
            Err(e) => {
                return Err(e);
            },
        };
        if health_factor >= 10000 {
            return Err(Error::PositionHealthy);
        }
        if debt_to_cover > position.debt {
            return Err(Error::ExceedsDebt);
        }

        let collateral_to_seize = match self.calculate_liquidation_amount(
            debt_to_cover,
            price,
            self.params.liq_penalty,
            exchange_rate,
        ) {
            Ok(v) => v,
            Err(e) => {
                return Err(e);
            },
        };
        if collateral_to_seize > position.collateral {
            return Err(Error::InsufficientCollateral);
        }

        let new_total_collateral = match self.total_collateral.checked_sub(collateral_to_seize) {
            Some(v) => v,
            None => {
                return Err(Error::Underflow);
            },
        };
        let new_total_debt = match self.total_debt.checked_sub(debt_to_cover) {
            Some(v) => v,
            None => {
                return Err(Error::Underflow);
            },
        };

        self.positions.insert(
            user,
            Position {
                collateral: position.collateral - collateral_to_seize,
                debt: position.debt - debt_to_cover,
                ..position
            },
        );
        self.total_collateral = new_total_collateral;
        self.total_debt = new_total_debt;

        Ok(
            Liquidate {
                user,
                liquidator: caller,
                debt_covered: debt_to_cover,
                collateral_seized: collateral_to_seize,
                price,
            },
        )
    }

    /// The position of `user`, if any.
    pub fn get_position(&self, user: u64) -> (r: Option<Position>)
        ensures
            self.positions@.contains_key(user) ==> r == Some(self.positions@[user]),
            !self.positions@.contains_key(user) ==> r is None,
    {
        match self.positions.get(&user) {
            Some(p) => Some(*p),
            None => None,
        }
    }

    /// Health factor of `user`'s position at the given price and exchange
    /// rate, zero when the user has no position; a valuation overflow is
    /// fatal.
    pub fn get_health_factor(&self, user: u64, price: u128, exchange_rate: u128) -> (r: Result<
        u64,
        Error,
    >)
        ensures
            !self.positions@.contains_key(user) ==> r == Ok::<u64, Error>(0),
            self.positions@.contains_key(user) ==> r == (match spec_health_factor(
                self.positions@[user],
                price,
                self.params.liq_threshold,
                exchange_rate,
            ) {
                Some(h) => Ok::<u64, Error>(h),
                None => Err::<u64, Error>(Error::Overflow),
            }),
    {
        let position = match self.positions.get(&user) {
            Some(p) => *p,
            None => {
                return Ok(0);
            },
        };
        self.calculate_health_factor(&position, price, self.params.liq_threshold, exchange_rate)
    }

    /// Whether `user`'s position can be liquidated at the given price and
    /// exchange rate (health factor below 100%); trivially so when the
    /// user has no position. When the call succeeds on a position, the
    /// answer is exactly the undercollateralization criterion
    /// `collateral_usd * liq_threshold < debt * 10000`.
    pub fn is_liquidatable(&self, user: u64, price: u128, exchange_rate: u128) -> (r: Result<
        bool,
        Error,
    >)
        ensures
            !self.positions@.contains_key(user) ==> r == Ok::<bool, Error>(true),
            self.positions@.contains_key(user) ==> r == (match spec_health_factor(
                self.positions@[user],
                price,
                self.params.liq_threshold,
                exchange_rate,
            ) {
                Some(h) => Ok::<bool, Error>(h < 10000),
                None => Err::<bool, Error>(Error::Overflow),
            }),
            self.positions@.contains_key(user) && r is Ok ==> r->Ok_0
                == spec_undercollateralized(
                self.positions@[user],
                price,
                self.params.liq_threshold,
                exchange_rate,
            ),
    {
        proof {
            if self.positions@.contains_key(user) {
                let pos = self.positions@[user];
                if pos.debt > 0 && spec_health_factor(
                    pos,
                    price,
                    self.params.liq_threshold,
                    exchange_rate,
                ) is Some {
                    lemma_liquidatable_iff_undercollateralized(
                        pos,
                        price,
                        self.params.liq_threshold,
                        exchange_rate,
                    );
                }
            }
        }
        match self.get_health_factor(user, price, exchange_rate) {
            Ok(h) => Ok(h < 10000),
            Err(e) => Err(e),
        }
    }

    /// Total collateral, total debt, and the price handed in.
    pub fn get_vault_stats(&self, price: u128) -> (r: (u128, u128, u128))
        ensures
            r == (self.total_collateral, self.total_debt, price),
    {
        (self.total_collateral, self.total_debt, price)
    }

    /// Current configuration.
    pub fn get_params(&self) -> (r: VaultParams)
        ensures
            r == self.params,
    {
        self.params
    }

    /// Total outstanding debt across all positions.
    pub fn get_total_debt(&self) -> (r: u128)
        ensures
            r == self.total_debt,
    {
        self.total_debt
    }

    /// Replaces the configuration (owner only) after validating it: the
    /// loan-to-value ratio must lie in (0, 10000], the liquidation
    /// threshold above it, and the penalty within 5000 basis points.
    pub fn set_params(&mut self, caller: u64, params: VaultParams) -> (r: Result<(), Error>)
        ensures
            r is Err ==> *final(self) == *old(self),
            caller != old(self).owner ==> r == Err::<(), Error>(Error::Unauthorized),
            caller == old(self).owner && (params.ltv == 0 || params.ltv > 10000) ==> r == Err::<
                (),
                Error,
            >(Error::InvalidLTV),
            caller == old(self).owner && 0 < params.ltv <= 10000 && params.liq_threshold
                <= params.ltv ==> r == Err::<(), Error>(Error::InvalidThreshold),
            caller == old(self).owner && 0 < params.ltv <= 10000 && params.liq_threshold
                > params.ltv && params.liq_penalty > 5000 ==> r == Err::<(), Error>(
                Error::InvalidPenalty,
            ),
            caller == old(self).owner && spec_params_valid(params) ==> r == Ok::<(), Error>(())
                && *final(self) == (Self { params, ..*old(self) }),
    {
        if caller != self.owner {
            return Err(Error::Unauthorized);
        }
        if params.ltv == 0 || params.ltv > 10000 {
            return Err(Error::InvalidLTV);
        }
        if params.liq_threshold <= params.ltv {
            return Err(Error::InvalidThreshold);
        }
        if params.liq_penalty > 5000 {
            return Err(Error::InvalidPenalty);
        }
        self.params = params;
        Ok(())
    }

    /// Points the vault at a new oracle (owner only).
    pub fn set_oracle(&mut self, caller: u64, oracle: u64) -> (r: Result<(), Error>)
        ensures
            caller != old(self).owner ==> r == Err::<(), Error>(Error::Unauthorized) && *final(self)
                == *old(self),
            caller == old(self).owner ==> r == Ok::<(), Error>(()) && *final(self) == (Self {
                oracle,
                ..*old(self)
            }),
    {
        if caller != self.owner {
            return Err(Error::Unauthorized);
        }
        self.oracle = oracle;
        Ok(())
    }

    /// Halts every position operation (owner only).
    pub fn pause(&mut self, caller: u64) -> (r: Result<(), Error>)
        ensures
            caller != old(self).owner ==> r == Err::<(), Error>(Error::Unauthorized) && *final(self)
                == *old(self),
            caller == old(self).owner ==> r == Ok::<(), Error>(()) && *final(self) == (Self {
                paused: true,
                ..*old(self)
            }),
    {
        if caller != self.owner {
            return Err(Error::Unauthorized);
        }
        self.paused = true;
        Ok(())
    }

    /// Resumes position operations (owner only).
    pub fn unpause(&mut self, caller: u64) -> (r: Result<(), Error>)
        ensures
            caller != old(self).owner ==> r == Err::<(), Error>(Error::Unauthorized) && *final(self)
                == *old(self),
            caller == old(self).owner ==> r == Ok::<(), Error>(()) && *final(self) == (Self {
                paused: false,
                ..*old(self)
            }),
    {
        if caller != self.owner {
            return Err(Error::Unauthorized);
        }
        self.paused = false;
        Ok(())
    }

    /// Largest debt `collateral` supports at `price` under `ltv`; a
    /// valuation overflow is fatal.
    pub fn calculate_max_debt(
        &self,
        collateral: u128,
        price: u128,
        ltv: u64,
        exchange_rate: u128,
    ) -> (r: Result<u128, Error>)
        ensures
            r == (match spec_max_debt(collateral, price, ltv, exchange_rate) {
                Some(v) => Ok::<u128, Error>(v),
                None => Err::<u128, Error>(Error::Overflow),
            }),
    {
        let collateral_value = match self.collateral_to_usd(collateral, price, exchange_rate) {
            Ok(v) => v,
            Err(e) => {
                return Err(e);
            },
        };
        match collateral_value.checked_mul(ltv as u128) {
            Some(v) => Ok(v / (BASIS_POINTS as u128)),
            None => Err(Error::Overflow),
        }
    }

    /// USD value of `yscspr_collateral` at `cspr_price` and
    /// `exchange_rate`; an overflow in either stage is fatal.
    pub fn collateral_to_usd(
        &self,
        yscspr_collateral: u128,
        cspr_price: u128,
        exchange_rate: u128,
    ) -> (r: Result<u128, Error>)
        ensures
            r == (match spec_collateral_to_usd(yscspr_collateral, cspr_price, exchange_rate) {
                Some(v) => Ok::<u128, Error>(v),
                None => Err::<u128, Error>(Error::Overflow),
            }),
    {
        let cspr_equivalent = match yscspr_collateral.checked_mul(exchange_rate) {
            Some(v) => v / MOTES_PER_CSPR,
            None => {
                return Err(Error::Overflow);
            },
        };
        match cspr_equivalent.checked_mul(cspr_price) {
            Some(v) => Ok(v / MOTES_PER_CSPR),
            None => Err(Error::Overflow),
        }
    }

    /// Base-asset units worth `debt` at `price`; an overflow or a zero
    /// price is fatal.
    pub fn debt_to_collateral(&self, debt: u128, price: u128) -> (r: Result<u128, Error>)
        ensures
            r == (match spec_debt_to_collateral(debt, price) {
                Some(v) => Ok::<u128, Error>(v),
                None => Err::<u128, Error>(Error::Overflow),
            }),
    {
        let num = match debt.checked_mul(MOTES_PER_CSPR) {
            Some(v) => v,
            None => {
                return Err(Error::Overflow);
            },
        };
        if price == 0 {
            return Err(Error::Overflow);
        }
        Ok(num / price)
    }

    /// Health factor of `position` in basis points; the maximum
    /// representable value for a debt-free position, a fatal error when a
    /// valuation step overflows or the value exceeds 64 bits.
    pub fn calculate_health_factor(
        &self,
        position: &Position,
        price: u128,
        liq_threshold: u64,
        exchange_rate: u128,
    ) -> (r: Result<u64, Error>)
        ensures
            r == (match spec_health_factor(*position, price, liq_threshold, exchange_rate) {
                Some(h) => Ok::<u64, Error>(h),
                None => Err::<u64, Error>(Error::Overflow),
            }),
    {
        if position.debt == 0 {
            return Ok(u64::MAX);
        }

        let collateral_value = match self.collateral_to_usd(
            position.collateral,
            price,
            exchange_rate,
        ) {
            Ok(v) => v,
            Err(e) => {
                return Err(e);
            },
        };
        let threshold_value = match collateral_value.checked_mul(liq_threshold as u128) {
            Some(v) => v,
            None => {
                return Err(Error::Overflow);
            },
        };
        let num = match threshold_value.checked_mul(BASIS_POINTS as u128) {
            Some(v) => v,
            None => {
                return Err(Error::Overflow);
            },
        };
        let denom = match position.debt.checked_mul(BASIS_POINTS as u128) {
            Some(v) => v,
            None => {
                return Err(Error::Overflow);
            },
        };
        let health = num / denom;
        if health > u64::MAX as u128 {
            return Err(Error::Overflow);
        }
        Ok(health as u64)
    }

    /// Collateral to seize for covering `debt` at `price` with the
    /// liquidation `penalty`, converted into derivative units through
    /// `exchange_rate`; an overflow or a zero divisor is fatal.
    pub fn calculate_liquidation_amount(
        &self,
        debt: u128,
        price: u128,
        penalty: u64,
        exchange_rate: u128,
    ) -> (r: Result<u128, Error>)
        ensures
            r == (match spec_seize_amount(debt, price, penalty, exchange_rate) {
                Some(v) => Ok::<u128, Error>(v),
                None => Err::<u128, Error>(Error::Overflow),
            }),
    {
        let multiplier = match BASIS_POINTS.checked_add(penalty) {
            Some(v) => v,
            None => {
                return Err(Error::Overflow);
            },
        };
        let weighted = match debt.checked_mul(multiplier as u128) {
            Some(v) => v,
            None => {
                return Err(Error::Overflow);
            },
        };
        let num = match weighted.checked_mul(MOTES_PER_CSPR) {
            Some(v) => v,
            None => {
                return Err(Error::Overflow);
            },
        };
        let denom = match price.checked_mul(BASIS_POINTS as u128) {
            Some(v) => v,
            None => {
                return Err(Error::Overflow);
            },
        };
        if denom == 0 {
            return Err(Error::Overflow);
        }
        let base_units = num / denom;
        let scaled = match base_units.checked_mul(MOTES_PER_CSPR) {
            Some(v) => v,
            None => {
                return Err(Error::Overflow);
            },
        };
        if exchange_rate == 0 {
            return Err(Error::Overflow);
        }
        Ok(scaled / exchange_rate)
    }

    /// Weighted-average price of `old_amount` at `old_price` and
    /// `new_amount` at `new_price`; an overflow is fatal.
    pub fn calculate_weighted_price(
        &self,
        old_price: u128,
        old_amount: u128,
        new_price: u128,
        new_amount: u128,
    ) -> (r: Result<u128, Error>)
        ensures
            r == (match spec_weighted_price(old_price, old_amount, new_price, new_amount) {
                Some(v) => Ok::<u128, Error>(v),
                None => Err::<u128, Error>(Error::Overflow),
            }),
    {
        let total_amount = match old_amount.checked_add(new_amount) {
            Some(v) => v,
            None => {
                return Err(Error::Overflow);
            },
        };
        if total_amount == 0 {
            return Ok(new_price);
        }
        let old_weighted = match old_price.checked_mul(old_amount) {
            Some(v) => v,
            None => {
                return Err(Error::Overflow);
            },
        };
        let new_weighted = match new_price.checked_mul(new_amount) {
            Some(v) => v,
            None => {
                return Err(Error::Overflow);
            },
        };
        match old_weighted.checked_add(new_weighted) {
            Some(v) => Ok(v / total_amount),
            None => Err(Error::Overflow),
        }
    }
}

} // verus!
