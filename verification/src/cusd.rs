//! cUSD, the stable-value debt token: a fungible-token ledger whose mint
//! and burn are reserved to the vault contract, with owner-gated rotation
//! of that authority.

use vstd::prelude::*;
use crate::ledger::Ledger;
use crate::ledger::LedgerError;

verus! {

/// Errors on which a cUSD call reverts.
#[derive(Clone, Copy, Debug, PartialEq, Eq, Structural)]
pub enum Error {
    Unauthorized,
    InsufficientAllowance,
    NotInitialized,
    Overflow,
    Underflow,
}

/// Token state: the ledger plus the vault authority.
pub struct CUSD {
    /// Underlying fungible-token ledger.
    pub token: Ledger,
    /// The one contract allowed to mint and burn.
    pub vault: u64,
    /// Contract owner, allowed to rotate the vault authority.
    pub owner: u64,
}

impl CUSD {
    /// Creates the token with the standard metadata and an empty supply;
    /// the deployer becomes owner and `vault_address` the mint authority.
    pub fn init(caller: u64, vault_address: u64) -> (token: Self)
        ensures
            token.token.name@ == "Casper USD"@,
            token.token.symbol@ == "cUSD"@,
            token.token.decimals == 9,
            token.token.total_supply == 0,
            token.token.balances@ == Map::<u64, u128>::empty(),
            token.token.allowances@ == Map::<u128, u128>::empty(),
            token.vault == vault_address,
            token.owner == caller,
    {
        CUSD {
            token: Ledger::init(caller, "cUSD".to_owned(), "Casper USD".to_owned(), 9, 0),
            vault: vault_address,
            owner: caller,
        }
    }

    /// Mints `amount` tokens to `to` (vault only).
    pub fn mint(&mut self, caller: u64, to: u64, amount: u128) -> (r: Result<(), Error>)
        ensures
            r is Err ==> *final(self) == *old(self),
            caller != old(self).vault ==> r == Err::<(), Error>(Error::Unauthorized),
            caller == old(self).vault && (old(self).token.spec_balance_of(to) + amount > u128::MAX
                || old(self).token.total_supply + amount > u128::MAX) ==> r == Err::<(), Error>(
                Error::Overflow,
            ),
            caller == old(self).vault && old(self).token.spec_balance_of(to) + amount <= u128::MAX
                && old(self).token.total_supply + amount <= u128::MAX ==> {
                &&& r == Ok::<(), Error>(())
                &&& final(self).token.balances@ == old(self).token.balances@.insert(
                    to,
                    (old(self).token.spec_balance_of(to) + amount) as u128,
                )
                &&& final(self).token.total_supply == old(self).token.total_supply + amount
                &&& final(self).token.allowances@ == old(self).token.allowances@
                &&& final(self).token.spec_same_metadata(old(self).token)
                &&& final(self).vault == old(self).vault
                &&& final(self).owner == old(self).owner
            },
    {
        if caller != self.vault {
            return Err(Error::Unauthorized);
        }
        match self.token.raw_mint(to, amount) {
            Ok(()) => Ok(()),
            Err(_) => Err(Error::Overflow),
        }
    }

    /// Burns `amount` tokens of `from` (vault only).
    pub fn burn(&mut self, caller: u64, from: u64, amount: u128) -> (r: Result<(), Error>)
        ensures
            r is Err ==> *final(self) == *old(self),
            caller != old(self).vault ==> r == Err::<(), Error>(Error::Unauthorized),
            caller == old(self).vault && old(self).token.spec_balance_of(from) < amount ==> r
                == Err::<(), Error>(Error::Underflow),
            caller == old(self).vault && old(self).token.spec_balance_of(from) >= amount && old(
                self,
            ).token.total_supply < amount ==> r == Err::<(), Error>(Error::Underflow),
            caller == old(self).vault && old(self).token.spec_balance_of(from) >= amount && old(
                self,
            ).token.total_supply >= amount ==> {
                &&& r == Ok::<(), Error>(())
                &&& final(self).token.balances@ == old(self).token.balances@.insert(
                    from,
                    (old(self).token.spec_balance_of(from) - amount) as u128,
                )
                &&& final(self).token.total_supply == old(self).token.total_supply - amount
                &&& final(self).token.allowances@ == old(self).token.allowances@
                &&& final(self).token.spec_same_metadata(old(self).token)
                &&& final(self).vault == old(self).vault
                &&& final(self).owner == old(self).owner
            },
    {
        if caller != self.vault {
            return Err(Error::Unauthorized);
        }
        match self.token.raw_burn(from, amount) {
            Ok(()) => Ok(()),
            Err(_) => Err(Error::Underflow),
        }
    }

    /// Moves the mint and burn authority to `new_vault` (owner only).
    pub fn set_vault(&mut self, caller: u64, new_vault: u64) -> (r: Result<(), Error>)
        ensures
            caller != old(self).owner ==> r == Err::<(), Error>(Error::Unauthorized) && *final(self)
                == *old(self),
            caller == old(self).owner ==> r == Ok::<(), Error>(()) && *final(self) == (Self {
                vault: new_vault,
                ..*old(self)
            }),
    {
        if caller != self.owner {
            return Err(Error::Unauthorized);
        }
        self.vault = new_vault;
        Ok(())
    }

    /// Token name.
    pub fn name(&self) -> (r: String)
        ensures
            r@ == self.token.name@,
    {
        self.token.get_name()
    }

    /// Token symbol.
    pub fn symbol(&self) -> (r: String)
        ensures
            r@ == self.token.symbol@,
    {
        self.token.get_symbol()
    }

    /// Number of implicit decimals.
    pub fn decimals(&self) -> (r: u8)
        ensures
            r == self.token.decimals,
    {
        self.token.get_decimals()
    }

    /// Number of tokens in existence.
    pub fn total_supply(&self) -> (r: u128)
        ensures
            r == self.token.total_supply,
    {
        self.token.get_total_supply()
    }

    /// Balance of `address`.
    pub fn balance_of(&self, address: u64) -> (r: u128)
        ensures
            r == self.token.spec_balance_of(address),
    {
        self.token.balance_of(address)
    }

    /// Allowance `owner` granted `spender`.
    pub fn allowance(&self, owner: u64, spender: u64) -> (r: u128)
        ensures
            r == self.token.spec_allowance(owner, spender),
    {
        self.token.allowance(owner, spender)
    }

    /// Moves `amount` tokens from the caller to `recipient`.
    pub fn transfer(&mut self, caller: u64, recipient: u64, amount: u128) -> (r: Result<
        (),
        LedgerError,
    >)
        ensures
            r is Err ==> *final(self) == *old(self),
            final(self).vault == old(self).vault && final(self).owner == old(self).owner,
            ({
                let t = &old(self).token;
                &&& t.spec_balance_of(caller) < amount ==> r == Err::<(), LedgerError>(
                    LedgerError::InsufficientBalance,
                )
                &&& t.spec_balance_of(caller) >= amount && recipient != caller
                    && t.spec_balance_of(recipient) + amount > u128::MAX ==> r == Err::<
                    (),
                    LedgerError,
                >(LedgerError::Overflow)
                &&& t.spec_balance_of(caller) >= amount && (recipient == caller
                    || t.spec_balance_of(recipient) + amount <= u128::MAX) ==> {
                    &&& r == Ok::<(), LedgerError>(())
                    &&& final(self).token.balances@ == t.balances@.insert(
                        caller,
                        (t.spec_balance_of(caller) - amount) as u128,
                    ).insert(
                        recipient,
                        if recipient == caller {
                            t.spec_balance_of(caller)
                        } else {
                            (t.spec_balance_of(recipient) + amount) as u128
                        },
                    )
                    &&& final(self).token.total_supply == t.total_supply
                    &&& final(self).token.allowances@ == t.allowances@
                    &&& final(self).token.spec_same_metadata(old(self).token)
                }
            }),
    {
        self.token.transfer(caller, recipient, amount)
    }

    /// Moves `amount` tokens from `owner` to `recipient` on the caller's
    /// allowance.
    pub fn transfer_from(&mut self, caller: u64, owner: u64, recipient: u64, amount: u128) -> (r:
        Result<(), LedgerError>)
        ensures
            r is Err ==> *final(self) == *old(self),
            final(self).vault == old(self).vault && final(self).owner == old(self).owner,
            ({
                let t = &old(self).token;
                &&& t.spec_allowance(owner, caller) < amount ==> r == Err::<(), LedgerError>(
                    LedgerError::InsufficientAllowance,
                )
                &&& t.spec_allowance(owner, caller) >= amount && t.spec_balance_of(owner) < amount
                    ==> r == Err::<(), LedgerError>(LedgerError::InsufficientBalance)
                &&& t.spec_allowance(owner, caller) >= amount && t.spec_balance_of(owner) >= amount
                    && recipient != owner && t.spec_balance_of(recipient) + amount > u128::MAX
                    ==> r == Err::<(), LedgerError>(LedgerError::Overflow)
                &&& t.spec_allowance(owner, caller) >= amount && t.spec_balance_of(owner) >= amount
                    && (recipient == owner || t.spec_balance_of(recipient) + amount <= u128::MAX)
                    ==> {
                    &&& r == Ok::<(), LedgerError>(())
                    &&& final(self).token.balances@ == t.balances@.insert(
                        owner,
                        (t.spec_balance_of(owner) - amount) as u128,
                    ).insert(
                        recipient,
                        if recipient == owner {
                            t.spec_balance_of(owner)
                        } else {
                            (t.spec_balance_of(recipient) + amount) as u128
                        },
                    )
                    &&& final(self).token.allowances@ == t.allowances@.insert(
                        crate::arith::spec_pair_key(owner, caller),
                        (t.spec_allowance(owner, caller) - amount) as u128,
                    )
                    &&& final(self).token.total_supply == t.total_supply
                    &&& final(self).token.spec_same_metadata(old(self).token)
                }
            }),
    {
        self.token.transfer_from(caller, owner, recipient, amount)
    }

    /// Sets the allowance the caller grants `spender`.
    pub fn approve(&mut self, caller: u64, spender: u64, amount: u128)
        ensures
            final(self).token.allowances@ == old(self).token.allowances@.insert(
                crate::arith::spec_pair_key(caller, spender),
                amount,
            ),
            final(self).token.balances@ == old(self).token.balances@,
            final(self).token.total_supply == old(self).token.total_supply,
            final(self).token.spec_same_metadata(old(self).token),
            final(self).vault == old(self).vault,
            final(self).owner == old(self).owner,
    {
        self.token.approve(caller, spender, amount)
    }

    /// Raises the allowance the caller grants `spender` by `amount`.
    pub fn increase_allowance(&mut self, caller: u64, spender: u64, amount: u128) -> (r: Result<
        (),
        Error,
    >)
        ensures
            r is Err ==> *final(self) == *old(self),
            old(self).token.spec_allowance(caller, spender) + amount > u128::MAX ==> r == Err::<
                (),
                Error,
            >(Error::Overflow),
            old(self).token.spec_allowance(caller, spender) + amount <= u128::MAX ==> {
                &&& r == Ok::<(), Error>(())
                &&& final(self).token.allowances@ == old(self).token.allowances@.insert(
                    crate::arith::spec_pair_key(caller, spender),
                    (old(self).token.spec_allowance(caller, spender) + amount) as u128,
                )
                &&& final(self).token.balances@ == old(self).token.balances@
                &&& final(self).token.total_supply == old(self).token.total_supply
                &&& final(self).token.spec_same_metadata(old(self).token)
                &&& final(self).vault == old(self).vault
                &&& final(self).owner == old(self).owner
            },
    {
        let current = self.token.allowance(caller, spender);
        let new_amount = match current.checked_add(amount) {
            Some(v) => v,
            None => {
                return Err(Error::Overflow);
            },
        };
        self.token.approve(caller, spender, new_amount);
        Ok(())
    }

    /// Lowers the allowance the caller grants `spender` by `amount`.
    pub fn decrease_allowance(&mut self, caller: u64, spender: u64, amount: u128) -> (r: Result<
        (),
        Error,
    >)
        ensures
            r is Err ==> *final(self) == *old(self),
            old(self).token.spec_allowance(caller, spender) < amount ==> r == Err::<(), Error>(
                Error::InsufficientAllowance,
            ),
            old(self).token.spec_allowance(caller, spender) >= amount ==> {
                &&& r == Ok::<(), Error>(())
                &&& final(self).token.allowances@ == old(self).token.allowances@.insert(
                    crate::arith::spec_pair_key(caller, spender),
                    (old(self).token.spec_allowance(caller, spender) - amount) as u128,
                )
                &&& final(self).token.balances@ == old(self).token.balances@
                &&& final(self).token.total_supply == old(self).token.total_supply
                &&& final(self).token.spec_same_metadata(old(self).token)
                &&& final(self).vault == old(self).vault
                &&& final(self).owner == old(self).owner
            },
    {
        let current = self.token.allowance(caller, spender);
        if current < amount {
            return Err(Error::InsufficientAllowance);
        }
        self.token.approve(caller, spender, current - amount);
        Ok(())
    }
}

} // verus!
