//! Fungible-token ledger shared by the stable and derivative tokens:
//! balances, allowances, and total supply, with checked arithmetic
//! throughout. The access policies (who may mint or burn) live in the
//! token wrappers; the ledger enforces only the arithmetic rules.

use vstd::prelude::*;
use vstd::hash_map::HashMapWithView;
use crate::arith::pair_key;
use crate::arith::spec_pair_key;

verus! {

broadcast use vstd::std_specs::hash::group_hash_axioms;

/// Errors on which a ledger operation reverts.
#[derive(Clone, Copy, Debug, PartialEq, Eq, Structural)]
pub enum LedgerError {
    InsufficientBalance,
    InsufficientAllowance,
    Overflow,
    Underflow,
}

/// Balance of `addr` in `balances`, zero when no entry exists.
pub open spec fn spec_balance(balances: Map<u64, u128>, addr: u64) -> u128 {
    if balances.contains_key(addr) {
        balances[addr]
    } else {
        0
    }
}

/// Token ledger state.
pub struct Ledger {
    /// Balance per address.
    pub balances: HashMapWithView<u64, u128>,
    /// Allowance per (owner, spender) pair, keyed by
    /// [`spec_pair_key`].
    pub allowances: HashMapWithView<u128, u128>,
    pub total_supply: u128,
    pub name: String,
    pub symbol: String,
    pub decimals: u8,
}

impl Ledger {
    /// Balance of `addr`.
    pub open spec fn spec_balance_of(&self, addr: u64) -> u128 {
        spec_balance(self.balances@, addr)
    }

    /// Allowance `owner` granted `spender`.
    pub open spec fn spec_allowance(&self, owner: u64, spender: u64) -> u128 {
        if self.allowances@.contains_key(spec_pair_key(owner, spender)) {
            self.allowances@[spec_pair_key(owner, spender)]
        } else {
            0
        }
    }

    /// Metadata and supply agree with `o`.
    pub open spec fn spec_same_metadata(&self, o: Self) -> bool {
        &&& self.name == o.name
        &&& self.symbol == o.symbol
        &&& self.decimals == o.decimals
    }

    /// Creates the ledger with the given metadata; a nonzero initial supply
    /// is credited to `caller`.
    pub fn init(caller: u64, symbol: String, name: String, decimals: u8, initial_supply: u128) -> (l:
        Self)
        ensures
            l.name@ == name@,
            l.symbol@ == symbol@,
            l.decimals == decimals,
            l.total_supply == initial_supply,
            initial_supply == 0 ==> l.balances@ == Map::<u64, u128>::empty(),
            initial_supply > 0 ==> l.balances@ == Map::<u64, u128>::empty().insert(
                caller,
                initial_supply,
            ),
            l.allowances@ == Map::<u128, u128>::empty(),
    {
        let mut balances: HashMapWithView<u64, u128> = HashMapWithView::new();
        if initial_supply > 0 {
            balances.insert(caller, initial_supply);
        }
        Ledger {
            balances,
            allowances: HashMapWithView::new(),
            total_supply: initial_supply,
            name,
            symbol,
            decimals,
        }
    }

    /// Creates `amount` tokens for `to`.
    pub fn raw_mint(&mut self, to: u64, amount: u128) -> (r: Result<(), LedgerError>)
        ensures
            r is Err ==> *final(self) == *old(self),
            old(self).spec_balance_of(to) + amount > u128::MAX || old(self).total_supply + amount
                > u128::MAX ==> r == Err::<(), LedgerError>(LedgerError::Overflow),
            old(self).spec_balance_of(to) + amount <= u128::MAX && old(self).total_supply + amount
                <= u128::MAX ==> {
                &&& r == Ok::<(), LedgerError>(())
                &&& final(self).balances@ == old(self).balances@.insert(
                    to,
                    (old(self).spec_balance_of(to) + amount) as u128,
                )
                &&& final(self).total_supply == old(self).total_supply + amount
                &&& final(self).allowances@ == old(self).allowances@
                &&& final(self).spec_same_metadata(*old(self))
            },
    {
        let balance = self.balance_of(to);
        let new_balance = match balance.checked_add(amount) {
            Some(v) => v,
            None => {
                return Err(LedgerError::Overflow);
            },
        };
        let new_supply = match self.total_supply.checked_add(amount) {
            Some(v) => v,
            None => {
                return Err(LedgerError::Overflow);
            },
        };
        self.balances.insert(to, new_balance);
        self.total_supply = new_supply;
        Ok(())
    }

    /// Destroys `amount` tokens of `from`.
    pub fn raw_burn(&mut self, from: u64, amount: u128) -> (r: Result<(), LedgerError>)
        ensures
            r is Err ==> *final(self) == *old(self),
            old(self).spec_balance_of(from) < amount ==> r == Err::<(), LedgerError>(
                LedgerError::InsufficientBalance,
            ),
            old(self).spec_balance_of(from) >= amount && old(self).total_supply < amount ==> r
                == Err::<(), LedgerError>(LedgerError::Underflow),
            old(self).spec_balance_of(from) >= amount && old(self).total_supply >= amount ==> {
                &&& r == Ok::<(), LedgerError>(())
                &&& final(self).balances@ == old(self).balances@.insert(
                    from,
                    (old(self).spec_balance_of(from) - amount) as u128,
                )
                &&& final(self).total_supply == old(self).total_supply - amount
                &&& final(self).allowances@ == old(self).allowances@
                &&& final(self).spec_same_metadata(*old(self))
            },
    {
        let balance = self.balance_of(from);
        if balance < amount {
            return Err(LedgerError::InsufficientBalance);
        }
        let new_supply = match self.total_supply.checked_sub(amount) {
            Some(v) => v,
            None => {
                return Err(LedgerError::Underflow);
            },
        };
        self.balances.insert(from, balance - amount);
        self.total_supply = new_supply;
        Ok(())
    }

    /// Moves `amount` tokens from `caller` to `recipient`.
    pub fn transfer(&mut self, caller: u64, recipient: u64, amount: u128) -> (r: Result<
        (),
        LedgerError,
    >)
        ensures
            r is Err ==> *final(self) == *old(self),
            old(self).spec_balance_of(caller) < amount ==> r == Err::<(), LedgerError>(
                LedgerError::InsufficientBalance,
            ),
            old(self).spec_balance_of(caller) >= amount && recipient != caller && old(
                self,
            ).spec_balance_of(recipient) + amount > u128::MAX ==> r == Err::<(), LedgerError>(
                LedgerError::Overflow,
            ),
            old(self).spec_balance_of(caller) >= amount && (recipient == caller || old(
                self,
            ).spec_balance_of(recipient) + amount <= u128::MAX) ==> {
                &&& r == Ok::<(), LedgerError>(())
                &&& final(self).balances@ == old(self).balances@.insert(
                    caller,
                    (old(self).spec_balance_of(caller) - amount) as u128,
                ).insert(
                    recipient,
                    if recipient == caller {
                        old(self).spec_balance_of(caller)
                    } else {
                        (old(self).spec_balance_of(recipient) + amount) as u128
                    },
                )
                &&& final(self).total_supply == old(self).total_supply
                &&& final(self).allowances@ == old(self).allowances@
                &&& final(self).spec_same_metadata(*old(self))
            },
    {
        let sender_balance = self.balance_of(caller);
        if sender_balance < amount {
            return Err(LedgerError::InsufficientBalance);
        }
        // Validate the recipient's new balance first: a failing call must
        // leave no trace.
        if recipient != caller {
            let recipient_balance = self.balance_of(recipient);
            match recipient_balance.checked_add(amount) {
                Some(_) => {},
                None => {
                    return Err(LedgerError::Overflow);
                },
            }
        }
        self.balances.insert(caller, sender_balance - amount);
        let recipient_balance = self.balance_of(recipient);
        let new_recipient_balance = match recipient_balance.checked_add(amount) {
            Some(v) => v,
            None => {
                proof {
                    assert(false);
                }
                0
            },
        };
        self.balances.insert(recipient, new_recipient_balance);
        Ok(())
    }

    /// Sets the allowance `owner` grants `spender`.
    pub fn approve(&mut self, owner: u64, spender: u64, amount: u128)
        ensures
            final(self).allowances@ == old(self).allowances@.insert(
                spec_pair_key(owner, spender),
                amount,
            ),
            final(self).balances@ == old(self).balances@,
            final(self).total_supply == old(self).total_supply,
            final(self).spec_same_metadata(*old(self)),
    {
        let key = pair_key(owner, spender);
        self.allowances.insert(key, amount);
    }

    /// Moves `amount` tokens from `owner` to `recipient` on `caller`'s
    /// allowance, reducing it by the moved amount.
    pub fn transfer_from(&mut self, caller: u64, owner: u64, recipient: u64, amount: u128) -> (r:
        Result<(), LedgerError>)
        ensures
            r is Err ==> *final(self) == *old(self),
            old(self).spec_allowance(owner, caller) < amount ==> r == Err::<(), LedgerError>(
                LedgerError::InsufficientAllowance,
            ),
            old(self).spec_allowance(owner, caller) >= amount && old(self).spec_balance_of(owner)
                < amount ==> r == Err::<(), LedgerError>(LedgerError::InsufficientBalance),
            old(self).spec_allowance(owner, caller) >= amount && old(self).spec_balance_of(owner)
                >= amount && recipient != owner && old(self).spec_balance_of(recipient) + amount
                > u128::MAX ==> r == Err::<(), LedgerError>(LedgerError::Overflow),
            old(self).spec_allowance(owner, caller) >= amount && old(self).spec_balance_of(owner)
                >= amount && (recipient == owner || old(self).spec_balance_of(recipient) + amount
                <= u128::MAX) ==> {
                &&& r == Ok::<(), LedgerError>(())
                &&& final(self).balances@ == old(self).balances@.insert(
                    owner,
                    (old(self).spec_balance_of(owner) - amount) as u128,
                ).insert(
                    recipient,
                    if recipient == owner {
                        old(self).spec_balance_of(owner)
                    } else {
                        (old(self).spec_balance_of(recipient) + amount) as u128
                    },
                )
                &&& final(self).allowances@ == old(self).allowances@.insert(
                    spec_pair_key(owner, caller),
                    (old(self).spec_allowance(owner, caller) - amount) as u128,
                )
                &&& final(self).total_supply == old(self).total_supply
                &&& final(self).spec_same_metadata(*old(self))
            },
    {
        let allowance = self.allowance(owner, caller);
        if allowance < amount {
            return Err(LedgerError::InsufficientAllowance);
        }
        match self.transfer(owner, recipient, amount) {
            Ok(()) => {},
            Err(e) => {
                return Err(e);
            },
        }
        let key = pair_key(owner, caller);
        self.allowances.insert(key, allowance - amount);
        Ok(())
    }

    /// Balance of `addr`.
    pub fn balance_of(&self, addr: u64) -> (r: u128)
        ensures
            r == self.spec_balance_of(addr),
    {
        match self.balances.get(&addr) {
            Some(v) => *v,
            None => 0,
        }
    }

    /// Allowance `owner` granted `spender`.
    pub fn allowance(&self, owner: u64, spender: u64) -> (r: u128)
        ensures
            r == self.spec_allowance(owner, spender),
    {
        let key = pair_key(owner, spender);
        match self.allowances.get(&key) {
            Some(v) => *v,
            None => 0,
        }
    }

    /// Number of tokens in existence.
    pub fn get_total_supply(&self) -> (r: u128)
        ensures
            r == self.total_supply,
    {
        self.total_supply
    }

    /// Token name.
    pub fn get_name(&self) -> (r: String)
        ensures
            r@ == self.name@,
    {
        self.name.clone()
    }

    /// Token symbol.
    pub fn get_symbol(&self) -> (r: String)
        ensures
            r@ == self.symbol@,
    {
        self.symbol.clone()
    }

    /// Number of implicit decimals.
    pub fn get_decimals(&self) -> (r: u8)
        ensures
            r == self.decimals,
    {
        self.decimals
    }
}

} // verus!
