use vstd::prelude::*;
use std::collections::HashMap;
use crate::types::{AccountId, Error, Event, TOTAL_SUPPLY_DEFAULT};
use crate::model::{
    after_approve, after_burn, after_init, after_transfer, after_transfer_from, approve_outcome,
    burn_outcome, init_outcome, seeded, transfer_from_outcome, transfer_outcome, unseeded,
    LedgerView,
};

verus! {

broadcast use vstd::std_specs::hash::group_hash_axioms;

/// `current - amount`, or `shortfall` where that would fall below zero.
fn checked_debit(current: u64, amount: u64, shortfall: Error) -> (r: Result<u64, Error>)
    ensures
        match r {
            Ok(v) => current >= amount && v == current - amount,
            Err(e) => current < amount && e == shortfall,
        },
{
    match current.checked_sub(amount) {
        Some(v) => Ok(v),
        None => Err(shortfall),
    }
}

/// `current + amount`, or `ArithmeticOverflow` where that leaves `u64`.
fn checked_credit(current: u64, amount: u64) -> (r: Result<u64, Error>)
    ensures
        match r {
            Ok(v) => current + amount <= u64::MAX && v == current + amount,
            Err(e) => current + amount > u64::MAX && e == Error::ArithmeticOverflow,
        },
{
    match current.checked_add(amount) {
        Some(v) => Ok(v),
        None => Err(Error::ArithmeticOverflow),
    }
}

/// Bootstrap seeding: the total supply, and the account that receives all of
/// it, if one is named.
#[derive(Clone, Copy, Debug)]
pub struct GenesisConfig {
    pub total_supply: u64,
    pub supply_owner: Option<AccountId>,
}

impl Default for GenesisConfig {
    fn default() -> (r: GenesisConfig)
        ensures
            r.total_supply == TOTAL_SUPPLY_DEFAULT,
            r.supply_owner is None,
    {
        GenesisConfig { total_supply: TOTAL_SUPPLY_DEFAULT, supply_owner: None }
    }
}

impl GenesisConfig {
    /// The ledger as this configuration seeds it; seeding has then happened,
    /// so a later `init` is refused.
    pub fn build(&self) -> (r: Pallet)
        ensures
            r@ == seeded(self.total_supply, self.supply_owner),
    {
        let mut balances = HashMap::new();
        match self.supply_owner {
            Some(owner) => {
                balances.insert(owner, self.total_supply);
            },
            None => {},
        }
        let r = Pallet {
            balances,
            allowances: HashMap::new(),
            total_supply: self.total_supply,
            initialized: true,
        };
        proof {
            assert(r@.allowances =~= Map::empty());
            assert(r@.balances =~= seeded(self.total_supply, self.supply_owner).balances);
        }
        r
    }
}

/// How a ledger is seeded: by one explicit `init` of the default supply, or at
/// bootstrap from a `GenesisConfig`.
#[derive(Clone, Copy, Debug)]
pub enum Config {
    ExplicitInit,
    Genesis(GenesisConfig),
}

/// The ledger: balances, allowances, total supply and the seeding guard.
pub struct Pallet {
    balances: HashMap<AccountId, u64>,
    allowances: HashMap<AccountId, HashMap<AccountId, u64>>,
    total_supply: u64,
    initialized: bool,
}

impl View for Pallet {
    type V = LedgerView;

    closed spec fn view(&self) -> LedgerView {
        LedgerView {
            balances: self.balances@,
            allowances: Map::new(
                |k: (AccountId, AccountId)|
                    self.allowances@.contains_key(k.0) && self.allowances@[k.0]@.contains_key(k.1),
                |k: (AccountId, AccountId)| self.allowances@[k.0]@[k.1],
            ),
            total_supply: self.total_supply,
            initialized: self.initialized,
        }
    }
}

impl Pallet {
    /// A ledger seeded as `config` says.
    pub fn new(config: &Config) -> (r: Pallet)
        ensures
            r@ == match *config {
                Config::ExplicitInit => unseeded(TOTAL_SUPPLY_DEFAULT),
                Config::Genesis(g) => seeded(g.total_supply, g.supply_owner),
            },
    {
        match config {
            Config::ExplicitInit => {
                let r = Pallet {
                    balances: HashMap::new(),
                    allowances: HashMap::new(),
                    total_supply: TOTAL_SUPPLY_DEFAULT,
                    initialized: false,
                };
                proof {
                    assert(r@.allowances =~= Map::empty());
                }
                r
            },
            Config::Genesis(g) => g.build(),
        }
    }

    pub fn total_supply(&self) -> (r: u64)
        ensures
            r == self@.total_supply,
    {
        self.total_supply
    }

    /// Whether the ledger has been seeded.
    pub fn is_initialized(&self) -> (r: bool)
        ensures
            r == self@.initialized,
    {
        self.initialized
    }

    /// The balance of `account`, zero for an account never written.
    pub fn balance_of(&self, account: AccountId) -> (r: u64)
        ensures
            r == self@.balance(account),
    {
        match self.balances.get(&account) {
            Some(v) => *v,
            None => 0,
        }
    }

    /// What `spender` may still move out of `owner`'s balance.
    pub fn allowance(&self, owner: AccountId, spender: AccountId) -> (r: u64)
        ensures
            r == self@.allowance(owner, spender),
    {
        match self.allowances.get(&owner) {
            Some(inner) => match inner.get(&spender) {
                Some(v) => *v,
                None => 0,
            },
            None => 0,
        }
    }

    fn write_balance(&mut self, account: AccountId, v: u64)
        ensures
            final(self)@ == old(self)@.with_balance(account, v),
    {
        self.balances.insert(account, v);
        proof {
            assert(self@.allowances =~= old(self)@.allowances);
        }
    }

    fn write_allowance(&mut self, owner: AccountId, spender: AccountId, v: u64)
        ensures
            final(self)@ == old(self)@.with_allowance(owner, spender, v),
    {
        let mut inner = match self.allowances.remove(&owner) {
            Some(m) => m,
            None => HashMap::new(),
        };
        inner.insert(spender, v);
        self.allowances.insert(owner, inner);
        proof {
            assert(self@.allowances =~= old(self)@.allowances.insert((owner, spender), v));
        }
    }

    /// Moves `value` from `from` to `to` when `from` covers it and `to` can hold
    /// it; checks first, then writes both balances, or writes nothing.
    fn transfer_balances(&mut self, from: AccountId, to: AccountId, value: u64) -> (r: Result<(), Error>)
        ensures
            match transfer_outcome(old(self)@, from, to, value) {
                Ok(_) => r == Ok::<(), Error>(()),
                Err(e) => r == Err::<(), Error>(e),
            },
            final(self)@ == after_transfer(old(self)@, from, to, value),
    {
        let from_balance = self.balance_of(from);
        let new_from_balance = match checked_debit(from_balance, value, Error::InsufficientBalance) {
            Ok(b) => b,
            Err(e) => return Err(e),
        };
        let to_balance = if from == to {
            new_from_balance
        } else {
            self.balance_of(to)
        };
        let new_to_balance = match checked_credit(to_balance, value) {
            Ok(b) => b,
            Err(e) => return Err(e),
        };
        self.write_balance(from, new_from_balance);
        self.write_balance(to, new_to_balance);
        Ok(())
    }

    /// Moves `value` from the caller's balance to `to`.
    pub fn transfer(&mut self, caller: AccountId, to: AccountId, value: u64) -> (r: Result<Event, Error>)
        ensures
            r == transfer_outcome(old(self)@, caller, to, value),
            final(self)@ == after_transfer(old(self)@, caller, to, value),
    {
        match self.transfer_balances(caller, to, value) {
            Ok(()) => Ok(Event::Transferred { from: caller, to, value }),
            Err(e) => Err(e),
        }
    }

    /// Lets `spender` move up to `value` out of the caller's balance, replacing
    /// any earlier allowance of that pair.
    pub fn approve(&mut self, caller: AccountId, spender: AccountId, value: u64) -> (r: Result<Event, Error>)
        ensures
            r == approve_outcome(old(self)@, caller, spender, value),
            final(self)@ == after_approve(old(self)@, caller, spender, value),
    {
        if spender == caller {
            return Err(Error::InvalidApprover);
        }
        if self.balance_of(caller) < value {
            return Err(Error::InsufficientBalance);
        }
        self.write_allowance(caller, spender, value);
        Ok(Event::Approved { owner: caller, spender, value })
    }

    /// The caller, as spender, moves `value` out of `from`'s balance to `to`,
    /// using up that much of the allowance `from` gave the caller.
    pub fn transfer_from(
        &mut self,
        caller: AccountId,
        from: AccountId,
        to: AccountId,
        value: u64,
    ) -> (r: Result<Event, Error>)
        ensures
            r == transfer_from_outcome(old(self)@, caller, from, to, value),
            final(self)@ == after_transfer_from(old(self)@, caller, from, to, value),
    {
        if self.balance_of(caller) == 0 {
            return Err(Error::InsufficientAllowance);
        }
        let allowed = self.allowance(from, caller);
        let remaining = match checked_debit(allowed, value, Error::InsufficientAllowance) {
            Ok(a) => a,
            Err(e) => return Err(e),
        };
        if self.balance_of(from) == 0 {
            return Err(Error::InsufficientBalance);
        }
        match self.transfer_balances(from, to, value) {
            Ok(()) => {},
            Err(e) => return Err(e),
        }
        self.write_allowance(from, caller, remaining);
        Ok(Event::Transferred { from, to, value })
    }

    /// Destroys `amount` of `who`'s tokens, taking them off the total supply too.
    pub fn burn(&mut self, who: AccountId, amount: u64) -> (r: Result<Event, Error>)
        ensures
            r == burn_outcome(old(self)@, who, amount),
            final(self)@ == after_burn(old(self)@, who, amount),
    {
        let balance = self.balance_of(who);
        let new_balance = match checked_debit(balance, amount, Error::NoTokenInAccount) {
            Ok(b) => b,
            Err(e) => return Err(e),
        };
        let new_total_supply = match checked_debit(self.total_supply, amount, Error::NegativeTotalSupply) {
            Ok(t) => t,
            Err(e) => return Err(e),
        };
        self.write_balance(who, new_balance);
        self.total_supply = new_total_supply;
        Ok(Event::Burned { who, amount })
    }

    /// The one explicit seeding: the caller receives the whole total supply.
    pub fn init(&mut self, caller: AccountId) -> (r: Result<Event, Error>)
        ensures
            r == init_outcome(old(self)@, caller),
            final(self)@ == after_init(old(self)@, caller),
    {
        if self.initialized {
            return Err(Error::AlreadyInitialized);
        }
        let supply = self.total_supply;
        self.write_balance(caller, supply);
        self.initialized = true;
        Ok(Event::Initialized { who: caller })
    }
}

} // verus!
