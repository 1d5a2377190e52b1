use vstd::prelude::*;
use crate::types::{AccountId, Error, Event};

verus! {

/// The ledger as a mathematical value.
///
/// `balances` and `allowances` hold the entries that have been written; an
/// account or a pair without an entry reads as zero.
pub struct LedgerView {
    pub balances: Map<AccountId, u64>,
    pub allowances: Map<(AccountId, AccountId), u64>,
    pub total_supply: u64,
    pub initialized: bool,
}

impl LedgerView {
    /// The balance of `a`, zero where nothing was ever written.
    pub open spec fn balance(self, a: AccountId) -> u64 {
        if self.balances.contains_key(a) {
            self.balances[a]
        } else {
            0
        }
    }

    /// What `spender` may still move out of `owner`'s balance.
    pub open spec fn allowance(self, owner: AccountId, spender: AccountId) -> u64 {
        if self.allowances.contains_key((owner, spender)) {
            self.allowances[(owner, spender)]
        } else {
            0
        }
    }

    pub open spec fn with_balance(self, a: AccountId, v: u64) -> LedgerView {
        LedgerView { balances: self.balances.insert(a, v), ..self }
    }

    pub open spec fn with_allowance(self, owner: AccountId, spender: AccountId, v: u64) -> LedgerView {
        LedgerView { allowances: self.allowances.insert((owner, spender), v), ..self }
    }

    /// `value` taken from `from`, then given to `to`; for `from == to` the
    /// balance ends where it started.
    pub open spec fn moved(self, from: AccountId, to: AccountId, value: u64) -> LedgerView {
        let debited = self.with_balance(from, (self.balance(from) - value) as u64);
        debited.with_balance(to, (debited.balance(to) + value) as u64)
    }

    /// Whether giving `value` to `to` after taking it from `from` stays within `u64`.
    pub open spec fn credit_fits(self, from: AccountId, to: AccountId, value: u64) -> bool {
        from == to || self.balance(to) + value <= u64::MAX
    }
}

/// The sum of all balances held in `m`.
pub open spec fn sum_held(m: Map<AccountId, u64>) -> int
    decreases m.dom().len(),
    when m.dom().finite()
    via sum_held_decreases
{
    if m.dom().len() == 0 {
        0
    } else {
        let k = m.dom().choose();
        m[k] + sum_held(m.remove(k))
    }
}

#[via_fn]
proof fn sum_held_decreases(m: Map<AccountId, u64>) {
    if m.dom().len() != 0 {
        let k = m.dom().choose();
        assert(m.dom().contains(k));
        assert(m.remove(k).dom() =~= m.dom().remove(k));
    }
}

impl LedgerView {
    /// All tokens held by accounts together.
    pub open spec fn total_held(self) -> int {
        sum_held(self.balances)
    }

    /// The supply bound: finitely many entries, together holding no more than
    /// the total supply, and nothing at all before seeding.
    pub open spec fn supply_bounded(self) -> bool {
        &&& self.balances.dom().finite()
        &&& self.total_held() <= self.total_supply
        &&& !self.initialized ==> self.total_held() == 0
    }
}

/// The sufficiency rule shared by every operation: a holding covers an amount
/// when it is at least that amount, so an account may be drained to zero.
pub open spec fn covers(held: u64, amount: u64) -> bool {
    held >= amount
}

/// A ledger awaiting its one explicit `init`: no entries, the given supply.
pub open spec fn unseeded(total_supply: u64) -> LedgerView {
    LedgerView {
        balances: Map::empty(),
        allowances: Map::empty(),
        total_supply,
        initialized: false,
    }
}

/// A ledger seeded at bootstrap: the supply, held whole by the owner if one is named.
pub open spec fn seeded(total_supply: u64, owner: Option<AccountId>) -> LedgerView {
    LedgerView {
        balances: match owner {
            Some(a) => Map::empty().insert(a, total_supply),
            None => Map::empty(),
        },
        allowances: Map::empty(),
        total_supply,
        initialized: true,
    }
}

pub open spec fn init_outcome(s: LedgerView, caller: AccountId) -> Result<Event, Error> {
    if s.initialized {
        Err(Error::AlreadyInitialized)
    } else {
        Ok(Event::Initialized { who: caller })
    }
}

pub open spec fn after_init(s: LedgerView, caller: AccountId) -> LedgerView {
    if init_outcome(s, caller) is Ok {
        LedgerView { initialized: true, ..s.with_balance(caller, s.total_supply) }
    } else {
        s
    }
}

pub open spec fn transfer_outcome(
    s: LedgerView,
    from: AccountId,
    to: AccountId,
    value: u64,
) -> Result<Event, Error> {
    if !covers(s.balance(from), value) {
        Err(Error::InsufficientBalance)
    } else if !s.credit_fits(from, to, value) {
        Err(Error::ArithmeticOverflow)
    } else {
        Ok(Event::Transferred { from, to, value })
    }
}

pub open spec fn after_transfer(s: LedgerView, from: AccountId, to: AccountId, value: u64) -> LedgerView {
    if transfer_outcome(s, from, to, value) is Ok {
        s.moved(from, to, value)
    } else {
        s
    }
}

pub open spec fn approve_outcome(
    s: LedgerView,
    owner: AccountId,
    spender: AccountId,
    value: u64,
) -> Result<Event, Error> {
    if spender == owner {
        Err(Error::InvalidApprover)
    } else if !covers(s.balance(owner), value) {
        Err(Error::InsufficientBalance)
    } else {
        Ok(Event::Approved { owner, spender, value })
    }
}

pub open spec fn after_approve(s: LedgerView, owner: AccountId, spender: AccountId, value: u64) -> LedgerView {
    if approve_outcome(s, owner, spender, value) is Ok {
        s.with_allowance(owner, spender, value)
    } else {
        s
    }
}

/// A delegated transfer by `spender` of `value` out of `owner`'s balance to `to`.
pub open spec fn transfer_from_outcome(
    s: LedgerView,
    spender: AccountId,
    owner: AccountId,
    to: AccountId,
    value: u64,
) -> Result<Event, Error> {
    if s.balance(spender) == 0 {
        Err(Error::InsufficientAllowance)
    } else if !covers(s.allowance(owner, spender), value) {
        Err(Error::InsufficientAllowance)
    } else if s.balance(owner) == 0 || !covers(s.balance(owner), value) {
        Err(Error::InsufficientBalance)
    } else if !s.credit_fits(owner, to, value) {
        Err(Error::ArithmeticOverflow)
    } else {
        Ok(Event::Transferred { from: owner, to, value })
    }
}

pub open spec fn after_transfer_from(
    s: LedgerView,
    spender: AccountId,
    owner: AccountId,
    to: AccountId,
    value: u64,
) -> LedgerView {
    if transfer_from_outcome(s, spender, owner, to, value) is Ok {
        s.moved(owner, to, value).with_allowance(
            owner,
            spender,
            (s.allowance(owner, spender) - value) as u64,
        )
    } else {
        s
    }
}

pub open spec fn burn_outcome(s: LedgerView, who: AccountId, amount: u64) -> Result<Event, Error> {
    if !covers(s.balance(who), amount) {
        Err(Error::NoTokenInAccount)
    } else if s.total_supply < amount {
        Err(Error::NegativeTotalSupply)
    } else {
        Ok(Event::Burned { who, amount })
    }
}

pub open spec fn after_burn(s: LedgerView, who: AccountId, amount: u64) -> LedgerView {
    if burn_outcome(s, who, amount) is Ok {
        LedgerView {
            total_supply: (s.total_supply - amount) as u64,
            ..s.with_balance(who, (s.balance(who) - amount) as u64)
        }
    } else {
        s
    }
}

} // verus!
