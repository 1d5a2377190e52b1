use vstd::prelude::*;
use crate::types::{AccountId, Error, Event};
use crate::model::{
    after_approve, after_burn, after_init, after_transfer, after_transfer_from, approve_outcome,
    burn_outcome, init_outcome, seeded, sum_held, transfer_from_outcome, transfer_outcome,
    unseeded, LedgerView,
};

verus! {

/// Seeding: on an unseeded ledger `init(a)` gives `a` the whole total supply and
/// leaves the supply as it was; any later `init`, by `a` or another account, is
/// refused with `AlreadyInitialized` and changes nothing.
pub proof fn init_seeds_once(s: LedgerView, a: AccountId, b: AccountId)
    requires
        !s.initialized,
    ensures
        init_outcome(s, a) == Ok::<Event, Error>(Event::Initialized { who: a }),
        after_init(s, a).balance(a) == s.total_supply,
        after_init(s, a).total_supply == s.total_supply,
        init_outcome(after_init(s, a), b) == Err::<Event, Error>(Error::AlreadyInitialized),
        after_init(after_init(s, a), b) == after_init(s, a),
{
}

/// Conservation: a successful transfer takes exactly `v` from `a` and gives
/// exactly `v` to `b` (for `a == b` the two cancel), touches no other balance and
/// no allowance, and leaves the total supply as it was.
pub proof fn transfer_conserves(s: LedgerView, a: AccountId, b: AccountId, v: u64)
    requires
        transfer_outcome(s, a, b, v) is Ok,
    ensures
        a != b ==> after_transfer(s, a, b, v).balance(a) == s.balance(a) - v,
        a != b ==> after_transfer(s, a, b, v).balance(b) == s.balance(b) + v,
        a == b ==> after_transfer(s, a, b, v).balance(a) == s.balance(a),
        forall|c: AccountId|
            c != a && c != b ==> #[trigger] after_transfer(s, a, b, v).balance(c) == s.balance(c),
        after_transfer(s, a, b, v).total_supply == s.total_supply,
        after_transfer(s, a, b, v).allowances == s.allowances,
{
}

/// Rejection: a transfer of more than the sender holds fails with
/// `InsufficientBalance` and leaves the ledger as it was.
pub proof fn transfer_rejects_overdraft(s: LedgerView, a: AccountId, b: AccountId, v: u64)
    requires
        v > s.balance(a),
    ensures
        transfer_outcome(s, a, b, v) == Err::<Event, Error>(Error::InsufficientBalance),
        after_transfer(s, a, b, v) == s,
{
}

/// Delegation: after `approve(a, b, v)` the allowance of `b` over `a` is `v`; then
/// `transfer_from(b, a, c, v)` succeeds, moves `v` from `a` to `c` and uses the
/// allowance up. The spender must hold some balance of its own, the owner must
/// hold a nonzero balance, and `c` must be able to hold `v` more.
pub proof fn approve_then_transfer_from(s: LedgerView, a: AccountId, b: AccountId, c: AccountId, v: u64)
    requires
        a != b,
        v <= s.balance(a),
        s.balance(a) > 0,
        s.balance(b) > 0,
        s.credit_fits(a, c, v),
    ensures
        approve_outcome(s, a, b, v) == Ok::<Event, Error>(
            Event::Approved { owner: a, spender: b, value: v },
        ),
        after_approve(s, a, b, v).allowance(a, b) == v,
        transfer_from_outcome(after_approve(s, a, b, v), b, a, c, v) == Ok::<Event, Error>(
            Event::Transferred { from: a, to: c, value: v },
        ),
        a != c ==> after_transfer_from(after_approve(s, a, b, v), b, a, c, v).balance(a)
            == s.balance(a) - v,
        a != c ==> after_transfer_from(after_approve(s, a, b, v), b, a, c, v).balance(c)
            == s.balance(c) + v,
        after_transfer_from(after_approve(s, a, b, v), b, a, c, v).allowance(a, b) == 0,
{
    let s1 = after_approve(s, a, b, v);
    assert(s1.balance(a) == s.balance(a));
    assert(s1.balance(b) == s.balance(b));
    assert(s1.balance(c) == s.balance(c));
}

/// Allowance gating: without an allowance of `b` over `a`, `transfer_from(b, a, c, v)`
/// of a positive amount fails with `InsufficientAllowance` and changes nothing.
pub proof fn transfer_from_needs_allowance(s: LedgerView, a: AccountId, b: AccountId, c: AccountId, v: u64)
    requires
        s.allowance(a, b) == 0,
        v > 0,
    ensures
        transfer_from_outcome(s, b, a, c, v) == Err::<Event, Error>(Error::InsufficientAllowance),
        after_transfer_from(s, b, a, c, v) == s,
{
}

/// Burning below the balance takes `amt` off both the burner's balance and the
/// total supply, where the supply holds `amt`.
pub proof fn burn_conserves(s: LedgerView, a: AccountId, amt: u64)
    requires
        amt < s.balance(a),
        amt <= s.total_supply,
    ensures
        burn_outcome(s, a, amt) == Ok::<Event, Error>(Event::Burned { who: a, amount: amt }),
        after_burn(s, a, amt).balance(a) == s.balance(a) - amt,
        after_burn(s, a, amt).total_supply == s.total_supply - amt,
        forall|c: AccountId| c != a ==> #[trigger] after_burn(s, a, amt).balance(c) == s.balance(c),
{
}

/// Burning more than the balance fails with `NoTokenInAccount` and changes nothing.
pub proof fn burn_rejects_overdraft(s: LedgerView, a: AccountId, amt: u64)
    requires
        amt > s.balance(a),
    ensures
        burn_outcome(s, a, amt) == Err::<Event, Error>(Error::NoTokenInAccount),
        after_burn(s, a, amt) == s,
{
}

/// Taking one entry out of a finite map lowers the sum by exactly that entry.
proof fn lemma_sum_remove(m: Map<AccountId, u64>, k: AccountId)
    requires
        m.dom().finite(),
        m.contains_key(k),
    ensures
        sum_held(m) == m[k] + sum_held(m.remove(k)),
    decreases m.dom().len(),
{
    assert(m.dom().len() != 0);
    let j = m.dom().choose();
    assert(m.dom().contains(j));
    if j != k {
        assert(m.remove(j).dom() =~= m.dom().remove(j));
        assert(m.remove(k).dom() =~= m.dom().remove(k));
        lemma_sum_remove(m.remove(j), k);
        lemma_sum_remove(m.remove(k), j);
        assert(m.remove(j).remove(k) =~= m.remove(k).remove(j));
    }
}

proof fn lemma_sum_nonneg(m: Map<AccountId, u64>)
    requires
        m.dom().finite(),
    ensures
        sum_held(m) >= 0,
    decreases m.dom().len(),
{
    if m.dom().len() != 0 {
        let k = m.dom().choose();
        assert(m.dom().contains(k));
        assert(m.remove(k).dom() =~= m.dom().remove(k));
        lemma_sum_nonneg(m.remove(k));
    }
}

/// Writing `v` for `a` replaces `a`'s share of the total.
proof fn lemma_total_with_balance(s: LedgerView, a: AccountId, v: u64)
    requires
        s.balances.dom().finite(),
    ensures
        s.with_balance(a, v).balances.dom().finite(),
        s.with_balance(a, v).total_held() == s.total_held() - s.balance(a) + v,
{
    let m = s.balances;
    assert(m.insert(a, v).dom() =~= m.dom().insert(a));
    lemma_sum_remove(m.insert(a, v), a);
    assert(m.insert(a, v).remove(a) =~= m.remove(a));
    if m.contains_key(a) {
        lemma_sum_remove(m, a);
    } else {
        assert(m.remove(a) =~= m);
    }
}

/// Two distinct accounts together hold no more than all accounts.
proof fn lemma_pair_held(s: LedgerView, a: AccountId, b: AccountId)
    requires
        s.balances.dom().finite(),
    ensures
        s.balance(a) <= s.total_held(),
        a != b ==> s.balance(a) + s.balance(b) <= s.total_held(),
{
    let m = s.balances;
    lemma_sum_nonneg(m);
    if m.contains_key(a) {
        lemma_sum_remove(m, a);
        assert(m.remove(a).dom() =~= m.dom().remove(a));
        lemma_sum_nonneg(m.remove(a));
        if a != b && m.contains_key(b) {
            assert(m.remove(a).contains_key(b));
            lemma_sum_remove(m.remove(a), b);
            assert(m.remove(a).remove(b).dom() =~= m.dom().remove(a).remove(b));
            lemma_sum_nonneg(m.remove(a).remove(b));
        }
    } else if m.contains_key(b) {
        lemma_sum_remove(m, b);
        assert(m.remove(b).dom() =~= m.dom().remove(b));
        lemma_sum_nonneg(m.remove(b));
    }
}

/// A transfer and a delegated transfer move tokens between accounts: the total
/// held by all accounts stays the same.
pub proof fn moving_keeps_total_held(s: LedgerView, a: AccountId, b: AccountId, c: AccountId, v: u64)
    requires
        s.balances.dom().finite(),
    ensures
        after_transfer(s, a, b, v).total_held() == s.total_held(),
        after_transfer_from(s, c, a, b, v).total_held() == s.total_held(),
{
    if s.balance(a) >= v && s.credit_fits(a, b, v) {
        let d = s.with_balance(a, (s.balance(a) - v) as u64);
        lemma_total_with_balance(s, a, (s.balance(a) - v) as u64);
        lemma_total_with_balance(d, b, (d.balance(b) + v) as u64);
    }
}

/// A successful burn lowers the total held by exactly the amount burned, as it
/// lowers the total supply.
pub proof fn burn_lowers_total_held(s: LedgerView, a: AccountId, amt: u64)
    requires
        s.balances.dom().finite(),
        burn_outcome(s, a, amt) is Ok,
    ensures
        after_burn(s, a, amt).total_held() == s.total_held() - amt,
        after_burn(s, a, amt).total_supply == s.total_supply - amt,
{
    lemma_total_with_balance(s, a, (s.balance(a) - amt) as u64);
}

/// Both ways of seeding start within the supply bound.
pub proof fn seeding_is_supply_bounded(total_supply: u64, owner: Option<AccountId>)
    ensures
        unseeded(total_supply).supply_bounded(),
        seeded(total_supply, owner).supply_bounded(),
{
    let e = Map::<AccountId, u64>::empty();
    assert(e.dom() =~= Set::empty());
    assert(sum_held(e) == 0);
    if let Some(a) = owner {
        let m = e.insert(a, total_supply);
        assert(m.dom() =~= set![a]);
        lemma_sum_remove(m, a);
        assert(m.remove(a) =~= e);
    }
}

/// Every operation keeps the supply bound: whatever the outcome, the accounts
/// together never hold more than the total supply.
pub proof fn operations_keep_supply_bound(
    s: LedgerView,
    a: AccountId,
    b: AccountId,
    c: AccountId,
    v: u64,
)
    requires
        s.supply_bounded(),
    ensures
        after_init(s, a).supply_bounded(),
        after_transfer(s, a, b, v).supply_bounded(),
        after_approve(s, a, b, v).supply_bounded(),
        after_transfer_from(s, c, a, b, v).supply_bounded(),
        after_burn(s, a, v).supply_bounded(),
{
    lemma_total_with_balance(s, a, s.total_supply);
    lemma_pair_held(s, a, b);
    moving_keeps_total_held(s, a, b, c, v);
    lemma_total_with_balance(s, a, (s.balance(a) - v) as u64);
    let d = s.with_balance(a, (s.balance(a) - v) as u64);
    lemma_total_with_balance(d, b, (d.balance(b) + v) as u64);
    if burn_outcome(s, a, v) is Ok {
        burn_lowers_total_held(s, a, v);
    }
}

/// Within the supply bound no credit can overflow and no burn can take the
/// supply below zero.
pub proof fn supply_bound_rules_out_overflow(s: LedgerView, a: AccountId, b: AccountId, c: AccountId, v: u64)
    requires
        s.supply_bounded(),
    ensures
        transfer_outcome(s, a, b, v) != Err::<Event, Error>(Error::ArithmeticOverflow),
        transfer_from_outcome(s, c, a, b, v) != Err::<Event, Error>(Error::ArithmeticOverflow),
        burn_outcome(s, a, v) != Err::<Event, Error>(Error::NegativeTotalSupply),
{
    lemma_pair_held(s, a, b);
}

} // verus!
