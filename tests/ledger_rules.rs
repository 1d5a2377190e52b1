use erc20::{AccountId, Config, Error, Event, GenesisConfig, Pallet, TOTAL_SUPPLY_DEFAULT};

const ALICE: AccountId = 1;
const BOB: AccountId = 2;
const CHARLIE: AccountId = 3;

fn initialized_by_alice() -> Pallet {
    let mut ledger = Pallet::new(&Config::ExplicitInit);
    assert_eq!(ledger.init(ALICE), Ok(Event::Initialized { who: ALICE }));
    ledger
}

#[test]
fn fresh_ledger_is_empty_with_default_supply() {
    let ledger = Pallet::new(&Config::ExplicitInit);
    assert!(!ledger.is_initialized());
    assert_eq!(ledger.total_supply(), 20_000_000);
    assert_eq!(ledger.balance_of(ALICE), 0);
    assert_eq!(ledger.allowance(ALICE, BOB), 0);
}

#[test]
fn init_seeds_caller_once() {
    let mut ledger = initialized_by_alice();
    assert!(ledger.is_initialized());
    assert_eq!(ledger.balance_of(ALICE), 20_000_000);
    assert_eq!(ledger.total_supply(), 20_000_000);
    assert_eq!(ledger.init(ALICE), Err(Error::AlreadyInitialized));
    assert_eq!(ledger.init(BOB), Err(Error::AlreadyInitialized));
    assert_eq!(ledger.balance_of(ALICE), 20_000_000);
    assert_eq!(ledger.balance_of(BOB), 0);
    assert_eq!(ledger.total_supply(), 20_000_000);
}

#[test]
fn genesis_counts_as_seeding() {
    let mut ledger = GenesisConfig { total_supply: 500, supply_owner: Some(BOB) }.build();
    assert_eq!(ledger.balance_of(BOB), 500);
    assert_eq!(ledger.total_supply(), 500);
    assert_eq!(ledger.init(ALICE), Err(Error::AlreadyInitialized));
    assert_eq!(ledger.balance_of(ALICE), 0);
}

#[test]
fn genesis_without_owner_seeds_no_account() {
    let ledger = GenesisConfig { total_supply: 700, supply_owner: None }.build();
    assert_eq!(ledger.total_supply(), 700);
    assert_eq!(ledger.balance_of(ALICE), 0);
    assert!(ledger.is_initialized());
}

#[test]
fn default_genesis_config() {
    let config = GenesisConfig::default();
    assert_eq!(config.total_supply, TOTAL_SUPPLY_DEFAULT);
    assert!(config.supply_owner.is_none());
    let ledger = config.build();
    assert_eq!(ledger.total_supply(), 20_000_000);
}

#[test]
fn transfer_conserves_balances_and_supply() {
    let mut ledger = initialized_by_alice();
    assert_eq!(ledger.transfer(ALICE, BOB, 1234), Ok(Event::Transferred { from: ALICE, to: BOB, value: 1234 }));
    assert_eq!(ledger.balance_of(ALICE), 20_000_000 - 1234);
    assert_eq!(ledger.balance_of(BOB), 1234);
    assert_eq!(ledger.balance_of(CHARLIE), 0);
    assert_eq!(ledger.total_supply(), 20_000_000);
}

#[test]
fn transfer_to_self_keeps_balance() {
    let mut ledger = initialized_by_alice();
    assert!(ledger.transfer(ALICE, ALICE, 5000).is_ok());
    assert_eq!(ledger.balance_of(ALICE), 20_000_000);
}

#[test]
fn transfer_may_drain_exact_balance() {
    let mut ledger = initialized_by_alice();
    assert!(ledger.transfer(ALICE, BOB, 200).is_ok());
    assert!(ledger.transfer(BOB, CHARLIE, 200).is_ok());
    assert_eq!(ledger.balance_of(BOB), 0);
    assert_eq!(ledger.balance_of(CHARLIE), 200);
}

#[test]
fn transfer_over_balance_is_rejected() {
    let mut ledger = initialized_by_alice();
    assert!(ledger.transfer(ALICE, BOB, 200).is_ok());
    assert_eq!(ledger.transfer(BOB, CHARLIE, 201), Err(Error::InsufficientBalance));
    assert_eq!(ledger.balance_of(BOB), 200);
    assert_eq!(ledger.balance_of(CHARLIE), 0);
    assert_eq!(ledger.transfer(CHARLIE, BOB, 1), Err(Error::InsufficientBalance));
}

#[test]
fn approve_sets_and_replaces_allowance() {
    let mut ledger = initialized_by_alice();
    assert_eq!(ledger.approve(ALICE, BOB, 300), Ok(Event::Approved { owner: ALICE, spender: BOB, value: 300 }));
    assert_eq!(ledger.allowance(ALICE, BOB), 300);
    assert!(ledger.approve(ALICE, BOB, 100).is_ok());
    assert_eq!(ledger.allowance(ALICE, BOB), 100);
    assert_eq!(ledger.allowance(BOB, ALICE), 0);
    assert_eq!(ledger.allowance(ALICE, CHARLIE), 0);
}

#[test]
fn approve_self_is_rejected() {
    let mut ledger = initialized_by_alice();
    assert_eq!(ledger.approve(ALICE, ALICE, 10), Err(Error::InvalidApprover));
    assert_eq!(ledger.allowance(ALICE, ALICE), 0);
}

#[test]
fn approve_over_balance_is_rejected() {
    let mut ledger = initialized_by_alice();
    assert_eq!(ledger.approve(ALICE, BOB, 20_000_001), Err(Error::InsufficientBalance));
    assert_eq!(ledger.allowance(ALICE, BOB), 0);
    assert!(ledger.approve(ALICE, BOB, 20_000_000).is_ok());
}

#[test]
fn delegated_transfer_scenario() {
    let mut ledger = initialized_by_alice();
    assert_eq!(ledger.balance_of(ALICE), 20_000_000);
    assert!(ledger.transfer(ALICE, BOB, 200).is_ok());
    assert_eq!(ledger.balance_of(ALICE), 19_999_800);
    assert_eq!(ledger.balance_of(BOB), 200);
    assert!(ledger.approve(ALICE, BOB, 200).is_ok());
    assert_eq!(ledger.allowance(ALICE, BOB), 200);
    assert_eq!(
        ledger.transfer_from(BOB, ALICE, CHARLIE, 200),
        Ok(Event::Transferred { from: ALICE, to: CHARLIE, value: 200 })
    );
    assert_eq!(ledger.balance_of(ALICE), 19_999_600);
    assert_eq!(ledger.balance_of(CHARLIE), 200);
    assert_eq!(ledger.balance_of(BOB), 200);
    assert_eq!(ledger.allowance(ALICE, BOB), 0);
    assert_eq!(ledger.total_supply(), 20_000_000);
}

#[test]
fn transfer_from_without_approval_changes_nothing() {
    let mut ledger = initialized_by_alice();
    assert!(ledger.transfer(ALICE, BOB, 200).is_ok());
    assert_eq!(ledger.transfer_from(BOB, ALICE, CHARLIE, 50), Err(Error::InsufficientAllowance));
    assert_eq!(ledger.balance_of(ALICE), 19_999_800);
    assert_eq!(ledger.balance_of(CHARLIE), 0);
    assert_eq!(ledger.allowance(ALICE, BOB), 0);
}

#[test]
fn transfer_from_over_allowance_is_rejected() {
    let mut ledger = initialized_by_alice();
    assert!(ledger.transfer(ALICE, BOB, 10).is_ok());
    assert!(ledger.approve(ALICE, BOB, 100).is_ok());
    assert_eq!(ledger.transfer_from(BOB, ALICE, CHARLIE, 101), Err(Error::InsufficientAllowance));
    assert_eq!(ledger.allowance(ALICE, BOB), 100);
    assert!(ledger.transfer_from(BOB, ALICE, CHARLIE, 60).is_ok());
    assert_eq!(ledger.allowance(ALICE, BOB), 40);
    assert_eq!(ledger.balance_of(CHARLIE), 60);
}

#[test]
fn transfer_from_over_owner_balance_is_rejected() {
    let mut ledger = initialized_by_alice();
    assert!(ledger.transfer(ALICE, BOB, 100).is_ok());
    assert!(ledger.approve(BOB, ALICE, 100).is_ok());
    assert!(ledger.transfer(BOB, CHARLIE, 50).is_ok());
    assert_eq!(ledger.transfer_from(ALICE, BOB, CHARLIE, 80), Err(Error::InsufficientBalance));
    assert_eq!(ledger.balance_of(BOB), 50);
    assert_eq!(ledger.allowance(BOB, ALICE), 100);
}

#[test]
fn transfer_from_empty_owner_is_rejected() {
    let mut ledger = initialized_by_alice();
    assert_eq!(ledger.transfer_from(ALICE, BOB, CHARLIE, 0), Err(Error::InsufficientBalance));
}

#[test]
fn burn_below_balance_lowers_supply() {
    let mut ledger = initialized_by_alice();
    assert_eq!(ledger.burn(ALICE, 1000), Ok(Event::Burned { who: ALICE, amount: 1000 }));
    assert_eq!(ledger.balance_of(ALICE), 19_999_000);
    assert_eq!(ledger.total_supply(), 19_999_000);
}

#[test]
fn burn_over_balance_is_rejected() {
    let mut ledger = initialized_by_alice();
    assert!(ledger.transfer(ALICE, BOB, 200).is_ok());
    assert_eq!(ledger.burn(BOB, 201), Err(Error::NoTokenInAccount));
    assert_eq!(ledger.balance_of(BOB), 200);
    assert_eq!(ledger.total_supply(), 20_000_000);
}

#[test]
fn burn_may_drain_exact_balance() {
    let mut ledger = initialized_by_alice();
    assert!(ledger.transfer(ALICE, BOB, 200).is_ok());
    assert!(ledger.burn(BOB, 200).is_ok());
    assert_eq!(ledger.balance_of(BOB), 0);
    assert_eq!(ledger.total_supply(), 19_999_800);
}
