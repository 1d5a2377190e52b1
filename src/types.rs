use vstd::prelude::*;

verus! {

/// Opaque identifier of a ledger participant.
pub type AccountId = u64;

/// Total supply of a ledger that is seeded by an explicit `init`, and of a
/// bootstrap configuration that names no supply.
pub const TOTAL_SUPPLY_DEFAULT: u64 = 20_000_000;

/// Notifications that a successful operation hands to the event sink.
#[derive(Clone, Copy, Debug, PartialEq, Eq, Structural)]
pub enum Event {
    Transferred { from: AccountId, to: AccountId, value: u64 },
    Approved { owner: AccountId, spender: AccountId, value: u64 },
    Initialized { who: AccountId },
    Burned { who: AccountId, amount: u64 },
}

/// Reasons for which an operation is rejected; a rejected operation writes nothing.
#[derive(Clone, Copy, Debug, PartialEq, Eq, Structural)]
pub enum Error {
    InsufficientBalance,
    InvalidSender,
    InvalidReceiver,
    InsufficientAllowance,
    InvalidApprover,
    InvalidSpender,
    AlreadyInitialized,
    NoTokenInAccount,
    NegativeTotalSupply,
    ArithmeticOverflow,
}

} // verus!
