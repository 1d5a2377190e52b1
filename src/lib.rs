//! A fungible-token ledger: per-account balances, a total supply and delegated
//! spending allowances, changed only by all-or-nothing operations whose effects
//! are stated over an abstract view of the ledger.

pub mod types;
pub mod model;
pub mod ledger;
pub mod laws;

pub use types::{AccountId, Error, Event, TOTAL_SUPPLY_DEFAULT};
pub use model::LedgerView;
pub use ledger::{Config, GenesisConfig, Pallet};
