//! Accounting and authorization rules of a marketplace for skills.
//!
//! Creators list skills at a fixed price. A buyer pays the price, which is
//! split between the creator and the platform's treasury at the fee rate of
//! the configuration, and holds a receipt from then on. One administrator
//! sets the treasury and the fee rate.
//!
//! - [`identity`], [`state`], [`events`], [`error`]: the parties, the
//!   records, the notifications and the failures.
//! - [`fee`]: the split of a price into fee and creator's amount.
//! - [`instructions`]: the six operations, each on the records it is handed.
//! - [`address`]: the addresses under which the records are stored.
//! - [`layout`]: the room that the records take.
//! - [`balances`], [`ledger`]: the balances of the parties, and a ledger
//!   that holds all records and applies each operation as a whole.
//! - [`model`], [`laws`]: what a ledger holds, what each operation makes of
//!   it, and what holds of every ledger.
//! - [`table`]: sequences without repeated keys, read as maps.

pub mod address;
pub mod balances;
pub mod error;
pub mod events;
pub mod fee;
pub mod identity;
pub mod instructions;
pub mod laws;
pub mod layout;
pub mod ledger;
pub mod model;
pub mod state;
pub mod table;
