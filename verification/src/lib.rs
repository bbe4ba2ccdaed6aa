//! A donation ledger: one fundraising campaign with a fixed target, a running
//! total of what it has collected, and one record per contributor id.
//!
//! The ledger keeps books; it moves no funds and reads no clock. Whoever
//! drives it has the funds moved between the two calls of an operation and
//! tells it how that ended (see `instructions`). `ledger` keeps a campaign
//! and its records together in memory, and `laws` proves what holds of them
//! over any number of operations.

pub mod errors;
pub mod events;
pub mod identity;
pub mod instructions;
pub mod laws;
pub mod ledger;
pub mod state;

pub use errors::DonateErrors;
pub use events::{DonationEvent, Receipt, TransferOutcome, WithdrawEvent};
pub use identity::Identity;
pub use instructions::{
    check_send, check_withdraw, effective_id, initialize, resolve_id, send, withdraw, RecordChoice,
};
pub use ledger::Ledger;
pub use state::{Donates, Donator, DonatorStruct, Initialize, Send, Withdraw};
