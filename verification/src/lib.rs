//! A token ledger with a faucet that pays out to accounts an oracle has verified as human.
//!
//! The library holds the rules and does no input or output of its own: it neither reads the
//! caller or the clock, nor reaches the oracle, nor emits events. Whoever drives it hands
//! these in as values and takes the events to emit back.

pub mod account;
pub mod balances;
pub mod dapp;
pub mod error;
pub mod event;
pub mod gate;
pub mod laws;
pub mod ledger;
pub mod state;

pub use account::AccountId;
pub use balances::Balance;
pub use dapp::Dapp;
pub use error::{Error, OracleFailure};
pub use event::Transfer;
pub use gate::{OracleQuery, OracleReply, Timestamp, VerificationRecord, FRESHNESS_WINDOW_MS};
pub use ledger::Ledger;
pub use state::DappState;
