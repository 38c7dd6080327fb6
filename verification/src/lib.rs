//! A custodial escrow engine.
//!
//! The engine takes exclusive, time-bounded custody of value deposited by one
//! party and releases it only when a declared set of conditions holds
//! (amount matching, counterparty identity, time window, prior state);
//! otherwise the value is returned unharmed to its depositor.
//!
//! The custodian of a vault is a derived authority: an address computed from
//! a seed tuple under a program's namespace, with no corresponding private
//! key.  Every state transition is gated by an ordered list of predicates
//! evaluated before any balance moves, and an explicit finite state machine
//! tracks the escrow lifecycle.
//!
//! The surrounding ledger (account storage, the transfer execution service,
//! and the clock) is out of scope: callers hand the engine the current
//! logical time and the balances of the accounts an instruction names, and
//! receive the updated record and balances back.  Every operation either
//! completes fully or returns an error and leaves record and balances
//! unchanged.

pub mod account;
pub mod engine;
pub mod errors;
pub mod laws;
pub mod layout;
pub mod pda;
pub mod state;
pub mod timelock;
pub mod validate;
