//! A two-party token-swap escrow. An initializer deposits one asset in a
//! holding slot whose authority passes to a custodian address derived from
//! the program; a taker later pays the asked counter-asset and receives the
//! deposit in the same transition. The library decides each transition:
//! it checks the accounts it is handed and answers with the record to store
//! and the ledger calls to make, or with the first check that failed.
pub mod error;
pub mod guarantees;
pub mod instruction;
pub mod ledger;
pub mod processor;
pub mod state;
