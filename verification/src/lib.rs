//! An oracle request/response ledger.
//!
//! External requesters post data requests together with an escrowed reward;
//! a permissioned set of operators fulfills requests by reporting results and
//! claiming the escrow.  The crate verifies the request lifecycle state
//! machine (`Unknown -> Open -> Fulfilled`), the operator access control and
//! the exact escrow instructions handed to the ledger: a request is paid at
//! most once, payment flows only to the authorized reporter, and a rejected
//! call leaves every component unchanged.
//!
//! The balance ledger and the time source are collaborators supplied by the
//! embedder through the [`ledger::EscrowLedger`] and [`clock::Clock`] traits;
//! [`ledger::InMemoryLedger`] and [`clock::FixedClock`] are verified
//! implementations for hosts that keep balances in memory.

pub mod allocator;
pub mod clock;
pub mod ledger;
pub mod pallet;
pub mod registry;
pub mod store;
pub mod types;
