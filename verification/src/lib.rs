//! Custodial escrow: a depositor locks a balance under a program-controlled
//! custody account; the balance is later released to a beneficiary or
//! returned to the depositor.
//!
//! The library decides; a host keeps the records and the balances. `address`
//! derives the addresses that belong to an escrow, `accounts` holds the
//! accounts of each operation and their constraints, and `lifecycle` holds
//! the three operations. `ledger` and `host` say what the library expects of
//! the asset ledger and of the host; `guarantees` and `runs` state what
//! follows, of each operation and of every run of them.

pub mod accounts;
pub mod address;
pub mod effects;
pub mod error;
pub mod guarantees;
pub mod host;
pub mod identity;
pub mod ledger;
pub mod lifecycle;
pub mod record;
pub mod runs;

pub use crate::accounts::{CancelEscrow, InitializeEscrow, ReleaseEscrow, TokenAccount};
pub use crate::effects::{
    Authorization, EscrowCancelled, EscrowInitialized, EscrowReleased, Transfer,
};
pub use crate::error::EscrowError;
pub use crate::identity::Identity;
pub use crate::lifecycle::{cancel_escrow, initialize_escrow, release_escrow};
pub use crate::record::EscrowAccount;
