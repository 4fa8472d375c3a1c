//! What a successful operation asks of its host: one transfer of the asset
//! and one notification.

use crate::identity::Identity;
use vstd::prelude::*;

verus! {

/// On whose word the asset ledger moves a balance.
#[derive(Clone, Copy, Debug, PartialEq, Eq, Structural)]
pub enum Authorization {
    /// The authority is a party that signed the operation itself.
    Signer,
    /// The authority is the address of the record of the named escrow; the
    /// program signs for it under the seeds that the identifier and the salt
    /// give.
    Record { escrow_id: u64, bump: u8 },
}

/// A transfer of `amount` units from the balance at `from` to the balance at
/// `to`, on the word of `authority`. The host performs it together with the
/// change of the record, or performs neither.
#[derive(Clone, Copy, Debug, PartialEq, Eq)]
pub struct Transfer {
    pub from: Identity,
    pub to: Identity,
    pub authority: Identity,
    pub amount: u64,
    pub authorization: Authorization,
}

/// The notification of a created escrow.
#[derive(Clone, Copy, Debug, PartialEq, Eq)]
pub struct EscrowInitialized {
    pub escrow_id: u64,
    pub depositor: Identity,
    pub beneficiary: Identity,
    pub amount: u64,
    pub expiry_time: i64,
}

/// The notification of a released escrow.
#[derive(Clone, Copy, Debug, PartialEq, Eq)]
pub struct EscrowReleased {
    pub escrow_id: u64,
    pub beneficiary: Identity,
    pub amount: u64,
    pub released_by: Identity,
}

/// The notification of a cancelled escrow.
#[derive(Clone, Copy, Debug, PartialEq, Eq)]
pub struct EscrowCancelled {
    pub escrow_id: u64,
    pub depositor: Identity,
    pub amount: u64,
}

} // verus!
