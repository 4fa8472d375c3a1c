//! The escrow record: the one entity that persists.

use crate::identity::Identity;
use vstd::prelude::*;

verus! {

/// The record of one escrow. It is created when the amount is locked and
/// changes once more, when the escrow is released or cancelled: from then on
/// `is_completed` holds, and the record stays as it is.
#[derive(Clone, Copy, Debug, PartialEq, Eq)]
pub struct EscrowAccount {
    /// The identifier that the depositor chose; the record's address and the
    /// custody address are derived from it.
    pub escrow_id: u64,
    /// Who locked the amount and may cancel before the expiry.
    pub depositor: Identity,
    /// To whom the amount is released.
    pub beneficiary: Identity,
    /// The type of asset that is locked.
    pub mint: Identity,
    /// The locked amount, in the asset's own units.
    pub amount: u64,
    /// The time from which the escrow can no longer be cancelled.
    pub expiry_time: i64,
    /// Whether the escrow was released or cancelled.
    pub is_completed: bool,
    /// The salt of the record's address.
    pub bump: u8,
}

impl EscrowAccount {
    /// The size of a stored record in bytes: a prefix of eight bytes that
    /// tells the kind of record, then the fields in order.
    pub const LEN: usize = 8 + 8 + 32 + 32 + 32 + 8 + 8 + 1 + 1;

    /// What holds of every record that was created: it locks a positive
    /// amount.
    pub open spec fn well_formed(&self) -> bool {
        self.amount > 0
    }

    /// Whether the escrow still waits for its release or cancellation.
    pub open spec fn pending(&self) -> bool {
        !self.is_completed
    }

    /// The record once the escrow is released or cancelled: completed, and
    /// otherwise unchanged.
    pub open spec fn completed(self) -> EscrowAccount {
        EscrowAccount { is_completed: true, ..self }
    }
}

} // verus!
