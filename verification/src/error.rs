//! Why an operation is refused.

use vstd::prelude::*;

verus! {

/// The reasons for which an escrow operation is refused. A refused operation
/// changes nothing.
#[derive(Clone, Copy, Debug, PartialEq, Eq, Structural)]
pub enum EscrowError {
    /// The expiry is not strictly after the time of creation.
    InvalidExpiryTime,
    /// The amount to lock is zero.
    InvalidAmount,
    /// The escrow was already released or cancelled.
    EscrowAlreadyCompleted,
    /// Someone other than the depositor asked for the cancellation.
    UnauthorizedCancellation,
    /// The cancellation came at or after the expiry.
    EscrowExpired,
}

impl EscrowError {
    /// The text that goes with each error.
    pub open spec fn message_text(self) -> Seq<char> {
        match self {
            EscrowError::InvalidExpiryTime => "Invalid expiry time"@,
            EscrowError::InvalidAmount => "Invalid amount"@,
            EscrowError::EscrowAlreadyCompleted => "Escrow already completed"@,
            EscrowError::UnauthorizedCancellation => "Unauthorized cancellation"@,
            EscrowError::EscrowExpired => "Escrow has expired"@,
        }
    }

    /// The human-readable message of this error.
    pub fn message(&self) -> (text: &'static str)
        ensures
            text@ == self.message_text(),
    {
        match self {
            EscrowError::InvalidExpiryTime => "Invalid expiry time",
            EscrowError::InvalidAmount => "Invalid amount",
            EscrowError::EscrowAlreadyCompleted => "Escrow already completed",
            EscrowError::UnauthorizedCancellation => "Unauthorized cancellation",
            EscrowError::EscrowExpired => "Escrow has expired",
        }
    }
}

} // verus!
