//! The host, as the library takes it to be.
//!
//! The library keeps neither the records nor the balances: a host does. This
//! module writes down what the library expects of it. The host stores each
//! record at the record's address; it creates an account only at an address
//! that holds none; it runs an operation on accounts that satisfy the
//! operation's constraints, handing it the record as stored; and it takes
//! over the changed record, performs the transfer and files the notification
//! together, or, where the operation or the asset ledger refuses, does none
//! of it. The model leaves out what the escrow does not decide: who owns a
//! balance, what creating an account costs, and every operation of other
//! programs. Nothing here runs: the model is what the guarantees of the
//! escrow are stated over.

use crate::accounts::{CancelEscrow, InitializeEscrow, ReleaseEscrow};
use crate::address::{derived, Namespace};
use crate::effects::{EscrowCancelled, EscrowInitialized, EscrowReleased};
use crate::error::EscrowError;
use crate::identity::Identity;
use crate::ledger::{covers, performed};
use crate::lifecycle::{
    cancel_refusal, cancelled_notice, created_notice, created_record, deposit,
    initialize_refusal, payout, release_refusal, released_notice,
};
use crate::record::EscrowAccount;
use vstd::prelude::*;

verus! {

/// A notification as the host files it.
pub enum Notice {
    Initialized(EscrowInitialized),
    Released(EscrowReleased),
    Cancelled(EscrowCancelled),
}

impl Notice {
    /// Whether the notification tells the release of the escrow.
    pub open spec fn releases(self, escrow_id: u64) -> bool {
        self matches Notice::Released(notice) && notice.escrow_id == escrow_id
    }

    /// Whether the notification tells the cancellation of the escrow.
    pub open spec fn cancels(self, escrow_id: u64) -> bool {
        self matches Notice::Cancelled(notice) && notice.escrow_id == escrow_id
    }

    /// The escrow whose end the notification tells, if it tells an end.
    pub open spec fn ended(self) -> Option<u64> {
        match self {
            Notice::Initialized(_) => None,
            Notice::Released(notice) => Some(notice.escrow_id),
            Notice::Cancelled(notice) => Some(notice.escrow_id),
        }
    }
}

/// The state that the host keeps: the records by their addresses, the
/// balances of the asset ledger by theirs, and the notifications in the
/// order in which they were filed.
pub struct Host {
    pub records: Map<Identity, EscrowAccount>,
    pub balances: Map<Identity, nat>,
    pub notices: Seq<Notice>,
}

/// The state of an escrow. It is pending from its creation until its end,
/// and the end is for good: a release or a cancellation, never both.
pub enum EscrowState {
    Pending,
    Released,
    Cancelled,
}

/// Why the host gives an operation up. The host's state is then as it was.
pub enum Rejection {
    /// The accounts do not satisfy the constraints of the operation.
    Accounts,
    /// An account that the operation is to create exists already.
    Occupied,
    /// No record is stored at the address that the operation names.
    Missing,
    /// The operation itself refused.
    Refused(EscrowError),
    /// The asset ledger refused the transfer.
    Ledger,
}

/// One operation as it reaches the host.
pub enum Step {
    Initialize {
        creation: InitializeEscrow,
        escrow_id: u64,
        amount: u64,
        expiry_time: i64,
        now: i64,
    },
    Release { release: ReleaseEscrow },
    Cancel { cancel: CancelEscrow, now: i64 },
}

impl Host {
    /// Whether a notification tells the release of the escrow.
    pub open spec fn released(self, escrow_id: u64) -> bool {
        exists|i: int| 0 <= i < self.notices.len() && (#[trigger] self.notices[i]).releases(escrow_id)
    }

    /// Whether a notification tells the cancellation of the escrow.
    pub open spec fn cancelled(self, escrow_id: u64) -> bool {
        exists|i: int| 0 <= i < self.notices.len() && (#[trigger] self.notices[i]).cancels(escrow_id)
    }

    /// The state of the escrow whose record is stored at the address, if one
    /// is: pending while the record is; else released or cancelled, as the
    /// notifications tell.
    pub open spec fn state(self, key: Identity) -> Option<EscrowState> {
        if !self.records.dom().contains(key) {
            None
        } else if self.records[key].pending() {
            Some(EscrowState::Pending)
        } else if self.released(self.records[key].escrow_id) {
            Some(EscrowState::Released)
        } else {
            Some(EscrowState::Cancelled)
        }
    }

    /// Whether the record of the escrow is stored, at the address derived
    /// for the identifier, and completed.
    pub open spec fn completed_record_of(self, escrow_id: u64) -> bool {
        derived(Namespace::Escrow, escrow_id) matches Some((key, _)) && self.records.dom().contains(
            key,
        ) && self.records[key].escrow_id == escrow_id && self.records[key].is_completed
    }

    /// What holds of every host that started without records and without
    /// notifications and ran nothing but the three operations. Each record
    /// locks a positive amount and is stored at the address that is derived
    /// for its identifier, with the salt of that address. Each notification
    /// of an end names an escrow whose record is stored and completed, and
    /// no two of them name the same escrow; and each completed record has
    /// such a notification.
    pub open spec fn well_formed(self) -> bool {
        &&& forall|key: Identity|
            self.records.dom().contains(key) ==> {
                &&& (#[trigger] self.records[key]).well_formed()
                &&& derived(Namespace::Escrow, self.records[key].escrow_id) == Some(
                    (key, self.records[key].bump),
                )
            }
        &&& forall|i: int|
            0 <= i < self.notices.len() ==> ((#[trigger] self.notices[i]).ended() matches Some(
                escrow_id,
            ) ==> self.completed_record_of(escrow_id))
        &&& forall|i: int, j: int|
            0 <= i < j < self.notices.len() && (#[trigger] self.notices[i]).ended() is Some ==> (
            #[trigger] self.notices[j]).ended() != self.notices[i].ended()
        &&& forall|key: Identity|
            self.records.dom().contains(key) && (#[trigger] self.records[key]).is_completed
                ==> self.released(self.records[key].escrow_id) || self.cancelled(
                self.records[key].escrow_id,
            )
    }

    /// The accounts of a release as the host hands them over: with the
    /// record that is stored at the address they name.
    pub open spec fn load_release(self, ctx: ReleaseEscrow) -> ReleaseEscrow {
        ReleaseEscrow { escrow_account: self.records[ctx.escrow_key], ..ctx }
    }

    /// The accounts of a cancellation as the host hands them over: with the
    /// record that is stored at the address they name.
    pub open spec fn load_cancel(self, ctx: CancelEscrow) -> CancelEscrow {
        CancelEscrow { escrow_account: self.records[ctx.escrow_key], ..ctx }
    }

    /// The host after the creation of an escrow, or why it gave the creation
    /// up. The record and the custody account are created where neither
    /// exists yet; the custody account starts empty and receives the
    /// deposit.
    pub open spec fn initialize(
        self,
        ctx: InitializeEscrow,
        escrow_id: u64,
        amount: u64,
        expiry_time: i64,
        now: i64,
    ) -> Result<Host, Rejection> {
        if !ctx.valid(escrow_id) {
            Err(Rejection::Accounts)
        } else if self.records.dom().contains(ctx.escrow_key) || self.balances.dom().contains(
            ctx.escrow_vault.key,
        ) {
            Err(Rejection::Occupied)
        } else {
            let opened = self.balances.insert(ctx.escrow_vault.key, 0);
            match initialize_refusal(amount, expiry_time, now) {
                Some(e) => Err(Rejection::Refused(e)),
                None => if !covers(opened, deposit(ctx, amount)) {
                    Err(Rejection::Ledger)
                } else {
                    Ok(
                        Host {
                            records: self.records.insert(
                                ctx.escrow_key,
                                created_record(ctx, escrow_id, amount, expiry_time),
                            ),
                            balances: performed(opened, deposit(ctx, amount)),
                            notices: self.notices.push(
                                Notice::Initialized(
                                    created_notice(ctx, escrow_id, amount, expiry_time),
                                ),
                            ),
                        },
                    )
                },
            }
        }
    }

    /// The host after the release of an escrow, or why it gave the release
    /// up.
    pub open spec fn release(self, ctx: ReleaseEscrow) -> Result<Host, Rejection> {
        let loaded = self.load_release(ctx);
        let transfer = payout(
            loaded.escrow_account,
            loaded.escrow_key,
            loaded.escrow_vault.key,
            loaded.beneficiary_token_account.key,
        );
        if !self.records.dom().contains(ctx.escrow_key) {
            Err(Rejection::Missing)
        } else if !loaded.valid() {
            Err(Rejection::Accounts)
        } else {
            match release_refusal(loaded.escrow_account) {
                Some(e) => Err(Rejection::Refused(e)),
                None => if !covers(self.balances, transfer) {
                    Err(Rejection::Ledger)
                } else {
                    Ok(
                        Host {
                            records: self.records.insert(
                                ctx.escrow_key,
                                loaded.escrow_account.completed(),
                            ),
                            balances: performed(self.balances, transfer),
                            notices: self.notices.push(Notice::Released(released_notice(loaded))),
                        },
                    )
                },
            }
        }
    }

    /// The host after the cancellation of an escrow at the time `now`, or
    /// why it gave the cancellation up.
    pub open spec fn cancel(self, ctx: CancelEscrow, now: i64) -> Result<Host, Rejection> {
        let loaded = self.load_cancel(ctx);
        let transfer = payout(
            loaded.escrow_account,
            loaded.escrow_key,
            loaded.escrow_vault.key,
            loaded.depositor_token_account.key,
        );
        if !self.records.dom().contains(ctx.escrow_key) {
            Err(Rejection::Missing)
        } else if !loaded.valid() {
            Err(Rejection::Accounts)
        } else {
            match cancel_refusal(loaded.escrow_account, loaded.depositor, now) {
                Some(e) => Err(Rejection::Refused(e)),
                None => if !covers(self.balances, transfer) {
                    Err(Rejection::Ledger)
                } else {
                    Ok(
                        Host {
                            records: self.records.insert(
                                ctx.escrow_key,
                                loaded.escrow_account.completed(),
                            ),
                            balances: performed(self.balances, transfer),
                            notices: self.notices.push(
                                Notice::Cancelled(cancelled_notice(loaded)),
                            ),
                        },
                    )
                },
            }
        }
    }

    /// The host after one operation, or why it gave the operation up.
    pub open spec fn step(self, step: Step) -> Result<Host, Rejection> {
        match step {
            Step::Initialize { creation, escrow_id, amount, expiry_time, now } => self.initialize(
                creation,
                escrow_id,
                amount,
                expiry_time,
                now,
            ),
            Step::Release { release } => self.release(release),
            Step::Cancel { cancel, now } => self.cancel(cancel, now),
        }
    }

    /// The host once an operation has reached it: changed where the
    /// operation was carried out, and as it was where it was given up.
    pub open spec fn after(self, step: Step) -> Host {
        match self.step(step) {
            Ok(next) => next,
            Err(_) => self,
        }
    }

    /// The host once the operations have reached it one after another.
    pub open spec fn run(self, steps: Seq<Step>) -> Host
        decreases steps.len(),
    {
        if steps.len() == 0 {
            self
        } else {
            self.run(steps.drop_last()).after(steps.last())
        }
    }
}

} // verus!
