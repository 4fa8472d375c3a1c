//! What the escrow guarantees, operation by operation, on a host that
//! behaves as the model says: about the creation of an escrow, about the
//! amount in custody, and about the end of an escrow.

use crate::accounts::{CancelEscrow, InitializeEscrow, ReleaseEscrow};
use crate::error::EscrowError;
use crate::host::{Host, Rejection, Step};
use crate::ledger::{balance, lemma_deposit_fills_custody, lemma_payout_empties_custody};
use crate::lifecycle::created_record;
use vstd::prelude::*;

verus! {

/// A creation with an amount of zero, or with an expiry that is not strictly
/// after the time of the creation, is given up, and the host stays as it
/// was: no record and no custody account come to be. Where the accounts
/// satisfy the constraints and the addresses are free, the operation itself
/// refuses: with `InvalidExpiryTime` for such an expiry, and else with
/// `InvalidAmount`.
pub proof fn lemma_invalid_creation_creates_nothing(
    host: Host,
    ctx: InitializeEscrow,
    escrow_id: u64,
    amount: u64,
    expiry_time: i64,
    now: i64,
)
    requires
        amount == 0 || expiry_time <= now,
    ensures
        host.initialize(ctx, escrow_id, amount, expiry_time, now) is Err,
        host.after(Step::Initialize { creation: ctx, escrow_id, amount, expiry_time, now }) == host,
        ctx.valid(escrow_id) && !host.records.dom().contains(ctx.escrow_key)
            && !host.balances.dom().contains(ctx.escrow_vault.key) ==> {
            &&& expiry_time <= now ==> (host.initialize(ctx, escrow_id, amount, expiry_time, now)
                matches Err(Rejection::Refused(EscrowError::InvalidExpiryTime)))
            &&& expiry_time > now ==> (host.initialize(ctx, escrow_id, amount, expiry_time, now)
                matches Err(Rejection::Refused(EscrowError::InvalidAmount)))
        },
{
}

/// An escrow is created at most once: after the creation of an escrow, every
/// further creation under the same identifier is given up, whatever its
/// accounts, amount, expiry and time, and so leaves the first record as it
/// is.
pub proof fn lemma_creation_at_most_once(
    host: Host,
    escrow_id: u64,
    first: InitializeEscrow,
    first_amount: u64,
    first_expiry: i64,
    first_now: i64,
    second: InitializeEscrow,
    second_amount: u64,
    second_expiry: i64,
    second_now: i64,
)
    requires
        host.initialize(first, escrow_id, first_amount, first_expiry, first_now) is Ok,
    ensures
        ({
            let created = host.initialize(
                first,
                escrow_id,
                first_amount,
                first_expiry,
                first_now,
            )->Ok_0;
            let again = Step::Initialize {
                creation: second,
                escrow_id,
                amount: second_amount,
                expiry_time: second_expiry,
                now: second_now,
            };
            &&& created.records.dom().contains(first.escrow_key)
            &&& created.records[first.escrow_key] == created_record(
                first,
                escrow_id,
                first_amount,
                first_expiry,
            )
            &&& created.step(again) is Err
            &&& created.after(again) == created
        }),
{
}

/// A creation that is not given up locks exactly the amount: afterwards the
/// custody account holds the amount, the depositor's balance holds that much
/// less, and the record is stored and pending.
pub proof fn lemma_creation_locks_amount(
    host: Host,
    ctx: InitializeEscrow,
    escrow_id: u64,
    amount: u64,
    expiry_time: i64,
    now: i64,
)
    requires
        host.initialize(ctx, escrow_id, amount, expiry_time, now) is Ok,
    ensures
        ({
            let created = host.initialize(ctx, escrow_id, amount, expiry_time, now)->Ok_0;
            &&& balance(created.balances, ctx.escrow_vault.key) == amount
            &&& balance(created.balances, ctx.depositor_token_account.key) == balance(
                host.balances,
                ctx.depositor_token_account.key,
            ) - amount
            &&& created.records[ctx.escrow_key].pending()
            &&& created.records[ctx.escrow_key].well_formed()
            &&& created.records[ctx.escrow_key].amount == amount
        }),
{
    lemma_deposit_fills_custody(
        host.balances.insert(ctx.escrow_vault.key, 0),
        ctx,
        amount,
        expiry_time,
        now,
    );
}

/// A release that is not given up pays out exactly what is locked: where the
/// custody account holds the amount of the record, and the beneficiary's
/// balance is not the custody account itself, the custody account holds
/// nothing afterwards and the beneficiary's balance holds the amount more.
pub proof fn lemma_release_pays_beneficiary(host: Host, ctx: ReleaseEscrow)
    requires
        host.release(ctx) is Ok,
        balance(host.balances, ctx.escrow_vault.key) == host.records[ctx.escrow_key].amount,
        ctx.beneficiary_token_account.key != ctx.escrow_vault.key,
    ensures
        ({
            let released = host.release(ctx)->Ok_0;
            &&& balance(released.balances, ctx.escrow_vault.key) == 0
            &&& balance(released.balances, ctx.beneficiary_token_account.key) == balance(
                host.balances,
                ctx.beneficiary_token_account.key,
            ) + host.records[ctx.escrow_key].amount
        }),
{
    lemma_payout_empties_custody(
        host.balances,
        host.records[ctx.escrow_key],
        ctx.escrow_key,
        ctx.escrow_vault.key,
        ctx.beneficiary_token_account.key,
    );
}

/// A cancellation that is not given up pays back exactly what is locked:
/// where the custody account holds the amount of the record, and the
/// depositor's balance is not the custody account itself, the custody
/// account holds nothing afterwards and the depositor's balance holds the
/// amount more.
pub proof fn lemma_cancel_pays_depositor(host: Host, ctx: CancelEscrow, now: i64)
    requires
        host.cancel(ctx, now) is Ok,
        balance(host.balances, ctx.escrow_vault.key) == host.records[ctx.escrow_key].amount,
        ctx.depositor_token_account.key != ctx.escrow_vault.key,
    ensures
        ({
            let cancelled = host.cancel(ctx, now)->Ok_0;
            &&& balance(cancelled.balances, ctx.escrow_vault.key) == 0
            &&& balance(cancelled.balances, ctx.depositor_token_account.key) == balance(
                host.balances,
                ctx.depositor_token_account.key,
            ) + host.records[ctx.escrow_key].amount
        }),
{
    lemma_payout_empties_custody(
        host.balances,
        host.records[ctx.escrow_key],
        ctx.escrow_key,
        ctx.escrow_vault.key,
        ctx.depositor_token_account.key,
    );
}

/// What is locked at the creation is what leaves at the release: an escrow
/// that is created and then released, with nothing in between, has moved its
/// amount from the depositor's balance through the custody account, which is
/// empty again, to the beneficiary's balance.
pub proof fn lemma_created_then_released(
    host: Host,
    creation: InitializeEscrow,
    escrow_id: u64,
    amount: u64,
    expiry_time: i64,
    now: i64,
    release: ReleaseEscrow,
)
    requires
        host.initialize(creation, escrow_id, amount, expiry_time, now) is Ok,
        release.escrow_key == creation.escrow_key,
        host.initialize(creation, escrow_id, amount, expiry_time, now)->Ok_0.release(release) is Ok,
        release.beneficiary_token_account.key != release.escrow_vault.key,
    ensures
        ({
            let created = host.initialize(creation, escrow_id, amount, expiry_time, now)->Ok_0;
            let released = created.release(release)->Ok_0;
            &&& release.escrow_vault.key == creation.escrow_vault.key
            &&& balance(created.balances, creation.escrow_vault.key) == amount
            &&& balance(released.balances, creation.escrow_vault.key) == 0
            &&& balance(released.balances, release.beneficiary_token_account.key) == balance(
                created.balances,
                release.beneficiary_token_account.key,
            ) + amount
        }),
{
    let created = host.initialize(creation, escrow_id, amount, expiry_time, now)->Ok_0;
    lemma_creation_locks_amount(host, creation, escrow_id, amount, expiry_time, now);
    lemma_release_pays_beneficiary(created, release);
}

/// What is locked at the creation is what returns at the cancellation: an
/// escrow that is created and then cancelled, with nothing in between, has
/// moved its amount from the depositor's balance into the custody account,
/// which is empty again, and on to the balance that the cancellation names.
/// The cancellation came from the depositor and before the expiry.
pub proof fn lemma_created_then_cancelled(
    host: Host,
    creation: InitializeEscrow,
    escrow_id: u64,
    amount: u64,
    expiry_time: i64,
    created_at: i64,
    cancel: CancelEscrow,
    cancelled_at: i64,
)
    requires
        host.initialize(creation, escrow_id, amount, expiry_time, created_at) is Ok,
        cancel.escrow_key == creation.escrow_key,
        host.initialize(creation, escrow_id, amount, expiry_time, created_at)->Ok_0.cancel(
            cancel,
            cancelled_at,
        ) is Ok,
        cancel.depositor_token_account.key != cancel.escrow_vault.key,
    ensures
        ({
            let created = host.initialize(
                creation,
                escrow_id,
                amount,
                expiry_time,
                created_at,
            )->Ok_0;
            let cancelled = created.cancel(cancel, cancelled_at)->Ok_0;
            &&& cancel.escrow_vault.key == creation.escrow_vault.key
            &&& cancel.depositor == creation.depositor
            &&& cancelled_at < expiry_time
            &&& balance(created.balances, creation.escrow_vault.key) == amount
            &&& balance(cancelled.balances, creation.escrow_vault.key) == 0
            &&& balance(cancelled.balances, cancel.depositor_token_account.key) == balance(
                created.balances,
                cancel.depositor_token_account.key,
            ) + amount
        }),
{
    let created = host.initialize(creation, escrow_id, amount, expiry_time, created_at)->Ok_0;
    lemma_creation_locks_amount(host, creation, escrow_id, amount, expiry_time, created_at);
    lemma_cancel_pays_depositor(created, cancel, cancelled_at);
}

/// Who may end an escrow, and when. On accounts that satisfy the constraints,
/// with a balance to receive and with the custody account holding the locked
/// amount, and while the stored record is pending: a release is carried out,
/// whoever asks for it and whenever; a cancellation is refused with
/// `UnauthorizedCancellation` if the caller is not the depositor, whatever
/// the time; a cancellation by the depositor is refused with `EscrowExpired`
/// at the expiry and after it, and is carried out before it.
pub proof fn lemma_who_may_end(host: Host, release: ReleaseEscrow, cancel: CancelEscrow, now: i64)
    ensures
        host.records.dom().contains(release.escrow_key) && host.records[release.escrow_key].pending()
            && host.load_release(release).valid() && host.balances.dom().contains(
            release.beneficiary_token_account.key,
        ) && host.balances.dom().contains(release.escrow_vault.key)
            && host.balances[release.escrow_vault.key] >= host.records[release.escrow_key].amount
            ==> host.release(release) is Ok,
        host.records.dom().contains(cancel.escrow_key) && host.records[cancel.escrow_key].pending()
            && host.load_cancel(cancel).valid() && host.balances.dom().contains(
            cancel.depositor_token_account.key,
        ) && host.balances.dom().contains(cancel.escrow_vault.key)
            && host.balances[cancel.escrow_vault.key] >= host.records[cancel.escrow_key].amount
            ==> {
            &&& cancel.depositor != host.records[cancel.escrow_key].depositor ==> (host.cancel(
                cancel,
                now,
            ) matches Err(Rejection::Refused(EscrowError::UnauthorizedCancellation)))
            &&& cancel.depositor == host.records[cancel.escrow_key].depositor && now
                >= host.records[cancel.escrow_key].expiry_time ==> (host.cancel(cancel, now)
                matches Err(Rejection::Refused(EscrowError::EscrowExpired)))
            &&& cancel.depositor == host.records[cancel.escrow_key].depositor && now
                < host.records[cancel.escrow_key].expiry_time ==> host.cancel(cancel, now) is Ok
        },
{
}

/// An escrow ends once: a release or a cancellation that is not given up
/// finds the stored record pending, completes it and changes nothing else of
/// it, and keeps every other record as it is.
pub proof fn lemma_end_completes_record(
    host: Host,
    release: ReleaseEscrow,
    cancel: CancelEscrow,
    now: i64,
)
    ensures
        host.release(release) matches Ok(ended) ==> {
            &&& host.records[release.escrow_key].pending()
            &&& ended.records == host.records.insert(
                release.escrow_key,
                host.records[release.escrow_key].completed(),
            )
        },
        host.cancel(cancel, now) matches Ok(ended) ==> {
            &&& host.records[cancel.escrow_key].pending()
            &&& ended.records == host.records.insert(
                cancel.escrow_key,
                host.records[cancel.escrow_key].completed(),
            )
        },
{
}

/// A completed escrow stays as it is: once the stored record is completed,
/// every release and every cancellation at its address is given up, by
/// whomever and whenever it is asked for, and the host stays as it was: no
/// record and no balance changes. On accounts that satisfy the constraints
/// the operation itself refuses, with `EscrowAlreadyCompleted`.
pub proof fn lemma_completed_is_final(
    host: Host,
    release: ReleaseEscrow,
    cancel: CancelEscrow,
    now: i64,
)
    requires
        host.records.dom().contains(release.escrow_key),
        host.records[release.escrow_key].is_completed,
        cancel.escrow_key == release.escrow_key,
    ensures
        host.release(release) is Err,
        host.cancel(cancel, now) is Err,
        host.after(Step::Release { release }) == host,
        host.after(Step::Cancel { cancel, now }) == host,
        host.load_release(release).valid() ==> (host.release(release) matches Err(
            Rejection::Refused(EscrowError::EscrowAlreadyCompleted),
        )),
        host.load_cancel(cancel).valid() ==> (host.cancel(cancel, now) matches Err(
            Rejection::Refused(EscrowError::EscrowAlreadyCompleted),
        )),
{
}

/// The first end wins: after a release or a cancellation that was not given
/// up, every further release and every further cancellation of the same
/// escrow is given up.
pub proof fn lemma_first_end_wins(
    host: Host,
    release: ReleaseEscrow,
    cancel: CancelEscrow,
    now: i64,
    next_release: ReleaseEscrow,
    next_cancel: CancelEscrow,
    later: i64,
)
    ensures
        host.release(release) matches Ok(ended) ==> {
            &&& next_release.escrow_key == release.escrow_key ==> ended.release(next_release)
                is Err
            &&& next_cancel.escrow_key == release.escrow_key ==> ended.cancel(next_cancel, later)
                is Err
        },
        host.cancel(cancel, now) matches Ok(ended) ==> {
            &&& next_release.escrow_key == cancel.escrow_key ==> ended.release(next_release)
                is Err
            &&& next_cancel.escrow_key == cancel.escrow_key ==> ended.cancel(next_cancel, later)
                is Err
        },
{
}

} // verus!
