//! The life of an escrow: its creation and its two ways to end.
//!
//! An escrow is pending from its creation until it is released to the
//! beneficiary or cancelled in favour of the depositor; either ends it for
//! good. Each operation runs as one indivisible step of the host. It either
//! refuses, and then changes nothing, or it changes the record and hands back
//! the one transfer and the one notification that go with the change. The
//! host performs the transfer and keeps the changed record together: where
//! the asset ledger refuses the transfer, the host drops the change too.

use crate::accounts::{yields, CancelEscrow, InitializeEscrow, ReleaseEscrow};
use crate::address::{derived, rederived, Namespace};
use crate::effects::{
    Authorization, EscrowCancelled, EscrowInitialized, EscrowReleased, Transfer,
};
use crate::error::EscrowError;
use crate::identity::Identity;
use crate::record::EscrowAccount;
use vstd::prelude::*;

verus! {

/// Why a creation is refused, if it is: the expiry must lie strictly after
/// `now`, and the amount must be positive. The expiry is looked at first.
pub open spec fn initialize_refusal(amount: u64, expiry_time: i64, now: i64) -> Option<
    EscrowError,
> {
    if expiry_time <= now {
        Some(EscrowError::InvalidExpiryTime)
    } else if amount == 0 {
        Some(EscrowError::InvalidAmount)
    } else {
        None
    }
}

/// The record that a creation writes.
pub open spec fn created_record(
    ctx: InitializeEscrow,
    escrow_id: u64,
    amount: u64,
    expiry_time: i64,
) -> EscrowAccount {
    EscrowAccount {
        escrow_id,
        depositor: ctx.depositor,
        beneficiary: ctx.beneficiary,
        mint: ctx.mint,
        amount,
        expiry_time,
        is_completed: false,
        bump: ctx.bump,
    }
}

/// The transfer that locks the amount: from the depositor's balance into the
/// custody account, on the depositor's own word.
pub open spec fn deposit(ctx: InitializeEscrow, amount: u64) -> Transfer {
    Transfer {
        from: ctx.depositor_token_account.key,
        to: ctx.escrow_vault.key,
        authority: ctx.depositor,
        amount,
        authorization: Authorization::Signer,
    }
}

/// The notification of a creation.
pub open spec fn created_notice(
    ctx: InitializeEscrow,
    escrow_id: u64,
    amount: u64,
    expiry_time: i64,
) -> EscrowInitialized {
    EscrowInitialized {
        escrow_id,
        depositor: ctx.depositor,
        beneficiary: ctx.beneficiary,
        amount,
        expiry_time,
    }
}

/// The transfer that empties the custody account of an escrow: the whole
/// locked amount leaves it for `to`, on the word of the record's address,
/// for which the program signs with the record's identifier and salt.
pub open spec fn payout(
    record: EscrowAccount,
    escrow_key: Identity,
    vault: Identity,
    to: Identity,
) -> Transfer {
    Transfer {
        from: vault,
        to,
        authority: escrow_key,
        amount: record.amount,
        authorization: Authorization::Record { escrow_id: record.escrow_id, bump: record.bump },
    }
}

/// Why a release is refused, if it is: the escrow must be pending.
pub open spec fn release_refusal(record: EscrowAccount) -> Option<EscrowError> {
    if record.is_completed {
        Some(EscrowError::EscrowAlreadyCompleted)
    } else {
        None
    }
}

/// The notification of a release.
pub open spec fn released_notice(ctx: ReleaseEscrow) -> EscrowReleased {
    EscrowReleased {
        escrow_id: ctx.escrow_account.escrow_id,
        beneficiary: ctx.escrow_account.beneficiary,
        amount: ctx.escrow_account.amount,
        released_by: ctx.authority,
    }
}

/// Why a cancellation by `caller` at the time `now` is refused, if it is: the
/// escrow must be pending, the caller must be the depositor, and the expiry
/// must not be reached. The conditions are looked at in this order.
pub open spec fn cancel_refusal(record: EscrowAccount, caller: Identity, now: i64) -> Option<
    EscrowError,
> {
    if record.is_completed {
        Some(EscrowError::EscrowAlreadyCompleted)
    } else if caller != record.depositor {
        Some(EscrowError::UnauthorizedCancellation)
    } else if now >= record.expiry_time {
        Some(EscrowError::EscrowExpired)
    } else {
        None
    }
}

/// The notification of a cancellation.
pub open spec fn cancelled_notice(ctx: CancelEscrow) -> EscrowCancelled {
    EscrowCancelled {
        escrow_id: ctx.escrow_account.escrow_id,
        depositor: ctx.escrow_account.depositor,
        amount: ctx.escrow_account.amount,
    }
}

/// Creates the escrow `escrow_id` at the time `now`: the caller, who is the
/// depositor, locks `amount` until the release, and may take it back before
/// `expiry_time`.
///
/// The creation is refused with `InvalidExpiryTime` unless the expiry lies
/// strictly after `now`, and otherwise with `InvalidAmount` if the amount is
/// zero; nothing changes then. Else the record is filled: it names the
/// parties, the asset, the amount and the expiry, keeps the salt of its
/// address and is pending. The transfer that comes back moves the amount
/// from the depositor's balance into the custody account. On accounts that
/// satisfy the constraints of a creation, the record stands at the address
/// derived for the identifier, the custody account is the one derived for
/// it, and the balance that pays is the depositor's own.
pub fn initialize_escrow(
    ctx: &mut InitializeEscrow,
    escrow_id: u64,
    amount: u64,
    expiry_time: i64,
    now: i64,
) -> (result: Result<(Transfer, EscrowInitialized), EscrowError>)
    ensures
        expiry_time <= now ==> (result matches Err(EscrowError::InvalidExpiryTime)),
        expiry_time > now && amount == 0 ==> (result matches Err(EscrowError::InvalidAmount)),
        expiry_time > now && amount > 0 ==> result is Ok,
        result matches Err(e) ==> initialize_refusal(amount, expiry_time, now) == Some(e)
            && *final(ctx) == *old(ctx),
        result matches Ok((transfer, notice)) ==> {
            &&& initialize_refusal(amount, expiry_time, now) is None
            &&& transfer == deposit(*old(ctx), amount)
            &&& notice == created_notice(*old(ctx), escrow_id, amount, expiry_time)
            &&& *final(ctx) == InitializeEscrow {
                escrow_account: created_record(*old(ctx), escrow_id, amount, expiry_time),
                ..*old(ctx)
            }
            &&& old(ctx).valid(escrow_id) ==> {
                &&& derived(Namespace::Escrow, escrow_id) == Some(
                    (final(ctx).escrow_key, final(ctx).escrow_account.bump),
                )
                &&& yields(derived(Namespace::Vault, escrow_id), transfer.to)
                &&& old(ctx).depositor_token_account.owner == transfer.authority
            }
        },
{
    if expiry_time <= now {
        return Err(EscrowError::InvalidExpiryTime);
    }
    if amount == 0 {
        return Err(EscrowError::InvalidAmount);
    }
    ctx.escrow_account.escrow_id = escrow_id;
    ctx.escrow_account.depositor = ctx.depositor;
    ctx.escrow_account.beneficiary = ctx.beneficiary;
    ctx.escrow_account.mint = ctx.mint;
    ctx.escrow_account.amount = amount;
    ctx.escrow_account.expiry_time = expiry_time;
    ctx.escrow_account.is_completed = false;
    ctx.escrow_account.bump = ctx.bump;

    let transfer = Transfer {
        from: ctx.depositor_token_account.key,
        to: ctx.escrow_vault.key,
        authority: ctx.depositor,
        amount,
        authorization: Authorization::Signer,
    };
    let notice = EscrowInitialized {
        escrow_id,
        depositor: ctx.depositor,
        beneficiary: ctx.beneficiary,
        amount,
        expiry_time,
    };
    Ok((transfer, notice))
}

/// Releases a pending escrow to its beneficiary. Whoever calls only sets the
/// release going: the transfer rests on the word of the record's address,
/// not on the caller's.
///
/// The release is refused with `EscrowAlreadyCompleted` if the escrow was
/// released or cancelled before; nothing changes then. Else the record is
/// completed, and the transfer that comes back moves the whole locked amount
/// from the custody account to the beneficiary's balance. On accounts that
/// satisfy the constraints of a release, the paying account is the custody
/// account derived for the escrow, the authority is the record's address as
/// its identifier and salt give it, and the balance that receives belongs to
/// the beneficiary that the record names.
pub fn release_escrow(ctx: &mut ReleaseEscrow) -> (result: Result<
    (Transfer, EscrowReleased),
    EscrowError,
>)
    ensures
        old(ctx).escrow_account.is_completed ==> (result matches Err(
            EscrowError::EscrowAlreadyCompleted,
        )),
        !old(ctx).escrow_account.is_completed ==> result is Ok,
        result matches Err(e) ==> release_refusal(old(ctx).escrow_account) == Some(e) && *final(ctx)
            == *old(ctx),
        result matches Ok((transfer, notice)) ==> {
            &&& release_refusal(old(ctx).escrow_account) is None
            &&& transfer == payout(
                old(ctx).escrow_account,
                old(ctx).escrow_key,
                old(ctx).escrow_vault.key,
                old(ctx).beneficiary_token_account.key,
            )
            &&& notice == released_notice(*old(ctx))
            &&& *final(ctx) == ReleaseEscrow {
                escrow_account: old(ctx).escrow_account.completed(),
                ..*old(ctx)
            }
            &&& old(ctx).valid() ==> {
                &&& yields(
                    derived(Namespace::Vault, old(ctx).escrow_account.escrow_id),
                    transfer.from,
                )
                &&& rederived(old(ctx).escrow_account.escrow_id, old(ctx).escrow_account.bump)
                    == Some(transfer.authority)
                &&& old(ctx).beneficiary_token_account.owner == old(
                    ctx,
                ).escrow_account.beneficiary
            }
        },
{
    if ctx.escrow_account.is_completed {
        return Err(EscrowError::EscrowAlreadyCompleted);
    }
    let transfer = Transfer {
        from: ctx.escrow_vault.key,
        to: ctx.beneficiary_token_account.key,
        authority: ctx.escrow_key,
        amount: ctx.escrow_account.amount,
        authorization: Authorization::Record {
            escrow_id: ctx.escrow_account.escrow_id,
            bump: ctx.escrow_account.bump,
        },
    };
    ctx.escrow_account.is_completed = true;

    let notice = EscrowReleased {
        escrow_id: ctx.escrow_account.escrow_id,
        beneficiary: ctx.escrow_account.beneficiary,
        amount: ctx.escrow_account.amount,
        released_by: ctx.authority,
    };
    Ok((transfer, notice))
}

/// Cancels a pending escrow at the time `now` in favour of its depositor,
/// who must be the caller, and only before the expiry.
///
/// The cancellation is refused with `EscrowAlreadyCompleted` if the escrow
/// was released or cancelled before; otherwise with
/// `UnauthorizedCancellation` if the caller is not the depositor that the
/// record names; otherwise with `EscrowExpired` if `now` is the expiry or
/// later. Nothing changes then. Else the record is completed, and the
/// transfer that comes back moves the whole locked amount from the custody
/// account back to the depositor's balance. On accounts that satisfy the
/// constraints of a cancellation, the paying account is the custody account
/// derived for the escrow, the authority is the record's address as its
/// identifier and salt give it, and the balance that receives belongs to the
/// depositor that the record names.
pub fn cancel_escrow(ctx: &mut CancelEscrow, now: i64) -> (result: Result<
    (Transfer, EscrowCancelled),
    EscrowError,
>)
    ensures
        old(ctx).escrow_account.is_completed ==> (result matches Err(
            EscrowError::EscrowAlreadyCompleted,
        )),
        !old(ctx).escrow_account.is_completed && old(ctx).depositor != old(
            ctx,
        ).escrow_account.depositor ==> (result matches Err(EscrowError::UnauthorizedCancellation)),
        !old(ctx).escrow_account.is_completed && old(ctx).depositor == old(
            ctx,
        ).escrow_account.depositor && now >= old(ctx).escrow_account.expiry_time ==> (
        result matches Err(EscrowError::EscrowExpired)),
        !old(ctx).escrow_account.is_completed && old(ctx).depositor == old(
            ctx,
        ).escrow_account.depositor && now < old(ctx).escrow_account.expiry_time ==> result is Ok,
        result matches Err(e) ==> cancel_refusal(old(ctx).escrow_account, old(ctx).depositor, now)
            == Some(e) && *final(ctx) == *old(ctx),
        result matches Ok((transfer, notice)) ==> {
            &&& cancel_refusal(old(ctx).escrow_account, old(ctx).depositor, now) is None
            &&& transfer == payout(
                old(ctx).escrow_account,
                old(ctx).escrow_key,
                old(ctx).escrow_vault.key,
                old(ctx).depositor_token_account.key,
            )
            &&& notice == cancelled_notice(*old(ctx))
            &&& *final(ctx) == CancelEscrow {
                escrow_account: old(ctx).escrow_account.completed(),
                ..*old(ctx)
            }
            &&& old(ctx).valid() ==> {
                &&& yields(
                    derived(Namespace::Vault, old(ctx).escrow_account.escrow_id),
                    transfer.from,
                )
                &&& rederived(old(ctx).escrow_account.escrow_id, old(ctx).escrow_account.bump)
                    == Some(transfer.authority)
                &&& old(ctx).depositor_token_account.owner == old(ctx).escrow_account.depositor
            }
        },
{
    if ctx.escrow_account.is_completed {
        return Err(EscrowError::EscrowAlreadyCompleted);
    }
    if ctx.depositor != ctx.escrow_account.depositor {
        return Err(EscrowError::UnauthorizedCancellation);
    }
    if now >= ctx.escrow_account.expiry_time {
        return Err(EscrowError::EscrowExpired);
    }
    let transfer = Transfer {
        from: ctx.escrow_vault.key,
        to: ctx.depositor_token_account.key,
        authority: ctx.escrow_key,
        amount: ctx.escrow_account.amount,
        authorization: Authorization::Record {
            escrow_id: ctx.escrow_account.escrow_id,
            bump: ctx.escrow_account.bump,
        },
    };
    ctx.escrow_account.is_completed = true;

    let notice = EscrowCancelled {
        escrow_id: ctx.escrow_account.escrow_id,
        depositor: ctx.escrow_account.depositor,
        amount: ctx.escrow_account.amount,
    };
    Ok((transfer, notice))
}

} // verus!
