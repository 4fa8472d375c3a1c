//! What a transfer does to the balances of the asset ledger.
//!
//! The ledger is not part of this library: the host keeps it and performs
//! the transfers that the operations hand back. This module states what the
//! library takes a performed transfer to mean, so that the movement of the
//! locked amount can be followed from the depositor into custody and out of
//! it again.

use crate::accounts::InitializeEscrow;
use crate::effects::Transfer;
use crate::identity::Identity;
use crate::lifecycle::{deposit, initialize_refusal, payout};
use crate::record::EscrowAccount;
use vstd::prelude::*;

verus! {

/// The units held at an address: those that the ledger records for it, and
/// none where it records nothing.
pub open spec fn balance(balances: Map<Identity, nat>, at: Identity) -> nat {
    if balances.dom().contains(at) {
        balances[at]
    } else {
        0
    }
}

/// Whether the ledger can perform the transfer: it keeps a balance at both
/// addresses, and the paying balance covers the amount.
pub open spec fn covers(balances: Map<Identity, nat>, transfer: Transfer) -> bool {
    &&& balances.dom().contains(transfer.from)
    &&& balances.dom().contains(transfer.to)
    &&& balances[transfer.from] >= transfer.amount
}

/// The balances once the transfer is performed: the amount has left the
/// paying balance and has reached the receiving one. A transfer from a
/// balance to itself changes no balance.
pub open spec fn performed(balances: Map<Identity, nat>, transfer: Transfer) -> Map<
    Identity,
    nat,
> {
    let paid = balances.insert(
        transfer.from,
        (balance(balances, transfer.from) - transfer.amount) as nat,
    );
    paid.insert(transfer.to, (balance(paid, transfer.to) + transfer.amount) as nat)
}

/// A performed transfer neither makes nor loses units: what the two balances
/// hold together stays the same, and no other balance changes.
pub proof fn lemma_transfer_conserves(balances: Map<Identity, nat>, transfer: Transfer)
    requires
        covers(balances, transfer),
    ensures
        transfer.from != transfer.to ==> balance(performed(balances, transfer), transfer.from)
            + balance(performed(balances, transfer), transfer.to) == balance(
            balances,
            transfer.from,
        ) + balance(balances, transfer.to),
        transfer.from == transfer.to ==> balance(performed(balances, transfer), transfer.from)
            == balance(balances, transfer.from),
        forall|other: Identity|
            other != transfer.from && other != transfer.to ==> balance(
                performed(balances, transfer),
                other,
            ) == balance(balances, other),
{
}

/// The deposit locks exactly the amount: where the custody account is new,
/// and so holds nothing, it holds the amount once the transfer of a creation
/// that was not refused is performed, and the depositor's balance holds that
/// much less.
pub proof fn lemma_deposit_fills_custody(
    balances: Map<Identity, nat>,
    ctx: InitializeEscrow,
    amount: u64,
    expiry_time: i64,
    now: i64,
)
    requires
        initialize_refusal(amount, expiry_time, now) is None,
        balance(balances, ctx.escrow_vault.key) == 0,
        covers(balances, deposit(ctx, amount)),
    ensures
        balance(performed(balances, deposit(ctx, amount)), ctx.escrow_vault.key) == amount,
        balance(performed(balances, deposit(ctx, amount)), ctx.depositor_token_account.key)
            == balance(balances, ctx.depositor_token_account.key) - amount,
{
}

/// The payout hands on exactly what was locked: where the custody account
/// holds the amount of the record, and the receiving balance is not the
/// custody account itself, the custody account holds nothing once the
/// transfer is performed, and the receiving balance holds the amount more.
pub proof fn lemma_payout_empties_custody(
    balances: Map<Identity, nat>,
    record: EscrowAccount,
    escrow_key: Identity,
    vault: Identity,
    to: Identity,
)
    requires
        covers(balances, payout(record, escrow_key, vault, to)),
        balance(balances, vault) == record.amount,
        to != vault,
    ensures
        balance(performed(balances, payout(record, escrow_key, vault, to)), vault) == 0,
        balance(performed(balances, payout(record, escrow_key, vault, to)), to) == balance(
            balances,
            to,
        ) + record.amount,
{
}

} // verus!
