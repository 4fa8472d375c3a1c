//! The accounts that each operation works on, and the constraints that tie
//! them to one another and to the derived addresses.
//!
//! The host hands every operation the accounts it names. An operation is
//! meant to run on accounts that satisfy its constraints; each kind of
//! operation has a `validate` that decides them.

use crate::address::{derive_address, derived, rederive, rederived, Namespace};
use crate::identity::Identity;
use crate::record::EscrowAccount;
use vstd::prelude::*;

verus! {

/// A balance of one type of asset, as far as the escrow looks at it: where
/// it is kept, whose it is, and of which asset.
#[derive(Clone, Copy, Debug, PartialEq, Eq)]
pub struct TokenAccount {
    /// The address at which the balance is kept.
    pub key: Identity,
    /// Who may move the balance.
    pub owner: Identity,
    /// The type of asset.
    pub mint: Identity,
}

/// The accounts of the creation of an escrow.
#[derive(Clone, Copy, Debug, PartialEq, Eq)]
pub struct InitializeEscrow {
    /// The caller, who locks the amount.
    pub depositor: Identity,
    /// To whom the amount is to be released.
    pub beneficiary: Identity,
    /// The type of asset to lock.
    pub mint: Identity,
    /// The address at which the record is created.
    pub escrow_key: Identity,
    /// The salt of that address.
    pub bump: u8,
    /// The record to fill.
    pub escrow_account: EscrowAccount,
    /// The custody account, created with the record.
    pub escrow_vault: TokenAccount,
    /// The depositor's balance, from which the amount is taken.
    pub depositor_token_account: TokenAccount,
}

/// The accounts of the release of an escrow.
#[derive(Clone, Copy, Debug, PartialEq, Eq)]
pub struct ReleaseEscrow {
    /// The caller.
    pub authority: Identity,
    /// The address of the record.
    pub escrow_key: Identity,
    /// The record.
    pub escrow_account: EscrowAccount,
    /// The custody account.
    pub escrow_vault: TokenAccount,
    /// The beneficiary's balance, which receives the amount.
    pub beneficiary_token_account: TokenAccount,
}

/// The accounts of the cancellation of an escrow.
#[derive(Clone, Copy, Debug, PartialEq, Eq)]
pub struct CancelEscrow {
    /// The caller.
    pub depositor: Identity,
    /// The address of the record.
    pub escrow_key: Identity,
    /// The record.
    pub escrow_account: EscrowAccount,
    /// The custody account.
    pub escrow_vault: TokenAccount,
    /// The caller's balance, which receives the amount.
    pub depositor_token_account: TokenAccount,
}

/// Whether a derivation yielded the given address, with whatever salt.
pub open spec fn yields(found: Option<(Identity, u8)>, key: Identity) -> bool {
    found matches Some((address, _)) && address == key
}

/// Decides whether a derivation yielded the given address.
fn found_is(found: Option<(Identity, u8)>, key: &Identity) -> (ok: bool)
    ensures
        ok == yields(found, *key),
{
    match found {
        Some((address, _)) => address == *key,
        None => false,
    }
}

impl InitializeEscrow {
    /// The constraints on the accounts, given what the derivation yields for
    /// the record and for the custody account: the record is created at the
    /// derived address and keeps its salt; the custody account is at its
    /// derived address, holds the asset that is locked and belongs to the
    /// record's address; the balance that pays is the depositor's and holds
    /// the same asset.
    pub open spec fn satisfied_by(
        &self,
        record: Option<(Identity, u8)>,
        vault: Option<(Identity, u8)>,
    ) -> bool {
        &&& record == Some((self.escrow_key, self.bump))
        &&& yields(vault, self.escrow_vault.key)
        &&& self.escrow_vault.mint == self.mint
        &&& self.escrow_vault.owner == self.escrow_key
        &&& self.depositor_token_account.owner == self.depositor
        &&& self.depositor_token_account.mint == self.mint
    }

    /// The constraints on the accounts of the creation of the escrow with
    /// the given identifier.
    pub open spec fn valid(&self, escrow_id: u64) -> bool {
        self.satisfied_by(
            derived(Namespace::Escrow, escrow_id),
            derived(Namespace::Vault, escrow_id),
        )
    }

    /// Decides the constraints, given what the derivation yields.
    pub fn validate_against(
        &self,
        record: Option<(Identity, u8)>,
        vault: Option<(Identity, u8)>,
    ) -> (ok: bool)
        ensures
            ok == self.satisfied_by(record, vault),
    {
        let at_record = match record {
            Some((address, bump)) => address == self.escrow_key && bump == self.bump,
            None => false,
        };
        at_record && found_is(vault, &self.escrow_vault.key) && self.escrow_vault.mint
            == self.mint && self.escrow_vault.owner == self.escrow_key
            && self.depositor_token_account.owner == self.depositor
            && self.depositor_token_account.mint == self.mint
    }

    /// Decides the constraints on the accounts of the creation of the escrow
    /// with the given identifier. Where they hold, the record's address is
    /// found again from the identifier and the salt, as a release and a
    /// cancellation look for it.
    pub fn validate(&self, escrow_id: u64) -> (ok: bool)
        ensures
            ok == self.valid(escrow_id),
            ok ==> rederived(escrow_id, self.bump) == Some(self.escrow_key),
    {
        let record = derive_address(Namespace::Escrow, escrow_id);
        let vault = derive_address(Namespace::Vault, escrow_id);
        self.validate_against(record, vault)
    }
}

impl ReleaseEscrow {
    /// The constraints on the accounts, given the address that the record's
    /// identifier and salt yield and what the derivation yields for the
    /// custody account: the record is at its address; the custody account is
    /// at its derived address; the balance that receives is the
    /// beneficiary's and holds the asset of the custody account.
    pub open spec fn satisfied_by(
        &self,
        record: Option<Identity>,
        vault: Option<(Identity, u8)>,
    ) -> bool {
        &&& record == Some(self.escrow_key)
        &&& yields(vault, self.escrow_vault.key)
        &&& self.beneficiary_token_account.owner == self.escrow_account.beneficiary
        &&& self.beneficiary_token_account.mint == self.escrow_vault.mint
    }

    /// The constraints on the accounts of a release.
    pub open spec fn valid(&self) -> bool {
        self.satisfied_by(
            rederived(self.escrow_account.escrow_id, self.escrow_account.bump),
            derived(Namespace::Vault, self.escrow_account.escrow_id),
        )
    }

    /// Decides the constraints, given what the derivations yield.
    pub fn validate_against(&self, record: Option<Identity>, vault: Option<(Identity, u8)>) -> (ok:
        bool)
        ensures
            ok == self.satisfied_by(record, vault),
    {
        let at_record = match record {
            Some(address) => address == self.escrow_key,
            None => false,
        };
        at_record && found_is(vault, &self.escrow_vault.key)
            && self.beneficiary_token_account.owner == self.escrow_account.beneficiary
            && self.beneficiary_token_account.mint == self.escrow_vault.mint
    }

    /// Decides the constraints on the accounts of a release.
    pub fn validate(&self) -> (ok: bool)
        ensures
            ok == self.valid(),
    {
        let record = rederive(self.escrow_account.escrow_id, self.escrow_account.bump);
        let vault = derive_address(Namespace::Vault, self.escrow_account.escrow_id);
        self.validate_against(record, vault)
    }
}

impl CancelEscrow {
    /// The constraints on the accounts, given the address that the record's
    /// identifier and salt yield and what the derivation yields for the
    /// custody account: the record is at its address; the custody account is
    /// at its derived address; the balance that receives is the caller's and
    /// holds the asset of the custody account.
    pub open spec fn satisfied_by(
        &self,
        record: Option<Identity>,
        vault: Option<(Identity, u8)>,
    ) -> bool {
        &&& record == Some(self.escrow_key)
        &&& yields(vault, self.escrow_vault.key)
        &&& self.depositor_token_account.owner == self.depositor
        &&& self.depositor_token_account.mint == self.escrow_vault.mint
    }

    /// The constraints on the accounts of a cancellation.
    pub open spec fn valid(&self) -> bool {
        self.satisfied_by(
            rederived(self.escrow_account.escrow_id, self.escrow_account.bump),
            derived(Namespace::Vault, self.escrow_account.escrow_id),
        )
    }

    /// Decides the constraints, given what the derivations yield.
    pub fn validate_against(&self, record: Option<Identity>, vault: Option<(Identity, u8)>) -> (ok:
        bool)
        ensures
            ok == self.satisfied_by(record, vault),
    {
        let at_record = match record {
            Some(address) => address == self.escrow_key,
            None => false,
        };
        at_record && found_is(vault, &self.escrow_vault.key)
            && self.depositor_token_account.owner == self.depositor
            && self.depositor_token_account.mint == self.escrow_vault.mint
    }

    /// Decides the constraints on the accounts of a cancellation.
    pub fn validate(&self) -> (ok: bool)
        ensures
            ok == self.valid(),
    {
        let record = rederive(self.escrow_account.escrow_id, self.escrow_account.bump);
        let vault = derive_address(Namespace::Vault, self.escrow_account.escrow_id);
        self.validate_against(record, vault)
    }
}

} // verus!
