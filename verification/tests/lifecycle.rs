use escrow::address::{derive_address, Namespace};
use escrow::{
    cancel_escrow, initialize_escrow, release_escrow, Authorization, CancelEscrow, EscrowAccount,
    EscrowCancelled, EscrowError, EscrowInitialized, EscrowReleased, Identity, InitializeEscrow,
    ReleaseEscrow, TokenAccount, Transfer,
};
use std::collections::HashMap;

const T: i64 = 1_700_000_000;

fn party(tag: u8) -> Identity {
    Identity::new([tag; 32])
}

fn depositor() -> Identity {
    party(1)
}

fn beneficiary() -> Identity {
    party(2)
}

fn mint() -> Identity {
    party(3)
}

fn depositor_balance() -> TokenAccount {
    TokenAccount { key: party(11), owner: depositor(), mint: mint() }
}

fn beneficiary_balance() -> TokenAccount {
    TokenAccount { key: party(12), owner: beneficiary(), mint: mint() }
}

fn blank_record() -> EscrowAccount {
    EscrowAccount {
        escrow_id: 0,
        depositor: party(0),
        beneficiary: party(0),
        mint: party(0),
        amount: 0,
        expiry_time: 0,
        is_completed: false,
        bump: 0,
    }
}

fn creation(escrow_id: u64) -> InitializeEscrow {
    let (escrow_key, bump) = derive_address(Namespace::Escrow, escrow_id).unwrap();
    let (vault_key, _) = derive_address(Namespace::Vault, escrow_id).unwrap();
    InitializeEscrow {
        depositor: depositor(),
        beneficiary: beneficiary(),
        mint: mint(),
        escrow_key,
        bump,
        escrow_account: blank_record(),
        escrow_vault: TokenAccount { key: vault_key, owner: escrow_key, mint: mint() },
        depositor_token_account: depositor_balance(),
    }
}

fn release_of(created: &InitializeEscrow, caller: Identity) -> ReleaseEscrow {
    ReleaseEscrow {
        authority: caller,
        escrow_key: created.escrow_key,
        escrow_account: created.escrow_account,
        escrow_vault: created.escrow_vault,
        beneficiary_token_account: beneficiary_balance(),
    }
}

fn cancel_of(created: &InitializeEscrow, caller: Identity) -> CancelEscrow {
    CancelEscrow {
        depositor: caller,
        escrow_key: created.escrow_key,
        escrow_account: created.escrow_account,
        escrow_vault: created.escrow_vault,
        depositor_token_account: TokenAccount { key: party(11), owner: caller, mint: mint() },
    }
}

/// The asset ledger of these tests: it performs a transfer between two
/// balances that it keeps, if the paying one covers the amount.
fn perform(balances: &mut HashMap<Identity, u64>, transfer: &Transfer) -> bool {
    if !balances.contains_key(&transfer.from) || !balances.contains_key(&transfer.to) {
        return false;
    }
    let paying = balances[&transfer.from];
    if paying < transfer.amount {
        return false;
    }
    balances.insert(transfer.from, paying - transfer.amount);
    let receiving = balances[&transfer.to];
    balances.insert(transfer.to, receiving + transfer.amount);
    true
}

/// Creates the custody account of an escrow, empty, unless it exists.
fn open_custody(balances: &mut HashMap<Identity, u64>, ctx: &InitializeEscrow) -> bool {
    if balances.contains_key(&ctx.escrow_vault.key) {
        return false;
    }
    balances.insert(ctx.escrow_vault.key, 0);
    true
}

fn held(balances: &HashMap<Identity, u64>, at: Identity) -> u64 {
    *balances.get(&at).unwrap_or(&0)
}

fn funded(units: u64) -> HashMap<Identity, u64> {
    let mut balances = HashMap::new();
    balances.insert(depositor_balance().key, units);
    balances.insert(beneficiary_balance().key, 0);
    balances
}

#[test]
fn create_then_cancel_then_cancel_again() {
    let mut balances = funded(500);
    let mut ctx = creation(1);
    assert!(ctx.validate(1));

    let (transfer, notice) = initialize_escrow(&mut ctx, 1, 100, T + 1000, T).unwrap();
    assert!(open_custody(&mut balances, &ctx));
    assert!(perform(&mut balances, &transfer));
    assert!(!ctx.escrow_account.is_completed);
    assert_eq!(ctx.escrow_account.amount, 100);
    assert_eq!(ctx.escrow_account.expiry_time, T + 1000);
    assert_eq!(held(&balances, ctx.escrow_vault.key), 100);
    assert_eq!(held(&balances, depositor_balance().key), 400);
    assert_eq!(
        notice,
        EscrowInitialized {
            escrow_id: 1,
            depositor: depositor(),
            beneficiary: beneficiary(),
            amount: 100,
            expiry_time: T + 1000,
        }
    );

    let mut cancel = cancel_of(&ctx, depositor());
    assert!(cancel.validate());
    let (transfer, notice) = cancel_escrow(&mut cancel, T + 1).unwrap();
    assert!(perform(&mut balances, &transfer));
    assert!(cancel.escrow_account.is_completed);
    assert_eq!(held(&balances, ctx.escrow_vault.key), 0);
    assert_eq!(held(&balances, depositor_balance().key), 500);
    assert_eq!(notice, EscrowCancelled { escrow_id: 1, depositor: depositor(), amount: 100 });

    let before = cancel;
    assert_eq!(cancel_escrow(&mut cancel, T + 2), Err(EscrowError::EscrowAlreadyCompleted));
    assert_eq!(cancel, before);
    assert_eq!(held(&balances, depositor_balance().key), 500);
}

#[test]
fn create_then_release_then_cancel() {
    let mut balances = funded(50);
    let mut ctx = creation(2);
    let (transfer, _) = initialize_escrow(&mut ctx, 2, 50, T + 10, T).unwrap();
    assert!(open_custody(&mut balances, &ctx));
    assert!(perform(&mut balances, &transfer));
    assert_eq!(held(&balances, ctx.escrow_vault.key), 50);

    let mut release = release_of(&ctx, party(9));
    assert!(release.validate());
    let (transfer, notice) = release_escrow(&mut release).unwrap();
    assert!(perform(&mut balances, &transfer));
    assert!(release.escrow_account.is_completed);
    assert_eq!(held(&balances, beneficiary_balance().key), 50);
    assert_eq!(held(&balances, ctx.escrow_vault.key), 0);
    assert_eq!(
        notice,
        EscrowReleased {
            escrow_id: 2,
            beneficiary: beneficiary(),
            amount: 50,
            released_by: party(9),
        }
    );

    let mut cancel = CancelEscrow {
        depositor: depositor(),
        escrow_key: release.escrow_key,
        escrow_account: release.escrow_account,
        escrow_vault: release.escrow_vault,
        depositor_token_account: depositor_balance(),
    };
    let before = cancel;
    assert_eq!(cancel_escrow(&mut cancel, T + 6), Err(EscrowError::EscrowAlreadyCompleted));
    assert_eq!(cancel, before);
    assert_eq!(held(&balances, beneficiary_balance().key), 50);
    assert_eq!(held(&balances, depositor_balance().key), 0);
}

#[test]
fn cancel_after_expiry_fails_and_release_still_works() {
    let mut balances = funded(50);
    let mut ctx = creation(3);
    let (transfer, _) = initialize_escrow(&mut ctx, 3, 50, T + 10, T).unwrap();
    assert!(open_custody(&mut balances, &ctx));
    assert!(perform(&mut balances, &transfer));

    let mut cancel = cancel_of(&ctx, depositor());
    let before = cancel;
    assert_eq!(cancel_escrow(&mut cancel, T + 20), Err(EscrowError::EscrowExpired));
    assert_eq!(cancel, before);
    assert!(!cancel.escrow_account.is_completed);
    assert_eq!(held(&balances, ctx.escrow_vault.key), 50);

    let mut release = release_of(&ctx, party(77));
    let (transfer, notice) = release_escrow(&mut release).unwrap();
    assert!(perform(&mut balances, &transfer));
    assert!(release.escrow_account.is_completed);
    assert_eq!(notice.released_by, party(77));
    assert_eq!(held(&balances, beneficiary_balance().key), 50);
    assert_eq!(held(&balances, ctx.escrow_vault.key), 0);
}

#[test]
fn creation_fills_the_record_and_names_the_deposit() {
    let mut ctx = creation(7);
    let before = ctx;
    let (transfer, _) = initialize_escrow(&mut ctx, 7, 1, T + 1, T).unwrap();
    assert_eq!(
        ctx.escrow_account,
        EscrowAccount {
            escrow_id: 7,
            depositor: depositor(),
            beneficiary: beneficiary(),
            mint: mint(),
            amount: 1,
            expiry_time: T + 1,
            is_completed: false,
            bump: before.bump,
        }
    );
    assert_eq!(
        transfer,
        Transfer {
            from: depositor_balance().key,
            to: before.escrow_vault.key,
            authority: depositor(),
            amount: 1,
            authorization: Authorization::Signer,
        }
    );
    assert_eq!(InitializeEscrow { escrow_account: before.escrow_account, ..ctx }, before);
}

#[test]
fn creation_with_no_amount_is_refused() {
    let mut ctx = creation(4);
    let before = ctx;
    assert_eq!(initialize_escrow(&mut ctx, 4, 0, T + 1000, T), Err(EscrowError::InvalidAmount));
    assert_eq!(ctx, before);
}

#[test]
fn creation_with_expiry_at_or_before_now_is_refused() {
    let mut ctx = creation(4);
    let before = ctx;
    assert_eq!(initialize_escrow(&mut ctx, 4, 100, T, T), Err(EscrowError::InvalidExpiryTime));
    assert_eq!(initialize_escrow(&mut ctx, 4, 100, T - 1, T), Err(EscrowError::InvalidExpiryTime));
    assert_eq!(
        initialize_escrow(&mut ctx, 4, 100, i64::MIN, i64::MAX),
        Err(EscrowError::InvalidExpiryTime)
    );
    assert_eq!(ctx, before);
    assert!(initialize_escrow(&mut ctx, 4, 100, T + 1, T).is_ok());
}

#[test]
fn expiry_is_looked_at_before_the_amount() {
    let mut ctx = creation(4);
    assert_eq!(initialize_escrow(&mut ctx, 4, 0, T, T), Err(EscrowError::InvalidExpiryTime));
}

#[test]
fn creation_takes_the_largest_amount() {
    let mut ctx = creation(5);
    let (transfer, notice) = initialize_escrow(&mut ctx, 5, u64::MAX, i64::MAX, T).unwrap();
    assert_eq!(transfer.amount, u64::MAX);
    assert_eq!(notice.amount, u64::MAX);
    assert_eq!(ctx.escrow_account.amount, u64::MAX);
}

#[test]
fn release_pays_the_whole_amount_on_the_word_of_the_record() {
    let mut ctx = creation(6);
    initialize_escrow(&mut ctx, 6, 250, T + 10, T).unwrap();
    let mut release = release_of(&ctx, party(9));
    let before = release;
    let (transfer, _) = release_escrow(&mut release).unwrap();
    assert_eq!(
        transfer,
        Transfer {
            from: ctx.escrow_vault.key,
            to: beneficiary_balance().key,
            authority: ctx.escrow_key,
            amount: 250,
            authorization: Authorization::Record { escrow_id: 6, bump: ctx.bump },
        }
    );
    assert_eq!(
        release.escrow_account,
        EscrowAccount { is_completed: true, ..before.escrow_account }
    );
    assert_eq!(ReleaseEscrow { escrow_account: before.escrow_account, ..release }, before);
}

#[test]
fn release_of_a_completed_escrow_is_refused() {
    let mut ctx = creation(6);
    initialize_escrow(&mut ctx, 6, 250, T + 10, T).unwrap();
    let mut release = release_of(&ctx, party(9));
    release_escrow(&mut release).unwrap();
    let before = release;
    assert_eq!(release_escrow(&mut release), Err(EscrowError::EscrowAlreadyCompleted));
    assert_eq!(release, before);
}

#[test]
fn cancel_by_a_stranger_is_refused_whatever_the_time() {
    let mut ctx = creation(8);
    initialize_escrow(&mut ctx, 8, 10, T + 10, T).unwrap();
    for now in [i64::MIN, T, T + 9, T + 10, T + 11, i64::MAX] {
        let mut cancel = cancel_of(&ctx, party(66));
        let before = cancel;
        assert_eq!(cancel_escrow(&mut cancel, now), Err(EscrowError::UnauthorizedCancellation));
        assert_eq!(cancel, before);
    }
    let mut cancel = cancel_of(&ctx, beneficiary());
    assert_eq!(cancel_escrow(&mut cancel, T + 1), Err(EscrowError::UnauthorizedCancellation));
}

#[test]
fn cancel_at_the_expiry_is_refused_and_just_before_it_succeeds() {
    let mut ctx = creation(9);
    initialize_escrow(&mut ctx, 9, 10, T + 10, T).unwrap();

    let mut cancel = cancel_of(&ctx, depositor());
    assert_eq!(cancel_escrow(&mut cancel, T + 10), Err(EscrowError::EscrowExpired));
    assert_eq!(cancel_escrow(&mut cancel, T + 11), Err(EscrowError::EscrowExpired));
    assert_eq!(cancel_escrow(&mut cancel, i64::MAX), Err(EscrowError::EscrowExpired));
    assert!(!cancel.escrow_account.is_completed);

    let before = cancel;
    let (transfer, notice) = cancel_escrow(&mut cancel, T + 9).unwrap();
    assert_eq!(
        transfer,
        Transfer {
            from: ctx.escrow_vault.key,
            to: depositor_balance().key,
            authority: ctx.escrow_key,
            amount: 10,
            authorization: Authorization::Record { escrow_id: 9, bump: ctx.bump },
        }
    );
    assert_eq!(notice, EscrowCancelled { escrow_id: 9, depositor: depositor(), amount: 10 });
    assert_eq!(
        cancel.escrow_account,
        EscrowAccount { is_completed: true, ..before.escrow_account }
    );
}

#[test]
fn a_completed_escrow_refuses_before_it_looks_at_the_caller() {
    let mut ctx = creation(10);
    initialize_escrow(&mut ctx, 10, 10, T + 10, T).unwrap();
    let mut release = release_of(&ctx, depositor());
    release_escrow(&mut release).unwrap();
    let mut cancel = CancelEscrow {
        depositor: party(66),
        escrow_key: release.escrow_key,
        escrow_account: release.escrow_account,
        escrow_vault: release.escrow_vault,
        depositor_token_account: depositor_balance(),
    };
    assert_eq!(cancel_escrow(&mut cancel, T + 20), Err(EscrowError::EscrowAlreadyCompleted));
}

#[test]
fn a_stranger_is_refused_before_the_expiry_is_looked_at() {
    let mut ctx = creation(10);
    initialize_escrow(&mut ctx, 10, 10, T + 10, T).unwrap();
    let mut cancel = cancel_of(&ctx, party(66));
    assert_eq!(cancel_escrow(&mut cancel, T + 20), Err(EscrowError::UnauthorizedCancellation));
}

#[test]
fn a_second_creation_meets_the_address_of_the_first() {
    let mut balances = funded(500);
    let mut records: HashMap<Identity, EscrowAccount> = HashMap::new();
    let mut first = creation(1);
    initialize_escrow(&mut first, 1, 100, T + 1000, T).unwrap();
    assert!(!records.contains_key(&first.escrow_key));
    assert!(open_custody(&mut balances, &first));
    records.insert(first.escrow_key, first.escrow_account);

    let second = creation(1);
    assert!(second.validate(1));
    assert_eq!(second.escrow_key, first.escrow_key);
    assert_eq!(second.escrow_vault.key, first.escrow_vault.key);
    assert!(records.contains_key(&second.escrow_key));
    assert!(!open_custody(&mut balances, &second));
    assert_eq!(records[&first.escrow_key], first.escrow_account);

    let other = creation(2);
    assert!(!records.contains_key(&other.escrow_key));
    assert!(open_custody(&mut balances, &other));
}

#[test]
fn error_messages() {
    assert_eq!(EscrowError::InvalidExpiryTime.message(), "Invalid expiry time");
    assert_eq!(EscrowError::InvalidAmount.message(), "Invalid amount");
    assert_eq!(EscrowError::EscrowAlreadyCompleted.message(), "Escrow already completed");
    assert_eq!(EscrowError::UnauthorizedCancellation.message(), "Unauthorized cancellation");
    assert_eq!(EscrowError::EscrowExpired.message(), "Escrow has expired");
}

#[test]
fn stored_record_size() {
    assert_eq!(EscrowAccount::LEN, 130);
}
