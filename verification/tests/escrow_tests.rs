use escrow::account::AccountId;
use escrow::account::TokenAccount;
use escrow::authority::derive_authority;
use escrow::authority::escrow_seed;
use escrow::authority::vault_seed;
use escrow::error::ProgramError;
use escrow::escrow::cancel;
use escrow::escrow::initialize;
use escrow::ledger::transfer;
use escrow::ledger::LedgerError;
use escrow::ops::Cancel;
use escrow::ops::Initialize;
use escrow::state::EscrowAccount;

fn acct(n: u64) -> AccountId {
    AccountId { w0: n, w1: 0, w2: 0, w3: 0 }
}

fn empty_record() -> EscrowAccount {
    EscrowAccount {
        initializer_key: acct(0),
        initializer_deposit_token_account: acct(0),
        initializer_receive_token_account: acct(0),
        initializer_amount: 0,
        taker_amount: 0,
    }
}

/// A well-formed initialization context: program id 1, initializer 2,
/// mint 3, deposit account 4 (holding `balance`), receive account 5,
/// a fresh vault allocated at the derived address under bump 7.
fn fresh_initialize(balance: u64) -> Initialize {
    let program_id = acct(1);
    let initializer = acct(2);
    let mint = acct(3);
    let vault_bump = 7u8;
    let vault_id = derive_authority(&program_id, &vault_seed(), vault_bump);
    Initialize {
        program_id,
        initializer,
        mint,
        vault_bump,
        vault_account: TokenAccount { id: vault_id, mint, authority: acct(0), amount: 0 },
        initializer_deposit_token_account: TokenAccount {
            id: acct(4),
            mint,
            authority: initializer,
            amount: balance,
        },
        initializer_receive_token_account: TokenAccount {
            id: acct(5),
            mint,
            authority: initializer,
            amount: 0,
        },
        escrow_account: empty_record(),
    }
}

/// The cancellation context that matches the post-state of
/// `fresh_initialize(balance)` followed by a successful
/// `initialize(deposited, requested)` under bump2 = 9 for the record address.
fn cancel_after(init: &Initialize, bump2: u8) -> Cancel {
    let escrow_address = derive_authority(&init.program_id, &escrow_seed(), bump2);
    Cancel {
        program_id: init.program_id,
        initializer: init.initializer,
        mint: init.mint,
        vault_account: init.vault_account,
        initializer_deposit_token_account: init.initializer_deposit_token_account,
        escrow_address,
        escrow_account: init.escrow_account,
    }
}

#[test]
fn initialize_moves_deposit_into_custody() {
    let mut ctx = fresh_initialize(1000);
    let before = ctx.initializer_deposit_token_account.amount;
    let r = initialize(&mut ctx, 300, 150);
    assert_eq!(r, Ok(()));
    assert_eq!(ctx.vault_account.amount, 300);
    assert_eq!(before - ctx.initializer_deposit_token_account.amount, 300);
    assert_eq!(ctx.vault_account.authority, ctx.vault_account.id);
    assert_eq!(ctx.escrow_account.initializer_key, acct(2));
    assert_eq!(ctx.escrow_account.initializer_deposit_token_account, acct(4));
    assert_eq!(ctx.escrow_account.initializer_receive_token_account, acct(5));
    assert_eq!(ctx.escrow_account.initializer_amount, 300);
    assert_eq!(ctx.escrow_account.taker_amount, 150);
}

#[test]
fn initialize_insufficient_balance_changes_nothing() {
    let mut ctx = fresh_initialize(100);
    let before = ctx;
    let r = initialize(&mut ctx, 200, 50);
    assert_eq!(r, Err(ProgramError::InsufficientBalance));
    assert_eq!(ctx, before);
}

#[test]
fn initialize_of_whole_balance_succeeds() {
    let mut ctx = fresh_initialize(250);
    let r = initialize(&mut ctx, 250, 1);
    assert_eq!(r, Ok(()));
    assert_eq!(ctx.initializer_deposit_token_account.amount, 0);
    assert_eq!(ctx.vault_account.amount, 250);
}

#[test]
fn cancel_refunds_full_deposit() {
    let mut ctx = fresh_initialize(1000);
    initialize(&mut ctx, 300, 150).unwrap();
    let mut c = cancel_after(&ctx, 9);
    let r = cancel(&mut c, 7, 9);
    assert_eq!(r, Ok(()));
    assert_eq!(c.vault_account.amount, 0);
    assert_eq!(c.initializer_deposit_token_account.amount, 1000);
}

#[test]
fn cancel_by_stranger_is_unauthorized() {
    let mut ctx = fresh_initialize(1000);
    initialize(&mut ctx, 300, 150).unwrap();
    let mut c = cancel_after(&ctx, 9);
    // a different identity calls, however much it controls elsewhere
    c.initializer = acct(99);
    let before = c;
    let r = cancel(&mut c, 7, 9);
    assert_eq!(r, Err(ProgramError::Unauthorized));
    assert_eq!(c, before);
}

#[test]
fn cancel_with_wrong_vault_bump_is_refused() {
    let mut ctx = fresh_initialize(1000);
    initialize(&mut ctx, 300, 150).unwrap();
    let mut c = cancel_after(&ctx, 9);
    let before = c;
    let r = cancel(&mut c, 8, 9);
    assert_eq!(r, Err(ProgramError::ConstraintViolation));
    assert_eq!(c, before);
}

#[test]
fn cancel_with_wrong_record_bump_is_refused() {
    let mut ctx = fresh_initialize(1000);
    initialize(&mut ctx, 300, 150).unwrap();
    let mut c = cancel_after(&ctx, 9);
    let before = c;
    let r = cancel(&mut c, 7, 10);
    assert_eq!(r, Err(ProgramError::ConstraintViolation));
    assert_eq!(c, before);
}

#[test]
fn cancel_into_foreign_account_is_refused() {
    let mut ctx = fresh_initialize(1000);
    initialize(&mut ctx, 300, 150).unwrap();
    let mut c = cancel_after(&ctx, 9);
    // refund target is not the account the record names
    c.initializer_deposit_token_account.id = acct(77);
    let before = c;
    let r = cancel(&mut c, 7, 9);
    assert_eq!(r, Err(ProgramError::ConstraintViolation));
    assert_eq!(c, before);
}

#[test]
fn unauthorized_caller_reported_before_bad_derivation() {
    let mut ctx = fresh_initialize(1000);
    initialize(&mut ctx, 300, 150).unwrap();
    let mut c = cancel_after(&ctx, 9);
    c.initializer = acct(99);
    let r = cancel(&mut c, 8, 10);
    assert_eq!(r, Err(ProgramError::Unauthorized));
}

#[test]
fn round_trip_nets_to_zero() {
    let mut ctx = fresh_initialize(640);
    let before = ctx.initializer_deposit_token_account.amount;
    initialize(&mut ctx, 100, 50).unwrap();
    let mut c = cancel_after(&ctx, 9);
    cancel(&mut c, 7, 9).unwrap();
    assert_eq!(c.initializer_deposit_token_account.amount, before);
    assert_eq!(c.vault_account.amount, 0);
}

#[test]
fn full_scenario_thousand_three_hundred() {
    let mut ctx = fresh_initialize(1000);
    let r = initialize(&mut ctx, 300, 150);
    assert_eq!(r, Ok(()));
    assert_eq!(ctx.vault_account.amount, 300);
    assert_eq!(ctx.initializer_deposit_token_account.amount, 700);
    assert_eq!(ctx.escrow_account.initializer_amount, 300);
    assert_eq!(ctx.escrow_account.taker_amount, 150);
    let mut c = cancel_after(&ctx, 11);
    let r2 = cancel(&mut c, 7, 11);
    assert_eq!(r2, Ok(()));
    assert_eq!(c.initializer_deposit_token_account.amount, 1000);
    assert_eq!(c.vault_account.amount, 0);
}

#[test]
fn derivation_is_deterministic() {
    let pid = acct(1);
    let a = derive_authority(&pid, &vault_seed(), 7);
    let b = derive_authority(&pid, &vault_seed(), 7);
    assert_eq!(a, b);
}

#[test]
fn derivation_separates_bumps_labels_and_programs() {
    let pid = acct(1);
    let a = derive_authority(&pid, &vault_seed(), 7);
    assert_ne!(a, derive_authority(&pid, &vault_seed(), 8));
    assert_ne!(a, derive_authority(&pid, &escrow_seed(), 7));
    assert_ne!(a, derive_authority(&acct(2), &vault_seed(), 7));
}

#[test]
fn ledger_transfer_debits_and_credits() {
    let owner = acct(2);
    let mut from = TokenAccount { id: acct(4), mint: acct(3), authority: owner, amount: 90 };
    let mut to = TokenAccount { id: acct(5), mint: acct(3), authority: acct(6), amount: 10 };
    let r = transfer(&mut from, &owner, &mut to, 25);
    assert_eq!(r, Ok(()));
    assert_eq!(from.amount, 65);
    assert_eq!(to.amount, 35);
}

#[test]
fn ledger_transfer_refuses_wrong_authority() {
    let mut from = TokenAccount { id: acct(4), mint: acct(3), authority: acct(2), amount: 90 };
    let mut to = TokenAccount { id: acct(5), mint: acct(3), authority: acct(6), amount: 10 };
    let r = transfer(&mut from, &acct(9), &mut to, 25);
    assert_eq!(r, Err(LedgerError::WrongAuthority));
    assert_eq!(from.amount, 90);
    assert_eq!(to.amount, 10);
}

#[test]
fn ledger_transfer_refuses_overdraft() {
    let owner = acct(2);
    let mut from = TokenAccount { id: acct(4), mint: acct(3), authority: owner, amount: 24 };
    let mut to = TokenAccount { id: acct(5), mint: acct(3), authority: acct(6), amount: 10 };
    let r = transfer(&mut from, &owner, &mut to, 25);
    assert_eq!(r, Err(LedgerError::InsufficientFunds));
    assert_eq!(from.amount, 24);
    assert_eq!(to.amount, 10);
}

#[test]
fn error_messages_name_each_refusal() {
    assert_eq!(ProgramError::InsufficientBalance.message(), "insufficient balance");
    assert_eq!(ProgramError::Unauthorized.message(), "unauthorized");
    assert_eq!(ProgramError::ConstraintViolation.message(), "constraint violation");
}
