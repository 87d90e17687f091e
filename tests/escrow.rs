use anchor_lang::solana_program::pubkey::Pubkey;
use escrow::{
    cancel, find_escrow_address, find_vault_address, id, initialize, refund, resolve_by_arbiter, transfer,
    vault_address_matches, withdraw, Address, Cancel, Escrow, EscrowError, EscrowStatus, Initialize, Refund,
    ResolveByArbiter, TokenAccount, Withdraw,
};
use std::str::FromStr;

const START: i64 = 1_700_000_000;

struct Parties {
    initializer: Address,
    recipient: Address,
    arbiter: Address,
}

fn parties() -> Parties {
    Parties {
        initializer: Address::new(Pubkey::new_unique().to_bytes()),
        recipient: Address::new(Pubkey::new_unique().to_bytes()),
        arbiter: Address::new(Pubkey::new_unique().to_bytes()),
    }
}

fn init_ctx(p: &Parties, balance: u64) -> Initialize {
    Initialize {
        initializer: p.initializer,
        recipient: p.recipient,
        arbiter: p.arbiter,
        initializer_deposit_token_account: TokenAccount { amount: balance },
        escrow_state: Escrow::default(),
        escrow_key: Address::new([0; 32]),
        vault: TokenAccount { amount: 0 },
        vault_key: Address::new([0; 32]),
    }
}

/// Opens an escrow with the initializer holding 100 tokens.
fn open(p: &Parties, amount: u64, timeout: i64) -> Initialize {
    let mut ctx = init_ctx(p, 100);
    initialize(&mut ctx, &id(), START, amount, timeout).unwrap();
    ctx
}

fn withdraw_ctx(i: &Initialize, signer: Address, recipient_balance: u64) -> Withdraw {
    Withdraw {
        recipient: signer,
        recipient_deposit_token_account: TokenAccount { amount: recipient_balance },
        escrow_state: i.escrow_state,
        escrow_key: i.escrow_key,
        vault: i.vault,
        vault_key: i.vault_key,
    }
}

fn refund_ctx(i: &Initialize, signer: Address) -> Refund {
    Refund {
        initializer: signer,
        initializer_refund_token_account: i.initializer_deposit_token_account,
        escrow_state: i.escrow_state,
        escrow_key: i.escrow_key,
        vault: i.vault,
        vault_key: i.vault_key,
    }
}

fn cancel_ctx(i: &Initialize, signer: Address) -> Cancel {
    Cancel {
        initializer: signer,
        initializer_refund_token_account: i.initializer_deposit_token_account,
        escrow_state: i.escrow_state,
        escrow_key: i.escrow_key,
        vault: i.vault,
        vault_key: i.vault_key,
    }
}

fn resolve_ctx(i: &Initialize, signer: Address) -> ResolveByArbiter {
    ResolveByArbiter {
        arbiter: signer,
        escrow_state: i.escrow_state,
        escrow_key: i.escrow_key,
        vault: i.vault,
        vault_key: i.vault_key,
        recipient_deposit_token_account: TokenAccount { amount: 0 },
        initializer_refund_token_account: i.initializer_deposit_token_account,
    }
}

#[test]
fn test_initialize_and_withdraw() {
    let p = parties();
    let amount = 50;
    let timeout = 10;
    let i = open(&p, amount, timeout);
    assert_eq!(i.initializer_deposit_token_account.amount, 50);
    assert_eq!(i.vault.amount, 50);

    let mut w = withdraw_ctx(&i, p.recipient, 0);
    let ev = withdraw(&mut w, &id(), START + 5).unwrap();
    assert_eq!(w.recipient_deposit_token_account.amount, 50);
    assert_eq!(w.escrow_state.status, EscrowStatus::Withdrawn);
    assert_eq!(w.vault.amount, 0);
    assert_eq!(ev.amount, 50);
    assert!(ev.recipient.same(&p.recipient));
}

#[test]
fn test_initialize_and_refund() {
    let p = parties();
    let i = open(&p, 50, 1);
    let mut r = refund_ctx(&i, p.initializer);
    let ev = refund(&mut r, &id(), START + 2).unwrap();
    assert_eq!(r.initializer_refund_token_account.amount, 100);
    assert_eq!(r.escrow_state.status, EscrowStatus::Refunded);
    assert_eq!(ev.amount, 50);
}

#[test]
fn test_initialize_with_zero_amount() {
    let p = parties();
    let mut ctx = init_ctx(&p, 100);
    let r = initialize(&mut ctx, &id(), START, 0, 10);
    assert_eq!(r.unwrap_err(), EscrowError::InvalidAmount);
    assert_eq!(ctx.initializer_deposit_token_account.amount, 100);
    assert_eq!(ctx.vault.amount, 0);
    assert!(ctx.escrow_key.same(&Address::new([0; 32])));
}

#[test]
fn test_initialize_with_self_as_recipient() {
    let p = parties();
    let mut ctx = init_ctx(&p, 100);
    ctx.recipient = p.initializer;
    let r = initialize(&mut ctx, &id(), START, 50, 10);
    assert_eq!(r.unwrap_err(), EscrowError::InvalidRecipient);
    assert_eq!(ctx.initializer_deposit_token_account.amount, 100);
    assert!(ctx.escrow_key.same(&Address::new([0; 32])));
}

#[test]
fn test_withdraw_after_timeout() {
    let p = parties();
    let i = open(&p, 50, 1);
    let mut w = withdraw_ctx(&i, p.recipient, 0);
    let r = withdraw(&mut w, &id(), START + 2);
    assert_eq!(r.unwrap_err(), EscrowError::TimeoutExpired);
    assert_eq!(w.vault.amount, 50);
    assert_eq!(w.escrow_state.status, EscrowStatus::Initialized);
}

#[test]
fn test_refund_before_timeout() {
    let p = parties();
    let i = open(&p, 50, 10);
    let mut r = refund_ctx(&i, p.initializer);
    let res = refund(&mut r, &id(), START);
    assert_eq!(res.unwrap_err(), EscrowError::RefundNotAllowed);
    assert_eq!(r.vault.amount, 50);
    assert_eq!(r.initializer_refund_token_account.amount, 50);
}

#[test]
fn test_withdraw_with_invalid_recipient() {
    let p = parties();
    let i = open(&p, 50, 10);
    let mut w = withdraw_ctx(&i, p.arbiter, 0);
    let r = withdraw(&mut w, &id(), START + 1);
    assert_eq!(r.unwrap_err(), EscrowError::InvalidRecipient);
    assert_eq!(w.vault.amount, 50);
    assert_eq!(w.recipient_deposit_token_account.amount, 0);
}

#[test]
fn test_cancel_escrow() {
    let p = parties();
    let i = open(&p, 50, 100);
    let mut c = cancel_ctx(&i, p.initializer);
    cancel(&mut c, &id(), START).unwrap();
    assert_eq!(c.initializer_refund_token_account.amount, 100);
    assert_eq!(c.escrow_state.status, EscrowStatus::Cancelled);

    let mut r = Refund {
        initializer: p.initializer,
        initializer_refund_token_account: c.initializer_refund_token_account,
        escrow_state: c.escrow_state,
        escrow_key: c.escrow_key,
        vault: c.vault,
        vault_key: c.vault_key,
    };
    assert_eq!(refund(&mut r, &id(), START + 200).unwrap_err(), EscrowError::InvalidState);
}

#[test]
fn test_resolve_by_arbiter_to_recipient() {
    let p = parties();
    let i = open(&p, 50, 100);
    let mut a = resolve_ctx(&i, p.arbiter);
    let ev = resolve_by_arbiter(&mut a, &id(), true).unwrap();
    assert_eq!(a.recipient_deposit_token_account.amount, 50);
    assert_eq!(a.escrow_state.status, EscrowStatus::Withdrawn);
    assert!(ev.release_to_recipient);
}

#[test]
fn resolve_by_arbiter_to_initializer() {
    let p = parties();
    let i = open(&p, 50, 100);
    let mut a = resolve_ctx(&i, p.arbiter);
    resolve_by_arbiter(&mut a, &id(), false).unwrap();
    assert_eq!(a.initializer_refund_token_account.amount, 100);
    assert_eq!(a.recipient_deposit_token_account.amount, 0);
    assert_eq!(a.vault.amount, 0);
    assert_eq!(a.escrow_state.status, EscrowStatus::Refunded);
}

#[test]
fn resolve_by_wrong_arbiter_fails() {
    let p = parties();
    let i = open(&p, 50, 100);
    let mut a = resolve_ctx(&i, p.recipient);
    assert_eq!(resolve_by_arbiter(&mut a, &id(), true).unwrap_err(), EscrowError::InvalidArbiter);
    assert_eq!(a.vault.amount, 50);
}

#[test]
fn cancel_after_deadline_fails() {
    let p = parties();
    let i = open(&p, 50, 10);
    let mut c = cancel_ctx(&i, p.initializer);
    assert_eq!(cancel(&mut c, &id(), START + 10).unwrap_err(), EscrowError::CancelNotAllowed);
    assert_eq!(c.vault.amount, 50);
}

#[test]
fn refund_by_stranger_fails() {
    let p = parties();
    let i = open(&p, 50, 1);
    let mut r = refund_ctx(&i, p.recipient);
    assert_eq!(refund(&mut r, &id(), START + 5).unwrap_err(), EscrowError::InvalidInitializer);
    let mut c = cancel_ctx(&i, p.arbiter);
    assert_eq!(cancel(&mut c, &id(), START).unwrap_err(), EscrowError::InvalidInitializer);
}

#[test]
fn second_withdraw_fails_with_invalid_state() {
    let p = parties();
    let i = open(&p, 50, 10);
    let mut w = withdraw_ctx(&i, p.recipient, 0);
    withdraw(&mut w, &id(), START + 1).unwrap();
    assert_eq!(withdraw(&mut w, &id(), START + 2).unwrap_err(), EscrowError::InvalidState);
    assert_eq!(w.recipient_deposit_token_account.amount, 50);
    let mut a = ResolveByArbiter {
        arbiter: p.arbiter,
        escrow_state: w.escrow_state,
        escrow_key: w.escrow_key,
        vault: w.vault,
        vault_key: w.vault_key,
        recipient_deposit_token_account: w.recipient_deposit_token_account,
        initializer_refund_token_account: TokenAccount { amount: 50 },
    };
    assert_eq!(resolve_by_arbiter(&mut a, &id(), false).unwrap_err(), EscrowError::InvalidState);
}

#[test]
fn arbiter_may_act_after_deadline() {
    let p = parties();
    let i = open(&p, 50, 1);
    let mut a = resolve_ctx(&i, p.arbiter);
    assert!(resolve_by_arbiter(&mut a, &id(), true).is_ok());
    assert_eq!(a.recipient_deposit_token_account.amount, 50);
}

#[test]
fn deadline_overflow_is_refused() {
    let p = parties();
    let mut ctx = init_ctx(&p, 100);
    let r = initialize(&mut ctx, &id(), i64::MAX - 5, 50, 10);
    assert_eq!(r.unwrap_err(), EscrowError::Overflow);
    assert_eq!(ctx.initializer_deposit_token_account.amount, 100);
}

#[test]
fn deposit_larger_than_balance_is_refused() {
    let p = parties();
    let mut ctx = init_ctx(&p, 10);
    let r = initialize(&mut ctx, &id(), START, 50, 10);
    assert_eq!(r.unwrap_err(), EscrowError::InsufficientFunds);
    assert_eq!(ctx.initializer_deposit_token_account.amount, 10);
    assert_eq!(ctx.vault.amount, 0);
}

#[test]
fn deposit_of_whole_balance_is_accepted() {
    let p = parties();
    let mut ctx = init_ctx(&p, 50);
    let ev = initialize(&mut ctx, &id(), START, 50, 10).unwrap();
    assert_eq!(ctx.initializer_deposit_token_account.amount, 0);
    assert_eq!(ctx.vault.amount, 50);
    assert_eq!(ctx.escrow_state.timeout, START + 10);
    assert_eq!(ctx.escrow_state.status, EscrowStatus::Initialized);
    assert!(ev.escrow.same(&ctx.escrow_key));
    assert!(ev.arbiter.same(&p.arbiter));
}

#[test]
fn tokens_are_conserved_across_a_life_cycle() {
    let p = parties();
    let i = open(&p, 30, 10);
    assert_eq!(i.initializer_deposit_token_account.amount + i.vault.amount, 100);
    let mut w = withdraw_ctx(&i, p.recipient, 7);
    withdraw(&mut w, &id(), START).unwrap();
    assert_eq!(w.recipient_deposit_token_account.amount + w.vault.amount, 37);
    assert_eq!(w.recipient_deposit_token_account.amount, 37);
}

#[test]
fn transfer_moves_or_refuses() {
    let mut from = TokenAccount { amount: 20 };
    let mut to = TokenAccount { amount: 5 };
    transfer(&mut from, &mut to, 15).unwrap();
    assert_eq!((from.amount, to.amount), (5, 20));
    assert_eq!(transfer(&mut from, &mut to, 6).unwrap_err(), EscrowError::InsufficientFunds);
    assert_eq!((from.amount, to.amount), (5, 20));
    let mut full = TokenAccount { amount: u64::MAX };
    assert_eq!(transfer(&mut from, &mut full, 1).unwrap_err(), EscrowError::Overflow);
    assert_eq!((from.amount, full.amount), (5, u64::MAX));
}

#[test]
fn record_address_is_the_program_derived_address() {
    let p = parties();
    let program = Pubkey::from_str("Fg6PaFpoGXkYsidMpWTK6W2BeZ7FEfcYkg476zPFsLnS").unwrap();
    assert_eq!(id().bytes, program.to_bytes());
    let (expected, bump) = Pubkey::find_program_address(
        &[b"escrow", &p.initializer.bytes, &p.recipient.bytes],
        &program,
    );
    let (key, found_bump) = find_escrow_address(&p.initializer, &p.recipient, &id()).unwrap();
    assert_eq!(key.bytes, expected.to_bytes());
    assert_eq!(found_bump, bump);
    let (vault, vault_bump) = Pubkey::find_program_address(&[b"vault", &key.bytes], &program);
    let (vkey, vbump) = find_vault_address(&key, &id()).unwrap();
    assert_eq!(vkey.bytes, vault.to_bytes());
    assert_eq!(vbump, vault_bump);
    assert!(vault_address_matches(&key, vbump, &vkey, &id()));
    assert!(!vault_address_matches(&key, vbump, &key, &id()));

    let i = open(&p, 50, 10);
    assert!(i.escrow_key.same(&key));
    assert!(i.vault_key.same(&vkey));
    assert_eq!(i.escrow_state.escrow_bump, bump);
    assert_eq!(i.escrow_state.vault_bump, vault_bump);
}

#[test]
fn spoofed_vault_is_refused() {
    let p = parties();
    let i = open(&p, 50, 10);
    let mut w = withdraw_ctx(&i, p.recipient, 0);
    w.vault_key = Address::new(Pubkey::new_unique().to_bytes());
    assert_eq!(withdraw(&mut w, &id(), START).unwrap_err(), EscrowError::InvalidBump);
    let mut c = cancel_ctx(&i, p.initializer);
    c.escrow_state.escrow_bump = c.escrow_state.escrow_bump.wrapping_sub(1);
    assert_eq!(cancel(&mut c, &id(), START).unwrap_err(), EscrowError::InvalidBump);
}

#[test]
fn defaults_and_messages() {
    assert_eq!(EscrowStatus::default(), EscrowStatus::Initialized);
    let e = Escrow::default();
    assert_eq!(e.amount, 0);
    assert_eq!(e.status, EscrowStatus::Initialized);
    assert_eq!(EscrowError::InvalidAmount.message(), "The amount must be greater than zero.");
    assert_eq!(Escrow::LEN, 115);
}
