//! The five escrow operations. Each one checks who signed, where the record
//! and the vault stand, the record's status and the clock, moves the tokens,
//! and then updates the record; when a check fails nothing changes.
use vstd::prelude::*;
use crate::state::{
    Address, Escrow, EscrowStatus, EscrowError, TokenAccount, EscrowInitialized, EscrowWithdrawn,
    EscrowRefunded, EscrowCancelled, EscrowResolved,
};
use crate::pda::{program_address_of, with_bump, escrow_seeds, vault_seeds, escrow_address_matches,
    vault_address_matches, canonical, derivable, derivation_ok, find_escrow_address, find_vault_address,
    lemma_canonical_unique};

verus! {

/// What refuses a transfer of `amount` between two token accounts, if anything.
pub open spec fn transfer_error(from: TokenAccount, to: TokenAccount, amount: u64) -> Option<EscrowError> {
    if from.amount < amount {
        Some(EscrowError::InsufficientFunds)
    } else if to.amount + amount > u64::MAX {
        Some(EscrowError::Overflow)
    } else {
        None
    }
}

/// Moves `amount` tokens from `from` to `to`, or refuses and moves nothing.
pub fn transfer(from: &mut TokenAccount, to: &mut TokenAccount, amount: u64) -> (r: Result<(), EscrowError>)
    ensures
        match r {
            Ok(_) => {
                &&& transfer_error(*old(from), *old(to), amount) is None
                &&& final(from).amount == old(from).amount - amount
                &&& final(to).amount == old(to).amount + amount
            },
            Err(e) => {
                &&& transfer_error(*old(from), *old(to), amount) == Some(e)
                &&& *final(from) == *old(from)
                &&& *final(to) == *old(to)
            },
        },
{
    if from.amount < amount {
        return Err(EscrowError::InsufficientFunds);
    }
    match to.amount.checked_add(amount) {
        Some(credited) => {
            from.amount = from.amount - amount;
            to.amount = credited;
            Ok(())
        },
        None => Err(EscrowError::Overflow),
    }
}

/// The record stands at `escrow_key` and its vault at `vault_key`, as the
/// record's parties and bumps derive them under the program.
pub open spec fn addresses_ok(record: Escrow, escrow_key: Address, vault_key: Address, program_id: Address) -> bool {
    &&& program_address_of(with_bump(escrow_seeds(record.initializer, record.recipient), record.escrow_bump), program_id.bytes@)
        == Some(escrow_key.bytes@)
    &&& program_address_of(with_bump(vault_seeds(escrow_key), record.vault_bump), program_id.bytes@)
        == Some(vault_key.bytes@)
}

fn check_addresses(record: &Escrow, escrow_key: &Address, vault_key: &Address, program_id: &Address) -> (r: bool)
    ensures
        r == addresses_ok(*record, *escrow_key, *vault_key, *program_id),
{
    escrow_address_matches(&record.initializer, &record.recipient, record.escrow_bump, escrow_key, program_id)
        && vault_address_matches(escrow_key, record.vault_bump, vault_key, program_id)
}

/// The record with a new status.
pub open spec fn with_status(record: Escrow, status: EscrowStatus) -> Escrow {
    Escrow { status, ..record }
}

pub open spec fn debited(account: TokenAccount, amount: u64) -> TokenAccount {
    TokenAccount { amount: (account.amount - amount) as u64 }
}

pub open spec fn credited(account: TokenAccount, amount: u64) -> TokenAccount {
    TokenAccount { amount: (account.amount + amount) as u64 }
}

/// The accounts of a withdrawal, signed by `recipient`.
#[derive(Clone, Copy, Debug)]
pub struct Withdraw {
    pub recipient: Address,
    pub recipient_deposit_token_account: TokenAccount,
    pub escrow_state: Escrow,
    pub escrow_key: Address,
    pub vault: TokenAccount,
    pub vault_key: Address,
}

/// Why a withdrawal at `now` is refused, if it is.
pub open spec fn withdraw_error(ctx: Withdraw, program_id: Address, now: i64) -> Option<EscrowError> {
    if ctx.escrow_state.recipient != ctx.recipient {
        Some(EscrowError::InvalidRecipient)
    } else if !addresses_ok(ctx.escrow_state, ctx.escrow_key, ctx.vault_key, program_id) {
        Some(EscrowError::InvalidBump)
    } else if !ctx.escrow_state.is_open() {
        Some(EscrowError::InvalidState)
    } else if now >= ctx.escrow_state.timeout {
        Some(EscrowError::TimeoutExpired)
    } else {
        transfer_error(ctx.vault, ctx.recipient_deposit_token_account, ctx.escrow_state.amount)
    }
}

/// The accounts after a withdrawal: the amount has gone from the vault to the
/// recipient, and the record is `Withdrawn`.
pub open spec fn after_withdraw(ctx: Withdraw) -> Withdraw {
    Withdraw {
        recipient_deposit_token_account: credited(ctx.recipient_deposit_token_account, ctx.escrow_state.amount),
        escrow_state: with_status(ctx.escrow_state, EscrowStatus::Withdrawn),
        vault: debited(ctx.vault, ctx.escrow_state.amount),
        ..ctx
    }
}

/// The recipient takes the escrowed amount before the deadline.
pub fn withdraw(ctx: &mut Withdraw, program_id: &Address, now: i64) -> (r: Result<EscrowWithdrawn, EscrowError>)
    ensures
        match r {
            Ok(ev) => {
                &&& withdraw_error(*old(ctx), *program_id, now) is None
                &&& *final(ctx) == after_withdraw(*old(ctx))
                &&& ev == (EscrowWithdrawn {
                    escrow: old(ctx).escrow_key,
                    recipient: old(ctx).recipient,
                    amount: old(ctx).escrow_state.amount,
                })
            },
            Err(e) => withdraw_error(*old(ctx), *program_id, now) == Some(e) && *final(ctx) == *old(ctx),
        },
{
    if !ctx.escrow_state.recipient.same(&ctx.recipient) {
        return Err(EscrowError::InvalidRecipient);
    }
    if !check_addresses(&ctx.escrow_state, &ctx.escrow_key, &ctx.vault_key, program_id) {
        return Err(EscrowError::InvalidBump);
    }
    if ctx.escrow_state.status != EscrowStatus::Initialized {
        return Err(EscrowError::InvalidState);
    }
    if now >= ctx.escrow_state.timeout {
        return Err(EscrowError::TimeoutExpired);
    }
    let amount = ctx.escrow_state.amount;
    if let Err(e) = transfer(&mut ctx.vault, &mut ctx.recipient_deposit_token_account, amount) {
        return Err(e);
    }
    ctx.escrow_state.status = EscrowStatus::Withdrawn;
    Ok(EscrowWithdrawn { escrow: ctx.escrow_key, recipient: ctx.recipient, amount })
}

/// The accounts of a refund, signed by `initializer`.
#[derive(Clone, Copy, Debug)]
pub struct Refund {
    pub initializer: Address,
    pub initializer_refund_token_account: TokenAccount,
    pub escrow_state: Escrow,
    pub escrow_key: Address,
    pub vault: TokenAccount,
    pub vault_key: Address,
}

/// Why a refund at `now` is refused, if it is.
pub open spec fn refund_error(ctx: Refund, program_id: Address, now: i64) -> Option<EscrowError> {
    if ctx.escrow_state.initializer != ctx.initializer {
        Some(EscrowError::InvalidInitializer)
    } else if !addresses_ok(ctx.escrow_state, ctx.escrow_key, ctx.vault_key, program_id) {
        Some(EscrowError::InvalidBump)
    } else if !ctx.escrow_state.is_open() {
        Some(EscrowError::InvalidState)
    } else if now < ctx.escrow_state.timeout {
        Some(EscrowError::RefundNotAllowed)
    } else {
        transfer_error(ctx.vault, ctx.initializer_refund_token_account, ctx.escrow_state.amount)
    }
}

/// The accounts after a refund: the amount has gone back to the initializer,
/// and the record is `Refunded`.
pub open spec fn after_refund(ctx: Refund) -> Refund {
    Refund {
        initializer_refund_token_account: credited(ctx.initializer_refund_token_account, ctx.escrow_state.amount),
        escrow_state: with_status(ctx.escrow_state, EscrowStatus::Refunded),
        vault: debited(ctx.vault, ctx.escrow_state.amount),
        ..ctx
    }
}

/// The initializer takes the escrowed amount back once the deadline has come.
pub fn refund(ctx: &mut Refund, program_id: &Address, now: i64) -> (r: Result<EscrowRefunded, EscrowError>)
    ensures
        match r {
            Ok(ev) => {
                &&& refund_error(*old(ctx), *program_id, now) is None
                &&& *final(ctx) == after_refund(*old(ctx))
                &&& ev == (EscrowRefunded {
                    escrow: old(ctx).escrow_key,
                    initializer: old(ctx).initializer,
                    amount: old(ctx).escrow_state.amount,
                })
            },
            Err(e) => refund_error(*old(ctx), *program_id, now) == Some(e) && *final(ctx) == *old(ctx),
        },
{
    if !ctx.escrow_state.initializer.same(&ctx.initializer) {
        return Err(EscrowError::InvalidInitializer);
    }
    if !check_addresses(&ctx.escrow_state, &ctx.escrow_key, &ctx.vault_key, program_id) {
        return Err(EscrowError::InvalidBump);
    }
    if ctx.escrow_state.status != EscrowStatus::Initialized {
        return Err(EscrowError::InvalidState);
    }
    if now < ctx.escrow_state.timeout {
        return Err(EscrowError::RefundNotAllowed);
    }
    let amount = ctx.escrow_state.amount;
    if let Err(e) = transfer(&mut ctx.vault, &mut ctx.initializer_refund_token_account, amount) {
        return Err(e);
    }
    ctx.escrow_state.status = EscrowStatus::Refunded;
    Ok(EscrowRefunded { escrow: ctx.escrow_key, initializer: ctx.initializer, amount })
}

/// The accounts of a cancellation, signed by `initializer`.
#[derive(Clone, Copy, Debug)]
pub struct Cancel {
    pub initializer: Address,
    pub initializer_refund_token_account: TokenAccount,
    pub escrow_state: Escrow,
    pub escrow_key: Address,
    pub vault: TokenAccount,
    pub vault_key: Address,
}

/// Why a cancellation at `now` is refused, if it is.
pub open spec fn cancel_error(ctx: Cancel, program_id: Address, now: i64) -> Option<EscrowError> {
    if ctx.escrow_state.initializer != ctx.initializer {
        Some(EscrowError::InvalidInitializer)
    } else if !addresses_ok(ctx.escrow_state, ctx.escrow_key, ctx.vault_key, program_id) {
        Some(EscrowError::InvalidBump)
    } else if !ctx.escrow_state.is_open() {
        Some(EscrowError::InvalidState)
    } else if now >= ctx.escrow_state.timeout {
        Some(EscrowError::CancelNotAllowed)
    } else {
        transfer_error(ctx.vault, ctx.initializer_refund_token_account, ctx.escrow_state.amount)
    }
}

/// The accounts after a cancellation: the amount has gone back to the
/// initializer, and the record is `Cancelled`.
pub open spec fn after_cancel(ctx: Cancel) -> Cancel {
    Cancel {
        initializer_refund_token_account: credited(ctx.initializer_refund_token_account, ctx.escrow_state.amount),
        escrow_state: with_status(ctx.escrow_state, EscrowStatus::Cancelled),
        vault: debited(ctx.vault, ctx.escrow_state.amount),
        ..ctx
    }
}

/// The initializer calls the escrow off before the deadline.
pub fn cancel(ctx: &mut Cancel, program_id: &Address, now: i64) -> (r: Result<EscrowCancelled, EscrowError>)
    ensures
        match r {
            Ok(ev) => {
                &&& cancel_error(*old(ctx), *program_id, now) is None
                &&& *final(ctx) == after_cancel(*old(ctx))
                &&& ev == (EscrowCancelled { escrow: old(ctx).escrow_key, initializer: old(ctx).initializer })
            },
            Err(e) => cancel_error(*old(ctx), *program_id, now) == Some(e) && *final(ctx) == *old(ctx),
        },
{
    if !ctx.escrow_state.initializer.same(&ctx.initializer) {
        return Err(EscrowError::InvalidInitializer);
    }
    if !check_addresses(&ctx.escrow_state, &ctx.escrow_key, &ctx.vault_key, program_id) {
        return Err(EscrowError::InvalidBump);
    }
    if ctx.escrow_state.status != EscrowStatus::Initialized {
        return Err(EscrowError::InvalidState);
    }
    if now >= ctx.escrow_state.timeout {
        return Err(EscrowError::CancelNotAllowed);
    }
    let amount = ctx.escrow_state.amount;
    if let Err(e) = transfer(&mut ctx.vault, &mut ctx.initializer_refund_token_account, amount) {
        return Err(e);
    }
    ctx.escrow_state.status = EscrowStatus::Cancelled;
    Ok(EscrowCancelled { escrow: ctx.escrow_key, initializer: ctx.initializer })
}

/// The accounts of a settlement, signed by `arbiter`.
#[derive(Clone, Copy, Debug)]
pub struct ResolveByArbiter {
    pub arbiter: Address,
    pub escrow_state: Escrow,
    pub escrow_key: Address,
    pub vault: TokenAccount,
    pub vault_key: Address,
    pub recipient_deposit_token_account: TokenAccount,
    pub initializer_refund_token_account: TokenAccount,
}

/// Why a settlement is refused, if it is. The clock plays no part.
pub open spec fn resolve_error(ctx: ResolveByArbiter, program_id: Address, release_to_recipient: bool) -> Option<EscrowError> {
    if ctx.escrow_state.arbiter != ctx.arbiter {
        Some(EscrowError::InvalidArbiter)
    } else if !addresses_ok(ctx.escrow_state, ctx.escrow_key, ctx.vault_key, program_id) {
        Some(EscrowError::InvalidBump)
    } else if !ctx.escrow_state.is_open() {
        Some(EscrowError::InvalidState)
    } else if release_to_recipient {
        transfer_error(ctx.vault, ctx.recipient_deposit_token_account, ctx.escrow_state.amount)
    } else {
        transfer_error(ctx.vault, ctx.initializer_refund_token_account, ctx.escrow_state.amount)
    }
}

/// The accounts after a settlement: the amount has gone to the recipient and
/// the record is `Withdrawn`, or back to the initializer and it is `Refunded`.
pub open spec fn after_resolve(ctx: ResolveByArbiter, release_to_recipient: bool) -> ResolveByArbiter {
    if release_to_recipient {
        ResolveByArbiter {
            recipient_deposit_token_account: credited(ctx.recipient_deposit_token_account, ctx.escrow_state.amount),
            escrow_state: with_status(ctx.escrow_state, EscrowStatus::Withdrawn),
            vault: debited(ctx.vault, ctx.escrow_state.amount),
            ..ctx
        }
    } else {
        ResolveByArbiter {
            initializer_refund_token_account: credited(ctx.initializer_refund_token_account, ctx.escrow_state.amount),
            escrow_state: with_status(ctx.escrow_state, EscrowStatus::Refunded),
            vault: debited(ctx.vault, ctx.escrow_state.amount),
            ..ctx
        }
    }
}

/// The arbiter settles the escrow, whatever the clock says.
pub fn resolve_by_arbiter(ctx: &mut ResolveByArbiter, program_id: &Address, release_to_recipient: bool) -> (r: Result<
    EscrowResolved,
    EscrowError,
>)
    ensures
        match r {
            Ok(ev) => {
                &&& resolve_error(*old(ctx), *program_id, release_to_recipient) is None
                &&& *final(ctx) == after_resolve(*old(ctx), release_to_recipient)
                &&& ev == (EscrowResolved {
                    escrow: old(ctx).escrow_key,
                    arbiter: old(ctx).arbiter,
                    release_to_recipient,
                })
            },
            Err(e) => resolve_error(*old(ctx), *program_id, release_to_recipient) == Some(e) && *final(ctx) == *old(ctx),
        },
{
    if !ctx.escrow_state.arbiter.same(&ctx.arbiter) {
        return Err(EscrowError::InvalidArbiter);
    }
    if !check_addresses(&ctx.escrow_state, &ctx.escrow_key, &ctx.vault_key, program_id) {
        return Err(EscrowError::InvalidBump);
    }
    if ctx.escrow_state.status != EscrowStatus::Initialized {
        return Err(EscrowError::InvalidState);
    }
    let amount = ctx.escrow_state.amount;
    if release_to_recipient {
        if let Err(e) = transfer(&mut ctx.vault, &mut ctx.recipient_deposit_token_account, amount) {
            return Err(e);
        }
        ctx.escrow_state.status = EscrowStatus::Withdrawn;
    } else {
        if let Err(e) = transfer(&mut ctx.vault, &mut ctx.initializer_refund_token_account, amount) {
            return Err(e);
        }
        ctx.escrow_state.status = EscrowStatus::Refunded;
    }
    Ok(EscrowResolved { escrow: ctx.escrow_key, arbiter: ctx.arbiter, release_to_recipient })
}

/// The accounts of a new escrow, signed by `initializer`. `escrow_state`,
/// `escrow_key`, `vault` and `vault_key` are written by `initialize`.
#[derive(Clone, Copy, Debug)]
pub struct Initialize {
    pub initializer: Address,
    pub recipient: Address,
    pub arbiter: Address,
    pub initializer_deposit_token_account: TokenAccount,
    pub escrow_state: Escrow,
    pub escrow_key: Address,
    pub vault: TokenAccount,
    pub vault_key: Address,
}

/// The deadline `timeout` seconds after `now`, where it fits in an `i64`.
pub open spec fn deadline_fits(now: i64, timeout: i64) -> bool {
    i64::MIN <= now + timeout <= i64::MAX
}

/// Why the arguments of a new escrow are refused, if they are.
pub open spec fn initialize_error(ctx: Initialize, now: i64, amount: u64, timeout: i64) -> Option<EscrowError> {
    if amount == 0 {
        Some(EscrowError::InvalidAmount)
    } else if ctx.initializer == ctx.recipient {
        Some(EscrowError::InvalidRecipient)
    } else if !deadline_fits(now, timeout) {
        Some(EscrowError::Overflow)
    } else {
        None
    }
}

/// The accounts after a new escrow between the signer and the recipient: the
/// amount has gone from the initializer into a fresh vault, and an open record
/// stands at `escrow_key` with the given deadline and bumps.
pub open spec fn initialized(
    ctx: Initialize,
    amount: u64,
    deadline: i64,
    escrow_key: Address,
    escrow_bump: u8,
    vault_key: Address,
    vault_bump: u8,
) -> Initialize {
    Initialize {
        initializer_deposit_token_account: debited(ctx.initializer_deposit_token_account, amount),
        escrow_state: Escrow {
            initializer: ctx.initializer,
            recipient: ctx.recipient,
            arbiter: ctx.arbiter,
            amount,
            timeout: deadline,
            status: EscrowStatus::Initialized,
            vault_bump,
            escrow_bump,
        },
        escrow_key,
        vault: TokenAccount { amount },
        vault_key,
        ..ctx
    }
}

/// Opens an escrow of `amount` tokens from the initializer to the recipient,
/// with the deadline `timeout` seconds after `now`. The record's and the
/// vault's addresses are derived with their canonical bumps.
pub fn initialize(ctx: &mut Initialize, program_id: &Address, now: i64, amount: u64, timeout: i64) -> (r: Result<
    EscrowInitialized,
    EscrowError,
>)
    ensures
        match r {
            Ok(ev) => {
                &&& initialize_error(*old(ctx), now, amount, timeout) is None
                &&& derivation_ok(old(ctx).initializer, old(ctx).recipient, *program_id)
                &&& old(ctx).initializer_deposit_token_account.amount >= amount
                &&& canonical(
                    escrow_seeds(old(ctx).initializer, old(ctx).recipient),
                    program_id.bytes@,
                    final(ctx).escrow_key,
                    final(ctx).escrow_state.escrow_bump,
                )
                &&& canonical(
                    vault_seeds(final(ctx).escrow_key),
                    program_id.bytes@,
                    final(ctx).vault_key,
                    final(ctx).escrow_state.vault_bump,
                )
                &&& *final(ctx) == initialized(
                    *old(ctx),
                    amount,
                    (now + timeout) as i64,
                    final(ctx).escrow_key,
                    final(ctx).escrow_state.escrow_bump,
                    final(ctx).vault_key,
                    final(ctx).escrow_state.vault_bump,
                )
                &&& ev == (EscrowInitialized {
                    escrow: final(ctx).escrow_key,
                    initializer: old(ctx).initializer,
                    recipient: old(ctx).recipient,
                    arbiter: old(ctx).arbiter,
                    amount,
                })
            },
            Err(e) => {
                &&& *final(ctx) == *old(ctx)
                &&& match initialize_error(*old(ctx), now, amount, timeout) {
                    Some(f) => e == f,
                    None => if !derivation_ok(old(ctx).initializer, old(ctx).recipient, *program_id) {
                        e == EscrowError::InvalidBump
                    } else {
                        e == EscrowError::InsufficientFunds
                            && old(ctx).initializer_deposit_token_account.amount < amount
                    },
                }
            },
        },
{
    if amount == 0 {
        return Err(EscrowError::InvalidAmount);
    }
    if ctx.initializer.same(&ctx.recipient) {
        return Err(EscrowError::InvalidRecipient);
    }
    let deadline = match now.checked_add(timeout) {
        Some(d) => d,
        None => return Err(EscrowError::Overflow),
    };
    let (escrow_key, escrow_bump) = match find_escrow_address(&ctx.initializer, &ctx.recipient, program_id) {
        Some(found) => found,
        None => return Err(EscrowError::InvalidBump),
    };
    let (vault_key, vault_bump) = match find_vault_address(&escrow_key, program_id) {
        Some(found) => found,
        None => {
            proof {
                assert(canonical(escrow_seeds(ctx.initializer, ctx.recipient), program_id.bytes@, escrow_key, escrow_bump));
            }
            return Err(EscrowError::InvalidBump);
        },
    };
    proof {
        let seeds = escrow_seeds(ctx.initializer, ctx.recipient);
        assert(program_address_of(with_bump(seeds, escrow_bump), program_id.bytes@) is Some);
        assert(derivable(seeds, program_id.bytes@));
        assert(program_address_of(with_bump(vault_seeds(escrow_key), vault_bump), program_id.bytes@) is Some);
        assert forall|k: Address, b: u8| #[trigger] canonical(seeds, program_id.bytes@, k, b)
            implies derivable(vault_seeds(k), program_id.bytes@) by {
            lemma_canonical_unique(seeds, program_id.bytes@, k, b, escrow_key, escrow_bump);
        }
    }
    let mut vault = TokenAccount { amount: 0 };
    if let Err(e) = transfer(&mut ctx.initializer_deposit_token_account, &mut vault, amount) {
        return Err(e);
    }
    ctx.escrow_state = Escrow {
        initializer: ctx.initializer,
        recipient: ctx.recipient,
        arbiter: ctx.arbiter,
        amount,
        timeout: deadline,
        status: EscrowStatus::Initialized,
        vault_bump,
        escrow_bump,
    };
    ctx.escrow_key = escrow_key;
    ctx.vault = vault;
    ctx.vault_key = vault_key;
    Ok(EscrowInitialized {
        escrow: escrow_key,
        initializer: ctx.initializer,
        recipient: ctx.recipient,
        arbiter: ctx.arbiter,
        amount,
    })
}

} // verus!
