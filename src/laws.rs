//! Properties of the escrow life cycle, proved over the operations' contracts.
use vstd::prelude::*;
use crate::state::{Address, Escrow, TokenAccount, EscrowError};
use crate::engine::{
    Initialize, Withdraw, Refund, Cancel, ResolveByArbiter, addresses_ok, initialized, withdraw_error,
    after_withdraw, refund_error, after_refund, cancel_error, after_cancel, resolve_error, after_resolve,
};

verus! {

/// The vault holds exactly the escrowed amount while the record is open, and
/// nothing once it is closed.
pub open spec fn vault_matches(record: Escrow, vault: TokenAccount) -> bool {
    if record.is_open() {
        vault.amount == record.amount
    } else {
        vault.amount == 0
    }
}

/// The vault balance follows the status: a new escrow's vault holds its
/// amount, and every successful operation on a record whose vault matches its
/// status leaves them matching. (A refused operation changes nothing.)
pub proof fn lemma_vault_follows_status(
    i: Initialize,
    amount: u64,
    deadline: i64,
    escrow_key: Address,
    escrow_bump: u8,
    vault_key: Address,
    vault_bump: u8,
    w: Withdraw,
    rf: Refund,
    c: Cancel,
    a: ResolveByArbiter,
    release_to_recipient: bool,
    program_id: Address,
    now: i64,
)
    ensures
        ({
            let post = initialized(i, amount, deadline, escrow_key, escrow_bump, vault_key, vault_bump);
            vault_matches(post.escrow_state, post.vault)
        }),
        withdraw_error(w, program_id, now) is None && vault_matches(w.escrow_state, w.vault) ==> vault_matches(
            after_withdraw(w).escrow_state,
            after_withdraw(w).vault,
        ),
        refund_error(rf, program_id, now) is None && vault_matches(rf.escrow_state, rf.vault) ==> vault_matches(
            after_refund(rf).escrow_state,
            after_refund(rf).vault,
        ),
        cancel_error(c, program_id, now) is None && vault_matches(c.escrow_state, c.vault) ==> vault_matches(
            after_cancel(c).escrow_state,
            after_cancel(c).vault,
        ),
        resolve_error(a, program_id, release_to_recipient) is None && vault_matches(a.escrow_state, a.vault)
            ==> vault_matches(
            after_resolve(a, release_to_recipient).escrow_state,
            after_resolve(a, release_to_recipient).vault,
        ),
{
}

/// Closing is final: every successful operation leaves the record closed; on
/// a closed record no operation succeeds, and each one, signed by the right
/// party on the right accounts, fails with `InvalidState`.
pub proof fn lemma_closed_is_final(
    w: Withdraw,
    rf: Refund,
    c: Cancel,
    a: ResolveByArbiter,
    release_to_recipient: bool,
    program_id: Address,
    now: i64,
)
    ensures
        withdraw_error(w, program_id, now) is None ==> !after_withdraw(w).escrow_state.is_open(),
        refund_error(rf, program_id, now) is None ==> !after_refund(rf).escrow_state.is_open(),
        cancel_error(c, program_id, now) is None ==> !after_cancel(c).escrow_state.is_open(),
        resolve_error(a, program_id, release_to_recipient) is None ==> !after_resolve(
            a,
            release_to_recipient,
        ).escrow_state.is_open(),
        !w.escrow_state.is_open() ==> withdraw_error(w, program_id, now) is Some,
        !rf.escrow_state.is_open() ==> refund_error(rf, program_id, now) is Some,
        !c.escrow_state.is_open() ==> cancel_error(c, program_id, now) is Some,
        !a.escrow_state.is_open() ==> resolve_error(a, program_id, release_to_recipient) is Some,
        !w.escrow_state.is_open() && w.escrow_state.recipient == w.recipient && addresses_ok(
            w.escrow_state,
            w.escrow_key,
            w.vault_key,
            program_id,
        ) ==> withdraw_error(w, program_id, now) == Some(EscrowError::InvalidState),
        !rf.escrow_state.is_open() && rf.escrow_state.initializer == rf.initializer && addresses_ok(
            rf.escrow_state,
            rf.escrow_key,
            rf.vault_key,
            program_id,
        ) ==> refund_error(rf, program_id, now) == Some(EscrowError::InvalidState),
        !c.escrow_state.is_open() && c.escrow_state.initializer == c.initializer && addresses_ok(
            c.escrow_state,
            c.escrow_key,
            c.vault_key,
            program_id,
        ) ==> cancel_error(c, program_id, now) == Some(EscrowError::InvalidState),
        !a.escrow_state.is_open() && a.escrow_state.arbiter == a.arbiter && addresses_ok(
            a.escrow_state,
            a.escrow_key,
            a.vault_key,
            program_id,
        ) ==> resolve_error(a, program_id, release_to_recipient) == Some(EscrowError::InvalidState),
{
}

/// Only the named party may act: a withdrawal not signed by the record's
/// recipient fails with `InvalidRecipient`, a refund or cancellation not
/// signed by its initializer with `InvalidInitializer`, and a settlement not
/// signed by its arbiter with `InvalidArbiter`, whatever the record's state.
pub proof fn lemma_only_named_party_acts(
    w: Withdraw,
    rf: Refund,
    c: Cancel,
    a: ResolveByArbiter,
    release_to_recipient: bool,
    program_id: Address,
    now: i64,
)
    ensures
        w.escrow_state.recipient != w.recipient ==> withdraw_error(w, program_id, now) == Some(
            EscrowError::InvalidRecipient,
        ),
        rf.escrow_state.initializer != rf.initializer ==> refund_error(rf, program_id, now) == Some(
            EscrowError::InvalidInitializer,
        ),
        c.escrow_state.initializer != c.initializer ==> cancel_error(c, program_id, now) == Some(
            EscrowError::InvalidInitializer,
        ),
        a.escrow_state.arbiter != a.arbiter ==> resolve_error(a, program_id, release_to_recipient) == Some(
            EscrowError::InvalidArbiter,
        ),
{
}

/// The destination can take `amount` more without passing the largest
/// balance: always so where all the accounts of one mint together hold no
/// more than its supply, a `u64`.
pub open spec fn can_take(to: TokenAccount, amount: u64) -> bool {
    to.amount + amount <= u64::MAX
}

/// The deadline alone decides, on an open record whose vault holds its
/// amount, signed by the right party on the right accounts: a withdrawal
/// succeeds iff it comes before the deadline, a refund iff it comes at or
/// after it, a cancellation iff before it, and a settlement always.
pub proof fn lemma_deadline_decides(
    w: Withdraw,
    rf: Refund,
    c: Cancel,
    a: ResolveByArbiter,
    release_to_recipient: bool,
    program_id: Address,
    now: i64,
)
    ensures
        ({
            &&& w.escrow_state.recipient == w.recipient
            &&& addresses_ok(w.escrow_state, w.escrow_key, w.vault_key, program_id)
            &&& w.escrow_state.is_open()
            &&& vault_matches(w.escrow_state, w.vault)
            &&& can_take(w.recipient_deposit_token_account, w.escrow_state.amount)
        }) ==> (withdraw_error(w, program_id, now) is None <==> now < w.escrow_state.timeout),
        ({
            &&& rf.escrow_state.initializer == rf.initializer
            &&& addresses_ok(rf.escrow_state, rf.escrow_key, rf.vault_key, program_id)
            &&& rf.escrow_state.is_open()
            &&& vault_matches(rf.escrow_state, rf.vault)
            &&& can_take(rf.initializer_refund_token_account, rf.escrow_state.amount)
        }) ==> (refund_error(rf, program_id, now) is None <==> now >= rf.escrow_state.timeout),
        ({
            &&& c.escrow_state.initializer == c.initializer
            &&& addresses_ok(c.escrow_state, c.escrow_key, c.vault_key, program_id)
            &&& c.escrow_state.is_open()
            &&& vault_matches(c.escrow_state, c.vault)
            &&& can_take(c.initializer_refund_token_account, c.escrow_state.amount)
        }) ==> (cancel_error(c, program_id, now) is None <==> now < c.escrow_state.timeout),
        ({
            &&& a.escrow_state.arbiter == a.arbiter
            &&& addresses_ok(a.escrow_state, a.escrow_key, a.vault_key, program_id)
            &&& a.escrow_state.is_open()
            &&& vault_matches(a.escrow_state, a.vault)
            &&& can_take(a.recipient_deposit_token_account, a.escrow_state.amount)
            &&& can_take(a.initializer_refund_token_account, a.escrow_state.amount)
        }) ==> resolve_error(a, program_id, release_to_recipient) is None,
{
}

/// No token is made or lost: every successful operation keeps the sum of the
/// balances of the accounts it touches (the vault included, a new vault
/// starting empty). A refused operation changes none of them.
pub proof fn lemma_tokens_conserved(
    i: Initialize,
    amount: u64,
    deadline: i64,
    escrow_key: Address,
    escrow_bump: u8,
    vault_key: Address,
    vault_bump: u8,
    w: Withdraw,
    rf: Refund,
    c: Cancel,
    a: ResolveByArbiter,
    release_to_recipient: bool,
    program_id: Address,
    now: i64,
)
    ensures
        i.initializer_deposit_token_account.amount >= amount ==> ({
            let post = initialized(i, amount, deadline, escrow_key, escrow_bump, vault_key, vault_bump);
            post.initializer_deposit_token_account.amount + post.vault.amount
                == i.initializer_deposit_token_account.amount + 0
        }),
        withdraw_error(w, program_id, now) is None ==> ({
            let post = after_withdraw(w);
            post.recipient_deposit_token_account.amount + post.vault.amount
                == w.recipient_deposit_token_account.amount + w.vault.amount
        }),
        refund_error(rf, program_id, now) is None ==> ({
            let post = after_refund(rf);
            post.initializer_refund_token_account.amount + post.vault.amount
                == rf.initializer_refund_token_account.amount + rf.vault.amount
        }),
        cancel_error(c, program_id, now) is None ==> ({
            let post = after_cancel(c);
            post.initializer_refund_token_account.amount + post.vault.amount
                == c.initializer_refund_token_account.amount + c.vault.amount
        }),
        resolve_error(a, program_id, release_to_recipient) is None ==> ({
            let post = after_resolve(a, release_to_recipient);
            post.recipient_deposit_token_account.amount + post.initializer_refund_token_account.amount
                + post.vault.amount == a.recipient_deposit_token_account.amount
                + a.initializer_refund_token_account.amount + a.vault.amount
        }),
{
}

} // verus!
