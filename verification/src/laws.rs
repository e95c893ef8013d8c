//! What holds of the ledger in every state, proved of the model.
//!
//! Each law is a proof about [`LedgerView`] and its three commands. The
//! ledger that stores the state and the token that authenticates commands
//! are tied to the model by their contracts, so each law holds of them too.

use vstd::prelude::*;

use crate::command::{nonce_bytes, value_bytes, Approve, Transfer, TransferFrom};
use crate::command::{lemma_field_lengths, lemma_nonce_bytes_injective, lemma_value_bytes_injective};
use crate::error::Error;
use crate::model::{lemma_mint_conserves, lemma_move_funds_conserves, LedgerView};

verus! {

/// An address with no recorded balance has balance zero, and a pair with no
/// recorded allowance has allowance zero.
pub proof fn lemma_unrecorded_is_zero(state: LedgerView, holder: Seq<u8>, spender: Seq<u8>)
    ensures
        !state.balances.contains_key(holder) ==> state.balance_of(holder) == 0,
        !state.allowances.contains_key((holder, spender)) ==> state.allowance_of(holder, spender)
            == 0,
        LedgerView::empty().balance_of(holder) == 0,
        LedgerView::empty().allowance_of(holder, spender) == 0,
{
}

/// After an initial distribution the balances add up to the total supply.
pub proof fn lemma_genesis_conserved(distribution: Seq<(Seq<u8>, nat)>)
    ensures
        LedgerView::genesis(distribution).conserved(),
    decreases distribution.len(),
{
    if distribution.len() == 0 {
        assert(LedgerView::empty().balances.dom() =~= Set::empty());
    } else {
        lemma_genesis_conserved(distribution.drop_last());
        lemma_mint_conserves(
            LedgerView::genesis(distribution.drop_last()),
            distribution.last().0,
            distribution.last().1,
        );
    }
}

/// A transfer that is accepted keeps the total supply, and keeps the
/// balances adding up to it.
pub proof fn lemma_transfer_conserves(
    state: LedgerView,
    sender: Seq<u8>,
    to: Seq<u8>,
    amount: nat,
    nonce: u64,
)
    requires
        state.conserved(),
    ensures
        match state.transfer(sender, to, amount, nonce) {
            Ok(after) => after.conserved() && after.total_supply == state.total_supply,
            Err(_) => true,
        },
{
    if state.transfer(sender, to, amount, nonce) is Ok {
        lemma_move_funds_conserves(state, sender, to, amount);
    }
}

/// A transfer on behalf that is accepted keeps the total supply, and keeps
/// the balances adding up to it.
pub proof fn lemma_transfer_from_conserves(
    state: LedgerView,
    spender: Seq<u8>,
    from: Seq<u8>,
    to: Seq<u8>,
    amount: nat,
    nonce: u64,
)
    requires
        state.conserved(),
    ensures
        match state.transfer_from(spender, from, to, amount, nonce) {
            Ok(after) => after.conserved() && after.total_supply == state.total_supply,
            Err(_) => true,
        },
{
    if state.transfer_from(spender, from, to, amount, nonce) is Ok {
        let allowed = (state.allowance_of(from, spender) - amount) as nat;
        lemma_move_funds_conserves(state.set_allowance(from, spender, allowed), from, to, amount);
    }
}

/// An approval that is accepted changes neither the total supply nor any
/// balance.
pub proof fn lemma_approve_conserves(
    state: LedgerView,
    owner: Seq<u8>,
    spender: Seq<u8>,
    amount: nat,
    nonce: u64,
)
    requires
        state.conserved(),
    ensures
        match state.approve(owner, spender, amount, nonce) {
            Ok(after) => {
                &&& after.conserved()
                &&& after.total_supply == state.total_supply
                &&& after.balances == state.balances
            },
            Err(_) => true,
        },
{
}

/// A transfer of an amount that the sender has, to another address, with a
/// fresh nonce: the sender has that much less, the recipient that much more,
/// and nothing else changes but the nonce, which is consumed.
pub proof fn lemma_transfer_moves_funds(
    state: LedgerView,
    sender: Seq<u8>,
    to: Seq<u8>,
    amount: nat,
    nonce: u64,
)
    requires
        !state.nonce_used(sender, nonce),
        state.balance_of(sender) >= amount,
        sender != to,
    ensures
        state.transfer(sender, to, amount, nonce) is Ok,
        ({
            let after = state.transfer(sender, to, amount, nonce)->Ok_0;
            &&& after.balance_of(sender) == state.balance_of(sender) - amount
            &&& after.balance_of(to) == state.balance_of(to) + amount
            &&& forall|other: Seq<u8>|
                other != sender && other != to ==> after.balance_of(other) == state.balance_of(
                    other,
                )
            &&& after.total_supply == state.total_supply
            &&& after.allowances == state.allowances
            &&& after.used_nonces == state.used_nonces.insert((sender, nonce))
        }),
{
}

/// A transfer from the sender to itself, of an amount that the sender has,
/// with a fresh nonce: every balance is as before, and the nonce is
/// consumed.
pub proof fn lemma_transfer_to_self(state: LedgerView, sender: Seq<u8>, amount: nat, nonce: u64)
    requires
        !state.nonce_used(sender, nonce),
        state.balance_of(sender) >= amount,
    ensures
        state.transfer(sender, sender, amount, nonce) is Ok,
        ({
            let after = state.transfer(sender, sender, amount, nonce)->Ok_0;
            &&& forall|holder: Seq<u8>| after.balance_of(holder) == state.balance_of(holder)
            &&& state.balances.contains_key(sender) ==> after.balances == state.balances
            &&& after.total_supply == state.total_supply
            &&& after.allowances == state.allowances
            &&& after.nonce_used(sender, nonce)
        }),
{
    let after = state.transfer(sender, sender, amount, nonce)->Ok_0;
    if state.balances.contains_key(sender) {
        assert(after.balances =~= state.balances);
    }
}

/// A transfer of more than the sender has, with a fresh nonce, fails with
/// `InsufficientBalance`.
pub proof fn lemma_transfer_insufficient_balance(
    state: LedgerView,
    sender: Seq<u8>,
    to: Seq<u8>,
    amount: nat,
    nonce: u64,
)
    requires
        !state.nonce_used(sender, nonce),
        state.balance_of(sender) < amount,
    ensures
        state.transfer(sender, to, amount, nonce) == Err::<LedgerView, Error>(
            Error::InsufficientBalance,
        ),
{
}

/// Two approvals in a row by the same owner for the same spender: the
/// allowance is what the second one says, not the sum.
pub proof fn lemma_approve_overwrites(
    state: LedgerView,
    owner: Seq<u8>,
    spender: Seq<u8>,
    first: nat,
    first_nonce: u64,
    second: nat,
    second_nonce: u64,
)
    requires
        !state.nonce_used(owner, first_nonce),
        !state.nonce_used(owner, second_nonce),
        first_nonce != second_nonce,
    ensures
        state.approve(owner, spender, first, first_nonce) is Ok,
        state.approve(owner, spender, first, first_nonce)->Ok_0.approve(
            owner,
            spender,
            second,
            second_nonce,
        ) is Ok,
        state.approve(owner, spender, first, first_nonce)->Ok_0.approve(
            owner,
            spender,
            second,
            second_nonce,
        )->Ok_0.allowance_of(owner, spender) == second,
{
}

/// A transfer on behalf within the allowance and the balance, with a fresh
/// nonce: the allowance is that much less; where `from` and `to` differ,
/// `from` has that much less and `to` that much more; the total supply is as
/// before.
pub proof fn lemma_transfer_from_moves_funds(
    state: LedgerView,
    spender: Seq<u8>,
    from: Seq<u8>,
    to: Seq<u8>,
    amount: nat,
    nonce: u64,
)
    requires
        !state.nonce_used(spender, nonce),
        state.allowance_of(from, spender) >= amount,
        state.balance_of(from) >= amount,
    ensures
        state.transfer_from(spender, from, to, amount, nonce) is Ok,
        ({
            let after = state.transfer_from(spender, from, to, amount, nonce)->Ok_0;
            &&& after.allowance_of(from, spender) == state.allowance_of(from, spender) - amount
            &&& from != to ==> after.balance_of(from) == state.balance_of(from) - amount
            &&& from != to ==> after.balance_of(to) == state.balance_of(to) + amount
            &&& from == to ==> after.balance_of(from) == state.balance_of(from)
            &&& forall|other: Seq<u8>|
                other != from && other != to ==> after.balance_of(other) == state.balance_of(
                    other,
                )
            &&& forall|owner: Seq<u8>, other: Seq<u8>|
                (owner, other) != (from, spender) ==> after.allowance_of(owner, other)
                    == state.allowance_of(owner, other)
            &&& after.total_supply == state.total_supply
            &&& after.used_nonces == state.used_nonces.insert((spender, nonce))
        }),
{
}

/// A transfer on behalf of exactly the allowance, which `from` has, with a
/// fresh nonce: the allowance becomes zero and, where `from` and `to`
/// differ, the balance of `from` falls by that amount.
pub proof fn lemma_transfer_from_exhausts_allowance(
    state: LedgerView,
    spender: Seq<u8>,
    from: Seq<u8>,
    to: Seq<u8>,
    nonce: u64,
)
    requires
        !state.nonce_used(spender, nonce),
        state.balance_of(from) >= state.allowance_of(from, spender),
    ensures
        state.transfer_from(spender, from, to, state.allowance_of(from, spender), nonce) is Ok,
        ({
            let amount = state.allowance_of(from, spender);
            let after = state.transfer_from(spender, from, to, amount, nonce)->Ok_0;
            &&& after.allowance_of(from, spender) == 0
            &&& from != to ==> after.balance_of(from) == state.balance_of(from) - amount
            &&& from != to ==> after.balance_of(to) == state.balance_of(to) + amount
        }),
{
    lemma_transfer_from_moves_funds(
        state,
        spender,
        from,
        to,
        state.allowance_of(from, spender),
        nonce,
    );
}

/// A transfer on behalf of more than the allowance, with a fresh nonce,
/// fails with `InsufficientAllowance`, whatever `from` holds.
pub proof fn lemma_transfer_from_over_allowance(
    state: LedgerView,
    spender: Seq<u8>,
    from: Seq<u8>,
    to: Seq<u8>,
    amount: nat,
    nonce: u64,
)
    requires
        !state.nonce_used(spender, nonce),
        state.allowance_of(from, spender) < amount,
    ensures
        state.transfer_from(spender, from, to, amount, nonce) == Err::<LedgerView, Error>(
            Error::InsufficientAllowance,
        ),
{
}

/// A command that is accepted consumes its nonce for its signer, and leaves
/// consumed every nonce that was consumed before.
pub proof fn lemma_accepted_consumes_nonce(
    state: LedgerView,
    signer: Seq<u8>,
    from: Seq<u8>,
    to: Seq<u8>,
    amount: nat,
    nonce: u64,
)
    ensures
        match state.transfer(signer, to, amount, nonce) {
            Ok(after) => after.nonce_used(signer, nonce) && state.used_nonces.subset_of(
                after.used_nonces,
            ),
            Err(_) => true,
        },
        match state.transfer_from(signer, from, to, amount, nonce) {
            Ok(after) => after.nonce_used(signer, nonce) && state.used_nonces.subset_of(
                after.used_nonces,
            ),
            Err(_) => true,
        },
        match state.approve(signer, to, amount, nonce) {
            Ok(after) => after.nonce_used(signer, nonce) && state.used_nonces.subset_of(
                after.used_nonces,
            ),
            Err(_) => true,
        },
{
}

/// Every command of a signer with a nonce that the signer has consumed
/// fails with `NonceReused`.
pub proof fn lemma_used_nonce_rejected(
    state: LedgerView,
    signer: Seq<u8>,
    from: Seq<u8>,
    to: Seq<u8>,
    amount: nat,
    nonce: u64,
)
    requires
        state.nonce_used(signer, nonce),
    ensures
        state.transfer(signer, to, amount, nonce) == Err::<LedgerView, Error>(Error::NonceReused),
        state.transfer_from(signer, from, to, amount, nonce) == Err::<LedgerView, Error>(
            Error::NonceReused,
        ),
        state.approve(signer, to, amount, nonce) == Err::<LedgerView, Error>(Error::NonceReused),
{
}

/// A command that was accepted fails with `NonceReused` when it is
/// submitted again at once.
pub proof fn lemma_resubmitted_rejected(
    state: LedgerView,
    transfer: Transfer,
    transfer_from: TransferFrom,
    approve: Approve,
)
    ensures
        match transfer.outcome(state) {
            Ok(after) => transfer.outcome(after) == Err::<LedgerView, Error>(Error::NonceReused),
            Err(_) => true,
        },
        match transfer_from.outcome(state) {
            Ok(after) => transfer_from.outcome(after) == Err::<LedgerView, Error>(
                Error::NonceReused,
            ),
            Err(_) => true,
        },
        match approve.outcome(state) {
            Ok(after) => approve.outcome(after) == Err::<LedgerView, Error>(Error::NonceReused),
            Err(_) => true,
        },
{
}

/// A command that was accepted fails with `NonceReused` in every later
/// state: one in which all nonces consumed by then are still consumed, as
/// they are after any number of accepted commands.
pub proof fn lemma_replay_rejected(
    state: LedgerView,
    later: LedgerView,
    transfer: Transfer,
    transfer_from: TransferFrom,
    approve: Approve,
)
    ensures
        match transfer.outcome(state) {
            Ok(after) => after.used_nonces.subset_of(later.used_nonces) ==> transfer.outcome(
                later,
            ) == Err::<LedgerView, Error>(Error::NonceReused),
            Err(_) => true,
        },
        match transfer_from.outcome(state) {
            Ok(after) => after.used_nonces.subset_of(later.used_nonces)
                ==> transfer_from.outcome(later) == Err::<LedgerView, Error>(Error::NonceReused),
            Err(_) => true,
        },
        match approve.outcome(state) {
            Ok(after) => after.used_nonces.subset_of(later.used_nonces) ==> approve.outcome(
                later,
            ) == Err::<LedgerView, Error>(Error::NonceReused),
            Err(_) => true,
        },
{
    if transfer.outcome(state) is Ok {
        let after = transfer.outcome(state)->Ok_0;
        assert(after.used_nonces.contains((transfer.signer()->0, transfer.nonce)));
    }
    if transfer_from.outcome(state) is Ok {
        let after = transfer_from.outcome(state)->Ok_0;
        assert(after.used_nonces.contains((transfer_from.signer()->0, transfer_from.nonce)));
    }
    if approve.outcome(state) is Ok {
        let after = approve.outcome(state)->Ok_0;
        assert(after.used_nonces.contains((approve.signer()->0, approve.nonce)));
    }
}

/// A command from which no signer can be recovered fails with
/// `BadSignature`, whatever the state.
pub proof fn lemma_unrecoverable_rejected(
    state: LedgerView,
    transfer: Transfer,
    transfer_from: TransferFrom,
    approve: Approve,
)
    ensures
        transfer.signer() is None ==> transfer.outcome(state) == Err::<LedgerView, Error>(
            Error::BadSignature,
        ),
        transfer_from.signer() is None ==> transfer_from.outcome(state) == Err::<
            LedgerView,
            Error,
        >(Error::BadSignature),
        approve.signer() is None ==> approve.outcome(state) == Err::<LedgerView, Error>(
            Error::BadSignature,
        ),
{
}

/// Two transfers with the same message have the same fields: a transfer
/// whose recipient, value or nonce is altered has another message.
pub proof fn lemma_transfer_message_injective(a: Transfer, b: Transfer)
    requires
        a.message() == b.message(),
    ensures
        a.to == b.to,
        a.value == b.value,
        a.nonce == b.nonce,
{
    lemma_field_lengths(a.value, a.nonce);
    lemma_field_lengths(b.value, b.nonce);
    assert(a.to@ =~= a.message().subrange(0, 20));
    assert(b.to@ =~= b.message().subrange(0, 20));
    assert(value_bytes(a.value) =~= a.message().subrange(20, 52));
    assert(value_bytes(b.value) =~= b.message().subrange(20, 52));
    assert(nonce_bytes(a.nonce) =~= a.message().subrange(52, 60));
    assert(nonce_bytes(b.nonce) =~= b.message().subrange(52, 60));
    lemma_value_bytes_injective(a.value, b.value);
    lemma_nonce_bytes_injective(a.nonce, b.nonce);
    assert(a.to =~= b.to);
}

/// Two transfers on behalf with the same message have the same fields.
pub proof fn lemma_transfer_from_message_injective(a: TransferFrom, b: TransferFrom)
    requires
        a.message() == b.message(),
    ensures
        a.from == b.from,
        a.to == b.to,
        a.value == b.value,
        a.nonce == b.nonce,
{
    lemma_field_lengths(a.value, a.nonce);
    lemma_field_lengths(b.value, b.nonce);
    assert(a.from@ =~= a.message().subrange(0, 20));
    assert(b.from@ =~= b.message().subrange(0, 20));
    assert(a.to@ =~= a.message().subrange(20, 40));
    assert(b.to@ =~= b.message().subrange(20, 40));
    assert(value_bytes(a.value) =~= a.message().subrange(40, 72));
    assert(value_bytes(b.value) =~= b.message().subrange(40, 72));
    assert(nonce_bytes(a.nonce) =~= a.message().subrange(72, 80));
    assert(nonce_bytes(b.nonce) =~= b.message().subrange(72, 80));
    lemma_value_bytes_injective(a.value, b.value);
    lemma_nonce_bytes_injective(a.nonce, b.nonce);
    assert(a.from =~= b.from);
    assert(a.to =~= b.to);
}

/// Two approvals with the same message have the same fields.
pub proof fn lemma_approve_message_injective(a: Approve, b: Approve)
    requires
        a.message() == b.message(),
    ensures
        a.spender == b.spender,
        a.value == b.value,
        a.nonce == b.nonce,
{
    lemma_field_lengths(a.value, a.nonce);
    lemma_field_lengths(b.value, b.nonce);
    assert(a.spender@ =~= a.message().subrange(0, 20));
    assert(b.spender@ =~= b.message().subrange(0, 20));
    assert(value_bytes(a.value) =~= a.message().subrange(20, 52));
    assert(value_bytes(b.value) =~= b.message().subrange(20, 52));
    assert(nonce_bytes(a.nonce) =~= a.message().subrange(52, 60));
    assert(nonce_bytes(b.nonce) =~= b.message().subrange(52, 60));
    lemma_value_bytes_injective(a.value, b.value);
    lemma_nonce_bytes_injective(a.nonce, b.nonce);
    assert(a.spender =~= b.spender);
}

} // verus!
