//! The ledger as a mathematical state machine.
//!
//! A [`LedgerView`] is what a ledger holds, without regard to how it is
//! stored: the total supply, the recorded balances and allowances, and the
//! nonces that signers have consumed. Addresses are sequences of bytes and
//! amounts are natural numbers. The three commands are functions from a
//! state and the authenticated arguments of the command to the next state,
//! or to the reason for which the command is rejected.

use vstd::prelude::*;

use crate::error::Error;

verus! {

/// The sum of all amounts recorded in `balances`.
pub open spec fn sum_of(balances: Map<Seq<u8>, nat>) -> nat
    decreases balances.dom().len(),
    when balances.dom().finite()
{
    if balances.dom().len() == 0 {
        0
    } else {
        let holder = balances.dom().choose();
        balances[holder] + sum_of(balances.remove(holder))
    }
}

/// The sum of all recorded amounts is the amount of any one holder plus the
/// sum of the others.
pub proof fn lemma_sum_split(balances: Map<Seq<u8>, nat>, holder: Seq<u8>)
    requires
        balances.dom().finite(),
        balances.contains_key(holder),
    ensures
        sum_of(balances) == balances[holder] + sum_of(balances.remove(holder)),
    decreases balances.dom().len(),
{
    let chosen = balances.dom().choose();
    if chosen != holder {
        lemma_sum_split(balances.remove(chosen), holder);
        lemma_sum_split(balances.remove(holder), chosen);
        assert(balances.remove(chosen).remove(holder) =~= balances.remove(holder).remove(chosen));
    }
}

/// Recording `amount` for `holder` changes the sum by the difference to what
/// was recorded for `holder` before.
pub proof fn lemma_sum_insert(balances: Map<Seq<u8>, nat>, holder: Seq<u8>, amount: nat)
    requires
        balances.dom().finite(),
    ensures
        sum_of(balances.insert(holder, amount)) + (if balances.contains_key(holder) {
            balances[holder]
        } else {
            0
        }) == sum_of(balances) + amount,
{
    let after = balances.insert(holder, amount);
    lemma_sum_split(after, holder);
    assert(after.remove(holder) =~= balances.remove(holder));
    if balances.contains_key(holder) {
        lemma_sum_split(balances, holder);
    } else {
        assert(balances.remove(holder) =~= balances);
    }
}

/// What a ledger holds.
#[verifier::ext_equal]
pub struct LedgerView {
    /// The total supply.
    pub total_supply: nat,
    /// The recorded balance of each holder.
    pub balances: Map<Seq<u8>, nat>,
    /// The recorded allowance of each pair of owner and spender.
    pub allowances: Map<(Seq<u8>, Seq<u8>), nat>,
    /// The pairs of signer and nonce that have been consumed.
    pub used_nonces: Set<(Seq<u8>, u64)>,
}

impl LedgerView {
    /// The balance of `holder`: zero where none is recorded.
    pub open spec fn balance_of(self, holder: Seq<u8>) -> nat {
        if self.balances.contains_key(holder) {
            self.balances[holder]
        } else {
            0
        }
    }

    /// What `owner` allows `spender` to move: zero where nothing is recorded.
    pub open spec fn allowance_of(self, owner: Seq<u8>, spender: Seq<u8>) -> nat {
        if self.allowances.contains_key((owner, spender)) {
            self.allowances[(owner, spender)]
        } else {
            0
        }
    }

    /// Whether `signer` has consumed `nonce`.
    pub open spec fn nonce_used(self, signer: Seq<u8>, nonce: u64) -> bool {
        self.used_nonces.contains((signer, nonce))
    }

    /// The balances are finitely many and add up to the total supply.
    pub open spec fn conserved(self) -> bool {
        &&& self.balances.dom().finite()
        &&& sum_of(self.balances) == self.total_supply
    }

    /// This state with `amount` taken from the balance of `holder`.
    pub open spec fn debit(self, holder: Seq<u8>, amount: nat) -> LedgerView {
        LedgerView {
            balances: self.balances.insert(holder, (self.balance_of(holder) - amount) as nat),
            ..self
        }
    }

    /// This state with `amount` added to the balance of `holder`.
    pub open spec fn credit(self, holder: Seq<u8>, amount: nat) -> LedgerView {
        LedgerView {
            balances: self.balances.insert(holder, self.balance_of(holder) + amount),
            ..self
        }
    }

    /// This state with `amount` moved from `from` to `to`: a debit, then a
    /// credit.
    pub open spec fn move_funds(self, from: Seq<u8>, to: Seq<u8>, amount: nat) -> LedgerView {
        self.debit(from, amount).credit(to, amount)
    }

    /// This state with the allowance of `spender` on `owner` set to `amount`.
    pub open spec fn set_allowance(self, owner: Seq<u8>, spender: Seq<u8>, amount: nat) -> LedgerView {
        LedgerView { allowances: self.allowances.insert((owner, spender), amount), ..self }
    }

    /// This state with `nonce` consumed by `signer`.
    pub open spec fn consume_nonce(self, signer: Seq<u8>, nonce: u64) -> LedgerView {
        LedgerView { used_nonces: self.used_nonces.insert((signer, nonce)), ..self }
    }

    /// The state before any command: nothing recorded, no supply.
    pub open spec fn empty() -> LedgerView {
        LedgerView {
            total_supply: 0,
            balances: Map::empty(),
            allowances: Map::empty(),
            used_nonces: Set::empty(),
        }
    }

    /// This state with `amount` created and added to the balance of `holder`.
    pub open spec fn mint(self, holder: Seq<u8>, amount: nat) -> LedgerView {
        LedgerView { total_supply: self.total_supply + amount, ..self.credit(holder, amount) }
    }

    /// The state after an initial distribution: each entry in turn is minted
    /// to its holder. The total supply is the sum of the amounts.
    pub open spec fn genesis(distribution: Seq<(Seq<u8>, nat)>) -> LedgerView
        decreases distribution.len(),
    {
        if distribution.len() == 0 {
            Self::empty()
        } else {
            Self::genesis(distribution.drop_last()).mint(
                distribution.last().0,
                distribution.last().1,
            )
        }
    }

    /// The outcome of a transfer of `amount` to `to`, signed by `sender`.
    pub open spec fn transfer(self, sender: Seq<u8>, to: Seq<u8>, amount: nat, nonce: u64) -> Result<
        LedgerView,
        Error,
    > {
        if self.nonce_used(sender, nonce) {
            Err(Error::NonceReused)
        } else if self.balance_of(sender) < amount {
            Err(Error::InsufficientBalance)
        } else {
            Ok(self.move_funds(sender, to, amount).consume_nonce(sender, nonce))
        }
    }

    /// The outcome of a transfer of `amount` from `from` to `to`, signed by
    /// `spender`.
    pub open spec fn transfer_from(
        self,
        spender: Seq<u8>,
        from: Seq<u8>,
        to: Seq<u8>,
        amount: nat,
        nonce: u64,
    ) -> Result<LedgerView, Error> {
        if self.nonce_used(spender, nonce) {
            Err(Error::NonceReused)
        } else if self.allowance_of(from, spender) < amount {
            Err(Error::InsufficientAllowance)
        } else if self.balance_of(from) < amount {
            Err(Error::InsufficientBalance)
        } else {
            Ok(
                self.set_allowance(
                    from,
                    spender,
                    (self.allowance_of(from, spender) - amount) as nat,
                ).move_funds(from, to, amount).consume_nonce(spender, nonce),
            )
        }
    }

    /// The outcome of an approval of `amount` to `spender`, signed by
    /// `owner`.
    pub open spec fn approve(self, owner: Seq<u8>, spender: Seq<u8>, amount: nat, nonce: u64) -> Result<
        LedgerView,
        Error,
    > {
        if self.nonce_used(owner, nonce) {
            Err(Error::NonceReused)
        } else {
            Ok(self.set_allowance(owner, spender, amount).consume_nonce(owner, nonce))
        }
    }
}

/// No holder has more than the total supply.
pub proof fn lemma_balance_within_supply(state: LedgerView, holder: Seq<u8>)
    requires
        state.conserved(),
    ensures
        state.balance_of(holder) <= state.total_supply,
{
    if state.balances.contains_key(holder) {
        lemma_sum_split(state.balances, holder);
    }
}

/// Minting keeps the balances adding up to the total supply.
pub proof fn lemma_mint_conserves(state: LedgerView, holder: Seq<u8>, amount: nat)
    requires
        state.conserved(),
    ensures
        state.mint(holder, amount).conserved(),
{
    lemma_sum_insert(state.balances, holder, state.balance_of(holder) + amount);
}

/// Moving funds that the debited holder has keeps the balances adding up to
/// the total supply.
pub proof fn lemma_move_funds_conserves(state: LedgerView, from: Seq<u8>, to: Seq<u8>, amount: nat)
    requires
        state.conserved(),
        state.balance_of(from) >= amount,
    ensures
        state.move_funds(from, to, amount).conserved(),
        state.debit(from, amount).balance_of(to) + amount <= state.total_supply,
{
    let debited = state.debit(from, amount);
    lemma_sum_insert(state.balances, from, (state.balance_of(from) - amount) as nat);
    if debited.balances.contains_key(to) {
        lemma_sum_split(debited.balances, to);
    }
    lemma_sum_insert(debited.balances, to, debited.balance_of(to) + amount);
}

/// The supply after a part of an initial distribution is at most the supply
/// after all of it.
pub proof fn lemma_genesis_supply_monotone(distribution: Seq<(Seq<u8>, nat)>, n: int)
    requires
        0 <= n <= distribution.len(),
    ensures
        LedgerView::genesis(distribution.take(n)).total_supply <= LedgerView::genesis(
            distribution,
        ).total_supply,
    decreases distribution.len(),
{
    if n < distribution.len() {
        assert(distribution.drop_last().take(n) =~= distribution.take(n));
        lemma_genesis_supply_monotone(distribution.drop_last(), n);
    } else {
        assert(distribution.take(n) =~= distribution);
    }
}

} // verus!
