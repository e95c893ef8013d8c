//! The ledger: balances, allowances, total supply and consumed nonces.
//!
//! A [`LedgerState`] stores what a [`LedgerView`] describes. Its commands
//! take the signer as an argument that has already been authenticated; each
//! is applied in full or rejected with the ledger unchanged.

use std::collections::{BTreeMap, BTreeSet};
use vstd::bytes::{
    lemma_auto_spec_u128_to_from_le_bytes, lemma_auto_spec_u32_to_from_le_bytes,
    spec_u128_from_le_bytes, spec_u128_to_le_bytes, spec_u32_from_le_bytes, spec_u32_to_le_bytes,
    u128_from_le_bytes, u32_from_le_bytes,
};
use vstd::prelude::*;
use vstd::slice::slice_subrange;

use crate::error::Error;
use crate::model::{
    lemma_balance_within_supply, lemma_genesis_supply_monotone, lemma_mint_conserves,
    lemma_move_funds_conserves, LedgerView,
};
use crate::signature::Address;
use crate::value::{
    difference, lemma_value_bounded, less_than, max_value, sum, value_of, zero, Value,
};

verus! {

/// The pair of integers under which an address is stored: its first 16
/// bytes and its last 4, each read as a little-endian number.
spec fn account_key(address: Seq<u8>) -> (u128, u32) {
    (
        spec_u128_from_le_bytes(address.subrange(0, 16)),
        spec_u32_from_le_bytes(address.subrange(16, 20)),
    )
}

spec fn allowance_key(owner: Seq<u8>, spender: Seq<u8>) -> (u128, u32, u128, u32) {
    (account_key(owner).0, account_key(owner).1, account_key(spender).0, account_key(spender).1)
}

spec fn nonce_key(signer: Seq<u8>, nonce: u64) -> (u128, u32, u64) {
    (account_key(signer).0, account_key(signer).1, nonce)
}

/// Two addresses stored under the same key are the same address.
proof fn lemma_account_key_injective(a: Seq<u8>, b: Seq<u8>)
    requires
        a.len() == 20,
        b.len() == 20,
        account_key(a) == account_key(b),
    ensures
        a == b,
{
    lemma_auto_spec_u128_to_from_le_bytes();
    lemma_auto_spec_u32_to_from_le_bytes();
    assert(spec_u128_to_le_bytes(spec_u128_from_le_bytes(a.subrange(0, 16))) == a.subrange(0, 16));
    assert(spec_u128_to_le_bytes(spec_u128_from_le_bytes(b.subrange(0, 16))) == b.subrange(0, 16));
    assert(spec_u32_to_le_bytes(spec_u32_from_le_bytes(a.subrange(16, 20))) == a.subrange(16, 20));
    assert(spec_u32_to_le_bytes(spec_u32_from_le_bytes(b.subrange(16, 20))) == b.subrange(16, 20));
    assert(a =~= a.subrange(0, 16) + a.subrange(16, 20));
    assert(b =~= b.subrange(0, 16) + b.subrange(16, 20));
}

fn key_of(address: &Address) -> (key: (u128, u32))
    ensures
        key == account_key(address@),
{
    let bytes = address.as_slice();
    (u128_from_le_bytes(slice_subrange(bytes, 0, 16)), u32_from_le_bytes(slice_subrange(bytes, 16, 20)))
}

/// An initial distribution as the model sees it: the bytes of each address
/// and the number of each amount.
pub open spec fn distribution_view(distribution: Seq<(Address, Value)>) -> Seq<(Seq<u8>, nat)> {
    distribution.map_values(|entry: (Address, Value)| (entry.0@, value_of(entry.1)))
}

/// The balances, the allowances, the total supply and the consumed nonces.
pub struct LedgerState {
    total_supply: Value,
    balances: BTreeMap<(u128, u32), Value>,
    allowances: BTreeMap<(u128, u32, u128, u32), Value>,
    used_nonces: BTreeSet<(u128, u32, u64)>,
}

impl View for LedgerState {
    type V = LedgerView;

    closed spec fn view(&self) -> LedgerView {
        LedgerView {
            total_supply: value_of(self.total_supply),
            balances: Map::new(
                |holder: Seq<u8>|
                    holder.len() == 20 && self.balances@.contains_key(account_key(holder)),
                |holder: Seq<u8>| value_of(self.balances@[account_key(holder)]),
            ),
            allowances: Map::new(
                |pair: (Seq<u8>, Seq<u8>)|
                    pair.0.len() == 20 && pair.1.len() == 20 && self.allowances@.contains_key(
                        allowance_key(pair.0, pair.1),
                    ),
                |pair: (Seq<u8>, Seq<u8>)|
                    value_of(self.allowances@[allowance_key(pair.0, pair.1)]),
            ),
            used_nonces: Set::new(
                |pair: (Seq<u8>, u64)|
                    pair.0.len() == 20 && self.used_nonces@.contains(nonce_key(pair.0, pair.1)),
            ),
        }
    }
}

impl LedgerState {
    /// The invariant of a ledger: its balances add up to its total supply.
    pub open spec fn wf(&self) -> bool {
        self@.conserved()
    }

    /// A ledger with no supply, no balance, no allowance and no nonce.
    pub fn new() -> (ledger: Self)
        ensures
            ledger.wf(),
            ledger@ == LedgerView::empty(),
    {
        let ledger = LedgerState {
            total_supply: zero(),
            balances: BTreeMap::new(),
            allowances: BTreeMap::new(),
            used_nonces: BTreeSet::new(),
        };
        assert(ledger@.balances =~= Map::empty());
        assert(ledger@.allowances =~= Map::empty());
        assert(ledger@.used_nonces =~= Set::empty());
        ledger
    }

    fn mint(&mut self, holder: &Address, amount: Value)
        requires
            old(self).wf(),
            old(self)@.total_supply + value_of(amount) <= max_value(),
        ensures
            final(self).wf(),
            final(self)@ == old(self)@.mint(holder@, value_of(amount)),
    {
        let held = self.balance(*holder);
        proof {
            lemma_balance_within_supply(self@, holder@);
            lemma_mint_conserves(self@, holder@, value_of(amount));
        }
        let credited = sum(&held, &amount);
        self.total_supply = sum(&self.total_supply, &amount);
        self.set_balance(holder, credited);
    }

    /// A ledger whose total supply is `total_supply`, handed out as
    /// `distribution` says: each entry in turn adds its amount to the balance
    /// of its address. Fails with `ValueOverflow` where the entries hand out
    /// more than `total_supply`, and with `ValueUnderflow` where they hand
    /// out less.
    pub fn genesis(total_supply: Value, distribution: &Vec<(Address, Value)>) -> (r: Result<
        Self,
        Error,
    >)
        ensures
            match r {
                Ok(ledger) => {
                    &&& ledger.wf()
                    &&& ledger@ == LedgerView::genesis(distribution_view(distribution@))
                    &&& ledger@.total_supply == value_of(total_supply)
                },
                Err(e) => if LedgerView::genesis(distribution_view(distribution@)).total_supply
                    > value_of(total_supply) {
                    e == Error::ValueOverflow
                } else {
                    &&& e == Error::ValueUnderflow
                    &&& LedgerView::genesis(distribution_view(distribution@)).total_supply
                        < value_of(total_supply)
                },
            },
    {
        let ghost entries = distribution_view(distribution@);
        let mut ledger = Self::new();
        let mut i: usize = 0;
        assert(entries.take(0) =~= Seq::empty());
        while i < distribution.len()
            invariant
                i <= distribution@.len(),
                entries == distribution_view(distribution@),
                ledger.wf(),
                ledger@ == LedgerView::genesis(entries.take(i as int)),
                ledger@.total_supply <= value_of(total_supply),
            decreases distribution@.len() - i,
        {
            let holder = distribution[i].0;
            let amount = distribution[i].1;
            proof {
                assert(entries.take(i + 1).drop_last() =~= entries.take(i as int));
                assert(entries.take(i + 1).last() == (holder@, value_of(amount)));
                lemma_value_bounded(total_supply);
            }
            let room = difference(&total_supply, &ledger.total_supply);
            if less_than(&room, &amount) {
                proof {
                    lemma_genesis_supply_monotone(entries, i + 1);
                }
                return Err(Error::ValueOverflow);
            }
            ledger.mint(&holder, amount);
            i += 1;
        }
        assert(entries.take(i as int) =~= entries);
        if less_than(&ledger.total_supply, &total_supply) {
            return Err(Error::ValueUnderflow);
        }
        Ok(ledger)
    }

    /// The total supply.
    pub fn supply(&self) -> (supply: Value)
        ensures
            value_of(supply) == self@.total_supply,
    {
        self.total_supply
    }

    /// The balance of `address`: zero where none is recorded.
    pub fn balance(&self, address: Address) -> (balance: Value)
        ensures
            value_of(balance) == self@.balance_of(address@),
    {
        let key = key_of(&address);
        match self.balances.get(&key) {
            Some(balance) => *balance,
            None => zero(),
        }
    }

    /// What `owner` allows `spender` to move: zero where nothing is recorded.
    pub fn allowance(&self, owner: Address, spender: Address) -> (allowance: Value)
        ensures
            value_of(allowance) == self@.allowance_of(owner@, spender@),
    {
        let owner_key = key_of(&owner);
        let spender_key = key_of(&spender);
        match self.allowances.get(&(owner_key.0, owner_key.1, spender_key.0, spender_key.1)) {
            Some(allowance) => *allowance,
            None => zero(),
        }
    }

    /// Whether `signer` has consumed `nonce`.
    pub fn nonce_used(&self, signer: Address, nonce: u64) -> (used: bool)
        ensures
            used == self@.nonce_used(signer@, nonce),
    {
        let key = key_of(&signer);
        self.used_nonces.contains(&(key.0, key.1, nonce))
    }

    fn set_balance(&mut self, holder: &Address, amount: Value)
        ensures
            final(self)@ == (LedgerView {
                balances: old(self)@.balances.insert(holder@, value_of(amount)),
                ..old(self)@
            }),
    {
        let key = key_of(holder);
        self.balances.insert(key, amount);
        proof {
            assert forall|other: Seq<u8>|
                other.len() == 20 && account_key(other) == account_key(
                    holder@,
                ) implies other == holder@ by {
                lemma_account_key_injective(other, holder@);
            }
            assert(self@.balances =~= old(self)@.balances.insert(holder@, value_of(amount)));
            assert(self@.allowances =~= old(self)@.allowances);
            assert(self@.used_nonces =~= old(self)@.used_nonces);
        }
    }

    fn set_allowance(&mut self, owner: &Address, spender: &Address, amount: Value)
        ensures
            final(self)@ == old(self)@.set_allowance(owner@, spender@, value_of(amount)),
    {
        let owner_key = key_of(owner);
        let spender_key = key_of(spender);
        self.allowances.insert((owner_key.0, owner_key.1, spender_key.0, spender_key.1), amount);
        proof {
            assert forall|pair: (Seq<u8>, Seq<u8>)|
                pair.0.len() == 20 && pair.1.len() == 20 && allowance_key(pair.0, pair.1)
                    == allowance_key(owner@, spender@) implies pair == (owner@, spender@) by {
                lemma_account_key_injective(pair.0, owner@);
                lemma_account_key_injective(pair.1, spender@);
            }
            assert(self@.allowances =~= old(self)@.allowances.insert(
                (owner@, spender@),
                value_of(amount),
            ));
            assert(self@.balances =~= old(self)@.balances);
            assert(self@.used_nonces =~= old(self)@.used_nonces);
        }
    }

    fn consume_nonce(&mut self, signer: &Address, nonce: u64)
        ensures
            final(self)@ == old(self)@.consume_nonce(signer@, nonce),
    {
        let key = key_of(signer);
        self.used_nonces.insert((key.0, key.1, nonce));
        proof {
            assert forall|pair: (Seq<u8>, u64)|
                pair.0.len() == 20 && nonce_key(pair.0, pair.1) == nonce_key(
                    signer@,
                    nonce,
                ) implies pair == (signer@, nonce) by {
                lemma_account_key_injective(pair.0, signer@);
            }
            assert(self@.used_nonces =~= old(self)@.used_nonces.insert((signer@, nonce)));
            assert(self@.balances =~= old(self)@.balances);
            assert(self@.allowances =~= old(self)@.allowances);
        }
    }

    fn move_funds(&mut self, from: &Address, to: &Address, amount: Value)
        requires
            old(self).wf(),
            old(self)@.balance_of(from@) >= value_of(amount),
        ensures
            final(self).wf(),
            final(self)@ == old(self)@.move_funds(from@, to@, value_of(amount)),
    {
        proof {
            lemma_move_funds_conserves(self@, from@, to@, value_of(amount));
            lemma_value_bounded(self.total_supply);
        }
        let available = self.balance(*from);
        self.set_balance(from, difference(&available, &amount));
        let held = self.balance(*to);
        self.set_balance(to, sum(&held, &amount));
    }

    /// Moves `amount` from `sender` to `to` and consumes `nonce`, for a
    /// command that `sender` has signed. Fails with `NonceReused` where
    /// `sender` has consumed `nonce` before, else with `InsufficientBalance`
    /// where `sender` holds less than `amount`.
    pub fn transfer(&mut self, sender: Address, to: Address, amount: Value, nonce: u64) -> (r: Result<
        (),
        Error,
    >)
        requires
            old(self).wf(),
        ensures
            final(self).wf(),
            match r {
                Ok(()) => old(self)@.transfer(sender@, to@, value_of(amount), nonce) == Ok::<
                    LedgerView,
                    Error,
                >(final(self)@),
                Err(e) => old(self)@.transfer(sender@, to@, value_of(amount), nonce) == Err::<
                    LedgerView,
                    Error,
                >(e) && *final(self) == *old(self),
            },
    {
        if self.nonce_used(sender, nonce) {
            return Err(Error::NonceReused);
        }
        let available = self.balance(sender);
        if less_than(&available, &amount) {
            return Err(Error::InsufficientBalance);
        }
        self.move_funds(&sender, &to, amount);
        self.consume_nonce(&sender, nonce);
        Ok(())
    }

    /// Moves `amount` from `from` to `to` out of what `from` allows
    /// `spender`, and consumes `nonce`, for a command that `spender` has
    /// signed. Fails with `NonceReused` where `spender` has consumed `nonce`
    /// before, else with `InsufficientAllowance` where `from` allows
    /// `spender` less than `amount`, else with `InsufficientBalance` where
    /// `from` holds less than `amount`.
    pub fn transfer_from(
        &mut self,
        spender: Address,
        from: Address,
        to: Address,
        amount: Value,
        nonce: u64,
    ) -> (r: Result<(), Error>)
        requires
            old(self).wf(),
        ensures
            final(self).wf(),
            match r {
                Ok(()) => old(self)@.transfer_from(spender@, from@, to@, value_of(amount), nonce)
                    == Ok::<LedgerView, Error>(final(self)@),
                Err(e) => old(self)@.transfer_from(spender@, from@, to@, value_of(amount), nonce)
                    == Err::<LedgerView, Error>(e) && *final(self) == *old(self),
            },
    {
        if self.nonce_used(spender, nonce) {
            return Err(Error::NonceReused);
        }
        let allowed = self.allowance(from, spender);
        if less_than(&allowed, &amount) {
            return Err(Error::InsufficientAllowance);
        }
        let available = self.balance(from);
        if less_than(&available, &amount) {
            return Err(Error::InsufficientBalance);
        }
        self.set_allowance(&from, &spender, difference(&allowed, &amount));
        self.move_funds(&from, &to, amount);
        self.consume_nonce(&spender, nonce);
        Ok(())
    }

    /// Sets what `owner` allows `spender` to `amount`, whatever it was, and
    /// consumes `nonce`, for a command that `owner` has signed. Fails with
    /// `NonceReused` where `owner` has consumed `nonce` before.
    pub fn approve(&mut self, owner: Address, spender: Address, amount: Value, nonce: u64) -> (r:
        Result<(), Error>)
        requires
            old(self).wf(),
        ensures
            final(self).wf(),
            match r {
                Ok(()) => old(self)@.approve(owner@, spender@, value_of(amount), nonce) == Ok::<
                    LedgerView,
                    Error,
                >(final(self)@),
                Err(e) => old(self)@.approve(owner@, spender@, value_of(amount), nonce) == Err::<
                    LedgerView,
                    Error,
                >(e) && *final(self) == *old(self),
            },
    {
        if self.nonce_used(owner, nonce) {
            return Err(Error::NonceReused);
        }
        self.set_allowance(&owner, &spender, amount);
        self.consume_nonce(&owner, nonce);
        Ok(())
    }
}

} // verus!
