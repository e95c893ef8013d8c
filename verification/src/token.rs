//! The token: one ledger, its read-only queries and its signed commands.
//!
//! Every command is authenticated first: its signer is recovered from the
//! digest of its fields and its signature, and no address inside the command
//! is trusted for authorisation. The ledger then checks and applies the
//! command for that signer, or rejects it and stays as it was.

use vstd::prelude::*;

use crate::command::{Allowance, Approve, Transfer, TransferFrom};
use crate::error::Error;
use crate::ledger::{distribution_view, LedgerState};
use crate::model::LedgerView;
use crate::signature::Address;
use crate::value::{value_of, Value};

verus! {

/// The number of decimals of the token.
pub const DECIMALS: u8 = 18;

/// One call on the token: a query or a signed command.
#[derive(Clone, Copy, Debug, PartialEq, Eq)]
pub enum Command {
    /// Ask for the name of the token.
    Name,
    /// Ask for the symbol of the token.
    Symbol,
    /// Ask for the number of decimals.
    Decimals,
    /// Ask for the total supply.
    Supply,
    /// Ask for the balance of an address.
    Balance(Address),
    /// Ask for what an owner allows a spender.
    Allowance(Allowance),
    /// Transfer funds of the signer.
    Transfer(Transfer),
    /// Transfer funds on behalf of their owner.
    TransferFrom(TransferFrom),
    /// Allow a spender to move funds of the signer.
    Approve(Approve),
}

/// What the token answers to a call that it accepts.
#[derive(Debug, PartialEq, Eq)]
pub enum Reply {
    /// A name or a symbol.
    Text(String),
    /// The number of decimals.
    Decimals(u8),
    /// A supply, a balance or an allowance.
    Amount(Value),
    /// A command was applied.
    Done,
}

/// The token: the service that owns the ledger.
pub struct Token {
    ledger: LedgerState,
}

impl View for Token {
    type V = LedgerView;

    closed spec fn view(&self) -> LedgerView {
        self.ledger@
    }
}

impl Token {
    /// The invariant of the token: its balances add up to its total supply.
    pub open spec fn wf(&self) -> bool {
        self@.conserved()
    }

    /// A token with no supply, no balance, no allowance and no nonce.
    pub fn new() -> (token: Self)
        ensures
            token.wf(),
            token@ == LedgerView::empty(),
    {
        Token { ledger: LedgerState::new() }
    }

    /// A token whose total supply is `total_supply`, handed out as
    /// `distribution` says. Fails with `ValueOverflow` where the entries
    /// hand out more than `total_supply`, and with `ValueUnderflow` where
    /// they hand out less.
    pub fn genesis(total_supply: Value, distribution: &Vec<(Address, Value)>) -> (r: Result<
        Self,
        Error,
    >)
        ensures
            match r {
                Ok(token) => {
                    &&& token.wf()
                    &&& token@ == LedgerView::genesis(distribution_view(distribution@))
                    &&& token@.total_supply == value_of(total_supply)
                },
                Err(e) => if LedgerView::genesis(distribution_view(distribution@)).total_supply
                    > value_of(total_supply) {
                    e == Error::ValueOverflow
                } else {
                    &&& e == Error::ValueUnderflow
                    &&& LedgerView::genesis(distribution_view(distribution@)).total_supply
                        < value_of(total_supply)
                },
            },
    {
        match LedgerState::genesis(total_supply, distribution) {
            Ok(ledger) => Ok(Token { ledger }),
            Err(e) => Err(e),
        }
    }

    /// The name of the token.
    pub fn name(&self) -> (name: String)
        ensures
            name@ == "Dusk Ether"@,
    {
        "Dusk Ether".to_owned()
    }

    /// The symbol of the token.
    pub fn symbol(&self) -> (symbol: String)
        ensures
            symbol@ == "dETH"@,
    {
        "dETH".to_owned()
    }

    /// The number of decimals of the token.
    pub fn decimals(&self) -> (decimals: u8)
        ensures
            decimals == DECIMALS,
    {
        DECIMALS
    }

    /// The total supply.
    pub fn supply(&self) -> (supply: Value)
        ensures
            value_of(supply) == self@.total_supply,
    {
        self.ledger.supply()
    }

    /// The balance of `address`: zero where none is recorded.
    pub fn balance(&self, address: Address) -> (balance: Value)
        ensures
            value_of(balance) == self@.balance_of(address@),
    {
        self.ledger.balance(address)
    }

    /// What the owner allows the spender to move: zero where nothing is
    /// recorded.
    pub fn allowance(&self, allowance: Allowance) -> (allowed: Value)
        ensures
            value_of(allowed) == self@.allowance_of(allowance.owner@, allowance.spender@),
    {
        self.ledger.allowance(allowance.owner, allowance.spender)
    }

    /// Authenticates and applies a transfer. Fails with `BadSignature`
    /// where no signer can be recovered; else, for the recovered sender,
    /// with `NonceReused` where the sender has consumed the nonce, else with
    /// `InsufficientBalance` where the sender holds less than the value. A
    /// transfer that fails leaves the token unchanged.
    pub fn transfer(&mut self, transfer: Transfer) -> (r: Result<(), Error>)
        requires
            old(self).wf(),
        ensures
            final(self).wf(),
            match r {
                Ok(()) => transfer.outcome(old(self)@) == Ok::<LedgerView, Error>(final(self)@),
                Err(e) => {
                    &&& transfer.outcome(old(self)@) == Err::<LedgerView, Error>(e)
                    &&& *final(self) == *old(self)
                },
            },
    {
        match transfer.recover_signer() {
            Ok(sender) => self.ledger.transfer(sender, transfer.to, transfer.value, transfer.nonce),
            Err(e) => Err(e),
        }
    }

    /// Authenticates and applies a transfer on behalf. Fails with
    /// `BadSignature` where no signer can be recovered; else, for the
    /// recovered spender, with `NonceReused` where the spender has consumed
    /// the nonce, else with `InsufficientAllowance` where `from` allows the
    /// spender less than the value, else with `InsufficientBalance` where
    /// `from` holds less than the value. A command that fails leaves the
    /// token unchanged.
    pub fn transfer_from(&mut self, transfer_from: TransferFrom) -> (r: Result<(), Error>)
        requires
            old(self).wf(),
        ensures
            final(self).wf(),
            match r {
                Ok(()) => transfer_from.outcome(old(self)@) == Ok::<LedgerView, Error>(
                    final(self)@,
                ),
                Err(e) => {
                    &&& transfer_from.outcome(old(self)@) == Err::<LedgerView, Error>(e)
                    &&& *final(self) == *old(self)
                },
            },
    {
        match transfer_from.recover_signer() {
            Ok(spender) => self.ledger.transfer_from(
                spender,
                transfer_from.from,
                transfer_from.to,
                transfer_from.value,
                transfer_from.nonce,
            ),
            Err(e) => Err(e),
        }
    }

    /// Authenticates and applies an approval. Fails with `BadSignature`
    /// where no signer can be recovered; else, for the recovered owner, with
    /// `NonceReused` where the owner has consumed the nonce. An approval
    /// that fails leaves the token unchanged.
    pub fn approve(&mut self, approve: Approve) -> (r: Result<(), Error>)
        requires
            old(self).wf(),
        ensures
            final(self).wf(),
            match r {
                Ok(()) => approve.outcome(old(self)@) == Ok::<LedgerView, Error>(final(self)@),
                Err(e) => {
                    &&& approve.outcome(old(self)@) == Err::<LedgerView, Error>(e)
                    &&& *final(self) == *old(self)
                },
            },
    {
        match approve.recover_signer() {
            Ok(owner) => self.ledger.approve(owner, approve.spender, approve.value, approve.nonce),
            Err(e) => Err(e),
        }
    }

    /// Answers one call: a query is answered from the token as it is, a
    /// command is authenticated and applied as [`Token::transfer`],
    /// [`Token::transfer_from`] and [`Token::approve`] do. A query never
    /// fails and never changes the token.
    pub fn execute(&mut self, command: Command) -> (r: Result<Reply, Error>)
        requires
            old(self).wf(),
        ensures
            final(self).wf(),
            r is Err ==> *final(self) == *old(self),
            match command {
                Command::Name => {
                    &&& r matches Ok(Reply::Text(name))
                    &&& name@ == "Dusk Ether"@
                    &&& *final(self) == *old(self)
                },
                Command::Symbol => {
                    &&& r matches Ok(Reply::Text(symbol))
                    &&& symbol@ == "dETH"@
                    &&& *final(self) == *old(self)
                },
                Command::Decimals => {
                    &&& r == Ok::<Reply, Error>(Reply::Decimals(DECIMALS))
                    &&& *final(self) == *old(self)
                },
                Command::Supply => {
                    &&& r matches Ok(Reply::Amount(supply))
                    &&& value_of(supply) == old(self)@.total_supply
                    &&& *final(self) == *old(self)
                },
                Command::Balance(address) => {
                    &&& r matches Ok(Reply::Amount(balance))
                    &&& value_of(balance) == old(self)@.balance_of(address@)
                    &&& *final(self) == *old(self)
                },
                Command::Allowance(query) => {
                    &&& r matches Ok(Reply::Amount(allowed))
                    &&& value_of(allowed) == old(self)@.allowance_of(query.owner@, query.spender@)
                    &&& *final(self) == *old(self)
                },
                Command::Transfer(transfer) => match r {
                    Ok(reply) => {
                        &&& reply == Reply::Done
                        &&& transfer.outcome(old(self)@) == Ok::<LedgerView, Error>(final(self)@)
                    },
                    Err(e) => transfer.outcome(old(self)@) == Err::<LedgerView, Error>(e),
                },
                Command::TransferFrom(transfer_from) => match r {
                    Ok(reply) => {
                        &&& reply == Reply::Done
                        &&& transfer_from.outcome(old(self)@) == Ok::<LedgerView, Error>(
                            final(self)@,
                        )
                    },
                    Err(e) => transfer_from.outcome(old(self)@) == Err::<LedgerView, Error>(e),
                },
                Command::Approve(approve) => match r {
                    Ok(reply) => {
                        &&& reply == Reply::Done
                        &&& approve.outcome(old(self)@) == Ok::<LedgerView, Error>(final(self)@)
                    },
                    Err(e) => approve.outcome(old(self)@) == Err::<LedgerView, Error>(e),
                },
            },
    {
        match command {
            Command::Name => Ok(Reply::Text(self.name())),
            Command::Symbol => Ok(Reply::Text(self.symbol())),
            Command::Decimals => Ok(Reply::Decimals(self.decimals())),
            Command::Supply => Ok(Reply::Amount(self.supply())),
            Command::Balance(address) => Ok(Reply::Amount(self.balance(address))),
            Command::Allowance(query) => Ok(Reply::Amount(self.allowance(query))),
            Command::Transfer(transfer) => match self.transfer(transfer) {
                Ok(()) => Ok(Reply::Done),
                Err(e) => Err(e),
            },
            Command::TransferFrom(transfer_from) => match self.transfer_from(transfer_from) {
                Ok(()) => Ok(Reply::Done),
                Err(e) => Err(e),
            },
            Command::Approve(approve) => match self.approve(approve) {
                Ok(()) => Ok(Reply::Done),
                Err(e) => Err(e),
            },
        }
    }
}

} // verus!
