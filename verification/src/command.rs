//! The signed commands and the allowance query.
//!
//! Each command has a canonical message: its fields other than the
//! signature, in declared order, an address as its 20 bytes, an amount as
//! its two limbs in little-endian order with the low limb first, the nonce
//! as 8 little-endian bytes. The signature of a command is over the
//! Keccak-256 digest of that message. The record of a command is its message
//! followed by the 64 bytes of the signature.

use vstd::bytes::{
    lemma_auto_spec_u128_to_from_le_bytes, lemma_auto_spec_u64_to_from_le_bytes,
    spec_u128_from_le_bytes, spec_u128_to_le_bytes, spec_u64_from_le_bytes, spec_u64_to_le_bytes,
};
use vstd::prelude::*;
use vstd::slice::slice_subrange;

use crate::error::Error;
use crate::hashing::{keccak256, keccak256_digest};
use crate::model::LedgerView;
use crate::signature::{recover_signer, recovered_signer, sign, signed, Address, Signature};
use crate::value::{value_of, Value};

verus! {

/// The 32 bytes of an amount: low limb, then high limb, each little-endian.
pub open spec fn value_bytes(value: Value) -> Seq<u8> {
    spec_u128_to_le_bytes(value[0]) + spec_u128_to_le_bytes(value[1])
}

/// The 8 little-endian bytes of a nonce.
pub open spec fn nonce_bytes(nonce: u64) -> Seq<u8> {
    spec_u64_to_le_bytes(nonce)
}

/// The number of bytes in the record of a [`Transfer`] or an [`Approve`].
pub const TRANSFER_RECORD_LEN: usize = 124;

/// The number of bytes in the record of a [`TransferFrom`].
pub const TRANSFER_FROM_RECORD_LEN: usize = 144;

/// The number of bytes in the record of an [`Allowance`].
pub const ALLOWANCE_RECORD_LEN: usize = 40;

fn append(out: &mut Vec<u8>, bytes: &[u8])
    ensures
        final(out)@ == old(out)@ + bytes@,
{
    let mut i: usize = 0;
    while i < bytes.len()
        invariant
            i <= bytes@.len(),
            out@ == old(out)@ + bytes@.subrange(0, i as int),
        decreases bytes@.len() - i,
    {
        out.push(bytes[i]);
        i += 1;
    }
}

fn append_value(out: &mut Vec<u8>, value: &Value)
    ensures
        final(out)@ == old(out)@ + value_bytes(*value),
{
    let low = vstd::bytes::u128_to_le_bytes(value[0]);
    let high = vstd::bytes::u128_to_le_bytes(value[1]);
    append(out, low.as_slice());
    append(out, high.as_slice());
}

fn append_nonce(out: &mut Vec<u8>, nonce: u64)
    ensures
        final(out)@ == old(out)@ + nonce_bytes(nonce),
{
    let bytes = vstd::bytes::u64_to_le_bytes(nonce);
    append(out, bytes.as_slice());
}

fn read_bytes<const N: usize>(bytes: &[u8], at: usize) -> (out: [u8; N])
    requires
        at + N <= bytes@.len() <= usize::MAX,
    ensures
        out@ == bytes@.subrange(at as int, at + N),
{
    let mut out: [u8; N] = [0u8; N];
    let mut i: usize = 0;
    while i < N
        invariant
            i <= N,
            at + N <= bytes@.len() <= usize::MAX,
            forall|j: int| 0 <= j < i ==> out@[j] == bytes@[at + j],
        decreases N - i,
    {
        out[i] = bytes[at + i];
        i += 1;
    }
    assert(out@ =~= bytes@.subrange(at as int, at + N));
    out
}

fn read_value(bytes: &[u8], at: usize) -> (value: Value)
    requires
        at + 32 <= bytes@.len() <= usize::MAX,
    ensures
        value_bytes(value) == bytes@.subrange(at as int, at + 32),
{
    let low = vstd::bytes::u128_from_le_bytes(slice_subrange(bytes, at, at + 16));
    let high = vstd::bytes::u128_from_le_bytes(slice_subrange(bytes, at + 16, at + 32));
    proof {
        lemma_auto_spec_u128_to_from_le_bytes();
        let low_bytes = bytes@.subrange(at as int, at + 16);
        let high_bytes = bytes@.subrange(at + 16, at + 32);
        assert(spec_u128_to_le_bytes(spec_u128_from_le_bytes(low_bytes)) == low_bytes);
        assert(spec_u128_to_le_bytes(spec_u128_from_le_bytes(high_bytes)) == high_bytes);
        assert(low_bytes + high_bytes =~= bytes@.subrange(at as int, at + 32));
    }
    [low, high]
}

fn read_nonce(bytes: &[u8], at: usize) -> (nonce: u64)
    requires
        at + 8 <= bytes@.len() <= usize::MAX,
    ensures
        nonce_bytes(nonce) == bytes@.subrange(at as int, at + 8),
{
    let nonce = vstd::bytes::u64_from_le_bytes(slice_subrange(bytes, at, at + 8));
    proof {
        lemma_auto_spec_u64_to_from_le_bytes();
        let nonce_bytes = bytes@.subrange(at as int, at + 8);
        assert(spec_u64_to_le_bytes(spec_u64_from_le_bytes(nonce_bytes)) == nonce_bytes);
    }
    nonce
}

/// Two amounts with the same 32 bytes are the same amount.
pub proof fn lemma_value_bytes_injective(a: Value, b: Value)
    requires
        value_bytes(a) == value_bytes(b),
    ensures
        a == b,
{
    lemma_auto_spec_u128_to_from_le_bytes();
    let a_low = spec_u128_to_le_bytes(a[0]);
    let b_low = spec_u128_to_le_bytes(b[0]);
    assert(a_low =~= value_bytes(a).subrange(0, 16));
    assert(b_low =~= value_bytes(b).subrange(0, 16));
    assert(spec_u128_to_le_bytes(a[1]) =~= value_bytes(a).subrange(16, 32));
    assert(spec_u128_to_le_bytes(b[1]) =~= value_bytes(b).subrange(16, 32));
    assert(spec_u128_from_le_bytes(spec_u128_to_le_bytes(a[0])) == a[0]);
    assert(spec_u128_from_le_bytes(spec_u128_to_le_bytes(b[0])) == b[0]);
    assert(spec_u128_from_le_bytes(spec_u128_to_le_bytes(a[1])) == a[1]);
    assert(spec_u128_from_le_bytes(spec_u128_to_le_bytes(b[1])) == b[1]);
    assert(a =~= b);
}

/// Two nonces with the same 8 bytes are the same nonce.
pub proof fn lemma_nonce_bytes_injective(a: u64, b: u64)
    requires
        nonce_bytes(a) == nonce_bytes(b),
    ensures
        a == b,
{
    lemma_auto_spec_u64_to_from_le_bytes();
    assert(spec_u64_from_le_bytes(spec_u64_to_le_bytes(a)) == a);
    assert(spec_u64_from_le_bytes(spec_u64_to_le_bytes(b)) == b);
}

/// An amount takes 32 bytes and a nonce 8.
pub proof fn lemma_field_lengths(value: Value, nonce: u64)
    ensures
        value_bytes(value).len() == 32,
        nonce_bytes(nonce).len() == 8,
{
    lemma_auto_spec_u128_to_from_le_bytes();
    lemma_auto_spec_u64_to_from_le_bytes();
    assert(spec_u128_to_le_bytes(value[0]).len() == 16);
    assert(spec_u128_to_le_bytes(value[1]).len() == 16);
    assert(spec_u64_to_le_bytes(nonce).len() == 8);
}

/// Transfer funds to an address. The sender is the signer.
#[derive(Clone, Copy, Debug, PartialEq, Eq)]
pub struct Transfer {
    /// Address to transfer funds to.
    pub to: Address,
    /// Value to transfer.
    pub value: Value,
    /// Nonce to prevent replay.
    pub nonce: u64,
    /// Signature of the call.
    pub sig: Signature,
}

impl Transfer {
    /// The canonical message of a transfer with these fields.
    pub open spec fn message_of(to: Seq<u8>, value: Value, nonce: u64) -> Seq<u8> {
        to + value_bytes(value) + nonce_bytes(nonce)
    }

    /// The canonical message of this transfer.
    pub open spec fn message(&self) -> Seq<u8> {
        Self::message_of(self.to@, self.value, self.nonce)
    }

    /// The digest that the signature of this transfer is over.
    pub open spec fn digest(&self) -> Seq<u8> {
        keccak256_digest(self.message())
    }

    /// The address that signed this transfer, where one can be recovered.
    pub open spec fn signer(&self) -> Option<Seq<u8>> {
        recovered_signer(self.digest(), self.sig@)
    }

    /// The outcome of this transfer on `state`: `BadSignature` where no
    /// signer can be recovered, else what the ledger makes of a transfer by
    /// the recovered signer.
    pub open spec fn outcome(&self, state: LedgerView) -> Result<LedgerView, Error> {
        match self.signer() {
            Some(sender) => state.transfer(sender, self.to@, value_of(self.value), self.nonce),
            None => Err(Error::BadSignature),
        }
    }

    /// A transfer of `value` to `to` with the given nonce, signed with
    /// `secret_key`. There is none where [`sign`] gives no signature.
    pub fn new(nonce: u64, secret_key: &[u8; 32], to: Address, value: Value) -> (r: Option<Self>)
        ensures
            match r {
                Some(transfer) => {
                    &&& transfer.to == to
                    &&& transfer.value == value
                    &&& transfer.nonce == nonce
                    &&& signed(transfer.digest(), secret_key@) == Some(transfer.sig@)
                },
                None => signed(
                    keccak256_digest(Self::message_of(to@, value, nonce)),
                    secret_key@,
                ) is None,
            },
    {
        let mut this = Transfer { to, value, nonce, sig: [0u8; 64] };
        let digest = this.hash();
        match sign(&digest, secret_key) {
            Some(sig) => {
                this.sig = sig;
                Some(this)
            },
            None => None,
        }
    }

    /// The canonical message of this transfer, as bytes.
    pub fn message_bytes(&self) -> (out: Vec<u8>)
        ensures
            out@ == self.message(),
    {
        let mut out: Vec<u8> = Vec::new();
        append(&mut out, self.to.as_slice());
        append_value(&mut out, &self.value);
        append_nonce(&mut out, self.nonce);
        out
    }

    /// The Keccak-256 digest of the canonical message.
    pub fn hash(&self) -> (digest: [u8; 32])
        ensures
            digest@ == self.digest(),
    {
        let message = self.message_bytes();
        keccak256(message.as_slice())
    }

    /// Recovers the address that signed this transfer, or fails with
    /// `BadSignature`.
    pub fn recover_signer(&self) -> (r: Result<Address, Error>)
        ensures
            match r {
                Ok(address) => self.signer() == Some(address@),
                Err(e) => e == Error::BadSignature && self.signer() is None,
            },
    {
        let digest = self.hash();
        recover_signer(&digest, &self.sig)
    }

    /// The record of this transfer: its message, then its signature.
    pub open spec fn record(&self) -> Seq<u8> {
        self.message() + self.sig@
    }

    /// Two transfers with the same record are the same transfer.
    pub proof fn lemma_record_injective(a: Transfer, b: Transfer)
        requires
            a.record() == b.record(),
        ensures
            a == b,
    {
        lemma_field_lengths(a.value, a.nonce);
        lemma_field_lengths(b.value, b.nonce);
        assert(a.to@ =~= a.record().subrange(0, 20));
        assert(b.to@ =~= b.record().subrange(0, 20));
        assert(value_bytes(a.value) =~= a.record().subrange(20, 52));
        assert(value_bytes(b.value) =~= b.record().subrange(20, 52));
        assert(nonce_bytes(a.nonce) =~= a.record().subrange(52, 60));
        assert(nonce_bytes(b.nonce) =~= b.record().subrange(52, 60));
        assert(a.sig@ =~= a.record().subrange(60, 124));
        assert(b.sig@ =~= b.record().subrange(60, 124));
        lemma_value_bytes_injective(a.value, b.value);
        lemma_nonce_bytes_injective(a.nonce, b.nonce);
        assert(a.to =~= b.to);
        assert(a.sig =~= b.sig);
    }

    /// The record of this transfer, as bytes.
    pub fn to_bytes(&self) -> (out: Vec<u8>)
        ensures
            out@ == self.record(),
            out@.len() == TRANSFER_RECORD_LEN,
    {
        let mut out = self.message_bytes();
        append(&mut out, self.sig.as_slice());
        proof {
            lemma_field_lengths(self.value, self.nonce);
        }
        out
    }

    /// The transfer whose record is `bytes`. There is one exactly where
    /// `bytes` has the length of a record.
    pub fn from_bytes(bytes: &[u8]) -> (r: Option<Self>)
        ensures
            match r {
                Some(transfer) => transfer.record() == bytes@,
                None => bytes@.len() != TRANSFER_RECORD_LEN,
            },
    {
        if bytes.len() != TRANSFER_RECORD_LEN {
            return None;
        }
        let transfer = Transfer {
            to: read_bytes::<20>(bytes, 0),
            value: read_value(bytes, 20),
            nonce: read_nonce(bytes, 52),
            sig: read_bytes::<64>(bytes, 60),
        };
        assert(transfer.record() =~= bytes@);
        Some(transfer)
    }
}

/// Transfer funds from a given address to another address. The spender is
/// the signer.
#[derive(Clone, Copy, Debug, PartialEq, Eq)]
pub struct TransferFrom {
    /// Address to transfer from.
    pub from: Address,
    /// Address to transfer to.
    pub to: Address,
    /// Value to transfer.
    pub value: Value,
    /// Nonce to prevent replay.
    pub nonce: u64,
    /// Signature of the call.
    pub sig: Signature,
}

impl TransferFrom {
    /// The canonical message of a transfer on behalf with these fields.
    pub open spec fn message_of(from: Seq<u8>, to: Seq<u8>, value: Value, nonce: u64) -> Seq<u8> {
        from + to + value_bytes(value) + nonce_bytes(nonce)
    }

    /// The canonical message of this command.
    pub open spec fn message(&self) -> Seq<u8> {
        Self::message_of(self.from@, self.to@, self.value, self.nonce)
    }

    /// The digest that the signature of this command is over.
    pub open spec fn digest(&self) -> Seq<u8> {
        keccak256_digest(self.message())
    }

    /// The address that signed this command, where one can be recovered.
    pub open spec fn signer(&self) -> Option<Seq<u8>> {
        recovered_signer(self.digest(), self.sig@)
    }

    /// The outcome of this command on `state`: `BadSignature` where no
    /// signer can be recovered, else what the ledger makes of a transfer
    /// from `from` by the recovered signer.
    pub open spec fn outcome(&self, state: LedgerView) -> Result<LedgerView, Error> {
        match self.signer() {
            Some(spender) => state.transfer_from(
                spender,
                self.from@,
                self.to@,
                value_of(self.value),
                self.nonce,
            ),
            None => Err(Error::BadSignature),
        }
    }

    /// A transfer of `value` from `from` to `to` with the given nonce,
    /// signed with `secret_key`. There is none where [`sign`] gives no
    /// signature.
    pub fn new(nonce: u64, secret_key: &[u8; 32], from: Address, to: Address, value: Value) -> (r:
        Option<Self>)
        ensures
            match r {
                Some(command) => {
                    &&& command.from == from
                    &&& command.to == to
                    &&& command.value == value
                    &&& command.nonce == nonce
                    &&& signed(command.digest(), secret_key@) == Some(command.sig@)
                },
                None => signed(
                    keccak256_digest(Self::message_of(from@, to@, value, nonce)),
                    secret_key@,
                ) is None,
            },
    {
        let mut this = TransferFrom { from, to, value, nonce, sig: [0u8; 64] };
        let digest = this.hash();
        match sign(&digest, secret_key) {
            Some(sig) => {
                this.sig = sig;
                Some(this)
            },
            None => None,
        }
    }

    /// The canonical message of this command, as bytes.
    pub fn message_bytes(&self) -> (out: Vec<u8>)
        ensures
            out@ == self.message(),
    {
        let mut out: Vec<u8> = Vec::new();
        append(&mut out, self.from.as_slice());
        append(&mut out, self.to.as_slice());
        append_value(&mut out, &self.value);
        append_nonce(&mut out, self.nonce);
        out
    }

    /// The Keccak-256 digest of the canonical message.
    pub fn hash(&self) -> (digest: [u8; 32])
        ensures
            digest@ == self.digest(),
    {
        let message = self.message_bytes();
        keccak256(message.as_slice())
    }

    /// Recovers the address that signed this command, or fails with
    /// `BadSignature`.
    pub fn recover_signer(&self) -> (r: Result<Address, Error>)
        ensures
            match r {
                Ok(address) => self.signer() == Some(address@),
                Err(e) => e == Error::BadSignature && self.signer() is None,
            },
    {
        let digest = self.hash();
        recover_signer(&digest, &self.sig)
    }

    /// The record of this command: its message, then its signature.
    pub open spec fn record(&self) -> Seq<u8> {
        self.message() + self.sig@
    }

    /// Two commands with the same record are the same command.
    pub proof fn lemma_record_injective(a: TransferFrom, b: TransferFrom)
        requires
            a.record() == b.record(),
        ensures
            a == b,
    {
        lemma_field_lengths(a.value, a.nonce);
        lemma_field_lengths(b.value, b.nonce);
        assert(a.from@ =~= a.record().subrange(0, 20));
        assert(b.from@ =~= b.record().subrange(0, 20));
        assert(a.to@ =~= a.record().subrange(20, 40));
        assert(b.to@ =~= b.record().subrange(20, 40));
        assert(value_bytes(a.value) =~= a.record().subrange(40, 72));
        assert(value_bytes(b.value) =~= b.record().subrange(40, 72));
        assert(nonce_bytes(a.nonce) =~= a.record().subrange(72, 80));
        assert(nonce_bytes(b.nonce) =~= b.record().subrange(72, 80));
        assert(a.sig@ =~= a.record().subrange(80, 144));
        assert(b.sig@ =~= b.record().subrange(80, 144));
        lemma_value_bytes_injective(a.value, b.value);
        lemma_nonce_bytes_injective(a.nonce, b.nonce);
        assert(a.from =~= b.from);
        assert(a.to =~= b.to);
        assert(a.sig =~= b.sig);
    }

    /// The record of this command, as bytes.
    pub fn to_bytes(&self) -> (out: Vec<u8>)
        ensures
            out@ == self.record(),
            out@.len() == TRANSFER_FROM_RECORD_LEN,
    {
        let mut out = self.message_bytes();
        append(&mut out, self.sig.as_slice());
        proof {
            lemma_field_lengths(self.value, self.nonce);
        }
        out
    }

    /// The command whose record is `bytes`. There is one exactly where
    /// `bytes` has the length of a record.
    pub fn from_bytes(bytes: &[u8]) -> (r: Option<Self>)
        ensures
            match r {
                Some(command) => command.record() == bytes@,
                None => bytes@.len() != TRANSFER_FROM_RECORD_LEN,
            },
    {
        if bytes.len() != TRANSFER_FROM_RECORD_LEN {
            return None;
        }
        let command = TransferFrom {
            from: read_bytes::<20>(bytes, 0),
            to: read_bytes::<20>(bytes, 20),
            value: read_value(bytes, 40),
            nonce: read_nonce(bytes, 72),
            sig: read_bytes::<64>(bytes, 80),
        };
        assert(command.record() =~= bytes@);
        Some(command)
    }
}

/// Approve an address to transfer funds. The owner is the signer.
#[derive(Clone, Copy, Debug, PartialEq, Eq)]
pub struct Approve {
    /// Address to approve for spending.
    pub spender: Address,
    /// Value to approve the transfer of.
    pub value: Value,
    /// Nonce to prevent replay.
    pub nonce: u64,
    /// Signature of the call.
    pub sig: Signature,
}

impl Approve {
    /// The canonical message of an approval with these fields.
    pub open spec fn message_of(spender: Seq<u8>, value: Value, nonce: u64) -> Seq<u8> {
        spender + value_bytes(value) + nonce_bytes(nonce)
    }

    /// The canonical message of this approval.
    pub open spec fn message(&self) -> Seq<u8> {
        Self::message_of(self.spender@, self.value, self.nonce)
    }

    /// The digest that the signature of this approval is over.
    pub open spec fn digest(&self) -> Seq<u8> {
        keccak256_digest(self.message())
    }

    /// The address that signed this approval, where one can be recovered.
    pub open spec fn signer(&self) -> Option<Seq<u8>> {
        recovered_signer(self.digest(), self.sig@)
    }

    /// The outcome of this approval on `state`: `BadSignature` where no
    /// signer can be recovered, else what the ledger makes of an approval by
    /// the recovered signer.
    pub open spec fn outcome(&self, state: LedgerView) -> Result<LedgerView, Error> {
        match self.signer() {
            Some(owner) => state.approve(owner, self.spender@, value_of(self.value), self.nonce),
            None => Err(Error::BadSignature),
        }
    }

    /// An approval of `value` to `spender` with the given nonce, signed with
    /// `secret_key`. There is none where [`sign`] gives no signature.
    pub fn new(nonce: u64, secret_key: &[u8; 32], spender: Address, value: Value) -> (r: Option<
        Self,
    >)
        ensures
            match r {
                Some(approve) => {
                    &&& approve.spender == spender
                    &&& approve.value == value
                    &&& approve.nonce == nonce
                    &&& signed(approve.digest(), secret_key@) == Some(approve.sig@)
                },
                None => signed(
                    keccak256_digest(Self::message_of(spender@, value, nonce)),
                    secret_key@,
                ) is None,
            },
    {
        let mut this = Approve { spender, value, nonce, sig: [0u8; 64] };
        let digest = this.hash();
        match sign(&digest, secret_key) {
            Some(sig) => {
                this.sig = sig;
                Some(this)
            },
            None => None,
        }
    }

    /// The canonical message of this approval, as bytes.
    pub fn message_bytes(&self) -> (out: Vec<u8>)
        ensures
            out@ == self.message(),
    {
        let mut out: Vec<u8> = Vec::new();
        append(&mut out, self.spender.as_slice());
        append_value(&mut out, &self.value);
        append_nonce(&mut out, self.nonce);
        out
    }

    /// The Keccak-256 digest of the canonical message.
    pub fn hash(&self) -> (digest: [u8; 32])
        ensures
            digest@ == self.digest(),
    {
        let message = self.message_bytes();
        keccak256(message.as_slice())
    }

    /// Recovers the address that signed this approval, or fails with
    /// `BadSignature`.
    pub fn recover_signer(&self) -> (r: Result<Address, Error>)
        ensures
            match r {
                Ok(address) => self.signer() == Some(address@),
                Err(e) => e == Error::BadSignature && self.signer() is None,
            },
    {
        let digest = self.hash();
        recover_signer(&digest, &self.sig)
    }

    /// The record of this approval: its message, then its signature.
    pub open spec fn record(&self) -> Seq<u8> {
        self.message() + self.sig@
    }

    /// Two approvals with the same record are the same approval.
    pub proof fn lemma_record_injective(a: Approve, b: Approve)
        requires
            a.record() == b.record(),
        ensures
            a == b,
    {
        lemma_field_lengths(a.value, a.nonce);
        lemma_field_lengths(b.value, b.nonce);
        assert(a.spender@ =~= a.record().subrange(0, 20));
        assert(b.spender@ =~= b.record().subrange(0, 20));
        assert(value_bytes(a.value) =~= a.record().subrange(20, 52));
        assert(value_bytes(b.value) =~= b.record().subrange(20, 52));
        assert(nonce_bytes(a.nonce) =~= a.record().subrange(52, 60));
        assert(nonce_bytes(b.nonce) =~= b.record().subrange(52, 60));
        assert(a.sig@ =~= a.record().subrange(60, 124));
        assert(b.sig@ =~= b.record().subrange(60, 124));
        lemma_value_bytes_injective(a.value, b.value);
        lemma_nonce_bytes_injective(a.nonce, b.nonce);
        assert(a.spender =~= b.spender);
        assert(a.sig =~= b.sig);
    }

    /// The record of this approval, as bytes.
    pub fn to_bytes(&self) -> (out: Vec<u8>)
        ensures
            out@ == self.record(),
            out@.len() == TRANSFER_RECORD_LEN,
    {
        let mut out = self.message_bytes();
        append(&mut out, self.sig.as_slice());
        proof {
            lemma_field_lengths(self.value, self.nonce);
        }
        out
    }

    /// The approval whose record is `bytes`. There is one exactly where
    /// `bytes` has the length of a record.
    pub fn from_bytes(bytes: &[u8]) -> (r: Option<Self>)
        ensures
            match r {
                Some(approve) => approve.record() == bytes@,
                None => bytes@.len() != TRANSFER_RECORD_LEN,
            },
    {
        if bytes.len() != TRANSFER_RECORD_LEN {
            return None;
        }
        let approve = Approve {
            spender: read_bytes::<20>(bytes, 0),
            value: read_value(bytes, 20),
            nonce: read_nonce(bytes, 52),
            sig: read_bytes::<64>(bytes, 60),
        };
        assert(approve.record() =~= bytes@);
        Some(approve)
    }
}

/// Query the allowance an address' owner has allowed a given spender.
#[derive(Clone, Copy, Debug, PartialEq, Eq)]
pub struct Allowance {
    /// The address of the owner.
    pub owner: Address,
    /// The address of the allowed spender.
    pub spender: Address,
}

impl Allowance {
    /// The record of this query: the owner, then the spender.
    pub open spec fn record(&self) -> Seq<u8> {
        self.owner@ + self.spender@
    }

    /// Two queries with the same record are the same query.
    pub proof fn lemma_record_injective(a: Allowance, b: Allowance)
        requires
            a.record() == b.record(),
        ensures
            a == b,
    {
        assert(a.owner@ =~= a.record().subrange(0, 20));
        assert(b.owner@ =~= b.record().subrange(0, 20));
        assert(a.spender@ =~= a.record().subrange(20, 40));
        assert(b.spender@ =~= b.record().subrange(20, 40));
        assert(a.owner =~= b.owner);
        assert(a.spender =~= b.spender);
    }

    /// The record of this query, as bytes.
    pub fn to_bytes(&self) -> (out: Vec<u8>)
        ensures
            out@ == self.record(),
            out@.len() == ALLOWANCE_RECORD_LEN,
    {
        let mut out: Vec<u8> = Vec::new();
        append(&mut out, self.owner.as_slice());
        append(&mut out, self.spender.as_slice());
        out
    }

    /// The query whose record is `bytes`. There is one exactly where
    /// `bytes` has the length of a record.
    pub fn from_bytes(bytes: &[u8]) -> (r: Option<Self>)
        ensures
            match r {
                Some(allowance) => allowance.record() == bytes@,
                None => bytes@.len() != ALLOWANCE_RECORD_LEN,
            },
    {
        if bytes.len() != ALLOWANCE_RECORD_LEN {
            return None;
        }
        let allowance = Allowance {
            owner: read_bytes::<20>(bytes, 0),
            spender: read_bytes::<20>(bytes, 20),
        };
        assert(allowance.record() =~= bytes@);
        Some(allowance)
    }
}

} // verus!
