//! The reasons for which the ledger rejects an operation.

use vstd::prelude::*;

verus! {

/// Why an operation was rejected. A rejected operation leaves the ledger
/// exactly as it was.
#[derive(Clone, Copy, Debug, PartialEq, Eq, Structural)]
pub enum Error {
    /// No signer can be recovered from the digest and the signature.
    BadSignature,
    /// The signer has already consumed this nonce.
    NonceReused,
    /// The account debited holds less than the amount.
    InsufficientBalance,
    /// The spender is allowed less than the amount.
    InsufficientAllowance,
    /// A sum does not fit in 256 bits.
    ValueOverflow,
    /// A difference would be negative.
    ValueUnderflow,
}

impl Error {
    /// The sentence that says why, as a sequence of characters.
    pub open spec fn text(self) -> Seq<char> {
        match self {
            Error::BadSignature => "no signer can be recovered from the signature"@,
            Error::NonceReused => "the signer has already used this nonce"@,
            Error::InsufficientBalance => "the balance is less than the amount"@,
            Error::InsufficientAllowance => "the allowance is less than the amount"@,
            Error::ValueOverflow => "the sum does not fit in 256 bits"@,
            Error::ValueUnderflow => "the difference would be negative"@,
        }
    }

    /// A sentence that says why the operation was rejected.
    pub fn message(&self) -> (message: String)
        ensures
            message@ == self.text(),
    {
        match self {
            Error::BadSignature => "no signer can be recovered from the signature".to_owned(),
            Error::NonceReused => "the signer has already used this nonce".to_owned(),
            Error::InsufficientBalance => "the balance is less than the amount".to_owned(),
            Error::InsufficientAllowance => "the allowance is less than the amount".to_owned(),
            Error::ValueOverflow => "the sum does not fit in 256 bits".to_owned(),
            Error::ValueUnderflow => "the difference would be negative".to_owned(),
        }
    }
}

} // verus!
