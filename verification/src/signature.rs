//! Signing a digest and recovering the signer's address from a signature.
//!
//! A [`Signature`] is 64 bytes: the two scalars `r` and `s` of an ECDSA
//! signature over secp256k1, 32 bytes each, big-endian. The top bit of `s`
//! is free in a signature in lower-S form, and it carries the parity needed
//! to recover the signer's public key. The signer is therefore never
//! declared: it is recovered from the digest and the signature.
//!
//! The elliptic-curve work is done by the `secp256k1` crate. Nothing about
//! its results is proved here; contracts speak of them by the names
//! [`ecdsa_signature`] and [`ecdsa_recovered_key`].

use secp256k1::ecdsa::{RecoverableSignature, RecoveryId};
use secp256k1::{Message, Secp256k1, SecretKey};
use vstd::prelude::*;

use crate::error::Error;
use crate::hashing::{keccak256, keccak256_digest};

verus! {

/// A 20-byte account identifier.
pub type Address = [u8; 20];

/// A 64-byte compact signature.
pub type Signature = [u8; 64];

/// Index of the first byte of `s` in a signature.
pub const S_OFFSET: usize = 32;

/// What `secp256k1` returns when the 32-byte `digest` is signed with the
/// 32-byte `secret_key`: the recovery id and the 64 bytes `r` then `s`, or
/// `None` where `secret_key` is not a valid secret key.
pub uninterp spec fn ecdsa_signature(digest: Seq<u8>, secret_key: Seq<u8>) -> Option<(u8, Seq<u8>)>;

/// What `secp256k1` recovers from the 32-byte `digest`, a recovery id and
/// the 64 bytes `r` then `s`: the signer's public key in its 65-byte
/// uncompressed form, or `None` where no key can be recovered.
pub uninterp spec fn ecdsa_recovered_key(digest: Seq<u8>, recovery_id: u8, rs: Seq<u8>) -> Option<Seq<u8>>;

/// Trusted: parses the key with `SecretKey::from_slice`, signs with
/// `Secp256k1::sign_ecdsa_recoverable` (deterministic nonce, RFC 6979) and
/// serialises with `RecoverableSignature::serialize_compact`. The contract
/// only gives the result its name.
#[verifier::external_body]
fn ecdsa_sign(digest: &[u8; 32], secret_key: &[u8; 32]) -> (r: Option<(u8, [u8; 64])>)
    ensures
        match r {
            Some((recovery_id, rs)) => ecdsa_signature(digest@, secret_key@) == Some(
                (recovery_id, rs@),
            ),
            None => ecdsa_signature(digest@, secret_key@) is None,
        },
{
    let key = SecretKey::from_slice(secret_key).ok()?;
    let message = Message::from_digest(*digest);
    let signed = Secp256k1::signing_only().sign_ecdsa_recoverable(&message, &key);
    let (recovery_id, rs) = signed.serialize_compact();
    Some((recovery_id.to_i32() as u8, rs))
}

/// Trusted: parses the signature with `RecoveryId::from_i32` and
/// `RecoverableSignature::from_compact`, recovers with
/// `Secp256k1::recover_ecdsa` and serialises the key with
/// `PublicKey::serialize_uncompressed`. An error of any of them is `None`.
/// The contract only gives the result its name.
#[verifier::external_body]
fn ecdsa_recover(digest: &[u8; 32], recovery_id: u8, rs: &[u8; 64]) -> (r: Option<[u8; 65]>)
    ensures
        match r {
            Some(key) => ecdsa_recovered_key(digest@, recovery_id, rs@) == Some(key@),
            None => ecdsa_recovered_key(digest@, recovery_id, rs@) is None,
        },
{
    let id = RecoveryId::from_i32(i32::from(recovery_id)).ok()?;
    let signature = RecoverableSignature::from_compact(rs, id).ok()?;
    let message = Message::from_digest(*digest);
    let key = Secp256k1::verification_only().recover_ecdsa(&message, &signature).ok()?;
    Some(key.serialize_uncompressed())
}

/// The compact signature for a recovery id and the bytes `r` then `s`: the
/// recovery id is written into the top bit of `s`. There is none where the
/// recovery id is not a parity (0 or 1) or the top bit of `s` is taken.
pub open spec fn packed_signature(recovery_id: u8, rs: Seq<u8>) -> Option<Seq<u8>> {
    if recovery_id <= 1 && rs.len() == 64 && rs[S_OFFSET as int] < 0x80 {
        Some(rs.update(S_OFFSET as int, (rs[S_OFFSET as int] + 0x80 * recovery_id) as u8))
    } else {
        None
    }
}

/// The recovery id that a compact signature carries.
pub open spec fn signature_parity(signature: Seq<u8>) -> u8 {
    signature[S_OFFSET as int] / 0x80
}

/// The bytes `r` then `s` of a compact signature.
pub open spec fn signature_scalars(signature: Seq<u8>) -> Seq<u8> {
    signature.update(S_OFFSET as int, signature[S_OFFSET as int] % 0x80)
}

/// The address of an uncompressed public key: the last 20 bytes of the
/// Keccak-256 digest of the key without its leading tag byte.
pub open spec fn key_address(public_key: Seq<u8>) -> Seq<u8> {
    keccak256_digest(public_key.subrange(1, 65)).subrange(12, 32)
}

/// The signature of `digest` under `secret_key`, where there is one.
pub open spec fn signed(digest: Seq<u8>, secret_key: Seq<u8>) -> Option<Seq<u8>> {
    match ecdsa_signature(digest, secret_key) {
        Some((recovery_id, rs)) => packed_signature(recovery_id, rs),
        None => None,
    }
}

/// The address that signed `digest` with `signature`, where one can be
/// recovered.
pub open spec fn recovered_signer(digest: Seq<u8>, signature: Seq<u8>) -> Option<Seq<u8>> {
    match ecdsa_recovered_key(digest, signature_parity(signature), signature_scalars(signature)) {
        Some(public_key) => Some(key_address(public_key)),
        None => None,
    }
}

/// Unpacking a packed signature gives back the recovery id and the scalars.
pub proof fn lemma_pack_then_unpack(recovery_id: u8, rs: Seq<u8>)
    requires
        packed_signature(recovery_id, rs) is Some,
    ensures
        signature_parity(packed_signature(recovery_id, rs)->0) == recovery_id,
        signature_scalars(packed_signature(recovery_id, rs)->0) == rs,
{
    let packed = packed_signature(recovery_id, rs)->0;
    assert(signature_scalars(packed) =~= rs);
}

/// Writes the recovery id into the top bit of `s`.
pub fn pack_signature(recovery_id: u8, rs: &[u8; 64]) -> (r: Option<Signature>)
    ensures
        match r {
            Some(signature) => packed_signature(recovery_id, rs@) == Some(signature@),
            None => packed_signature(recovery_id, rs@) is None,
        },
{
    if recovery_id > 1 || rs[S_OFFSET] >= 0x80 {
        return None;
    }
    let mut signature: Signature = *rs;
    signature[S_OFFSET] = rs[S_OFFSET] + 0x80 * recovery_id;
    Some(signature)
}

/// Reads the recovery id and the scalars `r` then `s` out of a signature.
pub fn unpack_signature(signature: &Signature) -> (r: (u8, [u8; 64]))
    ensures
        r.0 == signature_parity(signature@),
        r.1@ == signature_scalars(signature@),
{
    let mut rs: [u8; 64] = *signature;
    rs[S_OFFSET] = signature[S_OFFSET] % 0x80;
    (signature[S_OFFSET] / 0x80, rs)
}

/// The address of a public key in its 65-byte uncompressed form.
pub fn address_of_public_key(public_key: &[u8; 65]) -> (address: Address)
    ensures
        address@ == key_address(public_key@),
{
    let digest = keccak256(vstd::slice::slice_subrange(public_key.as_slice(), 1, 65));
    let mut address: Address = [0u8; 20];
    let mut i: usize = 0;
    while i < 20
        invariant
            i <= 20,
            forall|j: int| 0 <= j < i ==> address@[j] == digest@[j + 12],
        decreases 20 - i,
    {
        address[i] = digest[i + 12];
        i += 1;
    }
    assert(address@ =~= digest@.subrange(12, 32));
    address
}

/// Signs `digest` with `secret_key`. There is no signature where
/// `secret_key` is not a valid secret key, or where the signature that comes
/// out leaves no room for the recovery id.
pub fn sign(digest: &[u8; 32], secret_key: &[u8; 32]) -> (r: Option<Signature>)
    ensures
        match r {
            Some(signature) => signed(digest@, secret_key@) == Some(signature@),
            None => signed(digest@, secret_key@) is None,
        },
{
    match ecdsa_sign(digest, secret_key) {
        Some((recovery_id, rs)) => pack_signature(recovery_id, &rs),
        None => None,
    }
}

/// Recovers the address that signed `digest` with `signature`, or fails
/// with `BadSignature` where there is none.
pub fn recover_signer(digest: &[u8; 32], signature: &Signature) -> (r: Result<Address, Error>)
    ensures
        match r {
            Ok(address) => recovered_signer(digest@, signature@) == Some(address@),
            Err(e) => e == Error::BadSignature && recovered_signer(digest@, signature@) is None,
        },
{
    let (recovery_id, rs) = unpack_signature(signature);
    match ecdsa_recover(digest, recovery_id, &rs) {
        Some(public_key) => Ok(address_of_public_key(&public_key)),
        None => Err(Error::BadSignature),
    }
}

} // verus!
