use deth_token::command::{Allowance, Approve, Transfer, TransferFrom};
use deth_token::error::Error;
use deth_token::signature::{address_of_public_key, recover_signer, Address};
use secp256k1::{PublicKey, Secp256k1, SecretKey};
use sha3::{Digest, Keccak256};

fn secret_key(last: u8) -> [u8; 32] {
    let mut key = [0u8; 32];
    key[31] = last;
    key
}

fn address_of(secret: &[u8; 32]) -> Address {
    let key = SecretKey::from_slice(secret).unwrap();
    let public = PublicKey::from_secret_key(&Secp256k1::new(), &key);
    address_of_public_key(&public.serialize_uncompressed())
}

fn hex(bytes: &[u8]) -> String {
    let mut out = String::new();
    for byte in bytes {
        out.push_str(&format!("{:02x}", byte));
    }
    out
}

fn sample_transfer() -> Transfer {
    Transfer {
        to: [0xa1; 20],
        value: [0x0102_0304_0506_0708_090a_0b0c_0d0e_0f10, 0x1112_1314_1516_1718_191a_1b1c_1d1e_1f20],
        nonce: 0x2122_2324_2526_2728,
        sig: [0xee; 64],
    }
}

#[test]
fn transfer_message_is_the_fields_in_order_little_endian() {
    let message = sample_transfer().message_bytes();
    assert_eq!(message.len(), 60);
    assert_eq!(&message[..20], &[0xa1u8; 20][..]);
    assert_eq!(hex(&message[20..36]), "100f0e0d0c0b0a090807060504030201");
    assert_eq!(hex(&message[36..52]), "201f1e1d1c1b1a191817161514131211");
    assert_eq!(hex(&message[52..]), "2827262524232221");
}

#[test]
fn transfer_from_message_is_the_fields_in_order_little_endian() {
    let command = TransferFrom {
        from: [0xb2; 20],
        to: [0xa1; 20],
        value: [1, 2],
        nonce: 3,
        sig: [0; 64],
    };
    let message = command.message_bytes();
    assert_eq!(message.len(), 80);
    assert_eq!(&message[..20], &[0xb2u8; 20][..]);
    assert_eq!(&message[20..40], &[0xa1u8; 20][..]);
    assert_eq!(hex(&message[40..56]), "01000000000000000000000000000000");
    assert_eq!(hex(&message[56..72]), "02000000000000000000000000000000");
    assert_eq!(hex(&message[72..]), "0300000000000000");
}

#[test]
fn approve_message_is_the_fields_in_order_little_endian() {
    let approve = Approve { spender: [0xc3; 20], value: [u128::MAX, 0], nonce: u64::MAX, sig: [0; 64] };
    let message = approve.message_bytes();
    assert_eq!(message.len(), 60);
    assert_eq!(&message[..20], &[0xc3u8; 20][..]);
    assert_eq!(hex(&message[20..36]), "ffffffffffffffffffffffffffffffff");
    assert_eq!(hex(&message[36..52]), "00000000000000000000000000000000");
    assert_eq!(hex(&message[52..]), "ffffffffffffffff");
}

#[test]
fn hash_is_keccak_of_the_message() {
    let transfer = sample_transfer();
    let expected: [u8; 32] = Keccak256::digest(transfer.message_bytes()).into();
    assert_eq!(transfer.hash(), expected);
    assert_ne!(transfer.hash().to_vec(), transfer.message_bytes()[..32].to_vec());
}

#[test]
fn hash_of_a_known_message() {
    let transfer = Transfer { to: [0; 20], value: [0, 0], nonce: 0, sig: [0; 64] };
    let mut hasher = Keccak256::new();
    hasher.update([0u8; 20]);
    hasher.update(0u128.to_le_bytes());
    hasher.update(0u128.to_le_bytes());
    hasher.update(0u64.to_le_bytes());
    let expected: [u8; 32] = hasher.finalize().into();
    assert_eq!(transfer.hash(), expected);
    assert_eq!(
        hex(&transfer.hash()),
        hex(&Keccak256::digest([0u8; 60])),
    );
}

#[test]
fn hash_does_not_cover_the_signature() {
    let mut transfer = sample_transfer();
    let before = transfer.hash();
    transfer.sig = [0x01; 64];
    assert_eq!(transfer.hash(), before);
}

#[test]
fn hash_covers_every_other_field() {
    let transfer = sample_transfer();
    let mut other = transfer;
    other.to[19] ^= 1;
    assert_ne!(other.hash(), transfer.hash());
    let mut other = transfer;
    other.value[0] += 1;
    assert_ne!(other.hash(), transfer.hash());
    let mut other = transfer;
    other.value[1] += 1;
    assert_ne!(other.hash(), transfer.hash());
    let mut other = transfer;
    other.nonce += 1;
    assert_ne!(other.hash(), transfer.hash());
}

#[test]
fn hashes_of_the_three_commands_differ_by_their_fields() {
    let approve = Approve { spender: [0xa1; 20], value: [5, 0], nonce: 9, sig: [0; 64] };
    let transfer = Transfer { to: [0xa1; 20], value: [5, 0], nonce: 9, sig: [0; 64] };
    let on_behalf =
        TransferFrom { from: [0xa1; 20], to: [0xa1; 20], value: [5, 0], nonce: 9, sig: [0; 64] };
    assert_eq!(approve.hash(), transfer.hash());
    assert_ne!(on_behalf.hash(), transfer.hash());
}

#[test]
fn new_transfer_is_signed_by_the_key() {
    let secret = secret_key(1);
    let transfer = Transfer::new(77, &secret, [0xa1; 20], [100, 0]).unwrap();
    assert_eq!(transfer.to, [0xa1; 20]);
    assert_eq!(transfer.value, [100, 0]);
    assert_eq!(transfer.nonce, 77);
    assert_eq!(transfer.recover_signer(), Ok(address_of(&secret)));
    assert_eq!(recover_signer(&transfer.hash(), &transfer.sig), Ok(address_of(&secret)));
}

#[test]
fn new_transfer_from_is_signed_by_the_key() {
    let secret = secret_key(2);
    let command = TransferFrom::new(78, &secret, [0xb2; 20], [0xa1; 20], [0, 1]).unwrap();
    assert_eq!(command.from, [0xb2; 20]);
    assert_eq!(command.to, [0xa1; 20]);
    assert_eq!(command.value, [0, 1]);
    assert_eq!(command.nonce, 78);
    assert_eq!(command.recover_signer(), Ok(address_of(&secret)));
}

#[test]
fn new_approve_is_signed_by_the_key() {
    let secret = secret_key(3);
    let approve = Approve::new(79, &secret, [0xc3; 20], [50, 0]).unwrap();
    assert_eq!(approve.spender, [0xc3; 20]);
    assert_eq!(approve.value, [50, 0]);
    assert_eq!(approve.nonce, 79);
    assert_eq!(approve.recover_signer(), Ok(address_of(&secret)));
}

#[test]
fn new_refuses_an_invalid_secret_key() {
    assert_eq!(Transfer::new(1, &[0u8; 32], [0xa1; 20], [1, 0]), None);
    assert_eq!(TransferFrom::new(1, &[0u8; 32], [0xb2; 20], [0xa1; 20], [1, 0]), None);
    assert_eq!(Approve::new(1, &[0u8; 32], [0xc3; 20], [1, 0]), None);
}

#[test]
fn command_with_the_zero_signature_has_no_signer() {
    let transfer = Transfer { to: [0xa1; 20], value: [1, 0], nonce: 1, sig: [0; 64] };
    assert_eq!(transfer.recover_signer(), Err(Error::BadSignature));
    let command =
        TransferFrom { from: [0xb2; 20], to: [0xa1; 20], value: [1, 0], nonce: 1, sig: [0; 64] };
    assert_eq!(command.recover_signer(), Err(Error::BadSignature));
    let approve = Approve { spender: [0xc3; 20], value: [1, 0], nonce: 1, sig: [0; 64] };
    assert_eq!(approve.recover_signer(), Err(Error::BadSignature));
}

#[test]
fn altered_command_is_not_attributed_to_the_signer() {
    let secret = secret_key(4);
    let mut transfer = Transfer::new(5, &secret, [0xa1; 20], [100, 0]).unwrap();
    transfer.value = [101, 0];
    assert_ne!(transfer.recover_signer(), Ok(address_of(&secret)));
    let mut approve = Approve::new(5, &secret, [0xc3; 20], [100, 0]).unwrap();
    approve.spender = [0xc4; 20];
    assert_ne!(approve.recover_signer(), Ok(address_of(&secret)));
    let mut command = TransferFrom::new(5, &secret, [0xb2; 20], [0xa1; 20], [7, 0]).unwrap();
    command.nonce = 6;
    assert_ne!(command.recover_signer(), Ok(address_of(&secret)));
}

#[test]
fn transfer_record_is_the_message_then_the_signature() {
    let transfer = sample_transfer();
    let record = transfer.to_bytes();
    assert_eq!(record.len(), 124);
    assert_eq!(record[..60].to_vec(), transfer.message_bytes());
    assert_eq!(&record[60..], &[0xeeu8; 64][..]);
    assert_eq!(Transfer::from_bytes(&record), Some(transfer));
}

#[test]
fn transfer_from_record_round_trips() {
    let command = TransferFrom::new(8, &secret_key(6), [0xb2; 20], [0xa1; 20], [9, 10]).unwrap();
    let record = command.to_bytes();
    assert_eq!(record.len(), 144);
    assert_eq!(record[..80].to_vec(), command.message_bytes());
    assert_eq!(record[80..].to_vec(), command.sig.to_vec());
    assert_eq!(TransferFrom::from_bytes(&record), Some(command));
}

#[test]
fn approve_record_round_trips() {
    let approve = Approve::new(8, &secret_key(6), [0xc3; 20], [u128::MAX, u128::MAX]).unwrap();
    let record = approve.to_bytes();
    assert_eq!(record.len(), 124);
    assert_eq!(Approve::from_bytes(&record), Some(approve));
}

#[test]
fn allowance_record_round_trips() {
    let query = Allowance { owner: [0xb2; 20], spender: [0xc3; 20] };
    let record = query.to_bytes();
    assert_eq!(record.len(), 40);
    assert_eq!(&record[..20], &[0xb2u8; 20][..]);
    assert_eq!(&record[20..], &[0xc3u8; 20][..]);
    assert_eq!(Allowance::from_bytes(&record), Some(query));
}

#[test]
fn record_of_another_length_is_refused() {
    assert_eq!(Transfer::from_bytes(&[0u8; 123]), None);
    assert_eq!(Transfer::from_bytes(&[0u8; 125]), None);
    assert_eq!(Transfer::from_bytes(&[]), None);
    assert_eq!(TransferFrom::from_bytes(&[0u8; 124]), None);
    assert_eq!(Approve::from_bytes(&[0u8; 144]), None);
    assert_eq!(Allowance::from_bytes(&[0u8; 41]), None);
}

#[test]
fn record_is_read_field_by_field() {
    let mut record = vec![0u8; 124];
    for (i, byte) in record.iter_mut().enumerate() {
        *byte = i as u8;
    }
    let transfer = Transfer::from_bytes(&record).unwrap();
    assert_eq!(transfer.to.to_vec(), record[..20].to_vec());
    assert_eq!(transfer.value[0].to_le_bytes().to_vec(), record[20..36].to_vec());
    assert_eq!(transfer.value[1].to_le_bytes().to_vec(), record[36..52].to_vec());
    assert_eq!(transfer.nonce.to_le_bytes().to_vec(), record[52..60].to_vec());
    assert_eq!(transfer.sig.to_vec(), record[60..].to_vec());
    assert_eq!(transfer.to_bytes(), record);
}
