use deth_token::command::{Allowance, Approve, Transfer, TransferFrom};
use deth_token::error::Error;
use deth_token::signature::{address_of_public_key, Address};
use deth_token::token::{Command, Reply, Token, DECIMALS};
use deth_token::value::Value;
use rand::rngs::StdRng;
use rand::{RngCore, SeedableRng};
use secp256k1::{PublicKey, Secp256k1, SecretKey};

fn secret_key(last: u8) -> [u8; 32] {
    let mut key = [0u8; 32];
    key[31] = last;
    key
}

fn address_of(secret: &[u8; 32]) -> Address {
    let key = SecretKey::from_slice(secret).unwrap();
    let public = PublicKey::from_secret_key(&Secp256k1::new(), &key);
    address_of_public_key(&public.serialize_uncompressed())
}

fn amount(n: u128) -> Value {
    [n, 0]
}

fn x_key() -> [u8; 32] {
    secret_key(1)
}

fn z_key() -> [u8; 32] {
    secret_key(3)
}

fn x() -> Address {
    address_of(&x_key())
}

fn y() -> Address {
    address_of(&secret_key(2))
}

fn z() -> Address {
    address_of(&z_key())
}

fn w() -> Address {
    address_of(&secret_key(4))
}

fn genesis() -> Token {
    Token::genesis(amount(1000), &vec![(x(), amount(1000))]).unwrap()
}

#[test]
fn constants_of_the_token() {
    let token = Token::new();
    assert_eq!(token.name(), "Dusk Ether");
    assert_eq!(token.symbol(), "dETH");
    assert_eq!(token.decimals(), 18);
    assert_eq!(DECIMALS, 18);
}

#[test]
fn new_token_holds_nothing() {
    let token = Token::new();
    assert_eq!(token.supply(), amount(0));
    assert_eq!(token.balance(x()), amount(0));
    assert_eq!(token.allowance(Allowance { owner: x(), spender: y() }), amount(0));
}

#[test]
fn genesis_fails_as_the_ledger_does() {
    assert_eq!(
        Token::genesis(amount(1), &vec![(x(), amount(2))]).err(),
        Some(Error::ValueOverflow)
    );
    assert_eq!(
        Token::genesis(amount(3), &vec![(x(), amount(2))]).err(),
        Some(Error::ValueUnderflow)
    );
}

#[test]
fn example_trace() {
    let mut token = genesis();
    assert_eq!(token.supply(), amount(1000));
    assert_eq!(token.balance(x()), amount(1000));

    let transfer = Transfer::new(1, &x_key(), y(), amount(100)).unwrap();
    assert_eq!(token.transfer(transfer), Ok(()));
    assert_eq!(token.balance(x()), amount(900));
    assert_eq!(token.balance(y()), amount(100));
    assert_eq!(token.supply(), amount(1000));

    let approve = Approve::new(2, &x_key(), z(), amount(50)).unwrap();
    assert_eq!(token.approve(approve), Ok(()));
    assert_eq!(token.allowance(Allowance { owner: x(), spender: z() }), amount(50));

    let transfer_from = TransferFrom::new(1, &z_key(), x(), w(), amount(50)).unwrap();
    assert_eq!(token.transfer_from(transfer_from), Ok(()));
    assert_eq!(token.allowance(Allowance { owner: x(), spender: z() }), amount(0));
    assert_eq!(token.balance(x()), amount(850));
    assert_eq!(token.balance(w()), amount(50));
    assert_eq!(token.balance(y()), amount(100));
    assert_eq!(token.balance(z()), amount(0));
    assert_eq!(token.supply(), amount(1000));
}

#[test]
fn transfer_debits_the_signer_whatever_the_command_says() {
    let mut token = genesis();
    let transfer = Transfer::new(1, &x_key(), x(), amount(10)).unwrap();
    assert_eq!(token.transfer(transfer), Ok(()));
    assert_eq!(token.balance(x()), amount(1000));
    let transfer = Transfer::new(1, &secret_key(2), x(), amount(10)).unwrap();
    assert_eq!(token.transfer(transfer), Err(Error::InsufficientBalance));
    assert_eq!(token.balance(x()), amount(1000));
    assert_eq!(token.balance(y()), amount(0));
}

#[test]
fn signed_transfer_of_more_than_the_balance_fails_and_changes_nothing() {
    let mut token = genesis();
    let transfer = Transfer::new(1, &x_key(), y(), amount(1001)).unwrap();
    assert_eq!(token.transfer(transfer), Err(Error::InsufficientBalance));
    assert_eq!(token.balance(x()), amount(1000));
    assert_eq!(token.balance(y()), amount(0));
    assert_eq!(token.supply(), amount(1000));
    let again = Transfer::new(1, &x_key(), y(), amount(1000)).unwrap();
    assert_eq!(token.transfer(again), Ok(()));
}

#[test]
fn second_approval_replaces_the_first() {
    let mut token = genesis();
    assert_eq!(token.approve(Approve::new(1, &x_key(), z(), amount(50)).unwrap()), Ok(()));
    assert_eq!(token.approve(Approve::new(2, &x_key(), z(), amount(70)).unwrap()), Ok(()));
    assert_eq!(token.allowance(Allowance { owner: x(), spender: z() }), amount(70));
}

#[test]
fn transfer_from_beyond_the_allowance_fails_though_the_balance_suffices() {
    let mut token = genesis();
    assert_eq!(token.approve(Approve::new(1, &x_key(), z(), amount(50)).unwrap()), Ok(()));
    let command = TransferFrom::new(1, &z_key(), x(), w(), amount(51)).unwrap();
    assert_eq!(token.transfer_from(command), Err(Error::InsufficientAllowance));
    assert_eq!(token.allowance(Allowance { owner: x(), spender: z() }), amount(50));
    assert_eq!(token.balance(x()), amount(1000));
    assert_eq!(token.balance(w()), amount(0));
}

#[test]
fn transfer_from_is_spent_by_the_signer_only() {
    let mut token = genesis();
    assert_eq!(token.approve(Approve::new(1, &x_key(), z(), amount(50)).unwrap()), Ok(()));
    let command = TransferFrom::new(1, &secret_key(4), x(), w(), amount(50)).unwrap();
    assert_eq!(token.transfer_from(command), Err(Error::InsufficientAllowance));
    let command = TransferFrom::new(1, &z_key(), x(), w(), amount(50)).unwrap();
    assert_eq!(token.transfer_from(command), Ok(()));
}

#[test]
fn resubmitted_command_fails_and_changes_nothing() {
    let mut token = genesis();
    let transfer = Transfer::new(1, &x_key(), y(), amount(100)).unwrap();
    assert_eq!(token.transfer(transfer), Ok(()));
    assert_eq!(token.transfer(transfer), Err(Error::NonceReused));
    assert_eq!(token.balance(x()), amount(900));
    assert_eq!(token.balance(y()), amount(100));

    let approve = Approve::new(2, &x_key(), z(), amount(50)).unwrap();
    assert_eq!(token.approve(approve), Ok(()));
    let spend = TransferFrom::new(9, &z_key(), x(), w(), amount(50)).unwrap();
    assert_eq!(token.transfer_from(spend), Ok(()));
    assert_eq!(token.approve(approve), Err(Error::NonceReused));
    assert_eq!(token.allowance(Allowance { owner: x(), spender: z() }), amount(0));
    assert_eq!(token.transfer_from(spend), Err(Error::NonceReused));
    assert_eq!(token.balance(w()), amount(50));
}

#[test]
fn nonce_of_one_signer_does_not_block_another() {
    let mut token = genesis();
    assert_eq!(token.transfer(Transfer::new(1, &x_key(), z(), amount(100)).unwrap()), Ok(()));
    assert_eq!(token.transfer(Transfer::new(1, &z_key(), y(), amount(30)).unwrap()), Ok(()));
    assert_eq!(token.balance(z()), amount(70));
    assert_eq!(token.balance(y()), amount(30));
}

#[test]
fn command_with_the_zero_signature_fails_with_bad_signature() {
    let mut token = genesis();
    let transfer = Transfer { to: y(), value: amount(0), nonce: 1, sig: [0; 64] };
    assert_eq!(token.transfer(transfer), Err(Error::BadSignature));
    let command = TransferFrom { from: x(), to: y(), value: amount(0), nonce: 1, sig: [0; 64] };
    assert_eq!(token.transfer_from(command), Err(Error::BadSignature));
    let approve = Approve { spender: y(), value: amount(0), nonce: 1, sig: [0; 64] };
    assert_eq!(token.approve(approve), Err(Error::BadSignature));
    assert_eq!(token.balance(x()), amount(1000));
}

#[test]
fn command_with_a_signature_out_of_range_fails_with_bad_signature() {
    let mut token = genesis();
    let mut transfer = Transfer::new(1, &x_key(), y(), amount(100)).unwrap();
    for byte in transfer.sig[..32].iter_mut() {
        *byte = 0xff;
    }
    assert_eq!(token.transfer(transfer), Err(Error::BadSignature));
    assert_eq!(token.balance(x()), amount(1000));
    assert_eq!(token.balance(y()), amount(0));
    assert_eq!(token.transfer(Transfer::new(1, &x_key(), y(), amount(100)).unwrap()), Ok(()));
}

#[test]
fn altered_value_moves_nothing_of_the_signer() {
    let mut token = genesis();
    let mut transfer = Transfer::new(1, &x_key(), y(), amount(100)).unwrap();
    transfer.value = amount(900);
    assert!(token.transfer(transfer).is_err());
    assert_eq!(token.balance(x()), amount(1000));
    assert_eq!(token.balance(y()), amount(0));
    assert_eq!(token.supply(), amount(1000));
    assert_eq!(token.transfer(Transfer::new(1, &x_key(), y(), amount(100)).unwrap()), Ok(()));
}

#[test]
fn altered_recipient_moves_nothing_of_the_signer() {
    let mut token = genesis();
    let mut transfer = Transfer::new(1, &x_key(), y(), amount(100)).unwrap();
    transfer.to = z();
    assert!(token.transfer(transfer).is_err());
    assert_eq!(token.balance(x()), amount(1000));
    assert_eq!(token.balance(z()), amount(0));
}

#[test]
fn altered_approval_allows_nothing_on_the_signer() {
    let mut token = genesis();
    let mut approve = Approve::new(1, &x_key(), z(), amount(5)).unwrap();
    approve.value = amount(1000);
    let _ = token.approve(approve);
    assert_eq!(token.allowance(Allowance { owner: x(), spender: z() }), amount(0));
    let spend = TransferFrom::new(1, &z_key(), x(), z(), amount(1)).unwrap();
    assert_eq!(token.transfer_from(spend), Err(Error::InsufficientAllowance));
}

#[test]
fn nonces_drawn_from_a_generator_are_accepted() {
    let mut rng = StdRng::seed_from_u64(7);
    let mut token = genesis();
    for _ in 0..5 {
        let transfer = Transfer::new(rng.next_u64(), &x_key(), y(), amount(10)).unwrap();
        assert_eq!(token.transfer(transfer), Ok(()));
    }
    assert_eq!(token.balance(y()), amount(50));
}

#[test]
fn execute_answers_the_queries() {
    let mut token = genesis();
    assert_eq!(token.execute(Command::Name), Ok(Reply::Text("Dusk Ether".to_string())));
    assert_eq!(token.execute(Command::Symbol), Ok(Reply::Text("dETH".to_string())));
    assert_eq!(token.execute(Command::Decimals), Ok(Reply::Decimals(18)));
    assert_eq!(token.execute(Command::Supply), Ok(Reply::Amount(amount(1000))));
    assert_eq!(token.execute(Command::Balance(x())), Ok(Reply::Amount(amount(1000))));
    assert_eq!(token.execute(Command::Balance(y())), Ok(Reply::Amount(amount(0))));
    assert_eq!(
        token.execute(Command::Allowance(Allowance { owner: x(), spender: z() })),
        Ok(Reply::Amount(amount(0)))
    );
}

#[test]
fn execute_applies_the_commands() {
    let mut token = genesis();
    let transfer = Transfer::new(1, &x_key(), y(), amount(100)).unwrap();
    assert_eq!(token.execute(Command::Transfer(transfer)), Ok(Reply::Done));
    assert_eq!(token.execute(Command::Transfer(transfer)), Err(Error::NonceReused));
    let approve = Approve::new(2, &x_key(), z(), amount(50)).unwrap();
    assert_eq!(token.execute(Command::Approve(approve)), Ok(Reply::Done));
    let spend = TransferFrom::new(1, &z_key(), x(), w(), amount(60)).unwrap();
    assert_eq!(token.execute(Command::TransferFrom(spend)), Err(Error::InsufficientAllowance));
    let spend = TransferFrom::new(1, &z_key(), x(), w(), amount(50)).unwrap();
    assert_eq!(token.execute(Command::TransferFrom(spend)), Ok(Reply::Done));
    assert_eq!(token.execute(Command::Balance(x())), Ok(Reply::Amount(amount(850))));
    assert_eq!(token.execute(Command::Balance(y())), Ok(Reply::Amount(amount(100))));
    assert_eq!(token.execute(Command::Balance(w())), Ok(Reply::Amount(amount(50))));
    let forged = Transfer { to: y(), value: amount(1), nonce: 3, sig: [0; 64] };
    assert_eq!(token.execute(Command::Transfer(forged)), Err(Error::BadSignature));
}
