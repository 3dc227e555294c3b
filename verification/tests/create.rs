use anchor_lang::prelude::Pubkey;
use bank_ledger::{create, Bank, BankError, Create, Signer};

fn key(tag: u8) -> Pubkey {
    Pubkey::new_from_array([tag; 32])
}

fn fresh(user: Pubkey) -> Create {
    Create {
        user: Signer { key: user, lamports: 10_000_000 },
        bank: Bank { name: String::new(), balance: 0, owner: Pubkey::default() },
    }
}

#[test]
fn create_writes_the_record() {
    let mut ctx = fresh(key(1));
    assert_eq!(create(&mut ctx, String::from("alice-bank")), Ok(()));
    assert_eq!(ctx.bank.name, "alice-bank");
    assert_eq!(ctx.bank.balance, 0);
    assert_eq!(ctx.bank.owner, key(1));
}

#[test]
fn create_moves_no_funds() {
    let mut ctx = fresh(key(1));
    assert_eq!(create(&mut ctx, String::from("alice-bank")), Ok(()));
    assert_eq!(ctx.user, Signer { key: key(1), lamports: 10_000_000 });
    assert_eq!(ctx.bank.balance, 0);
}

#[test]
fn create_makes_the_user_the_owner() {
    let mut first = fresh(key(7));
    let mut second = fresh(key(8));
    assert_eq!(create(&mut first, String::from("a")), Ok(()));
    assert_eq!(create(&mut second, String::from("a")), Ok(()));
    assert_eq!(first.bank.owner, key(7));
    assert_eq!(second.bank.owner, key(8));
    assert_ne!(first.bank.owner, second.bank.owner);
}

#[test]
fn create_accepts_a_name_of_one_byte() {
    let mut ctx = fresh(key(1));
    assert_eq!(create(&mut ctx, String::from("x")), Ok(()));
    assert_eq!(ctx.bank.name, "x");
}

#[test]
fn create_accepts_a_name_of_nineteen_bytes() {
    let name = "n".repeat(19);
    let mut ctx = fresh(key(1));
    assert_eq!(create(&mut ctx, name.clone()), Ok(()));
    assert_eq!(ctx.bank.name, name);
    assert_eq!(ctx.bank.name.len(), 19);
}

#[test]
fn create_refuses_an_empty_name() {
    let mut ctx = fresh(key(1));
    let before = ctx.clone();
    assert_eq!(create(&mut ctx, String::new()), Err(BankError::EmptyName));
    assert_eq!(ctx, before);
}

#[test]
fn create_refuses_a_name_of_twenty_bytes() {
    let mut ctx = fresh(key(1));
    let before = ctx.clone();
    assert_eq!(create(&mut ctx, "n".repeat(20)), Err(BankError::NameTooLong));
    assert_eq!(ctx, before);
}

#[test]
fn create_refuses_a_long_name() {
    let mut ctx = fresh(key(1));
    let before = ctx.clone();
    assert_eq!(
        create(&mut ctx, String::from("a name that goes on and on and on")),
        Err(BankError::NameTooLong)
    );
    assert_eq!(ctx, before);
}

#[test]
fn create_counts_bytes_and_not_characters() {
    // Ten characters of two bytes each: twenty bytes.
    let mut ctx = fresh(key(1));
    let before = ctx.clone();
    let twenty = "é".repeat(10);
    assert_eq!(twenty.chars().count(), 10);
    assert_eq!(create(&mut ctx, twenty), Err(BankError::NameTooLong));
    assert_eq!(ctx, before);

    // Nine of them and one of one byte: nineteen bytes.
    let mut nineteen = "é".repeat(9);
    nineteen.push('a');
    assert_eq!(create(&mut ctx, nineteen.clone()), Ok(()));
    assert_eq!(ctx.bank.name, nineteen);
}

#[test]
fn create_replaces_what_the_place_held() {
    let mut ctx = fresh(key(3));
    ctx.bank = Bank { name: String::from("stale"), balance: 77, owner: key(9) };
    assert_eq!(create(&mut ctx, String::from("new")), Ok(()));
    assert_eq!(ctx.bank, Bank { name: String::from("new"), balance: 0, owner: key(3) });
}

#[test]
fn create_by_a_user_without_funds() {
    let mut ctx = fresh(key(1));
    ctx.user.lamports = 0;
    assert_eq!(create(&mut ctx, String::from("poor")), Ok(()));
    assert_eq!(ctx.bank.owner, key(1));
    assert_eq!(ctx.user.lamports, 0);
}
