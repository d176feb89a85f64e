use sea_option::error::ProgramError;
use sea_option::pubkey::Pubkey;
use sea_option::token::{burn, mint_to, transfer, Mint, TokenAccount, TokenInstruction};

fn key(tag: u8) -> Pubkey {
    Pubkey::new_from_array([tag; 32])
}

fn account(tag: u8, amount: u64) -> TokenAccount {
    TokenAccount { key: key(tag), mint: key(100), owner: key(tag + 100), amount }
}

fn asset(supply: u64) -> Mint {
    Mint { key: key(100), mint_authority: key(50), supply, decimals: 9 }
}

#[test]
fn transfer_moves_the_amount() {
    let mut from = account(1, 70);
    let mut to = account(2, 5);
    let res = transfer(&mut from, &mut to, key(101), 30);
    assert_eq!(
        res,
        Ok(TokenInstruction::Transfer { from: key(1), to: key(2), authority: key(101), amount: 30 })
    );
    assert_eq!(from, account(1, 40));
    assert_eq!(to, account(2, 35));
}

#[test]
fn transfer_of_the_whole_balance() {
    let mut from = account(1, 70);
    let mut to = account(2, 0);
    assert!(transfer(&mut from, &mut to, key(101), 70).is_ok());
    assert_eq!(from.amount, 0);
    assert_eq!(to.amount, 70);
}

#[test]
fn transfer_beyond_the_balance_is_refused() {
    let mut from = account(1, 70);
    let mut to = account(2, 5);
    assert_eq!(transfer(&mut from, &mut to, key(101), 71), Err(ProgramError::E000));
    assert_eq!(from, account(1, 70));
    assert_eq!(to, account(2, 5));
}

#[test]
fn transfer_that_overflows_the_destination_is_refused() {
    let mut from = account(1, 70);
    let mut to = account(2, u64::MAX - 9);
    assert_eq!(transfer(&mut from, &mut to, key(101), 10), Err(ProgramError::E005));
    assert_eq!(from, account(1, 70));
    assert_eq!(to, account(2, u64::MAX - 9));
    assert!(transfer(&mut from, &mut to, key(101), 9).is_ok());
    assert_eq!(to.amount, u64::MAX);
}

#[test]
fn mint_to_raises_supply_and_balance() {
    let mut mint = asset(1000);
    let mut to = account(2, 5);
    let res = mint_to(&mut mint, &mut to, key(50), 30);
    assert_eq!(
        res,
        Ok(TokenInstruction::MintTo { mint: key(100), to: key(2), authority: key(50), amount: 30 })
    );
    assert_eq!(mint, asset(1030));
    assert_eq!(to, account(2, 35));
}

#[test]
fn mint_to_that_overflows_is_refused() {
    let mut mint = asset(u64::MAX - 1);
    let mut to = account(2, 5);
    assert_eq!(mint_to(&mut mint, &mut to, key(50), 2), Err(ProgramError::E005));
    assert_eq!(mint, asset(u64::MAX - 1));
    assert_eq!(to, account(2, 5));
    let mut mint = asset(0);
    let mut to = account(2, u64::MAX);
    assert_eq!(mint_to(&mut mint, &mut to, key(50), 1), Err(ProgramError::E005));
    assert_eq!(mint, asset(0));
    assert_eq!(to, account(2, u64::MAX));
}

#[test]
fn burn_lowers_supply_and_balance() {
    let mut mint = asset(1000);
    let mut from = account(2, 35);
    let res = burn(&mut mint, &mut from, key(50), 35);
    assert_eq!(
        res,
        Ok(TokenInstruction::Burn { mint: key(100), from: key(2), authority: key(50), amount: 35 })
    );
    assert_eq!(mint, asset(965));
    assert_eq!(from, account(2, 0));
}

#[test]
fn burn_beyond_the_balance_is_refused() {
    let mut mint = asset(1000);
    let mut from = account(2, 35);
    assert_eq!(burn(&mut mint, &mut from, key(50), 36), Err(ProgramError::E000));
    assert_eq!(mint, asset(1000));
    assert_eq!(from, account(2, 35));
}

#[test]
fn burn_beyond_the_supply_is_refused() {
    let mut mint = asset(10);
    let mut from = account(2, 35);
    assert_eq!(burn(&mut mint, &mut from, key(50), 11), Err(ProgramError::E005));
    assert_eq!(mint, asset(10));
    assert_eq!(from, account(2, 35));
}
