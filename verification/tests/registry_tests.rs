use sea_option::accounts::InitOption;
use sea_option::error::ProgramError;
use sea_option::pubkey::Pubkey;
use sea_option::registry::MarketRegistry;
use sea_option::token::{Mint, TokenAccount};

fn key(tag: u8) -> Pubkey {
    Pubkey::new_from_array([tag; 32])
}

fn accounts(base: u8, collateral: u8) -> InitOption {
    InitOption {
        market_key: key(50),
        market: None,
        base_mint: key(base),
        collateral_mint: key(collateral),
        option_note_mint: Mint { key: key(60), mint_authority: key(0), supply: 0, decimals: 0 },
        vault: TokenAccount { key: key(70), mint: key(0), owner: key(0), amount: 0 },
        vault_bump: 255,
    }
}

#[test]
fn new_registry_is_empty() {
    let registry = MarketRegistry::new();
    assert_eq!(registry.len(), 0);
    assert_eq!(registry.find(&key(1), &key(2), 10), None);
    assert_eq!(registry.get(0), None);
}

#[test]
fn init_creates_one_market_for_the_triple() {
    let mut registry = MarketRegistry::new();
    let mut ctx = accounts(1, 2);
    assert_eq!(registry.init_option(&mut ctx, 100, 10, true, 5, 25), Ok(()));
    assert_eq!(registry.len(), 1);
    assert_eq!(registry.find(&key(1), &key(2), 10), Some(0));
    let created = registry.get(0).unwrap();
    assert_eq!(Some(created), ctx.market);
    assert_eq!(created.base_mint, key(1));
    assert_eq!(created.collateral_mint, key(2));
    assert_eq!(created.expiry_timestamp, 10);
    assert_eq!(created.option_note_mint, key(60));
    assert_eq!(created.vault, key(70));
    assert_eq!(created.vault_bump, 255);
    assert_eq!(created.strike_price, 100);
    assert_eq!(created.premium_per_lot, 25);
    assert_eq!(created.lot_size, 5);
    assert!(created.is_put);
    assert_eq!(created.expiry_price, 0);
    assert_eq!(ctx.vault.owner, key(50));
    assert_eq!(ctx.vault.mint, key(2));
    assert_eq!(ctx.option_note_mint.mint_authority, key(50));
    assert_eq!(ctx.option_note_mint.decimals, 9);
}

#[test]
fn second_init_of_a_triple_is_a_duplicate_market() {
    let mut registry = MarketRegistry::new();
    let mut first = accounts(1, 2);
    assert_eq!(registry.init_option(&mut first, 100, 10, true, 5, 25), Ok(()));
    let mut second = accounts(1, 2);
    let before = second;
    assert_eq!(registry.init_option(&mut second, 7, 10, false, 1, 1), Err(ProgramError::E004));
    assert_eq!(second, before);
    assert_eq!(registry.len(), 1);
    assert_eq!(registry.get(0), first.market);
}

#[test]
fn triples_that_differ_in_one_part_are_different_markets() {
    let mut registry = MarketRegistry::new();
    assert_eq!(registry.init_option(&mut accounts(1, 2), 100, 10, true, 5, 25), Ok(()));
    assert_eq!(registry.init_option(&mut accounts(3, 2), 100, 10, true, 5, 25), Ok(()));
    assert_eq!(registry.init_option(&mut accounts(1, 3), 100, 10, true, 5, 25), Ok(()));
    assert_eq!(registry.init_option(&mut accounts(1, 2), 100, 11, true, 5, 25), Ok(()));
    assert_eq!(registry.len(), 4);
    assert_eq!(registry.find(&key(1), &key(2), 10), Some(0));
    assert_eq!(registry.find(&key(3), &key(2), 10), Some(1));
    assert_eq!(registry.find(&key(1), &key(3), 10), Some(2));
    assert_eq!(registry.find(&key(1), &key(2), 11), Some(3));
    assert_eq!(registry.find(&key(3), &key(3), 10), None);
    assert_eq!(registry.init_option(&mut accounts(1, 3), 1, 10, false, 1, 1), Err(ProgramError::E004));
    assert_eq!(registry.len(), 4);
}

#[test]
fn registry_overrules_the_slot_of_the_accounts() {
    let mut registry = MarketRegistry::new();
    let mut first = accounts(1, 2);
    assert_eq!(registry.init_option(&mut first, 100, 10, true, 5, 25), Ok(()));
    // `first` now holds a market in its slot, but the triple differs by its expiry.
    assert_eq!(registry.init_option(&mut first, 100, 20, true, 5, 25), Ok(()));
    assert_eq!(registry.len(), 2);
    assert_eq!(registry.get(1).unwrap().expiry_timestamp, 20);
    assert_eq!(registry.get(1), first.market);
    assert_eq!(registry.get(2), None);
}

#[test]
fn settle_in_the_registry_sets_the_price_once() {
    let mut registry = MarketRegistry::new();
    assert_eq!(registry.init_option(&mut accounts(1, 2), 100, 10, true, 5, 25), Ok(()));
    assert_eq!(registry.init_option(&mut accounts(3, 2), 100, 10, true, 5, 25), Ok(()));
    assert_eq!(registry.settle_expiry(1, 0), Some(Err(ProgramError::E001)));
    assert_eq!(registry.get(1).unwrap().expiry_price, 0);
    assert_eq!(registry.settle_expiry(1, 150), Some(Ok(())));
    assert_eq!(registry.get(1).unwrap().expiry_price, 150);
    assert_eq!(registry.settle_expiry(1, 80), Some(Ok(())));
    assert_eq!(registry.get(1).unwrap().expiry_price, 150);
    assert_eq!(registry.get(0).unwrap().expiry_price, 0);
    assert_eq!(registry.find(&key(3), &key(2), 10), Some(1));
    assert_eq!(registry.len(), 2);
}

#[test]
fn settle_where_there_is_no_market_does_nothing() {
    let mut registry = MarketRegistry::new();
    assert_eq!(registry.settle_expiry(0, 150), None);
    assert_eq!(registry.init_option(&mut accounts(1, 2), 100, 10, true, 5, 25), Ok(()));
    assert_eq!(registry.settle_expiry(1, 150), None);
    assert_eq!(registry.settle_expiry(usize::MAX, 150), None);
    assert_eq!(registry.len(), 1);
    assert_eq!(registry.get(0).unwrap().expiry_price, 0);
}
