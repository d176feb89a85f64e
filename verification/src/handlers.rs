//! The four market operations.
//!
//! Each operation takes the accounts as they stand, checks every condition
//! first, and only then changes anything: a refused operation leaves the
//! accounts exactly as they were. One that goes through leaves them as the
//! ledger will have them, and returns the instructions in the order in which
//! the ledger is to apply them, all or none.

use vstd::prelude::*;
use crate::accounts::{BuyOption, InitOption, Redeem, SettleExpiry, NOTE_DECIMALS};
use crate::error::ProgramError;
use crate::market::{lot_factor, whole_lots, OptionMarket};
use crate::token::{burn, mint_to, transfer, Mint, TokenAccount, TokenInstruction};

verus! {

/// Redeems all the holder's notes: pays what they are worth at the settlement
/// price out of the vault, and burns them whether they pay or not.
///
/// After a redemption the holder has no notes left, the supply of notes is
/// lower by what the holder had, and what left the vault has reached the
/// holder. The market record is untouched.
pub fn redeem_handler(ctx: &mut Redeem) -> (res: Result<Vec<TokenInstruction>, ProgramError>)
    ensures
        match res {
            Ok(plan) => {
                &&& old(ctx).refusal() is None
                &&& *final(ctx) == old(ctx).effect()
                &&& plan@ == old(ctx).instructions()
                &&& final(ctx).option_note_account.amount == 0
                &&& final(ctx).option_note_mint.supply
                    == old(ctx).option_note_mint.supply - old(ctx).option_note_account.amount
                &&& final(ctx).vault.amount == old(ctx).vault.amount - old(ctx).payout()
                &&& final(ctx).redeemer_account.amount
                    == old(ctx).redeemer_account.amount + old(ctx).payout()
            },
            Err(e) => old(ctx).refusal() == Some(e) && *final(ctx) == *old(ctx),
        },
        final(ctx).market == old(ctx).market,
        !whole_lots(old(ctx).option_note_account.amount)
            ==> res == Err::<Vec<TokenInstruction>, ProgramError>(ProgramError::E002),
        whole_lots(old(ctx).option_note_account.amount) && !old(ctx).market.is_settled()
            ==> res == Err::<Vec<TokenInstruction>, ProgramError>(ProgramError::E003),
{
    let notes: u64 = ctx.option_note_account.amount;
    let lots: u64 = match lot_factor(notes) {
        Some(count) => count,
        None => {
            return Err(ProgramError::E002);
        },
    };
    if ctx.market.expiry_price == 0 {
        return Err(ProgramError::E003);
    }
    let payout: u64 = match ctx.market.payout(lots) {
        Some(amount) => amount,
        None => {
            return Err(ProgramError::E000);
        },
    };
    let mut option_note_mint = ctx.option_note_mint;
    let mut vault = ctx.vault;
    let mut redeemer_account = ctx.redeemer_account;
    let mut option_note_account = ctx.option_note_account;
    let mut plan: Vec<TokenInstruction> = Vec::new();
    if payout > 0 {
        let payment = transfer(&mut vault, &mut redeemer_account, ctx.market_key, payout)?;
        plan.push(payment);
    }
    let burning = burn(&mut option_note_mint, &mut option_note_account, ctx.market_key, notes)?;
    plan.push(burning);
    ctx.option_note_mint = option_note_mint;
    ctx.vault = vault;
    ctx.redeemer_account = redeemer_account;
    ctx.option_note_account = option_note_account;
    Ok(plan)
}

/// Buys `lot_size` lots: the buyer pays `lot_size` times the premium per lot
/// into the vault, and receives as many notes as collateral units were paid.
///
/// After a purchase the vault holds the premium more, the buyer's collateral
/// is the premium less, so that the two together hold what they held, and the
/// buyer's notes and the supply of notes are the premium more. The market
/// record is untouched.
pub fn buy_option_handler(ctx: &mut BuyOption, lot_size: u64) -> (res: Result<
    Vec<TokenInstruction>,
    ProgramError,
>)
    ensures
        match res {
            Ok(plan) => {
                &&& old(ctx).refusal(lot_size) is None
                &&& *final(ctx) == old(ctx).effect(lot_size)
                &&& plan@ == old(ctx).instructions(lot_size)
                &&& final(ctx).vault.amount
                    == old(ctx).vault.amount + old(ctx).market.premium_due(lot_size)
                &&& final(ctx).collateral_account.amount
                    == old(ctx).collateral_account.amount - old(ctx).market.premium_due(lot_size)
                &&& final(ctx).option_note_account.amount
                    == old(ctx).option_note_account.amount + old(ctx).market.premium_due(lot_size)
                &&& final(ctx).option_note_mint.supply
                    == old(ctx).option_note_mint.supply + old(ctx).market.premium_due(lot_size)
                &&& final(ctx).vault.amount + final(ctx).collateral_account.amount
                    == old(ctx).vault.amount + old(ctx).collateral_account.amount
            },
            Err(e) => old(ctx).refusal(lot_size) == Some(e) && *final(ctx) == *old(ctx),
        },
        final(ctx).market == old(ctx).market,
        old(ctx).collateral_account.amount < old(ctx).market.premium_due(lot_size)
            ==> res == Err::<Vec<TokenInstruction>, ProgramError>(ProgramError::E000),
{
    let total_amount: u64 = match ctx.market.premium_total(lot_size) {
        Some(amount) => amount,
        None => {
            return Err(ProgramError::E000);
        },
    };
    let mut option_note_mint = ctx.option_note_mint;
    let mut vault = ctx.vault;
    let mut option_note_account = ctx.option_note_account;
    let mut collateral_account = ctx.collateral_account;
    let payment = transfer(&mut collateral_account, &mut vault, ctx.depositor, total_amount)?;
    let minting = mint_to(
        &mut option_note_mint,
        &mut option_note_account,
        ctx.market_key,
        total_amount,
    )?;
    let mut plan: Vec<TokenInstruction> = Vec::new();
    plan.push(payment);
    plan.push(minting);
    ctx.option_note_mint = option_note_mint;
    ctx.vault = vault;
    ctx.option_note_account = option_note_account;
    ctx.collateral_account = collateral_account;
    Ok(plan)
}

/// Creates the market of a triple: fills in the record with the given terms
/// and no settlement price, and creates the empty vault and the note asset,
/// both under the market's authority.
///
/// A triple has one market: where the record exists already the operation is
/// refused with `E004`.
pub fn init_option_handler(
    ctx: &mut InitOption,
    strike_price: u64,
    expiry_timestamp: i64,
    is_put: bool,
    lot_size: u64,
    premium_per_lot: u64,
) -> (res: Result<(), ProgramError>)
    ensures
        match res {
            Ok(_) => {
                &&& res == Ok::<(), ProgramError>(())
                &&& old(ctx).market is None
                &&& *final(ctx) == old(ctx).effect(
                    strike_price,
                    expiry_timestamp,
                    is_put,
                    lot_size,
                    premium_per_lot,
                )
                &&& final(ctx).market matches Some(market) && !market.is_settled()
                    && market.has_triple(
                    old(ctx).base_mint,
                    old(ctx).collateral_mint,
                    expiry_timestamp,
                )
            },
            Err(e) => {
                &&& old(ctx).market is Some
                &&& e == ProgramError::E004
                &&& *final(ctx) == *old(ctx)
            },
        },
{
    if ctx.market.is_some() {
        return Err(ProgramError::E004);
    }
    ctx.market = Some(
        OptionMarket {
            base_mint: ctx.base_mint,
            collateral_mint: ctx.collateral_mint,
            option_note_mint: ctx.option_note_mint.key,
            vault: ctx.vault.key,
            vault_bump: ctx.vault_bump,
            strike_price,
            premium_per_lot,
            expiry_price: 0,
            expiry_timestamp,
            is_put,
            lot_size,
        },
    );
    ctx.option_note_mint = Mint {
        key: ctx.option_note_mint.key,
        mint_authority: ctx.market_key,
        supply: 0,
        decimals: NOTE_DECIMALS,
    };
    ctx.vault = TokenAccount {
        key: ctx.vault.key,
        mint: ctx.collateral_mint,
        owner: ctx.market_key,
        amount: 0,
    };
    Ok(())
}

/// Stamps the settlement price on the market, once: an unsettled market takes
/// `expiry_price`, a settled one keeps the price it has. A price of 0, which
/// could not be told from "unset", is refused with `E001`.
///
/// Nothing but the settlement price changes, and a settlement price that is
/// not 0 never changes.
pub fn settle_expiry_handler(ctx: &mut SettleExpiry, expiry_price: u64) -> (res: Result<
    (),
    ProgramError,
>)
    ensures
        match res {
            Ok(_) => {
                &&& res == Ok::<(), ProgramError>(())
                &&& expiry_price != 0
                &&& final(ctx).market == old(ctx).market.settled(expiry_price)
                &&& final(ctx).market.is_settled()
            },
            Err(e) => {
                &&& expiry_price == 0
                &&& e == ProgramError::E001
                &&& *final(ctx) == *old(ctx)
            },
        },
        old(ctx).market.is_settled() ==> final(ctx).market == old(ctx).market,
        final(ctx).market == (OptionMarket {
            expiry_price: final(ctx).market.expiry_price,
            ..old(ctx).market
        }),
{
    if expiry_price == 0 {
        return Err(ProgramError::E001);
    }
    if ctx.market.expiry_price == 0 {
        ctx.market.expiry_price = expiry_price;
    }
    Ok(())
}

} // verus!
