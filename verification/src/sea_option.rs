//! The entry points of the market program: one for each operation.

use vstd::prelude::*;
use crate::accounts::{BuyOption, InitOption, Redeem, SettleExpiry};
use crate::error::ProgramError;
use crate::handlers::{
    buy_option_handler,
    init_option_handler,
    redeem_handler,
    settle_expiry_handler,
};
use crate::token::TokenInstruction;

verus! {

/// Creates the market of a triple, with its empty vault and its note asset.
/// Refused with `E004` where the triple has a market.
pub fn init_option(
    ctx: &mut InitOption,
    strike_price: u64,
    expiry_timestamp: i64,
    is_put: bool,
    lot_size: u64,
    premium_per_lot: u64,
) -> (res: Result<(), ProgramError>)
    ensures
        match res {
            Ok(_) => {
                &&& res == Ok::<(), ProgramError>(())
                &&& old(ctx).refusal() is None
                &&& *final(ctx) == old(ctx).effect(
                    strike_price,
                    expiry_timestamp,
                    is_put,
                    lot_size,
                    premium_per_lot,
                )
            },
            Err(e) => old(ctx).refusal() == Some(e) && *final(ctx) == *old(ctx),
        },
{
    init_option_handler(ctx, strike_price, expiry_timestamp, is_put, lot_size, premium_per_lot)
}

/// Buys `lot_size` lots for `lot_size` times the premium per lot.
pub fn buy_option(ctx: &mut BuyOption, lot_size: u64) -> (res: Result<
    Vec<TokenInstruction>,
    ProgramError,
>)
    ensures
        match res {
            Ok(plan) => {
                &&& old(ctx).refusal(lot_size) is None
                &&& *final(ctx) == old(ctx).effect(lot_size)
                &&& plan@ == old(ctx).instructions(lot_size)
            },
            Err(e) => old(ctx).refusal(lot_size) == Some(e) && *final(ctx) == *old(ctx),
        },
{
    buy_option_handler(ctx, lot_size)
}

/// Stamps the settlement price on an unsettled market.
pub fn settle_expiry(ctx: &mut SettleExpiry, expiry_price: u64) -> (res: Result<(), ProgramError>)
    ensures
        match res {
            Ok(_) => {
                &&& res == Ok::<(), ProgramError>(())
                &&& old(ctx).refusal(expiry_price) is None
                &&& *final(ctx) == old(ctx).effect(expiry_price)
            },
            Err(e) => old(ctx).refusal(expiry_price) == Some(e) && *final(ctx) == *old(ctx),
        },
{
    settle_expiry_handler(ctx, expiry_price)
}

/// Redeems all the holder's notes for their payout.
pub fn redeem(ctx: &mut Redeem) -> (res: Result<Vec<TokenInstruction>, ProgramError>)
    ensures
        match res {
            Ok(plan) => {
                &&& old(ctx).refusal() is None
                &&& *final(ctx) == old(ctx).effect()
                &&& plan@ == old(ctx).instructions()
            },
            Err(e) => old(ctx).refusal() == Some(e) && *final(ctx) == *old(ctx),
        },
{
    redeem_handler(ctx)
}

} // verus!
