//! What holds of the market operations taken together, stated over the
//! functions that the operations' contracts use.

use vstd::prelude::*;
use crate::accounts::{BuyOption, InitOption, Redeem, SettleExpiry};
use crate::error::ProgramError;
use crate::market::{whole_lots, OptionMarket, LOT_SCALE};
use crate::registry::{distinct_triples, has_market, lemma_push_keeps_triples_distinct};
use crate::token::TokenInstruction;

verus! {

/// A triple has one market. Where a market is created in a store that has
/// none of its triple, the store still holds at most one market of each
/// triple, it holds the new market's triple, and so every later creation for
/// the same triple is refused, whatever its terms.
pub proof fn lemma_one_market_per_triple(
    markets: Seq<OptionMarket>,
    ctx: InitOption,
    strike_price: u64,
    expiry_timestamp: i64,
    is_put: bool,
    lot_size: u64,
    premium_per_lot: u64,
)
    requires
        distinct_triples(markets),
        !has_market(markets, ctx.base_mint, ctx.collateral_mint, expiry_timestamp),
    ensures
        distinct_triples(
            markets.push(
                ctx.created_market(
                    strike_price,
                    expiry_timestamp,
                    is_put,
                    lot_size,
                    premium_per_lot,
                ),
            ),
        ),
        has_market(
            markets.push(
                ctx.created_market(
                    strike_price,
                    expiry_timestamp,
                    is_put,
                    lot_size,
                    premium_per_lot,
                ),
            ),
            ctx.base_mint,
            ctx.collateral_mint,
            expiry_timestamp,
        ),
        ctx.effect(strike_price, expiry_timestamp, is_put, lot_size, premium_per_lot).refusal()
            == Some(ProgramError::E004),
{
    let created = ctx.created_market(
        strike_price,
        expiry_timestamp,
        is_put,
        lot_size,
        premium_per_lot,
    );
    lemma_push_keeps_triples_distinct(markets, created);
    assert(markets.push(created)[markets.len() as int].has_triple(
        ctx.base_mint,
        ctx.collateral_mint,
        expiry_timestamp,
    ));
}

/// In a store with at most one market of each triple, two places that hold a
/// market of the same triple are the same place.
pub proof fn lemma_triple_names_one_row(markets: Seq<OptionMarket>, i: int, j: int)
    requires
        distinct_triples(markets),
        0 <= i < markets.len(),
        0 <= j < markets.len(),
        markets[i].has_triple(
            markets[j].base_mint,
            markets[j].collateral_mint,
            markets[j].expiry_timestamp,
        ),
    ensures
        i == j,
{
    if i < j {
        assert(!markets[i].has_triple(
            markets[j].base_mint,
            markets[j].collateral_mint,
            markets[j].expiry_timestamp,
        ));
    } else if j < i {
        assert(!markets[j].has_triple(
            markets[i].base_mint,
            markets[i].collateral_mint,
            markets[i].expiry_timestamp,
        ));
    }
}

/// A purchase moves the premium and mints as much: the vault gains what the
/// buyer pays, so that the two together hold what they held, and the buyer's
/// notes and the supply of notes grow by the same amount. The two instructions
/// carry that one amount, and the market record is untouched.
pub proof fn lemma_buy_conserves_collateral(ctx: BuyOption, lot_size: u64)
    requires
        ctx.refusal(lot_size) is None,
    ensures
        ctx.effect(lot_size).vault.amount == ctx.vault.amount + ctx.market.premium_due(lot_size),
        ctx.effect(lot_size).collateral_account.amount
            == ctx.collateral_account.amount - ctx.market.premium_due(lot_size),
        ctx.effect(lot_size).option_note_account.amount
            == ctx.option_note_account.amount + ctx.market.premium_due(lot_size),
        ctx.effect(lot_size).option_note_mint.supply
            == ctx.option_note_mint.supply + ctx.market.premium_due(lot_size),
        ctx.effect(lot_size).vault.amount + ctx.effect(lot_size).collateral_account.amount
            == ctx.vault.amount + ctx.collateral_account.amount,
        ctx.effect(lot_size).market == ctx.market,
        ctx.instructions(lot_size).len() == 2,
        ctx.instructions(lot_size)[0] matches TokenInstruction::Transfer { amount, .. }
            && amount == ctx.market.premium_due(lot_size),
        ctx.instructions(lot_size)[1] matches TokenInstruction::MintTo { amount, .. }
            && amount == ctx.market.premium_due(lot_size),
{
}

/// The settlement price is set once: after a settlement at a price that is
/// not 0 the market is settled, and a further settlement at any price leaves
/// the whole record as it is.
pub proof fn lemma_settle_once(market: OptionMarket, first: u64, second: u64)
    requires
        first != 0,
    ensures
        market.settled(first).is_settled(),
        market.settled(first).settled(second) == market.settled(first),
        (SettleExpiry { market: market.settled(first) }).effect(second).market
            == market.settled(first),
{
}

/// The settlement price only ever goes from 0 to a price that is not 0, and a
/// settlement changes nothing else in the record.
pub proof fn lemma_settle_changes_price_only(market: OptionMarket, expiry_price: u64)
    ensures
        market.settled(expiry_price) == (OptionMarket {
            expiry_price: market.settled(expiry_price).expiry_price,
            ..market
        }),
        market.is_settled() ==> market.settled(expiry_price) == market,
        market.settled(expiry_price).expiry_price != market.expiry_price ==> {
            &&& market.expiry_price == 0
            &&& expiry_price != 0
            &&& market.settled(expiry_price).expiry_price == expiry_price
        },
{
}

/// A redemption burns exactly what the holder had: no notes are left, the
/// supply is lower by the holder's balance, the payout has moved from the
/// vault to the holder, and the market record is untouched. The payout is
/// never more than the vault held. The last instruction burns the whole
/// balance.
pub proof fn lemma_redeem_burns_all(ctx: Redeem)
    requires
        ctx.refusal() is None,
    ensures
        0 <= ctx.payout() <= ctx.vault.amount,
        ctx.effect().option_note_account.amount == 0,
        ctx.effect().option_note_mint.supply
            == ctx.option_note_mint.supply - ctx.option_note_account.amount,
        ctx.effect().vault.amount == ctx.vault.amount - ctx.payout(),
        ctx.effect().redeemer_account.amount == ctx.redeemer_account.amount + ctx.payout(),
        ctx.effect().vault.amount + ctx.effect().redeemer_account.amount
            == ctx.vault.amount + ctx.redeemer_account.amount,
        ctx.effect().market == ctx.market,
        ctx.instructions().last() matches TokenInstruction::Burn { amount, .. }
            && amount == ctx.option_note_account.amount,
{
    assert(ctx.payout() >= 0) by (nonlinear_arith)
        requires
            ctx.payout() == ctx.market.payout_per_lot() * ctx.lot_factor(),
            ctx.market.payout_per_lot() >= 0,
    ;
}

/// Notes pay once: after a redemption the holder's notes are worth nothing,
/// so that a second redemption moves no collateral.
pub proof fn lemma_redeem_pays_once(ctx: Redeem)
    requires
        ctx.refusal() is None,
    ensures
        ctx.effect().payout() == 0,
        ctx.effect().refusal() is None ==> ctx.effect().effect().vault == ctx.effect().vault,
{
    lemma_redeem_burns_all(ctx);
    assert(ctx.effect().lot_factor() == 0);
    assert(ctx.effect().market.payout_per_lot() * 0 == 0);
}

/// A redemption is refused before anything else is looked at where the notes
/// are not a whole number of lots, and, where they are, where the market is
/// not settled.
pub proof fn lemma_redeem_refused(ctx: Redeem)
    ensures
        !whole_lots(ctx.option_note_account.amount) ==> ctx.refusal() == Some(ProgramError::E002),
        whole_lots(ctx.option_note_account.amount) && !ctx.market.is_settled()
            ==> ctx.refusal() == Some(ProgramError::E003),
{
}

/// What notes pay follows the settlement price. In the money, a put pays the
/// excess of the settlement price over the strike price for each lot, and a
/// call the excess of the strike price over the settlement price. Out of the
/// money or at it, the notes pay nothing: the vault and the holder's
/// collateral stay as they are, and the notes are burned all the same.
pub proof fn lemma_payout_follows_the_price(ctx: Redeem)
    requires
        ctx.refusal() is None,
    ensures
        ctx.market.is_put && ctx.market.expiry_price > ctx.market.strike_price
            ==> ctx.payout() == (ctx.market.expiry_price - ctx.market.strike_price)
                * (ctx.option_note_account.amount / LOT_SCALE),
        !ctx.market.is_put && ctx.market.expiry_price < ctx.market.strike_price
            ==> ctx.payout() == (ctx.market.strike_price - ctx.market.expiry_price)
                * (ctx.option_note_account.amount / LOT_SCALE),
        ctx.market.is_put && ctx.market.expiry_price <= ctx.market.strike_price
            ==> ctx.payout() == 0,
        !ctx.market.is_put && ctx.market.expiry_price >= ctx.market.strike_price
            ==> ctx.payout() == 0,
        ctx.payout() == 0 ==> {
            &&& ctx.effect().vault == ctx.vault
            &&& ctx.effect().redeemer_account == ctx.redeemer_account
            &&& ctx.effect().option_note_account.amount == 0
            &&& ctx.instructions().len() == 1
        },
{
}

/// A buyer never has more notes than exist: where the buyer's notes are
/// within the supply before a purchase, they are within it after.
pub proof fn lemma_buy_keeps_notes_within_supply(ctx: BuyOption, lot_size: u64)
    requires
        ctx.refusal(lot_size) is None,
        ctx.option_note_account.amount <= ctx.option_note_mint.supply,
    ensures
        ctx.effect(lot_size).option_note_account.amount
            <= ctx.effect(lot_size).option_note_mint.supply,
{
}

/// The buyer authorizes the payment of the premium out of the buyer's own
/// collateral, and nothing else: the notes are minted under the authority of
/// the market.
pub proof fn lemma_buy_names_its_authorities(ctx: BuyOption, lot_size: u64)
    ensures
        ctx.instructions(lot_size)[0] matches TokenInstruction::Transfer { from, authority, .. }
            && from == ctx.collateral_account.key && authority == ctx.depositor,
        ctx.instructions(lot_size)[1] matches TokenInstruction::MintTo { authority, .. }
            && authority == ctx.market_key,
{
}

/// Only the market moves collateral out of the vault and burns notes: every
/// instruction of a redemption names the market as its authority, and none of
/// them mints.
pub proof fn lemma_redeem_names_the_market(ctx: Redeem)
    ensures
        forall|i: int|
            0 <= i < ctx.instructions().len() ==> match #[trigger] ctx.instructions()[i] {
                TokenInstruction::Transfer { from, authority, .. } => from == ctx.vault.key
                    && authority == ctx.market_key,
                TokenInstruction::MintTo { .. } => false,
                TokenInstruction::Burn { authority, .. } => authority == ctx.market_key,
            },
{
}

/// The vault and the note asset that `init_option` creates are under the
/// authority that the later operations present for them: the address of the
/// market.
pub proof fn lemma_created_accounts_belong_to_the_market(
    ctx: InitOption,
    strike_price: u64,
    expiry_timestamp: i64,
    is_put: bool,
    lot_size: u64,
    premium_per_lot: u64,
)
    ensures
        ({
            let after = ctx.effect(strike_price, expiry_timestamp, is_put, lot_size, premium_per_lot);
            &&& after.vault.owner == ctx.market_key
            &&& after.vault.mint == ctx.collateral_mint
            &&& after.vault.amount == 0
            &&& after.option_note_mint.mint_authority == ctx.market_key
            &&& after.option_note_mint.supply == 0
            &&& after.market matches Some(market) && market.vault == after.vault.key
                && market.option_note_mint == after.option_note_mint.key
                && market.collateral_mint == after.vault.mint
        }),
{
}

} // verus!
