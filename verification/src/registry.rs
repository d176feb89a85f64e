//! The store of market records: one row for each triple of base asset,
//! collateral asset and expiry.

use vstd::prelude::*;
use crate::accounts::{InitOption, SettleExpiry};
use crate::error::ProgramError;
use crate::handlers::{init_option_handler, settle_expiry_handler};
use crate::market::OptionMarket;
use crate::pubkey::Pubkey;

verus! {

/// Whether one of `markets` is the market of the given triple.
pub open spec fn has_market(
    markets: Seq<OptionMarket>,
    base_mint: Pubkey,
    collateral_mint: Pubkey,
    expiry_timestamp: i64,
) -> bool {
    exists|i: int|
        0 <= i < markets.len() && #[trigger] markets[i].has_triple(
            base_mint,
            collateral_mint,
            expiry_timestamp,
        )
}

/// Whether no two of `markets` are markets of the same triple.
pub open spec fn distinct_triples(markets: Seq<OptionMarket>) -> bool {
    forall|i: int, j: int|
        0 <= i < j < markets.len() ==> !(#[trigger] markets[i]).has_triple(
            (#[trigger] markets[j]).base_mint,
            markets[j].collateral_mint,
            markets[j].expiry_timestamp,
        )
}

/// The market records, in the order in which the markets were created.
pub struct MarketRegistry {
    markets: Vec<OptionMarket>,
}

impl View for MarketRegistry {
    type V = Seq<OptionMarket>;

    closed spec fn view(&self) -> Seq<OptionMarket> {
        self.markets@
    }
}

impl MarketRegistry {
    /// A triple has at most one market. This holds of every registry.
    #[verifier::type_invariant]
    pub open spec fn wf(&self) -> bool {
        distinct_triples(self@)
    }

    /// A registry without markets.
    pub fn new() -> (registry: MarketRegistry)
        ensures
            registry@ == Seq::<OptionMarket>::empty(),
            registry.wf(),
    {
        MarketRegistry { markets: Vec::new() }
    }

    /// The number of markets.
    pub fn len(&self) -> (count: usize)
        ensures
            count == self@.len(),
    {
        self.markets.len()
    }

    /// The place of the first market of the given triple, or `None` where the
    /// triple has no market. A registry holds at most one market of a triple,
    /// so the first is the only one.
    pub fn find(&self, base_mint: &Pubkey, collateral_mint: &Pubkey, expiry_timestamp: i64) -> (found:
        Option<usize>)
        ensures
            match found {
                Some(index) => {
                    &&& index < self@.len()
                    &&& self@[index as int].has_triple(
                        *base_mint,
                        *collateral_mint,
                        expiry_timestamp,
                    )
                    &&& !has_market(
                        self@.take(index as int),
                        *base_mint,
                        *collateral_mint,
                        expiry_timestamp,
                    )
                },
                None => !has_market(self@, *base_mint, *collateral_mint, expiry_timestamp),
            },
    {
        let mut index: usize = 0;
        while index < self.markets.len()
            invariant
                index <= self.markets@.len(),
                !has_market(
                    self.markets@.take(index as int),
                    *base_mint,
                    *collateral_mint,
                    expiry_timestamp,
                ),
            decreases self.markets@.len() - index,
        {
            if self.markets[index].matches_triple(base_mint, collateral_mint, expiry_timestamp) {
                return Some(index);
            }
            proof {
                let before = self.markets@.take(index as int);
                let after = self.markets@.take(index as int + 1);
                assert forall|i: int| 0 <= i < after.len() implies !(#[trigger] after[i]).has_triple(
                    *base_mint,
                    *collateral_mint,
                    expiry_timestamp,
                ) by {
                    if i < index {
                        assert(before[i] == after[i]);
                    }
                }
            }
            index += 1;
        }
        proof {
            assert(self.markets@.take(index as int) == self.markets@);
        }
        None
    }

    /// The market at `index`, or `None` where there is none.
    pub fn get(&self, index: usize) -> (market: Option<OptionMarket>)
        ensures
            market == if index < self@.len() {
                Some(self@[index as int])
            } else {
                None::<OptionMarket>
            },
    {
        if index < self.markets.len() {
            Some(self.markets[index])
        } else {
            None
        }
    }

    /// Creates the market of the triple that `ctx` and `expiry_timestamp` give,
    /// unless the triple has one: then the operation is refused with `E004`,
    /// and neither the registry nor `ctx` changes. The registry decides whether
    /// the triple has a market, whatever the market slot of `ctx` held.
    pub fn init_option(
        &mut self,
        ctx: &mut InitOption,
        strike_price: u64,
        expiry_timestamp: i64,
        is_put: bool,
        lot_size: u64,
        premium_per_lot: u64,
    ) -> (res: Result<(), ProgramError>)
        ensures
            final(self).wf(),
            match res {
                Ok(_) => {
                    &&& res == Ok::<(), ProgramError>(())
                    &&& !has_market(
                        old(self)@,
                        old(ctx).base_mint,
                        old(ctx).collateral_mint,
                        expiry_timestamp,
                    )
                    &&& final(self)@ == old(self)@.push(
                        old(ctx).created_market(
                            strike_price,
                            expiry_timestamp,
                            is_put,
                            lot_size,
                            premium_per_lot,
                        ),
                    )
                    &&& *final(ctx) == old(ctx).effect(
                        strike_price,
                        expiry_timestamp,
                        is_put,
                        lot_size,
                        premium_per_lot,
                    )
                },
                Err(e) => {
                    &&& has_market(
                        old(self)@,
                        old(ctx).base_mint,
                        old(ctx).collateral_mint,
                        expiry_timestamp,
                    )
                    &&& e == ProgramError::E004
                    &&& final(self)@ == old(self)@
                    &&& *final(ctx) == *old(ctx)
                },
            },
    {
        proof {
            use_type_invariant(&*self);
        }
        if self.find(&ctx.base_mint, &ctx.collateral_mint, expiry_timestamp).is_some() {
            return Err(ProgramError::E004);
        }
        ctx.market = None;
        let created = init_option_handler(
            ctx,
            strike_price,
            expiry_timestamp,
            is_put,
            lot_size,
            premium_per_lot,
        );
        match ctx.market {
            Some(market) => {
                proof {
                    lemma_push_keeps_triples_distinct(self.markets@, market);
                }
                let mut markets: Vec<OptionMarket> = Vec::new();
                std::mem::swap(&mut markets, &mut self.markets);
                markets.push(market);
                self.markets = markets;
            },
            None => {},
        }
        created
    }

    /// Settles the market at `index` at `expiry_price`: an unsettled market
    /// takes the price, a settled one keeps its own, and a price of 0 is
    /// refused with `E001`. No other market changes. Where the registry has no
    /// market at `index` the result is `None`, and nothing changes.
    pub fn settle_expiry(&mut self, index: usize, expiry_price: u64) -> (res: Option<
        Result<(), ProgramError>,
    >)
        ensures
            final(self).wf(),
            match res {
                Some(Ok(_)) => {
                    &&& res == Some(Ok::<(), ProgramError>(()))
                    &&& index < old(self)@.len()
                    &&& expiry_price != 0
                    &&& final(self)@ == old(self)@.update(
                        index as int,
                        old(self)@[index as int].settled(expiry_price),
                    )
                },
                Some(Err(e)) => {
                    &&& index < old(self)@.len()
                    &&& expiry_price == 0
                    &&& e == ProgramError::E001
                    &&& final(self)@ == old(self)@
                },
                None => index >= old(self)@.len() && final(self)@ == old(self)@,
            },
    {
        proof {
            use_type_invariant(&*self);
        }
        if index >= self.markets.len() {
            return None;
        }
        let mut ctx = SettleExpiry { market: self.markets[index] };
        let settled = settle_expiry_handler(&mut ctx, expiry_price);
        if settled.is_ok() {
            proof {
                lemma_settle_keeps_triples_distinct(self.markets@, index as int, expiry_price);
            }
            let mut markets: Vec<OptionMarket> = Vec::new();
            std::mem::swap(&mut markets, &mut self.markets);
            markets[index] = ctx.market;
            self.markets = markets;
        }
        Some(settled)
    }
}

/// A market of a triple that no market of `markets` has can join them.
pub proof fn lemma_push_keeps_triples_distinct(markets: Seq<OptionMarket>, market: OptionMarket)
    requires
        distinct_triples(markets),
        !has_market(markets, market.base_mint, market.collateral_mint, market.expiry_timestamp),
    ensures
        distinct_triples(markets.push(market)),
{
    let after = markets.push(market);
    assert forall|i: int, j: int| 0 <= i < j < after.len() implies !(#[trigger] after[i]).has_triple(
        (#[trigger] after[j]).base_mint,
        after[j].collateral_mint,
        after[j].expiry_timestamp,
    ) by {
        assert(after[i] == markets[i]);
        if j < markets.len() {
            assert(after[j] == markets[j]);
        } else {
            assert(!markets[i].has_triple(
                market.base_mint,
                market.collateral_mint,
                market.expiry_timestamp,
            ));
        }
    }
}

/// A settlement leaves the triple of its market alone.
pub proof fn lemma_settle_keeps_triples_distinct(
    markets: Seq<OptionMarket>,
    index: int,
    expiry_price: u64,
)
    requires
        distinct_triples(markets),
        0 <= index < markets.len(),
    ensures
        distinct_triples(markets.update(index, markets[index].settled(expiry_price))),
{
    let after = markets.update(index, markets[index].settled(expiry_price));
    assert forall|i: int, j: int| 0 <= i < j < after.len() implies !(#[trigger] after[i]).has_triple(
        (#[trigger] after[j]).base_mint,
        after[j].collateral_mint,
        after[j].expiry_timestamp,
    ) by {
        assert(!markets[i].has_triple(
            markets[j].base_mint,
            markets[j].collateral_mint,
            markets[j].expiry_timestamp,
        ));
    }
}

} // verus!
