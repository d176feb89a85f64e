//! The market record: the economic terms of one option market, its settlement
//! status, and the arithmetic of premium and payout.

use vstd::prelude::*;
use crate::pubkey::Pubkey;

verus! {

/// The number of note units that make one lot.
pub const LOT_SCALE: u64 = 10_000_000_000;

/// The terms and the settlement status of one market. There is one market for
/// each triple of base asset, collateral asset and expiry.
///
/// `expiry_price` is the settlement price. It is 0 while the market is
/// unsettled; once it is not 0 it stays as it is.
#[derive(Clone, Copy, Debug, PartialEq, Eq)]
pub struct OptionMarket {
    /// The underlying asset.
    pub base_mint: Pubkey,
    /// The asset in which premium and payout are paid.
    pub collateral_mint: Pubkey,
    /// The asset of the option notes that this market mints and burns.
    pub option_note_mint: Pubkey,
    /// The escrow account that holds the collateral.
    pub vault: Pubkey,
    /// The nonce with which the address of the vault was derived.
    pub vault_bump: u8,
    /// The strike price, in the smallest unit of the collateral asset.
    pub strike_price: u64,
    /// What a buyer pays for one lot, in collateral units.
    pub premium_per_lot: u64,
    pub expiry_price: u64,
    /// Advisory: no operation compares it with the time.
    pub expiry_timestamp: i64,
    /// A put pays when the settlement price is above the strike price, a call
    /// when it is below.
    pub is_put: bool,
    /// The denomination of one lot.
    pub lot_size: u64,
}

/// Whether a note balance is a whole number of lots.
pub open spec fn whole_lots(note_balance: u64) -> bool {
    note_balance % LOT_SCALE == 0
}

impl OptionMarket {
    /// Whether the settlement price has been set.
    pub open spec fn is_settled(self) -> bool {
        self.expiry_price != 0
    }

    /// Whether this is the market of the given triple.
    pub open spec fn has_triple(
        self,
        base_mint: Pubkey,
        collateral_mint: Pubkey,
        expiry_timestamp: i64,
    ) -> bool {
        &&& self.base_mint == base_mint
        &&& self.collateral_mint == collateral_mint
        &&& self.expiry_timestamp == expiry_timestamp
    }

    /// What `lot_size` lots cost: lots times premium per lot.
    pub open spec fn premium_due(self, lot_size: u64) -> int {
        lot_size * self.premium_per_lot
    }

    /// What one lot pays at the settlement price as it stands: for a put the
    /// excess of the settlement price over the strike price, for a call the
    /// excess of the strike price over the settlement price, and 0 where there
    /// is no excess.
    pub open spec fn payout_per_lot(self) -> int {
        if self.is_put {
            if self.expiry_price > self.strike_price {
                self.expiry_price - self.strike_price
            } else {
                0
            }
        } else {
            if self.expiry_price < self.strike_price {
                self.strike_price - self.expiry_price
            } else {
                0
            }
        }
    }

    /// What `lot_factor` lots pay: lots times payout per lot.
    pub open spec fn payout_due(self, lot_factor: u64) -> int {
        self.payout_per_lot() * lot_factor
    }

    /// The market after a settlement at `expiry_price`: an unsettled market
    /// takes a price that is not 0, and nothing else changes anything.
    pub open spec fn settled(self, expiry_price: u64) -> OptionMarket {
        if self.expiry_price == 0 && expiry_price != 0 {
            OptionMarket { expiry_price, ..self }
        } else {
            self
        }
    }

    /// Whether this is the market of the given triple.
    pub fn matches_triple(
        &self,
        base_mint: &Pubkey,
        collateral_mint: &Pubkey,
        expiry_timestamp: i64,
    ) -> (found: bool)
        ensures
            found == self.has_triple(*base_mint, *collateral_mint, expiry_timestamp),
    {
        self.base_mint == *base_mint && self.collateral_mint == *collateral_mint
            && self.expiry_timestamp == expiry_timestamp
    }

    /// The premium for `lot_size` lots, or `None` where it does not fit in `u64`.
    pub fn premium_total(&self, lot_size: u64) -> (total: Option<u64>)
        ensures
            match total {
                Some(amount) => amount == self.premium_due(lot_size),
                None => self.premium_due(lot_size) > u64::MAX,
            },
    {
        lot_size.checked_mul(self.premium_per_lot)
    }

    /// The payout for `lot_factor` lots at the settlement price as it stands,
    /// or `None` where it does not fit in `u64`.
    pub fn payout(&self, lot_factor: u64) -> (payout: Option<u64>)
        ensures
            match payout {
                Some(amount) => amount == self.payout_due(lot_factor),
                None => self.payout_due(lot_factor) > u64::MAX,
            },
    {
        let per_lot: u64 = if self.is_put {
            if self.expiry_price > self.strike_price {
                self.expiry_price - self.strike_price
            } else {
                0
            }
        } else {
            if self.expiry_price < self.strike_price {
                self.strike_price - self.expiry_price
            } else {
                0
            }
        };
        per_lot.checked_mul(lot_factor)
    }
}

/// The number of lots in a note balance, or `None` where the balance is not a
/// whole number of lots.
pub fn lot_factor(note_balance: u64) -> (lots: Option<u64>)
    ensures
        match lots {
            Some(count) => whole_lots(note_balance) && count == note_balance / LOT_SCALE,
            None => !whole_lots(note_balance),
        },
{
    if note_balance % LOT_SCALE != 0 {
        None
    } else {
        Some(note_balance / LOT_SCALE)
    }
}

} // verus!
