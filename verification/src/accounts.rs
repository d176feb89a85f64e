//! The accounts that each market operation works on, and what the operation
//! makes of them.
//!
//! An operation sees the accounts as plain values: the market record, and the
//! balances as they stand when the operation starts. For each operation three
//! functions say what it does: `refusal` names the error, if the operation is
//! refused; `effect` gives the accounts after an operation that is not
//! refused; `instructions` lists what it asks of the token ledger.

use vstd::prelude::*;
use crate::error::ProgramError;
use crate::market::{whole_lots, OptionMarket, LOT_SCALE};
use crate::pubkey::Pubkey;
use crate::token::{burn_refusal, mint_refusal, transfer_refusal, Mint, TokenAccount, TokenInstruction};

verus! {

/// The decimals of every note asset.
pub const NOTE_DECIMALS: u8 = 9;

/// The accounts of `init_option`.
#[derive(Clone, Copy, Debug, PartialEq, Eq)]
pub struct InitOption {
    /// The address of the market record of the triple.
    pub market_key: Pubkey,
    /// The market record at that address: `None` until a market is created.
    pub market: Option<OptionMarket>,
    pub base_mint: Pubkey,
    pub collateral_mint: Pubkey,
    /// The note asset that the operation creates at the address `key`. Only
    /// the address is read.
    pub option_note_mint: Mint,
    /// The escrow account that the operation creates at the address `key`.
    /// Only the address is read.
    pub vault: TokenAccount,
    /// The nonce with which the address of the vault was derived.
    pub vault_bump: u8,
}

/// The accounts of `buy_option`.
#[derive(Clone, Copy, Debug, PartialEq, Eq)]
pub struct BuyOption {
    /// The buyer, who authorizes the payment of the premium.
    pub depositor: Pubkey,
    /// The address of the market, which is its authority over vault and notes.
    pub market_key: Pubkey,
    pub market: OptionMarket,
    pub option_note_mint: Mint,
    pub vault: TokenAccount,
    /// The buyer's notes.
    pub option_note_account: TokenAccount,
    /// The buyer's collateral.
    pub collateral_account: TokenAccount,
}

/// The accounts of `settle_expiry`.
#[derive(Clone, Copy, Debug, PartialEq, Eq)]
pub struct SettleExpiry {
    pub market: OptionMarket,
}

/// The accounts of `redeem`.
#[derive(Clone, Copy, Debug, PartialEq, Eq)]
pub struct Redeem {
    /// The address of the market, which is its authority over vault and notes.
    pub market_key: Pubkey,
    pub market: OptionMarket,
    pub option_note_mint: Mint,
    pub vault: TokenAccount,
    /// The holder's collateral, which receives the payout.
    pub redeemer_account: TokenAccount,
    /// The holder's notes.
    pub option_note_account: TokenAccount,
}

impl InitOption {
    /// The record of the market that the operation creates.
    pub open spec fn created_market(
        self,
        strike_price: u64,
        expiry_timestamp: i64,
        is_put: bool,
        lot_size: u64,
        premium_per_lot: u64,
    ) -> OptionMarket {
        OptionMarket {
            base_mint: self.base_mint,
            collateral_mint: self.collateral_mint,
            option_note_mint: self.option_note_mint.key,
            vault: self.vault.key,
            vault_bump: self.vault_bump,
            strike_price,
            premium_per_lot,
            expiry_price: 0,
            expiry_timestamp,
            is_put,
            lot_size,
        }
    }

    /// The escrow account as the operation creates it: empty, denominated in
    /// the collateral asset, owned by the market.
    pub open spec fn created_vault(self) -> TokenAccount {
        TokenAccount {
            key: self.vault.key,
            mint: self.collateral_mint,
            owner: self.market_key,
            amount: 0,
        }
    }

    /// The note asset as the operation creates it: nothing minted yet, the
    /// market its only authority.
    pub open spec fn created_note_mint(self) -> Mint {
        Mint {
            key: self.option_note_mint.key,
            mint_authority: self.market_key,
            supply: 0,
            decimals: NOTE_DECIMALS,
        }
    }

    /// The operation is refused where the triple already has a market.
    pub open spec fn refusal(self) -> Option<ProgramError> {
        if self.market is Some {
            Some(ProgramError::E004)
        } else {
            None
        }
    }

    /// The accounts after the operation.
    pub open spec fn effect(
        self,
        strike_price: u64,
        expiry_timestamp: i64,
        is_put: bool,
        lot_size: u64,
        premium_per_lot: u64,
    ) -> InitOption {
        InitOption {
            market: Some(
                self.created_market(
                    strike_price,
                    expiry_timestamp,
                    is_put,
                    lot_size,
                    premium_per_lot,
                ),
            ),
            option_note_mint: self.created_note_mint(),
            vault: self.created_vault(),
            ..self
        }
    }
}

impl BuyOption {
    /// Why buying `lot_size` lots is refused, if it is: the buyer's collateral
    /// is below the premium, or else a balance would overflow.
    pub open spec fn refusal(self, lot_size: u64) -> Option<ProgramError> {
        let total = self.market.premium_due(lot_size);
        if self.collateral_account.amount < total {
            Some(ProgramError::E000)
        } else if transfer_refusal(self.collateral_account, self.vault, total as u64) is Some {
            transfer_refusal(self.collateral_account, self.vault, total as u64)
        } else {
            mint_refusal(self.option_note_mint, self.option_note_account, total as u64)
        }
    }

    /// The accounts after buying `lot_size` lots: the premium has moved from
    /// the buyer to the vault, and as many notes have been minted to the buyer.
    pub open spec fn effect(self, lot_size: u64) -> BuyOption {
        let total = self.market.premium_due(lot_size) as u64;
        BuyOption {
            collateral_account: self.collateral_account.debited(total),
            vault: self.vault.credited(total),
            option_note_mint: self.option_note_mint.issued(total),
            option_note_account: self.option_note_account.credited(total),
            ..self
        }
    }

    /// What buying `lot_size` lots asks of the ledger: the buyer pays the
    /// premium into the vault, then the market mints the notes.
    pub open spec fn instructions(self, lot_size: u64) -> Seq<TokenInstruction> {
        let total = self.market.premium_due(lot_size) as u64;
        seq![
            TokenInstruction::Transfer {
                from: self.collateral_account.key,
                to: self.vault.key,
                authority: self.depositor,
                amount: total,
            },
            TokenInstruction::MintTo {
                mint: self.option_note_mint.key,
                to: self.option_note_account.key,
                authority: self.market_key,
                amount: total,
            },
        ]
    }
}

impl SettleExpiry {
    /// A settlement price of 0 is refused.
    pub open spec fn refusal(self, expiry_price: u64) -> Option<ProgramError> {
        if expiry_price == 0 {
            Some(ProgramError::E001)
        } else {
            None
        }
    }

    /// The accounts after a settlement at `expiry_price`.
    pub open spec fn effect(self, expiry_price: u64) -> SettleExpiry {
        SettleExpiry { market: self.market.settled(expiry_price) }
    }
}

impl Redeem {
    /// The number of lots that the holder's notes make.
    pub open spec fn lot_factor(self) -> u64 {
        self.option_note_account.amount / LOT_SCALE
    }

    /// What the holder's notes pay.
    pub open spec fn payout(self) -> int {
        self.market.payout_due(self.lot_factor())
    }

    /// Why the redemption is refused, if it is: the notes are not a whole
    /// number of lots; or else the market is not settled; or else the vault
    /// holds less than the payout; or else a balance would leave its range.
    pub open spec fn refusal(self) -> Option<ProgramError> {
        if !whole_lots(self.option_note_account.amount) {
            Some(ProgramError::E002)
        } else if !self.market.is_settled() {
            Some(ProgramError::E003)
        } else if self.vault.amount < self.payout() {
            Some(ProgramError::E000)
        } else if transfer_refusal(self.vault, self.redeemer_account, self.payout() as u64)
            is Some {
            transfer_refusal(self.vault, self.redeemer_account, self.payout() as u64)
        } else {
            burn_refusal(
                self.option_note_mint,
                self.option_note_account,
                self.option_note_account.amount,
            )
        }
    }

    /// The accounts after the redemption: the payout has moved from the vault
    /// to the holder, and all the holder's notes are burned.
    pub open spec fn effect(self) -> Redeem {
        let payout = self.payout() as u64;
        let notes = self.option_note_account.amount;
        Redeem {
            vault: self.vault.debited(payout),
            redeemer_account: self.redeemer_account.credited(payout),
            option_note_mint: self.option_note_mint.retired(notes),
            option_note_account: self.option_note_account.debited(notes),
            ..self
        }
    }

    /// What the redemption asks of the ledger: the market pays the payout out
    /// of the vault, if there is one, then burns the holder's notes.
    pub open spec fn instructions(self) -> Seq<TokenInstruction> {
        let burn = TokenInstruction::Burn {
            mint: self.option_note_mint.key,
            from: self.option_note_account.key,
            authority: self.market_key,
            amount: self.option_note_account.amount,
        };
        if self.payout() > 0 {
            seq![
                TokenInstruction::Transfer {
                    from: self.vault.key,
                    to: self.redeemer_account.key,
                    authority: self.market_key,
                    amount: self.payout() as u64,
                },
                burn,
            ]
        } else {
            seq![burn]
        }
    }
}

} // verus!
