//! The named error conditions of the market operations.

use vstd::prelude::*;

verus! {

/// Why a market operation was refused. A refused operation changes nothing.
#[derive(Clone, Copy, Debug, PartialEq, Eq, Structural)]
pub enum ProgramError {
    /// Insufficient funds: the buyer's collateral does not cover the premium,
    /// or the vault does not cover the payout.
    E000,
    /// Invalid settlement price: a price of zero cannot be told from "unset".
    E001,
    /// Invalid note denomination: the note balance is not a whole number of lots.
    E002,
    /// Price not finalized: the market has no settlement price yet.
    E003,
    /// Duplicate market: the triple of base asset, collateral asset and expiry
    /// already has a market.
    E004,
    /// Balance overflow: a balance or a supply would leave the range of `u64`.
    E005,
}

impl ProgramError {
    /// The text of the message, as a sequence of characters.
    pub open spec fn message_text(self) -> Seq<char> {
        match self {
            ProgramError::E000 => "In-sufficent balance"@,
            ProgramError::E001 => "Price Error"@,
            ProgramError::E002 => "Invalid option token"@,
            ProgramError::E003 => "Expiry price not found"@,
            ProgramError::E004 => "Market already exists"@,
            ProgramError::E005 => "Balance overflow"@,
        }
    }

    /// The message that accompanies the error.
    pub fn message(&self) -> (text: &'static str)
        ensures
            text@ == self.message_text(),
    {
        match self {
            ProgramError::E000 => "In-sufficent balance",
            ProgramError::E001 => "Price Error",
            ProgramError::E002 => "Invalid option token",
            ProgramError::E003 => "Expiry price not found",
            ProgramError::E004 => "Market already exists",
            ProgramError::E005 => "Balance overflow",
        }
    }
}

} // verus!
