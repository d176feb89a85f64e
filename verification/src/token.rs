//! The balances that the market moves, and the three instructions it gives to
//! the token ledger: transfer, mint and burn.
//!
//! A market operation works on the balances as they stand when it starts. Each
//! function here applies one instruction to them and hands back the
//! instruction, so that the operation ends with the balances it predicts and
//! the list of instructions that bring the ledger there. An instruction names
//! the authority that the market presents for it; holding that authority to
//! the account's owner is the ledger's work.

use vstd::prelude::*;
use crate::error::ProgramError;
use crate::pubkey::Pubkey;

verus! {

/// A fungible asset: who may mint and burn it, and how much of it exists.
#[derive(Clone, Copy, Debug, PartialEq, Eq)]
pub struct Mint {
    pub key: Pubkey,
    pub mint_authority: Pubkey,
    pub supply: u64,
    pub decimals: u8,
}

/// A balance of one asset under one owner.
#[derive(Clone, Copy, Debug, PartialEq, Eq)]
pub struct TokenAccount {
    pub key: Pubkey,
    pub mint: Pubkey,
    pub owner: Pubkey,
    pub amount: u64,
}

/// One request to the token ledger. The ledger applies it whole or not at all.
#[derive(Clone, Copy, Debug, PartialEq, Eq)]
pub enum TokenInstruction {
    /// Move `amount` units from the account `from` to the account `to`.
    Transfer { from: Pubkey, to: Pubkey, authority: Pubkey, amount: u64 },
    /// Create `amount` units of the asset `mint` in the account `to`.
    MintTo { mint: Pubkey, to: Pubkey, authority: Pubkey, amount: u64 },
    /// Destroy `amount` units of the asset `mint` in the account `from`.
    Burn { mint: Pubkey, from: Pubkey, authority: Pubkey, amount: u64 },
}

impl TokenAccount {
    /// The account with `amount` units more.
    pub open spec fn credited(self, amount: u64) -> TokenAccount {
        TokenAccount { amount: (self.amount + amount) as u64, ..self }
    }

    /// The account with `amount` units less.
    pub open spec fn debited(self, amount: u64) -> TokenAccount {
        TokenAccount { amount: (self.amount - amount) as u64, ..self }
    }
}

impl Mint {
    /// The asset with `amount` units more in existence.
    pub open spec fn issued(self, amount: u64) -> Mint {
        Mint { supply: (self.supply + amount) as u64, ..self }
    }

    /// The asset with `amount` units fewer in existence.
    pub open spec fn retired(self, amount: u64) -> Mint {
        Mint { supply: (self.supply - amount) as u64, ..self }
    }
}

/// Why a transfer of `amount` units from `from` to `to` is refused, if it is:
/// the source holds less than `amount`, or else the destination would overflow.
pub open spec fn transfer_refusal(from: TokenAccount, to: TokenAccount, amount: u64) -> Option<
    ProgramError,
> {
    if from.amount < amount {
        Some(ProgramError::E000)
    } else if to.amount + amount > u64::MAX {
        Some(ProgramError::E005)
    } else {
        None
    }
}

/// Why minting `amount` units of `mint` into `to` is refused, if it is: the
/// supply or the balance would overflow.
pub open spec fn mint_refusal(mint: Mint, to: TokenAccount, amount: u64) -> Option<ProgramError> {
    if mint.supply + amount > u64::MAX || to.amount + amount > u64::MAX {
        Some(ProgramError::E005)
    } else {
        None
    }
}

/// Why burning `amount` units of `mint` held in `from` is refused, if it is:
/// the account holds less than `amount`, or else the supply is below `amount`.
pub open spec fn burn_refusal(mint: Mint, from: TokenAccount, amount: u64) -> Option<ProgramError> {
    if from.amount < amount {
        Some(ProgramError::E000)
    } else if mint.supply < amount {
        Some(ProgramError::E005)
    } else {
        None
    }
}

/// Moves `amount` units from `from` to `to` under `authority`.
pub fn transfer(
    from: &mut TokenAccount,
    to: &mut TokenAccount,
    authority: Pubkey,
    amount: u64,
) -> (res: Result<TokenInstruction, ProgramError>)
    ensures
        match res {
            Ok(instruction) => {
                &&& transfer_refusal(*old(from), *old(to), amount) is None
                &&& *final(from) == old(from).debited(amount)
                &&& *final(to) == old(to).credited(amount)
                &&& instruction == (TokenInstruction::Transfer {
                    from: old(from).key,
                    to: old(to).key,
                    authority,
                    amount,
                })
            },
            Err(e) => {
                &&& transfer_refusal(*old(from), *old(to), amount) == Some(e)
                &&& *final(from) == *old(from)
                &&& *final(to) == *old(to)
            },
        },
{
    if from.amount < amount {
        return Err(ProgramError::E000);
    }
    let credited: u64 = match to.amount.checked_add(amount) {
        Some(sum) => sum,
        None => {
            return Err(ProgramError::E005);
        },
    };
    from.amount = from.amount - amount;
    to.amount = credited;
    Ok(TokenInstruction::Transfer { from: from.key, to: to.key, authority, amount })
}

/// Creates `amount` units of `mint` in `to` under `authority`.
pub fn mint_to(mint: &mut Mint, to: &mut TokenAccount, authority: Pubkey, amount: u64) -> (res:
    Result<TokenInstruction, ProgramError>)
    ensures
        match res {
            Ok(instruction) => {
                &&& mint_refusal(*old(mint), *old(to), amount) is None
                &&& *final(mint) == old(mint).issued(amount)
                &&& *final(to) == old(to).credited(amount)
                &&& instruction == (TokenInstruction::MintTo {
                    mint: old(mint).key,
                    to: old(to).key,
                    authority,
                    amount,
                })
            },
            Err(e) => {
                &&& mint_refusal(*old(mint), *old(to), amount) == Some(e)
                &&& *final(mint) == *old(mint)
                &&& *final(to) == *old(to)
            },
        },
{
    let supply: u64 = match mint.supply.checked_add(amount) {
        Some(sum) => sum,
        None => {
            return Err(ProgramError::E005);
        },
    };
    let credited: u64 = match to.amount.checked_add(amount) {
        Some(sum) => sum,
        None => {
            return Err(ProgramError::E005);
        },
    };
    mint.supply = supply;
    to.amount = credited;
    Ok(TokenInstruction::MintTo { mint: mint.key, to: to.key, authority, amount })
}

/// Destroys `amount` units of `mint` held in `from` under `authority`.
pub fn burn(mint: &mut Mint, from: &mut TokenAccount, authority: Pubkey, amount: u64) -> (res:
    Result<TokenInstruction, ProgramError>)
    ensures
        match res {
            Ok(instruction) => {
                &&& burn_refusal(*old(mint), *old(from), amount) is None
                &&& *final(mint) == old(mint).retired(amount)
                &&& *final(from) == old(from).debited(amount)
                &&& instruction == (TokenInstruction::Burn {
                    mint: old(mint).key,
                    from: old(from).key,
                    authority,
                    amount,
                })
            },
            Err(e) => {
                &&& burn_refusal(*old(mint), *old(from), amount) == Some(e)
                &&& *final(mint) == *old(mint)
                &&& *final(from) == *old(from)
            },
        },
{
    if from.amount < amount {
        return Err(ProgramError::E000);
    }
    if mint.supply < amount {
        return Err(ProgramError::E005);
    }
    mint.supply = mint.supply - amount;
    from.amount = from.amount - amount;
    Ok(TokenInstruction::Burn { mint: mint.key, from: from.key, authority, amount })
}

} // verus!
