//! A cash-settled options market: a market quotes a strike price, buyers pay a
//! premium into an escrow vault and receive option notes, a settlement price
//! is stamped once, and holders redeem their notes for a payout computed from
//! strike and settlement price.

pub mod accounts;
pub mod error;
pub mod handlers;
pub mod laws;
pub mod market;
pub mod pubkey;
pub mod registry;
pub mod sea_option;
pub mod token;
