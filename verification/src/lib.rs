//! Verified core of the Nosedive Discord bot: the bytecoin market, coin
//! flips, elo gifts, challenge polls and command routing.

pub mod numeric;
pub mod balance;
pub mod bytecoin;
pub mod market_laws;
pub mod coinflip;
pub mod gift;
pub mod challenge;
pub mod commands;
