//! Double-or-nothing on a coin flip: a win pays four fifths of the wager,
//! rounded up; a loss costs the wager.

use vstd::prelude::*;
use crate::balance::EloReading;
use crate::numeric::{div_toward_zero, div_trunc};

verus! {

/// Why a wager is refused.
#[derive(Debug, Clone, Copy, PartialEq, Eq, Structural)]
pub enum WagerRefusal {
    /// The wager is zero or negative.
    NotPositive { wager: i64 },
    /// The wager is more than the player's balance.
    ExceedsBalance,
}

/// The wager of a flip: the amount named, or else half the balance, the
/// balance and its half each rounded toward zero.
pub open spec fn spec_wager(balance: EloReading, requested: Option<i64>) -> int {
    match requested {
        Some(w) => w as int,
        None => div_toward_zero(balance.truncated(), 2),
    }
}

/// The wager of a flip, if the player may place it.
pub open spec fn spec_check_wager(balance: EloReading, requested: Option<i64>) -> Result<i64, WagerRefusal> {
    let w = spec_wager(balance, requested);
    if w <= 0 {
        Err(WagerRefusal::NotPositive { wager: w as i64 })
    } else if balance.is_exceeded_by(w) {
        Err(WagerRefusal::ExceedsBalance)
    } else {
        Ok(w as i64)
    }
}

/// Decides the wager of a flip by a player whose balance is `balance`.
pub fn check_wager(balance: EloReading, requested: Option<i64>) -> (r: Result<i64, WagerRefusal>)
    ensures
        r == spec_check_wager(balance, requested),
        r matches Ok(w) ==> 0 < w <= balance.whole,
{
    let w = match requested {
        Some(w) => w,
        None => div_trunc(balance.truncate(), 2),
    };
    if w <= 0 {
        Err(WagerRefusal::NotPositive { wager: w })
    } else if w > balance.whole {
        Err(WagerRefusal::ExceedsBalance)
    } else {
        Ok(w)
    }
}

/// What a won flip pays: four fifths of the wager, rounded up.
pub open spec fn spec_win_gain(wager: int) -> int {
    wager - wager / 5
}

/// What a won flip pays on a positive wager: the least whole number that is at
/// least four fifths of it.
pub fn win_gain(wager: i64) -> (g: i64)
    requires
        wager > 0,
    ensures
        g == spec_win_gain(wager as int),
        5 * g >= 4 * wager,
        5 * (g - 1) < 4 * wager,
        1 <= g <= wager,
{
    wager - wager / 5
}

/// The result of a settled flip.
#[derive(Debug, Clone, Copy, PartialEq, Eq, Structural)]
pub struct FlipOutcome {
    /// Whether the player won.
    pub won: bool,
    /// Elo won, or elo lost.
    pub amount: i64,
    /// The whole part of the player's balance afterwards.
    pub balance_after: i128,
}

/// The result of a flip, given its outcome, or why the wager is refused.
pub open spec fn spec_flip(balance: EloReading, requested: Option<i64>, won: bool) -> Result<
    FlipOutcome,
    WagerRefusal,
> {
    match spec_check_wager(balance, requested) {
        Err(e) => Err(e),
        Ok(w) => if won {
            let g = spec_win_gain(w as int);
            Ok(FlipOutcome { won: true, amount: g as i64, balance_after: (balance.whole + g) as i128 })
        } else {
            Ok(FlipOutcome { won: false, amount: w, balance_after: (balance.whole - w) as i128 })
        },
    }
}

/// Settles a flip whose coin came up `won` for a player whose balance reads
/// `balance`; the amount won or lost is a whole number, so the fraction of
/// the balance is kept.
pub fn settle_flip(balance: EloReading, requested: Option<i64>, won: bool) -> (r: Result<
    FlipOutcome,
    WagerRefusal,
>)
    ensures
        r == spec_flip(balance, requested, won),
        r matches Ok(f) ==> {
            &&& f.won == won
            &&& won ==> f.balance_after > balance.whole
            &&& !won ==> 0 <= f.balance_after < balance.whole
        },
{
    let w = check_wager(balance, requested)?;
    if won {
        let g = win_gain(w);
        Ok(FlipOutcome { won: true, amount: g, balance_after: balance.whole as i128 + g as i128 })
    } else {
        Ok(FlipOutcome { won: false, amount: w, balance_after: balance.whole as i128 - w as i128 })
    }
}

/// A fair coin, from `rand::random::<bool>()`. What it returns is left to
/// chance, so its contract says nothing of the result.
#[verifier::external_body]
fn toss_coin() -> bool {
    rand::random::<bool>()
}

/// Flips a coin for a player whose balance is `balance`: a refused wager
/// flips nothing; otherwise the flip is settled on whichever side came up.
pub fn coinflip(balance: EloReading, requested: Option<i64>) -> (r: Result<FlipOutcome, WagerRefusal>)
    ensures
        spec_check_wager(balance, requested) matches Err(e) ==> r == Err::<FlipOutcome, WagerRefusal>(e),
        r matches Ok(f) ==> r == spec_flip(balance, requested, f.won),
        spec_check_wager(balance, requested) is Ok ==> r is Ok,
{
    let w = check_wager(balance, requested)?;
    let won = toss_coin();
    settle_flip(balance, Some(w), won)
}

} // verus!
