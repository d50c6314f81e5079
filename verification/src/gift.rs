//! Gifts of elo from one user to another.

use vstd::prelude::*;
use crate::balance::EloReading;
use crate::numeric::{div_toward_zero, div_trunc};

verus! {

/// Why a gift is refused.
#[derive(Debug, Clone, Copy, PartialEq, Eq, Structural)]
pub enum GiftRefusal {
    /// The amount is zero or negative.
    NotPositive { amount: i64 },
    /// The amount is more than the giver's balance.
    ExceedsBalance,
    /// The recipient is a bot.
    ToBot,
    /// The giver and the recipient are the same user.
    ToSelf,
}

/// A gift that goes through.
#[derive(Debug, Clone, Copy, PartialEq, Eq, Structural)]
pub struct Transfer {
    /// Elo given.
    pub amount: i64,
    /// The whole part of the giver's balance afterwards.
    pub giver_after: i128,
    /// The whole part of the recipient's balance afterwards.
    pub recipient_after: i128,
}

/// The amount of a gift: the amount named, or else a quarter of the giver's
/// balance, the balance and its quarter each rounded toward zero.
pub open spec fn spec_gift_amount(giver_balance: EloReading, requested: Option<i64>) -> int {
    match requested {
        Some(a) => a as int,
        None => div_toward_zero(giver_balance.truncated(), 4),
    }
}

/// The outcome of a gift request.
pub open spec fn spec_plan_gift(
    giver: u64,
    giver_balance: EloReading,
    recipient: u64,
    recipient_balance: EloReading,
    recipient_is_bot: bool,
    requested: Option<i64>,
) -> Result<Transfer, GiftRefusal> {
    let a = spec_gift_amount(giver_balance, requested);
    if a <= 0 {
        Err(GiftRefusal::NotPositive { amount: a as i64 })
    } else if giver_balance.is_exceeded_by(a) {
        Err(GiftRefusal::ExceedsBalance)
    } else if recipient_is_bot {
        Err(GiftRefusal::ToBot)
    } else if recipient == giver {
        Err(GiftRefusal::ToSelf)
    } else {
        Ok(
            Transfer {
                amount: a as i64,
                giver_after: (giver_balance.whole - a) as i128,
                recipient_after: (recipient_balance.whole + a) as i128,
            },
        )
    }
}

/// Decides a gift of elo from `giver` to `recipient`.
pub fn plan_gift(
    giver: u64,
    giver_balance: EloReading,
    recipient: u64,
    recipient_balance: EloReading,
    recipient_is_bot: bool,
    requested: Option<i64>,
) -> (r: Result<Transfer, GiftRefusal>)
    ensures
        r == spec_plan_gift(
            giver,
            giver_balance,
            recipient,
            recipient_balance,
            recipient_is_bot,
            requested,
        ),
        r matches Ok(t) ==> {
            &&& t.giver_after + t.recipient_after == giver_balance.whole + recipient_balance.whole
            &&& 0 <= t.giver_after < giver_balance.whole
        },
        recipient_is_bot ==> r is Err,
        recipient == giver ==> r is Err,
        r matches Ok(t) ==> 0 < t.amount <= giver_balance.whole && !recipient_is_bot && recipient
            != giver,
{
    let a = match requested {
        Some(a) => a,
        None => div_trunc(giver_balance.truncate(), 4),
    };
    if a <= 0 {
        Err(GiftRefusal::NotPositive { amount: a })
    } else if a > giver_balance.whole {
        Err(GiftRefusal::ExceedsBalance)
    } else if recipient_is_bot {
        Err(GiftRefusal::ToBot)
    } else if recipient == giver {
        Err(GiftRefusal::ToSelf)
    } else {
        Ok(
            Transfer {
                amount: a,
                giver_after: giver_balance.whole as i128 - a as i128,
                recipient_after: recipient_balance.whole as i128 + a as i128,
            },
        )
    }
}

/// A gift never goes to a bot nor to the giver, and never gives a
/// non-positive amount or more than the giver's whole balance; a positive
/// amount within the balance is refused as given to a bot, whoever the giver
/// is, and otherwise as given to oneself. A gift that goes through moves its
/// amount from the giver to the recipient.
pub proof fn law_gift_refusals(
    giver: u64,
    giver_balance: EloReading,
    recipient: u64,
    recipient_balance: EloReading,
    recipient_is_bot: bool,
    requested: Option<i64>,
)
    ensures
        ({
            let r = spec_plan_gift(
                giver,
                giver_balance,
                recipient,
                recipient_balance,
                recipient_is_bot,
                requested,
            );
            let a = spec_gift_amount(giver_balance, requested);
            &&& recipient_is_bot ==> r is Err
            &&& recipient == giver ==> r is Err
            &&& (0 < a <= giver_balance.whole && recipient_is_bot) ==> r == Err::<
                Transfer,
                GiftRefusal,
            >(GiftRefusal::ToBot)
            &&& (0 < a <= giver_balance.whole && !recipient_is_bot && recipient == giver) ==> r
                == Err::<Transfer, GiftRefusal>(GiftRefusal::ToSelf)
            &&& r is Ok <==> (0 < a <= giver_balance.whole && !recipient_is_bot && recipient
                != giver)
            &&& r matches Ok(t) ==> {
                &&& t.amount == a
                &&& t.giver_after == giver_balance.whole - a
                &&& t.recipient_after == recipient_balance.whole + a
            }
        }),
{
}

} // verus!
