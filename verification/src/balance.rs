//! Balances of elo as the market and the games read them.

use vstd::prelude::*;

verus! {

/// A balance as the database stores it: a real number, of which the logic
/// reads the whole part (`floor`) and whether a fraction remains.
#[derive(Debug, Clone, Copy, PartialEq, Eq, Structural)]
pub struct EloReading {
    /// The balance rounded down to a whole number.
    pub whole: i64,
    /// Whether the balance lies strictly between `whole` and `whole + 1`.
    pub fractional: bool,
}

impl EloReading {
    /// The balance rounded toward zero.
    pub open spec fn truncated(self) -> int {
        if self.whole < 0 && self.fractional {
            self.whole + 1
        } else {
            self.whole as int
        }
    }

    /// The balance rounded toward zero.
    pub fn truncate(&self) -> (r: i64)
        ensures
            r == self.truncated(),
    {
        if self.whole < 0 && self.fractional {
            self.whole + 1
        } else {
            self.whole
        }
    }

    /// Whether a whole amount is more than the balance: exactly when it is
    /// more than the balance's whole part.
    pub open spec fn is_exceeded_by(self, amount: int) -> bool {
        amount > self.whole
    }
}

} // verus!
