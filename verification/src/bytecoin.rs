//! The bytecoin market: a fixed supply of coins whose price rises by a fixed
//! step with every coin that leaves the market. Costs and gains are exact
//! integers; a purchase is refused whenever its exact cost exceeds the
//! buyer's balance, however large the cost.

use vstd::prelude::*;
use crate::balance::EloReading;
use crate::numeric::{describes_half, fits_i64, half_product, HalfProduct};

verus! {

/// Price of the first coin bought while the whole supply is still on the market.
pub const BASE_PRICE: i64 = 100;

/// Number of coins the market holds before anyone buys.
pub const TOTAL_COINS: i64 = 2500;

/// How much the price rises for each coin that leaves the market.
pub const PRICE_STEP: i64 = 25;

/// Largest purchase made when a buyer names no amount.
pub const MAX_AUTO_PURCHASE: i64 = 2000;

/// Price of the next coin when `remaining` coins are on the market.
pub open spec fn spec_price(remaining: int) -> int {
    BASE_PRICE + PRICE_STEP * (TOTAL_COINS - remaining)
}

/// Cost of buying `n` coins at once while `remaining` coins are on the market:
/// the sum of the prices of the coins one after another.
pub open spec fn spec_purchase_cost(remaining: int, n: int) -> int {
    spec_price(remaining) * n + PRICE_STEP * n * (n - 1) / 2
}

/// What selling `n` coins pays while `remaining` coins are on the market:
/// the prices at which those coins were last bought, from the top down.
pub open spec fn spec_sale_gain(remaining: int, n: int) -> int {
    (BASE_PRICE + PRICE_STEP * (TOTAL_COINS - remaining - 1)) * n - PRICE_STEP * n * (n - 1) / 2
}

/// `PRICE_STEP * n * (n - 1)` is even, so halving it loses nothing.
pub proof fn lemma_pair_term_even(n: int)
    ensures
        PRICE_STEP * n * (n - 1) == 2 * (PRICE_STEP * n * (n - 1) / 2),
{
    let k = n / 2;
    if n % 2 == 0 {
        assert(PRICE_STEP * n * (n - 1) == 2 * (PRICE_STEP * k * (n - 1))) by (nonlinear_arith)
            requires
                n == 2 * k,
        ;
    } else {
        assert(PRICE_STEP * n * (n - 1) == 2 * (PRICE_STEP * n * k)) by (nonlinear_arith)
            requires
                n == 2 * k + 1,
        ;
    }
}

/// Twice the cost of `n` coins is `n` times this factor.
pub open spec fn purchase_factor(remaining: int, n: int) -> int {
    2 * spec_price(remaining) + PRICE_STEP * (n - 1)
}

/// Twice the gain of selling `n` coins is `n` times this factor.
pub open spec fn sale_factor(remaining: int, n: int) -> int {
    2 * (spec_price(remaining) - PRICE_STEP) - PRICE_STEP * (n - 1)
}

proof fn lemma_factors(remaining: int, n: int)
    ensures
        2 * spec_purchase_cost(remaining, n) == n * purchase_factor(remaining, n),
        2 * spec_sale_gain(remaining, n) == n * sale_factor(remaining, n),
{
    lemma_pair_term_even(n);
    let p = spec_price(remaining);
    assert(2 * (p * n) + PRICE_STEP * n * (n - 1) == n * (2 * p + PRICE_STEP * (n - 1)))
        by (nonlinear_arith);
    assert(BASE_PRICE + PRICE_STEP * (TOTAL_COINS - remaining - 1) == p - PRICE_STEP);
    assert(2 * ((p - PRICE_STEP) * n) - PRICE_STEP * n * (n - 1) == n * (2 * (p - PRICE_STEP)
        - PRICE_STEP * (n - 1))) by (nonlinear_arith);
}

/// The price of the next coin as an `i128`, exactly.
fn wide_price(remaining: i64) -> (p: i128)
    ensures
        p == spec_price(remaining as int),
{
    BASE_PRICE as i128 + PRICE_STEP as i128 * (TOTAL_COINS as i128 - remaining as i128)
}

/// The cost of `n` coins, exactly or by the side of the `i128` range it lies on.
fn purchase_half(remaining: i64, n: i64) -> (h: HalfProduct)
    ensures
        describes_half(h, 2 * spec_purchase_cost(remaining as int, n as int)),
{
    proof {
        lemma_factors(remaining as int, n as int);
    }
    let q = 2 * wide_price(remaining) + PRICE_STEP as i128 * (n as i128 - 1);
    half_product(n, q)
}

/// The gain of selling `n` coins, exactly or by the side of the `i128` range
/// it lies on.
fn sale_half(remaining: i64, n: i64) -> (h: HalfProduct)
    ensures
        describes_half(h, 2 * spec_sale_gain(remaining as int, n as int)),
{
    proof {
        lemma_factors(remaining as int, n as int);
    }
    let q = 2 * (wide_price(remaining) - PRICE_STEP as i128) - PRICE_STEP as i128 * (n as i128 - 1);
    half_product(n, q)
}

/// The price of the next coin is a value of `i64`.
pub open spec fn price_representable(remaining: int) -> bool {
    fits_i64(spec_price(remaining))
}

/// Price of the next coin, or `None` where it is beyond the range of `i64`.
pub fn checked_price(remaining: i64) -> (r: Option<i64>)
    ensures
        r == (if price_representable(remaining as int) {
            Some(spec_price(remaining as int) as i64)
        } else {
            None::<i64>
        }),
{
    let p = wide_price(remaining);
    if i64::MIN as i128 <= p && p <= i64::MAX as i128 {
        Some(p as i64)
    } else {
        None
    }
}

/// Price of the next coin when `remaining` coins are on the market.
pub fn next_price(remaining: i64) -> (p: i64)
    requires
        price_representable(remaining as int),
    ensures
        p == spec_price(remaining as int),
{
    let p = wide_price(remaining);
    p as i64
}

/// Cost of buying `n` coins at once, or `None` where it is beyond the range
/// of `i64`.
pub fn checked_purchase_cost(remaining: i64, n: i64) -> (r: Option<i64>)
    ensures
        r == (if fits_i64(spec_purchase_cost(remaining as int, n as int)) {
            Some(spec_purchase_cost(remaining as int, n as int) as i64)
        } else {
            None::<i64>
        }),
{
    match purchase_half(remaining, n) {
        HalfProduct::Exact(c) => if i64::MIN as i128 <= c && c <= i64::MAX as i128 {
            Some(c as i64)
        } else {
            None
        },
        _ => None,
    }
}

/// What selling `n` coins pays, or `None` where it is beyond the range of
/// `i64`.
pub fn checked_sale_gain(remaining: i64, n: i64) -> (r: Option<i64>)
    ensures
        r == (if fits_i64(spec_sale_gain(remaining as int, n as int)) {
            Some(spec_sale_gain(remaining as int, n as int) as i64)
        } else {
            None::<i64>
        }),
{
    match sale_half(remaining, n) {
        HalfProduct::Exact(g) => if i64::MIN as i128 <= g && g <= i64::MAX as i128 {
            Some(g as i64)
        } else {
            None
        },
        _ => None,
    }
}

/// What `coins` held coins are worth: what selling them all would pay now, or
/// nothing for no coins; `None` where that is beyond the range of `i64`.
pub open spec fn spec_holdings_worth(remaining: i64, coins: i64) -> Option<i64> {
    if coins > 0 {
        if fits_i64(spec_sale_gain(remaining as int, coins as int)) {
            Some(spec_sale_gain(remaining as int, coins as int) as i64)
        } else {
            None
        }
    } else {
        Some(0)
    }
}

/// What `coins` held coins are worth while `remaining` coins are on the
/// market.
pub fn holdings_worth(remaining: i64, coins: i64) -> (r: Option<i64>)
    ensures
        r == spec_holdings_worth(remaining, coins),
{
    if coins > 0 {
        checked_sale_gain(remaining, coins)
    } else {
        Some(0)
    }
}

/// Every purchase of `0..=n` coins costs at most `budget`.
pub open spec fn affordable_through(remaining: int, budget: int, n: int) -> bool {
    forall|m: int| 0 <= m <= n ==> #[trigger] spec_purchase_cost(remaining, m) <= budget
}

/// The size of the automatic purchase, searching upward from `n` coins.
pub open spec fn spec_auto_purchase_from(remaining: int, budget: int, n: int) -> int
    decreases MAX_AUTO_PURCHASE - n,
{
    if n >= MAX_AUTO_PURCHASE {
        n
    } else if spec_purchase_cost(remaining, n + 1) > budget {
        n
    } else {
        spec_auto_purchase_from(remaining, budget, n + 1)
    }
}

/// The size of the automatic purchase: the largest `n <= MAX_AUTO_PURCHASE`
/// such that buying any of `0..=n` coins costs at most `budget`.
pub open spec fn spec_auto_purchase(remaining: int, budget: int) -> int {
    spec_auto_purchase_from(remaining, budget, 0)
}

proof fn lemma_cost_of_nothing(remaining: int)
    ensures
        spec_purchase_cost(remaining, 0) == 0,
{
    assert(spec_price(remaining) * 0 == 0) by (nonlinear_arith);
    assert(PRICE_STEP * 0 * (0 - 1) == 0) by (nonlinear_arith);
}

pub proof fn lemma_auto_purchase_from_is_largest(remaining: int, budget: int, n: int)
    requires
        0 <= n <= MAX_AUTO_PURCHASE,
        affordable_through(remaining, budget, n),
    ensures
        ({
            let r = spec_auto_purchase_from(remaining, budget, n);
            &&& n <= r <= MAX_AUTO_PURCHASE
            &&& affordable_through(remaining, budget, r)
            &&& r < MAX_AUTO_PURCHASE ==> spec_purchase_cost(remaining, r + 1) > budget
        }),
    decreases MAX_AUTO_PURCHASE - n,
{
    if n < MAX_AUTO_PURCHASE && spec_purchase_cost(remaining, n + 1) <= budget {
        assert(affordable_through(remaining, budget, n + 1));
        lemma_auto_purchase_from_is_largest(remaining, budget, n + 1);
    }
}

/// Whether buying `n` coins costs more than `budget`.
fn costs_more_than(remaining: i64, n: i64, budget: i64) -> (b: bool)
    ensures
        b == (spec_purchase_cost(remaining as int, n as int) > budget),
{
    match purchase_half(remaining, n) {
        HalfProduct::Exact(c) => c > budget as i128,
        HalfProduct::Above => true,
        HalfProduct::Below => false,
    }
}

/// Size of the purchase made when a buyer names no amount: the largest
/// `n <= MAX_AUTO_PURCHASE` such that buying any of `0..=n` coins costs at
/// most `budget`.
pub fn auto_purchase_size(remaining: i64, budget: i64) -> (n: i64)
    requires
        budget >= 0,
    ensures
        n == spec_auto_purchase(remaining as int, budget as int),
        0 <= n <= MAX_AUTO_PURCHASE,
        affordable_through(remaining as int, budget as int, n as int),
        n < MAX_AUTO_PURCHASE ==> spec_purchase_cost(remaining as int, n + 1) > budget,
{
    proof {
        lemma_cost_of_nothing(remaining as int);
        assert(affordable_through(remaining as int, budget as int, 0));
        lemma_auto_purchase_from_is_largest(remaining as int, budget as int, 0);
    }
    let mut n: i64 = 0;
    while n < MAX_AUTO_PURCHASE
        invariant
            0 <= n <= MAX_AUTO_PURCHASE,
            affordable_through(remaining as int, budget as int, n as int),
            spec_auto_purchase_from(remaining as int, budget as int, n as int)
                == spec_auto_purchase(remaining as int, budget as int),
        decreases MAX_AUTO_PURCHASE - n,
    {
        let next = n + 1;
        if costs_more_than(remaining, next, budget) {
            return n;
        }
        n = next;
    }
    n
}

/// Why a purchase is refused.
#[derive(Debug, Clone, Copy, PartialEq, Eq)]
pub enum PurchaseRefusal {
    /// The number of coins to buy is zero or negative.
    NotPositive,
    /// The purchase costs more than the buyer's balance: by `Some(shortfall)`
    /// whole elo, or by more than `i64::MAX` where `None`.
    Unaffordable { shortfall: Option<i64> },
}

/// A purchase of bytecoins that goes through.
#[derive(Debug, Clone, Copy, PartialEq, Eq, Structural)]
pub struct Purchase {
    /// Coins bought.
    pub coins: i64,
    /// Elo paid for them.
    pub cost: i64,
    /// Coins the buyer holds afterwards.
    pub holdings_after: i64,
    /// Coins left on the market afterwards.
    pub remaining_after: i64,
}

/// Number of coins a purchase is for: the amount named, or else the automatic
/// purchase within the balance rounded toward zero.
pub open spec fn spec_purchase_size(remaining: int, elo: EloReading, requested: Option<i64>) -> int {
    match requested {
        Some(n) => n as int,
        None => spec_auto_purchase(remaining, elo.truncated()),
    }
}

/// How much a cost exceeds a balance, where that is a value of `i64`.
pub open spec fn spec_shortfall(cost: int, whole: int) -> Option<i64> {
    if fits_i64(cost - whole) {
        Some((cost - whole) as i64)
    } else {
        None
    }
}

/// The outcome of a purchase request.
pub open spec fn spec_plan_purchase(
    remaining: i64,
    holdings: i64,
    elo: EloReading,
    requested: Option<i64>,
) -> Result<Purchase, PurchaseRefusal> {
    let n = spec_purchase_size(remaining as int, elo, requested);
    let cost = spec_purchase_cost(remaining as int, n);
    if n <= 0 {
        Err(PurchaseRefusal::NotPositive)
    } else if cost > elo.whole {
        Err(PurchaseRefusal::Unaffordable { shortfall: spec_shortfall(cost, elo.whole as int) })
    } else {
        Ok(
            Purchase {
                coins: n as i64,
                cost: cost as i64,
                holdings_after: (holdings + n) as i64,
                remaining_after: (remaining - n) as i64,
            },
        )
    }
}

/// A request that names no amount comes from a balance of at least zero, and
/// a purchase that goes through has its cost and new counts in `i64`.
pub open spec fn purchase_representable(
    remaining: i64,
    holdings: i64,
    elo: EloReading,
    requested: Option<i64>,
) -> bool {
    let n = spec_purchase_size(remaining as int, elo, requested);
    let cost = spec_purchase_cost(remaining as int, n);
    &&& requested is None ==> elo.truncated() >= 0
    &&& (n > 0 && cost <= elo.whole) ==> {
        &&& cost >= i64::MIN
        &&& fits_i64(holdings + n)
        &&& fits_i64(remaining - n)
    }
}

/// Decides a purchase of bytecoins by a buyer who holds `holdings` coins and
/// whose balance reads `elo`, while `remaining` coins are on the market.
pub fn plan_purchase(remaining: i64, holdings: i64, elo: EloReading, requested: Option<i64>) -> (r:
    Result<Purchase, PurchaseRefusal>)
    requires
        purchase_representable(remaining, holdings, elo, requested),
    ensures
        r == spec_plan_purchase(remaining, holdings, elo, requested),
        r matches Ok(p) ==> {
            &&& p.coins > 0
            &&& p.cost <= elo.whole
            &&& p.holdings_after + p.remaining_after == holdings + remaining
        },
        r matches Err(PurchaseRefusal::Unaffordable { shortfall: Some(s) }) ==> s > 0,
        requested is None && r is Ok ==> ({
            let n = r->Ok_0.coins;
            &&& 0 < n <= MAX_AUTO_PURCHASE
            &&& affordable_through(remaining as int, elo.truncated(), n as int)
            &&& n < MAX_AUTO_PURCHASE ==> spec_purchase_cost(remaining as int, n + 1)
                > elo.truncated()
        }),
        requested is None && r == Err::<Purchase, PurchaseRefusal>(PurchaseRefusal::NotPositive)
            ==> spec_purchase_cost(remaining as int, 1) > elo.truncated(),
{
    proof {
        if requested is None {
            lemma_cost_of_nothing(remaining as int);
            assert(affordable_through(remaining as int, elo.truncated(), 0));
            lemma_auto_purchase_from_is_largest(remaining as int, elo.truncated(), 0);
        }
    }
    let n = match requested {
        Some(n) => n,
        None => auto_purchase_size(remaining, elo.truncate()),
    };
    if n <= 0 {
        return Err(PurchaseRefusal::NotPositive);
    }
    match purchase_half(remaining, n) {
        HalfProduct::Exact(c) => {
            let whole = elo.whole as i128;
            if c > whole {
                let d = c - whole;
                let shortfall = if d <= i64::MAX as i128 {
                    Some(d as i64)
                } else {
                    None
                };
                Err(PurchaseRefusal::Unaffordable { shortfall })
            } else {
                Ok(
                    Purchase {
                        coins: n,
                        cost: c as i64,
                        holdings_after: holdings + n,
                        remaining_after: remaining - n,
                    },
                )
            }
        },
        HalfProduct::Above => Err(PurchaseRefusal::Unaffordable { shortfall: None }),
        HalfProduct::Below => {
            proof {
                assert(false);
            }
            Err(PurchaseRefusal::NotPositive)
        },
    }
}

/// Whether [`plan_purchase`] can decide this request: a request that names no
/// amount comes from a balance of at least zero, and a purchase that goes
/// through has its cost and new counts in `i64`.
pub fn purchase_is_computable(
    remaining: i64,
    holdings: i64,
    elo: EloReading,
    requested: Option<i64>,
) -> (b: bool)
    ensures
        b == purchase_representable(remaining, holdings, elo, requested),
{
    let n = match requested {
        Some(n) => n,
        None => {
            let budget = elo.truncate();
            if budget < 0 {
                return false;
            }
            auto_purchase_size(remaining, budget)
        },
    };
    if n <= 0 {
        return true;
    }
    match purchase_half(remaining, n) {
        HalfProduct::Exact(c) => {
            if c > elo.whole as i128 {
                true
            } else {
                c >= i64::MIN as i128 && holdings.checked_add(n).is_some()
                    && remaining.checked_sub(n).is_some()
            }
        },
        HalfProduct::Above => true,
        HalfProduct::Below => false,
    }
}

/// Why a sale is refused.
#[derive(Debug, Clone, Copy, PartialEq, Eq, Structural)]
pub enum SaleRefusal {
    /// The number of coins to sell is zero or negative.
    NotPositive,
    /// The seller holds only `held` coins.
    ExceedsHoldings { held: i64 },
}

/// A sale of bytecoins that goes through.
#[derive(Debug, Clone, Copy, PartialEq, Eq, Structural)]
pub struct Sale {
    /// Coins sold.
    pub coins: i64,
    /// Elo received for them.
    pub gain: i64,
    /// Coins the seller holds afterwards.
    pub holdings_after: i64,
    /// Coins on the market afterwards.
    pub remaining_after: i64,
}

/// Number of coins a sale is for: the amount named, or else every coin held.
pub open spec fn spec_sale_size(holdings: i64, requested: Option<i64>) -> int {
    match requested {
        Some(n) => n as int,
        None => holdings as int,
    }
}

/// The outcome of a sale request.
pub open spec fn spec_plan_sale(remaining: i64, holdings: i64, requested: Option<i64>) -> Result<
    Sale,
    SaleRefusal,
> {
    let n = spec_sale_size(holdings, requested);
    if n <= 0 {
        Err(SaleRefusal::NotPositive)
    } else if n > holdings {
        Err(SaleRefusal::ExceedsHoldings { held: holdings })
    } else {
        Ok(
            Sale {
                coins: n as i64,
                gain: spec_sale_gain(remaining as int, n) as i64,
                holdings_after: (holdings - n) as i64,
                remaining_after: (remaining + n) as i64,
            },
        )
    }
}

/// A sale that goes through has its gain and new market count in `i64`.
pub open spec fn sale_representable(remaining: i64, holdings: i64, requested: Option<i64>) -> bool {
    let n = spec_sale_size(holdings, requested);
    0 < n <= holdings ==> fits_i64(spec_sale_gain(remaining as int, n)) && fits_i64(remaining + n)
}

/// Decides a sale of bytecoins by a seller who holds `holdings` coins while
/// `remaining` coins are on the market.
pub fn plan_sale(remaining: i64, holdings: i64, requested: Option<i64>) -> (r: Result<
    Sale,
    SaleRefusal,
>)
    requires
        sale_representable(remaining, holdings, requested),
    ensures
        r == spec_plan_sale(remaining, holdings, requested),
        r matches Ok(s) ==> {
            &&& 0 < s.coins <= holdings
            &&& s.holdings_after >= 0
            &&& s.holdings_after + s.remaining_after == holdings + remaining
        },
{
    let n = match requested {
        Some(n) => n,
        None => holdings,
    };
    if n <= 0 {
        return Err(SaleRefusal::NotPositive);
    }
    if n > holdings {
        return Err(SaleRefusal::ExceedsHoldings { held: holdings });
    }
    let gain = match checked_sale_gain(remaining, n) {
        Some(g) => g,
        None => {
            proof {
                assert(false);
            }
            0
        },
    };
    Ok(Sale { coins: n, gain, holdings_after: holdings - n, remaining_after: remaining + n })
}

/// Whether [`plan_sale`] can decide this request: a sale that goes through has
/// its gain and new market count in `i64`.
pub fn sale_is_computable(remaining: i64, holdings: i64, requested: Option<i64>) -> (b: bool)
    ensures
        b == sale_representable(remaining, holdings, requested),
{
    let n = match requested {
        Some(n) => n,
        None => holdings,
    };
    if n <= 0 || n > holdings {
        return true;
    }
    checked_sale_gain(remaining, n).is_some() && remaining.checked_add(n).is_some()
}

} // verus!
