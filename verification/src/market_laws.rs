//! Laws of the bytecoin market: how prices, purchases and sales relate.

use vstd::prelude::*;
use crate::balance::EloReading;
use crate::bytecoin::{
    affordable_through, lemma_auto_purchase_from_is_largest, MAX_AUTO_PURCHASE,
    lemma_pair_term_even, purchase_representable, sale_representable, spec_plan_purchase,
    spec_plan_sale, spec_price, spec_purchase_cost, spec_purchase_size, spec_sale_gain,
    spec_sale_size, Purchase, PurchaseRefusal, Sale, SaleRefusal, BASE_PRICE, PRICE_STEP,
    TOTAL_COINS,
};
use crate::numeric::fits_i64;

verus! {

/// Buying one coin costs the current price, each coin that leaves the market
/// raises the price by `PRICE_STEP`, and selling one coin pays the price at
/// which the last coin was bought.
pub proof fn law_price_steps(remaining: int)
    ensures
        spec_purchase_cost(remaining, 1) == spec_price(remaining),
        spec_price(remaining - 1) == spec_price(remaining) + PRICE_STEP,
        spec_sale_gain(remaining, 1) == spec_price(remaining + 1),
{
}

/// Selling back the coins just bought pays exactly what they cost.
pub proof fn law_sale_refunds_purchase(remaining: int, n: int)
    ensures
        spec_sale_gain(remaining - n, n) == spec_purchase_cost(remaining, n),
{
    lemma_pair_term_even(n);
    let p = spec_price(remaining);
    assert((BASE_PRICE + PRICE_STEP * (TOTAL_COINS - (remaining - n) - 1)) * n == p * n + PRICE_STEP
        * n * (n - 1)) by (nonlinear_arith)
        requires
            p == BASE_PRICE + PRICE_STEP * (TOTAL_COINS - remaining),
    ;
}

/// Buying back the coins just sold costs exactly what the sale paid.
pub proof fn law_purchase_repays_sale(remaining: int, n: int)
    ensures
        spec_purchase_cost(remaining + n, n) == spec_sale_gain(remaining, n),
{
    lemma_pair_term_even(n);
    let p = spec_price(remaining);
    assert(spec_price(remaining + n) * n == p * n - PRICE_STEP * n * n) by (nonlinear_arith)
        requires
            p == BASE_PRICE + PRICE_STEP * (TOTAL_COINS - remaining),
    ;
    assert((BASE_PRICE + PRICE_STEP * (TOTAL_COINS - remaining - 1)) * n == p * n - PRICE_STEP * n)
        by (nonlinear_arith)
        requires
            p == BASE_PRICE + PRICE_STEP * (TOTAL_COINS - remaining),
    ;
    assert(PRICE_STEP * n * (n - 1) == PRICE_STEP * n * n - PRICE_STEP * n) by (nonlinear_arith);
}

/// Buying `a + b` coins at once costs the same as buying `a` coins and then
/// `b` more.
pub proof fn law_purchase_splits(remaining: int, a: int, b: int)
    ensures
        spec_purchase_cost(remaining, a + b) == spec_purchase_cost(remaining, a)
            + spec_purchase_cost(remaining - a, b),
{
    lemma_pair_term_even(a);
    lemma_pair_term_even(b);
    lemma_pair_term_even(a + b);
    let p = spec_price(remaining);
    assert(spec_price(remaining - a) * b == p * b + PRICE_STEP * a * b) by (nonlinear_arith)
        requires
            p == BASE_PRICE + PRICE_STEP * (TOTAL_COINS - remaining),
    ;
    assert(p * (a + b) == p * a + p * b) by (nonlinear_arith);
    assert(PRICE_STEP * (a + b) * (a + b - 1) == PRICE_STEP * a * (a - 1) + PRICE_STEP * b * (b - 1)
        + 2 * (PRICE_STEP * a * b)) by (nonlinear_arith);
}

/// A purchase, by a buyer who holds no negative number of coins, followed by
/// the sale of the same coins restores the buyer's holdings and the market,
/// and the sale pays back exactly the cost.
pub proof fn law_selling_back_a_purchase(
    remaining: i64,
    holdings: i64,
    elo: EloReading,
    requested: Option<i64>,
)
    requires
        holdings >= 0,
        purchase_representable(remaining, holdings, elo, requested),
        spec_plan_purchase(remaining, holdings, elo, requested) is Ok,
        ({
            let p = spec_plan_purchase(remaining, holdings, elo, requested)->Ok_0;
            sale_representable(p.remaining_after, p.holdings_after, Some(p.coins))
        }),
    ensures
        ({
            let p = spec_plan_purchase(remaining, holdings, elo, requested)->Ok_0;
            spec_plan_sale(p.remaining_after, p.holdings_after, Some(p.coins)) == Ok::<
                Sale,
                SaleRefusal,
            >(
                Sale {
                    coins: p.coins,
                    gain: p.cost,
                    holdings_after: holdings,
                    remaining_after: remaining,
                },
            )
        }),
{
    let n = spec_purchase_size(remaining as int, elo, requested);
    law_sale_refunds_purchase(remaining as int, n);
}

/// A sale followed by the purchase of the same coins restores the seller's
/// holdings and the market, and the purchase costs exactly what the sale paid.
pub proof fn law_buying_back_a_sale(
    remaining: i64,
    holdings: i64,
    elo: EloReading,
    requested: Option<i64>,
)
    requires
        sale_representable(remaining, holdings, requested),
        spec_plan_sale(remaining, holdings, requested) is Ok,
        ({
            let s = spec_plan_sale(remaining, holdings, requested)->Ok_0;
            &&& purchase_representable(s.remaining_after, s.holdings_after, elo, Some(s.coins))
            &&& s.gain <= elo.whole
        }),
    ensures
        ({
            let s = spec_plan_sale(remaining, holdings, requested)->Ok_0;
            spec_plan_purchase(s.remaining_after, s.holdings_after, elo, Some(s.coins)) == Ok::<
                Purchase,
                PurchaseRefusal,
            >(
                Purchase {
                    coins: s.coins,
                    cost: s.gain,
                    holdings_after: holdings,
                    remaining_after: remaining,
                },
            )
        }),
{
    let n = spec_sale_size(holdings, requested);
    law_purchase_repays_sale(remaining as int, n);
}

/// Coins held by all users together.
pub open spec fn total_held(holdings: Seq<i64>) -> int
    decreases holdings.len(),
{
    if holdings.len() == 0 {
        0
    } else {
        total_held(holdings.drop_last()) + holdings.last()
    }
}

/// The coins on the market and the coins held add up to the whole supply.
pub open spec fn supply_balanced(remaining: i64, holdings: Seq<i64>) -> bool {
    remaining + total_held(holdings) == TOTAL_COINS
}

proof fn lemma_total_held_update(holdings: Seq<i64>, i: int, v: i64)
    requires
        0 <= i < holdings.len(),
    ensures
        total_held(holdings.update(i, v)) == total_held(holdings) - holdings[i] + v,
    decreases holdings.len(),
{
    let updated = holdings.update(i, v);
    if i == holdings.len() - 1 {
        assert(updated.drop_last() =~= holdings.drop_last());
    } else {
        assert(updated.drop_last() =~= holdings.drop_last().update(i, v));
        lemma_total_held_update(holdings.drop_last(), i, v);
    }
}

/// Holdings of no user are negative.
pub open spec fn holdings_nonnegative(holdings: Seq<i64>) -> bool {
    forall|i: int| 0 <= i < holdings.len() ==> holdings[i] >= 0
}

proof fn lemma_holding_within_total(holdings: Seq<i64>, i: int)
    requires
        holdings_nonnegative(holdings),
        0 <= i < holdings.len(),
    ensures
        0 <= holdings[i] <= total_held(holdings),
    decreases holdings.len(),
{
    let rest = holdings.drop_last();
    assert(holdings_nonnegative(rest));
    if i < holdings.len() - 1 {
        lemma_holding_within_total(rest, i);
    } else if rest.len() > 0 {
        lemma_holding_within_total(rest, 0);
    }
}

/// With a price of at least one, `n >= 1` coins cost at least the price plus
/// `n - 1`.
proof fn lemma_cost_dominates(remaining: int, n: int)
    requires
        spec_price(remaining) >= 1,
        n >= 1,
    ensures
        spec_purchase_cost(remaining, n) >= spec_price(remaining) + n - 1,
        spec_purchase_cost(remaining, n) >= 0,
{
    lemma_pair_term_even(n);
    let p = spec_price(remaining);
    assert(PRICE_STEP * n * (n - 1) >= 0) by (nonlinear_arith)
        requires
            n >= 1,
    ;
    assert(p * n >= p + n - 1) by (nonlinear_arith)
        requires
            p >= 1,
            n >= 1,
    ;
}

/// A purchase by any user, while no one holds a negative number of coins,
/// keeps the coins on the market and the coins held adding up to the whole
/// supply.
pub proof fn law_purchase_keeps_supply(
    remaining: i64,
    holdings: Seq<i64>,
    buyer: int,
    elo: EloReading,
    requested: Option<i64>,
)
    requires
        0 <= buyer < holdings.len(),
        holdings_nonnegative(holdings),
        supply_balanced(remaining, holdings),
        spec_plan_purchase(remaining, holdings[buyer], elo, requested) is Ok,
    ensures
        ({
            let p = spec_plan_purchase(remaining, holdings[buyer], elo, requested)->Ok_0;
            supply_balanced(p.remaining_after, holdings.update(buyer, p.holdings_after))
        }),
{
    let h = holdings[buyer];
    let n = spec_purchase_size(remaining as int, elo, requested);
    lemma_holding_within_total(holdings, buyer);
    lemma_cost_dominates(remaining as int, n);
    assert(fits_i64(h + n));
    assert(fits_i64(remaining - n));
    let p = spec_plan_purchase(remaining, holdings[buyer], elo, requested)->Ok_0;
    lemma_total_held_update(holdings, buyer, p.holdings_after);
}

/// A sale by any user, while no one holds a negative number of coins, keeps
/// the coins on the market and the coins held adding up to the whole supply.
pub proof fn law_sale_keeps_supply(
    remaining: i64,
    holdings: Seq<i64>,
    seller: int,
    requested: Option<i64>,
)
    requires
        0 <= seller < holdings.len(),
        holdings_nonnegative(holdings),
        supply_balanced(remaining, holdings),
        spec_plan_sale(remaining, holdings[seller], requested) is Ok,
    ensures
        ({
            let s = spec_plan_sale(remaining, holdings[seller], requested)->Ok_0;
            supply_balanced(s.remaining_after, holdings.update(seller, s.holdings_after))
        }),
{
    lemma_holding_within_total(holdings, seller);
    let s = spec_plan_sale(remaining, holdings[seller], requested)->Ok_0;
    lemma_total_held_update(holdings, seller, s.holdings_after);
}

/// Two purchases in a row, by a buyer whose balance covers both, while the
/// market holds no more than the whole supply, end where one purchase of all
/// their coins ends: same coins, same total cost, same holdings, same market.
/// Each of the three requests is one that `plan_purchase` can decide.
pub proof fn law_purchases_combine(
    remaining: i64,
    holdings: i64,
    elo: EloReading,
    first: i64,
    second: i64,
)
    requires
        remaining <= TOTAL_COINS,
        first > 0,
        second > 0,
        fits_i64(holdings + first + second),
        spec_purchase_cost(remaining as int, first as int) + spec_purchase_cost(
            remaining - first,
            second as int,
        ) <= elo.whole,
    ensures
        fits_i64(first + second),
        purchase_representable(remaining, holdings, elo, Some(first)),
        spec_plan_purchase(remaining, holdings, elo, Some(first)) is Ok,
        ({
            let a = spec_plan_purchase(remaining, holdings, elo, Some(first))->Ok_0;
            let after = EloReading { whole: (elo.whole - a.cost) as i64, fractional: elo.fractional };
            &&& purchase_representable(a.remaining_after, a.holdings_after, after, Some(second))
            &&& spec_plan_purchase(a.remaining_after, a.holdings_after, after, Some(second)) is Ok
            &&& {
                let b = spec_plan_purchase(a.remaining_after, a.holdings_after, after, Some(second))->Ok_0;
                &&& purchase_representable(remaining, holdings, elo, Some((first + second) as i64))
                &&& spec_plan_purchase(remaining, holdings, elo, Some((first + second) as i64))
                    == Ok::<Purchase, PurchaseRefusal>(
                    Purchase {
                        coins: (first + second) as i64,
                        cost: (a.cost + b.cost) as i64,
                        holdings_after: b.holdings_after,
                        remaining_after: b.remaining_after,
                    },
                )
            }
        }),
{
    let r = remaining as int;
    let c1 = spec_purchase_cost(r, first as int);
    let c2 = spec_purchase_cost(r - first, second as int);
    lemma_cost_dominates(r, first as int);
    lemma_cost_dominates(r - first, second as int);
    law_purchase_splits(r, first as int, second as int);
    lemma_cost_dominates(r, first + second);
    assert(fits_i64(first + second));
    assert(fits_i64(remaining - first));
    assert(fits_i64(remaining - first - second));
    assert(fits_i64(holdings + first));
}

/// A purchase that names no amount, from a balance of at least zero, buys
/// the largest number of coins, at most `MAX_AUTO_PURCHASE`, such that every
/// purchase of `0..=n` coins costs at most the balance rounded toward zero;
/// it is refused as not positive exactly when even one coin costs more.
pub proof fn law_unnamed_purchase_is_largest_affordable(
    remaining: i64,
    holdings: i64,
    elo: EloReading,
)
    requires
        elo.truncated() >= 0,
    ensures
        ({
            let r = spec_plan_purchase(remaining, holdings, elo, None);
            let budget = elo.truncated();
            &&& r is Ok ==> ({
                let n = r->Ok_0.coins;
                &&& 0 < n <= MAX_AUTO_PURCHASE
                &&& affordable_through(remaining as int, budget, n as int)
                &&& n < MAX_AUTO_PURCHASE ==> spec_purchase_cost(remaining as int, n + 1) > budget
            })
            &&& r == Err::<Purchase, PurchaseRefusal>(PurchaseRefusal::NotPositive) <==> spec_purchase_cost(
                remaining as int,
                1,
            ) > budget
        }),
{
    let budget = elo.truncated();
    assert(spec_purchase_cost(remaining as int, 0) == 0) by {
        assert(spec_price(remaining as int) * 0 == 0) by (nonlinear_arith);
        assert(PRICE_STEP * 0 * (0 - 1) == 0) by (nonlinear_arith);
    }
    assert(affordable_through(remaining as int, budget, 0));
    lemma_auto_purchase_from_is_largest(remaining as int, budget, 0);
}

} // verus!
