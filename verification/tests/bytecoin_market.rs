use nosedive::balance::EloReading;
use nosedive::bytecoin::{
    auto_purchase_size, checked_price, checked_purchase_cost, checked_sale_gain, holdings_worth,
    next_price, plan_purchase, plan_sale, purchase_is_computable, sale_is_computable, Purchase,
    PurchaseRefusal, Sale, SaleRefusal,
};

fn elo(whole: i64, fractional: bool) -> EloReading {
    EloReading { whole, fractional }
}

#[test]
fn price_rises_by_step_per_coin_sold() {
    assert_eq!(next_price(2500), 100);
    assert_eq!(next_price(2499), 125);
    assert_eq!(next_price(0), 62600);
    assert_eq!(checked_price(2500), Some(100));
    assert_eq!(checked_price(i64::MIN), None);
}

#[test]
fn purchase_cost_is_sum_of_prices() {
    assert_eq!(checked_purchase_cost(2500, 0), Some(0));
    assert_eq!(checked_purchase_cost(2500, 1), Some(100));
    assert_eq!(checked_purchase_cost(2500, 2), Some(225));
    assert_eq!(checked_purchase_cost(2500, 3), Some(375));
    assert_eq!(checked_purchase_cost(2500, 2000), Some(50_175_000));
    assert_eq!(checked_purchase_cost(2500, i64::MAX), None);
    assert_eq!(checked_purchase_cost(2500, -2), Some(-125));
    assert_eq!(checked_purchase_cost(2500, i64::MIN), None);
}

#[test]
fn purchase_splits_into_smaller_purchases() {
    let whole = checked_purchase_cost(2400, 7).unwrap();
    let first = checked_purchase_cost(2400, 3).unwrap();
    let second = checked_purchase_cost(2397, 4).unwrap();
    assert_eq!(whole, first + second);
}

#[test]
fn sale_gain_formula() {
    assert_eq!(checked_sale_gain(2497, 3), Some(375));
    assert_eq!(checked_sale_gain(2495, 5), Some(750));
    assert_eq!(checked_sale_gain(2500, 1), Some(75));
    assert_eq!(checked_sale_gain(2500, 1), Some(next_price(2501)));
    assert_eq!(checked_sale_gain(i64::MAX, 1), None);
}

#[test]
fn sale_refunds_purchase_and_back() {
    for remaining in [2500i64, 1000, 0, -300] {
        for n in [1i64, 2, 17, 400] {
            assert_eq!(
                checked_sale_gain(remaining - n, n),
                checked_purchase_cost(remaining, n)
            );
            assert_eq!(
                checked_purchase_cost(remaining + n, n),
                checked_sale_gain(remaining, n)
            );
        }
    }
}

#[test]
fn auto_purchase_takes_largest_affordable() {
    assert_eq!(auto_purchase_size(2500, 375), 3);
    assert_eq!(auto_purchase_size(2500, 374), 2);
    assert_eq!(auto_purchase_size(2500, 99), 0);
    assert_eq!(auto_purchase_size(2500, 0), 0);
    assert_eq!(auto_purchase_size(2500, 1_000_000_000_000), 2000);
}

#[test]
fn purchase_named_amount() {
    assert_eq!(
        plan_purchase(2500, 4, elo(400, true), Some(3)),
        Ok(Purchase { coins: 3, cost: 375, holdings_after: 7, remaining_after: 2497 })
    );
}

#[test]
fn purchase_without_amount_uses_truncated_balance() {
    assert_eq!(
        plan_purchase(2500, 0, elo(375, true), None),
        Ok(Purchase { coins: 3, cost: 375, holdings_after: 3, remaining_after: 2497 })
    );
    // A balance in (-1, 0) truncates to zero: nothing is affordable.
    assert_eq!(
        plan_purchase(2500, 0, elo(-1, true), None),
        Err(PurchaseRefusal::NotPositive)
    );
}

#[test]
fn purchase_refusals() {
    assert_eq!(plan_purchase(2500, 0, elo(1000, false), Some(0)), Err(PurchaseRefusal::NotPositive));
    assert_eq!(plan_purchase(2500, 0, elo(1000, false), Some(-4)), Err(PurchaseRefusal::NotPositive));
    assert_eq!(
        plan_purchase(2500, 0, elo(150, true), Some(2)),
        Err(PurchaseRefusal::Unaffordable { shortfall: Some(75) })
    );
}

#[test]
fn purchase_computability() {
    assert!(purchase_is_computable(2500, 0, elo(100, false), None));
    assert!(!purchase_is_computable(2500, 0, elo(-2, false), None));
    assert!(!purchase_is_computable(2500, 0, elo(-1, false), None));
    assert!(purchase_is_computable(2500, 0, elo(-1, true), None));
    assert!(purchase_is_computable(i64::MIN, 0, elo(100, false), Some(1)));
    assert!(!purchase_is_computable(2500, i64::MAX, elo(1000, false), Some(1)));
    assert!(purchase_is_computable(2500, 0, elo(1000, false), Some(-7)));
}

#[test]
fn sale_of_all_holdings_by_default() {
    assert_eq!(
        plan_sale(2495, 5, None),
        Ok(Sale { coins: 5, gain: 750, holdings_after: 0, remaining_after: 2500 })
    );
}

#[test]
fn sale_refusals() {
    assert_eq!(plan_sale(2495, 2, Some(3)), Err(SaleRefusal::ExceedsHoldings { held: 2 }));
    assert_eq!(plan_sale(2495, 2, Some(0)), Err(SaleRefusal::NotPositive));
    assert_eq!(plan_sale(2495, 0, None), Err(SaleRefusal::NotPositive));
    assert_eq!(plan_sale(2495, -3, None), Err(SaleRefusal::NotPositive));
}

#[test]
fn sale_computability() {
    assert!(sale_is_computable(2495, 5, None));
    assert!(!sale_is_computable(i64::MAX, 5, None));
    assert!(sale_is_computable(i64::MAX, 5, Some(6)));
}

#[test]
fn selling_back_a_purchase_restores_everything() {
    let p = plan_purchase(1800, 12, elo(1_000_000, false), Some(40)).unwrap();
    let s = plan_sale(p.remaining_after, p.holdings_after, Some(p.coins)).unwrap();
    assert_eq!(p.cost, 723_500);
    assert_eq!(s.gain, p.cost);
    assert_eq!(s.holdings_after, 12);
    assert_eq!(s.remaining_after, 1800);
}

#[test]
fn trades_conserve_coins() {
    let p = plan_purchase(2000, 30, elo(10_000_000, false), None).unwrap();
    assert_eq!(p.holdings_after + p.remaining_after, 2030);
    let s = plan_sale(2000, 30, Some(11)).unwrap();
    assert_eq!(s.holdings_after + s.remaining_after, 2030);
}

#[test]
fn truncation_of_readings() {
    assert_eq!(elo(-3, true).truncate(), -2);
    assert_eq!(elo(-3, false).truncate(), -3);
    assert_eq!(elo(3, true).truncate(), 3);
}

#[test]
fn supply_stays_balanced_across_users() {
    let mut holdings = [0i64, 0, 0];
    let mut remaining = 2500i64;
    let p = plan_purchase(remaining, holdings[0], elo(1_000_000, false), Some(10)).unwrap();
    holdings[0] = p.holdings_after;
    remaining = p.remaining_after;
    let p = plan_purchase(remaining, holdings[1], elo(1_000_000, false), Some(5)).unwrap();
    holdings[1] = p.holdings_after;
    remaining = p.remaining_after;
    let s = plan_sale(remaining, holdings[0], Some(4)).unwrap();
    holdings[0] = s.holdings_after;
    remaining = s.remaining_after;
    assert_eq!(holdings, [6, 5, 0]);
    assert_eq!(remaining + holdings.iter().sum::<i64>(), 2500);
}

#[test]
fn huge_purchases_are_refused_as_unaffordable() {
    assert_eq!(
        plan_purchase(2500, 0, elo(1000, false), Some(1_000_000_000)),
        Err(PurchaseRefusal::Unaffordable { shortfall: None })
    );
    assert_eq!(
        plan_purchase(2500, 0, elo(1000, false), Some(i64::MAX)),
        Err(PurchaseRefusal::Unaffordable { shortfall: None })
    );
    assert_eq!(
        plan_purchase(2500, 0, elo(1000, true), Some(100_000_000)),
        Err(PurchaseRefusal::Unaffordable { shortfall: Some(125_000_008_749_999_000) })
    );
    assert_eq!(
        plan_purchase(i64::MIN, 0, elo(100, false), Some(1)),
        Err(PurchaseRefusal::Unaffordable { shortfall: None })
    );
    assert!(purchase_is_computable(2500, 0, elo(1000, false), Some(1_000_000_000)));
}

#[test]
fn worth_of_holdings_is_their_sale_value() {
    assert_eq!(holdings_worth(2495, 5), Some(750));
    assert_eq!(holdings_worth(2500, 0), Some(0));
    assert_eq!(holdings_worth(2500, -3), Some(0));
    assert_eq!(holdings_worth(i64::MAX, 5), None);
}

#[test]
fn two_purchases_equal_one_combined() {
    let start = elo(100_000, true);
    let a = plan_purchase(2300, 7, start, Some(3)).unwrap();
    let after = elo(start.whole - a.cost, start.fractional);
    let b = plan_purchase(a.remaining_after, a.holdings_after, after, Some(9)).unwrap();
    let both = plan_purchase(2300, 7, start, Some(12)).unwrap();
    assert_eq!(both.cost, a.cost + b.cost);
    assert_eq!(both.holdings_after, b.holdings_after);
    assert_eq!(both.remaining_after, b.remaining_after);
    assert_eq!(both.coins, 12);
    assert_eq!(both.cost, 62_850);
}
