use nosedive::balance::EloReading;
use nosedive::coinflip::{check_wager, coinflip, settle_flip, win_gain, FlipOutcome, WagerRefusal};
use nosedive::gift::{plan_gift, GiftRefusal, Transfer};

fn whole(balance: i64) -> EloReading {
    EloReading { whole: balance, fractional: false }
}

fn fractional(whole: i64) -> EloReading {
    EloReading { whole, fractional: true }
}

#[test]
fn default_wager_is_half_balance() {
    assert_eq!(check_wager(whole(100), None), Ok(50));
    assert_eq!(check_wager(whole(101), None), Ok(50));
    assert_eq!(check_wager(whole(1), None), Err(WagerRefusal::NotPositive { wager: 0 }));
    assert_eq!(check_wager(whole(-3), None), Err(WagerRefusal::NotPositive { wager: -1 }));
}

#[test]
fn wager_refusals() {
    assert_eq!(check_wager(whole(10), Some(11)), Err(WagerRefusal::ExceedsBalance));
    assert_eq!(check_wager(whole(10), Some(-5)), Err(WagerRefusal::NotPositive { wager: -5 }));
    assert_eq!(check_wager(whole(10), Some(10)), Ok(10));
}

#[test]
fn win_pays_four_fifths_rounded_up() {
    assert_eq!(win_gain(1), 1);
    assert_eq!(win_gain(3), 3);
    assert_eq!(win_gain(5), 4);
    assert_eq!(win_gain(7), 6);
    assert_eq!(win_gain(10), 8);
    assert_eq!(win_gain(1000), 800);
    for w in 1i64..500 {
        assert_eq!(win_gain(w), (w as f64 * 0.8).ceil() as i64);
    }
}

#[test]
fn settling_flips() {
    assert_eq!(
        settle_flip(whole(100), Some(10), true),
        Ok(FlipOutcome { won: true, amount: 8, balance_after: 108 })
    );
    assert_eq!(
        settle_flip(whole(100), Some(10), false),
        Ok(FlipOutcome { won: false, amount: 10, balance_after: 90 })
    );
    assert_eq!(
        settle_flip(whole(i64::MAX), None, true),
        Ok(FlipOutcome {
            won: true,
            amount: win_gain(i64::MAX / 2),
            balance_after: i64::MAX as i128 + win_gain(i64::MAX / 2) as i128,
        })
    );
    assert_eq!(settle_flip(whole(0), None, true), Err(WagerRefusal::NotPositive { wager: 0 }));
}

#[test]
fn losing_the_whole_balance_leaves_zero() {
    assert_eq!(
        settle_flip(whole(40), Some(40), false),
        Ok(FlipOutcome { won: false, amount: 40, balance_after: 0 })
    );
}

#[test]
fn coinflip_settles_on_the_coin() {
    let mut wins = 0;
    let mut losses = 0;
    for _ in 0..200 {
        let r = coinflip(whole(100), Some(20)).unwrap();
        assert_eq!(Ok(r), settle_flip(whole(100), Some(20), r.won));
        if r.won {
            wins += 1;
        } else {
            losses += 1;
        }
    }
    assert!(wins > 0 && losses > 0);
    assert_eq!(coinflip(whole(100), Some(101)), Err(WagerRefusal::ExceedsBalance));
}

#[test]
fn gift_of_a_quarter_by_default() {
    assert_eq!(
        plan_gift(1, whole(100), 2, whole(50), false, None),
        Ok(Transfer { amount: 25, giver_after: 75, recipient_after: 75 })
    );
}

#[test]
fn gift_conserves_elo() {
    let t = plan_gift(7, whole(1234), 9, whole(-20), false, Some(234)).unwrap();
    assert_eq!(t.giver_after + t.recipient_after, 1234 - 20);
    assert_eq!(t.giver_after, 1000);
    assert_eq!(t.recipient_after, 214);
}

#[test]
fn gift_refusals_in_order() {
    assert_eq!(plan_gift(1, whole(-9), 2, whole(0), false, None), Err(GiftRefusal::NotPositive { amount: -2 }));
    assert_eq!(plan_gift(1, whole(3), 2, whole(0), false, None), Err(GiftRefusal::NotPositive { amount: 0 }));
    assert_eq!(plan_gift(1, whole(10), 2, whole(0), true, Some(11)), Err(GiftRefusal::ExceedsBalance));
    assert_eq!(plan_gift(1, whole(10), 1, whole(0), true, Some(5)), Err(GiftRefusal::ToBot));
    assert_eq!(plan_gift(1, whole(10), 1, whole(0), false, Some(5)), Err(GiftRefusal::ToSelf));
}

#[test]
fn balances_with_fractions() {
    assert_eq!(check_wager(fractional(10), Some(11)), Err(WagerRefusal::ExceedsBalance));
    assert_eq!(check_wager(fractional(10), Some(10)), Ok(10));
    assert_eq!(check_wager(fractional(-4), None), Err(WagerRefusal::NotPositive { wager: -1 }));
    assert_eq!(
        settle_flip(fractional(10), Some(10), false),
        Ok(FlipOutcome { won: false, amount: 10, balance_after: 0 })
    );
    assert_eq!(
        plan_gift(1, fractional(7), 2, fractional(0), false, None),
        Ok(Transfer { amount: 1, giver_after: 6, recipient_after: 1 })
    );
    assert_eq!(plan_gift(1, fractional(7), 2, fractional(0), false, Some(8)), Err(GiftRefusal::ExceedsBalance));
}
