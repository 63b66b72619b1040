use manifold_domination::trade::{
    decide_trade, edge_between, eligible, liquidity, price_of, Side, TradeDecision,
};
use manifold_domination::units::{Amount, Probability, LIMIT_CEILING, LIMIT_FLOOR};

fn p(millionths: u32) -> Probability {
    Probability { millionths }
}

#[test]
fn forecast_above_the_market_buys_yes_at_the_forecast() {
    let d = decide_trade(p(550_000), p(400_000), p(100_000));
    assert_eq!(d, TradeDecision::Bet { side: Side::Yes, limit: p(550_000) });
    match d {
        TradeDecision::Bet { side, limit } => {
            assert_eq!(side.label(), "YES");
            assert_eq!(limit.millionths as f64 / 1_000_000.0, 0.55);
        }
        TradeDecision::Pass => panic!("expected an order"),
    }
}

#[test]
fn forecast_close_to_the_market_places_no_order() {
    assert_eq!(decide_trade(p(470_000), p(400_000), p(100_000)), TradeDecision::Pass);
    assert_eq!(decide_trade(p(400_000), p(400_000), p(100_000)), TradeDecision::Pass);
    assert_eq!(decide_trade(p(499_999), p(400_000), p(100_000)), TradeDecision::Pass);
    assert_eq!(decide_trade(p(300_001), p(400_000), p(100_000)), TradeDecision::Pass);
}

#[test]
fn edge_equal_to_the_minimum_is_traded() {
    assert_eq!(
        decide_trade(p(500_000), p(400_000), p(100_000)),
        TradeDecision::Bet { side: Side::Yes, limit: p(500_000) }
    );
    assert_eq!(
        decide_trade(p(300_000), p(400_000), p(100_000)),
        TradeDecision::Bet { side: Side::No, limit: p(300_000) }
    );
}

#[test]
fn forecast_below_the_market_buys_no() {
    let d = decide_trade(p(200_000), p(500_000), p(100_000));
    assert_eq!(d, TradeDecision::Bet { side: Side::No, limit: p(200_000) });
    assert_eq!(Side::No.label(), "NO");
}

#[test]
fn limit_is_held_at_ninety_nine_percent() {
    assert_eq!(
        decide_trade(p(995_000), p(400_000), p(100_000)),
        TradeDecision::Bet { side: Side::Yes, limit: p(990_000) }
    );
    assert_eq!(p(995_000).clamp_to_limits(), p(990_000));
    assert_eq!(p(1_000_000).clamp_to_limits(), p(990_000));
    assert_eq!(p(990_001).clamp_to_limits(), p(990_000));
    assert_eq!(p(990_000).clamp_to_limits(), p(990_000));
    assert_eq!(LIMIT_CEILING, 990_000);
}

#[test]
fn limit_is_held_at_one_percent() {
    assert_eq!(
        decide_trade(p(2_000), p(400_000), p(100_000)),
        TradeDecision::Bet { side: Side::No, limit: p(10_000) }
    );
    assert_eq!(p(2_000).clamp_to_limits(), p(10_000));
    assert_eq!(p(0).clamp_to_limits(), p(10_000));
    assert_eq!(p(9_999).clamp_to_limits(), p(10_000));
    assert_eq!(p(10_000).clamp_to_limits(), p(10_000));
    assert_eq!(LIMIT_FLOOR, 10_000);
}

#[test]
fn limit_in_between_is_the_forecast() {
    assert_eq!(p(10_001).clamp_to_limits(), p(10_001));
    assert_eq!(p(654_321).clamp_to_limits(), p(654_321));
}

#[test]
fn market_without_a_price_counts_as_even() {
    assert_eq!(price_of(None), p(500_000));
    assert_eq!(price_of(Some(p(123_456))), p(123_456));
    assert_eq!(Probability::even(), p(500_000));
    assert_eq!(decide_trade(p(550_000), price_of(None), p(100_000)), TradeDecision::Pass);
    assert_eq!(
        decide_trade(p(650_000), price_of(None), p(100_000)),
        TradeDecision::Bet { side: Side::Yes, limit: p(650_000) }
    );
}

#[test]
fn edge_has_no_sign() {
    assert_eq!(edge_between(p(550_000), p(400_000)), 150_000);
    assert_eq!(edge_between(p(400_000), p(550_000)), 150_000);
    assert_eq!(edge_between(p(7), p(7)), 0);
    assert_eq!(edge_between(p(0), p(u32::MAX)), u32::MAX);
}

#[test]
fn zero_minimum_trades_even_without_an_edge() {
    assert_eq!(
        decide_trade(p(400_000), p(400_000), p(0)),
        TradeDecision::Bet { side: Side::No, limit: p(400_000) }
    );
}

#[test]
fn probabilities_above_one_are_refused() {
    assert_eq!(Probability::from_millionths(1_000_000), Some(p(1_000_000)));
    assert_eq!(Probability::from_millionths(1_000_001), None);
    assert_eq!(Probability::from_millionths(0), Some(p(0)));
}

#[test]
fn only_binary_markets_with_enough_liquidity_are_eligible() {
    let min = Amount { thousandths: 100_000 };
    assert!(eligible("BINARY", Some(Amount { thousandths: 150_000 }), min));
    assert!(eligible("BINARY", Some(Amount { thousandths: 100_000 }), min));
    assert!(!eligible("BINARY", Some(Amount { thousandths: 99_999 }), min));
    assert!(!eligible("BINARY", Some(Amount { thousandths: 50_000 }), min));
    assert!(!eligible("BINARY", None, min));
    assert!(!eligible("MULTIPLE_CHOICE", Some(Amount { thousandths: 150_000 }), min));
    assert!(!eligible("binary", Some(Amount { thousandths: 150_000 }), min));
    assert!(eligible("BINARY", None, Amount { thousandths: 0 }));
    assert_eq!(liquidity(None), Amount { thousandths: 0 });
    assert_eq!(liquidity(Some(Amount { thousandths: 7 })), Amount { thousandths: 7 });
}
