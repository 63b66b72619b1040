//! The rules of trading: which markets are worth a look, and what order, if
//! any, a forecast calls for.

use vstd::prelude::*;
use crate::text::same_text;
use crate::units::{clamped, Amount, Probability, LIMIT_CEILING, LIMIT_FLOOR};

verus! {

/// The outcome that an order buys.
#[derive(Clone, Copy, Debug, PartialEq, Eq, Structural)]
pub enum Side {
    Yes,
    No,
}

/// What a forecast calls for.
#[derive(Clone, Copy, Debug, PartialEq, Eq, Structural)]
pub enum TradeDecision {
    /// No order: the forecast is too close to the market's price.
    Pass,
    /// An order for `side`, at a price no worse than `limit`.
    Bet { side: Side, limit: Probability },
}

/// The price of a market: the probability it quotes, or one half where it
/// quotes none.
pub open spec fn market_price(quoted: Option<Probability>) -> Probability {
    match quoted {
        Some(p) => p,
        None => Probability { millionths: 500_000 },
    }
}

/// The edge of a forecast over the market, in millionths: positive where the
/// forecast is above the price.
pub open spec fn edge(predicted: Probability, market: Probability) -> int {
    predicted.millionths - market.millionths
}

/// The size of the edge, whatever its direction.
pub open spec fn edge_size(predicted: Probability, market: Probability) -> nat {
    if edge(predicted, market) < 0 {
        (-edge(predicted, market)) as nat
    } else {
        edge(predicted, market) as nat
    }
}

/// The limit price of an order on a forecast: the forecast, held between one
/// and ninety-nine percent.
pub open spec fn limit_for(predicted: Probability) -> Probability {
    Probability {
        millionths: clamped(predicted.millionths as int, LIMIT_FLOOR as int, LIMIT_CEILING as int) as u32,
    }
}

/// The edge rule. An edge smaller than `min_edge` calls for no order. Any other
/// calls for one: YES where the forecast is above the price, NO where it is not,
/// limited at the forecast held between one and ninety-nine percent.
pub open spec fn trade_for(
    predicted: Probability,
    market: Probability,
    min_edge: Probability,
) -> TradeDecision {
    if edge_size(predicted, market) < min_edge.millionths {
        TradeDecision::Pass
    } else {
        TradeDecision::Bet {
            side: if edge(predicted, market) > 0 {
                Side::Yes
            } else {
                Side::No
            },
            limit: limit_for(predicted),
        }
    }
}

/// The price of a market that quotes `quoted`.
pub fn price_of(quoted: Option<Probability>) -> (p: Probability)
    ensures
        p == market_price(quoted),
{
    match quoted {
        Some(p) => p,
        None => Probability::even(),
    }
}

/// The size of the edge of `predicted` over `market`.
pub fn edge_between(predicted: Probability, market: Probability) -> (r: u32)
    ensures
        r == edge_size(predicted, market),
{
    if predicted.millionths >= market.millionths {
        predicted.millionths - market.millionths
    } else {
        market.millionths - predicted.millionths
    }
}

/// Applies the edge rule.
pub fn decide_trade(predicted: Probability, market: Probability, min_edge: Probability) -> (d:
    TradeDecision)
    ensures
        d == trade_for(predicted, market, min_edge),
        d matches TradeDecision::Bet { side, limit } ==> LIMIT_FLOOR <= limit.millionths
            <= LIMIT_CEILING,
{
    if edge_between(predicted, market) < min_edge.millionths {
        TradeDecision::Pass
    } else {
        let side = if predicted.millionths > market.millionths {
            Side::Yes
        } else {
            Side::No
        };
        TradeDecision::Bet { side, limit: predicted.clamp_to_limits() }
    }
}

impl Side {
    /// The name of the outcome on the platform.
    pub open spec fn name(self) -> Seq<char> {
        match self {
            Side::Yes => "YES"@,
            Side::No => "NO"@,
        }
    }

    /// The name of the outcome on the platform.
    pub fn label(self) -> (r: &'static str)
        ensures
            r@ == self.name(),
    {
        match self {
            Side::Yes => "YES",
            Side::No => "NO",
        }
    }
}

/// Whether an outcome type is the binary one.
pub open spec fn is_binary(outcome_type: Seq<char>) -> bool {
    outcome_type == "BINARY"@
}

/// The liquidity of a market: what it reports, or nothing where it reports
/// none.
pub open spec fn liquidity_of(reported: Option<Amount>) -> Amount {
    match reported {
        Some(a) => a,
        None => Amount { thousandths: 0 },
    }
}

/// Whether a market is worth analysing: it is binary and its liquidity reaches
/// the minimum.
pub open spec fn is_eligible(outcome_type: Seq<char>, reported: Option<Amount>, minimum: Amount) -> bool {
    is_binary(outcome_type) && liquidity_of(reported).thousandths >= minimum.thousandths
}

/// Whether `outcome_type` is the binary one.
pub fn binary(outcome_type: &str) -> (r: bool)
    ensures
        r == is_binary(outcome_type@),
{
    same_text(outcome_type, "BINARY")
}

/// The liquidity of a market that reports `reported`.
pub fn liquidity(reported: Option<Amount>) -> (a: Amount)
    ensures
        a == liquidity_of(reported),
{
    match reported {
        Some(a) => a,
        None => Amount { thousandths: 0 },
    }
}

/// Whether a market is worth analysing.
pub fn eligible(outcome_type: &str, reported: Option<Amount>, minimum: Amount) -> (r: bool)
    ensures
        r == is_eligible(outcome_type@, reported, minimum),
{
    binary(outcome_type) && liquidity(reported).at_least(minimum)
}

/// No forecast is traded on an edge below the minimum, and every forecast with
/// at least that edge is.
pub proof fn law_edge_decides(predicted: Probability, market: Probability, min_edge: Probability)
    ensures
        trade_for(predicted, market, min_edge) is Pass <==> edge_size(predicted, market)
            < min_edge.millionths,
{
}

/// An order's limit is the forecast unless the forecast lies below one percent
/// or above ninety-nine, and is then the nearer of the two; its side follows the
/// sign of the edge.
pub proof fn law_order_shape(predicted: Probability, market: Probability, min_edge: Probability)
    requires
        trade_for(predicted, market, min_edge) is Bet,
    ensures
        ({
            let d = trade_for(predicted, market, min_edge);
            &&& LIMIT_FLOOR <= d->limit.millionths <= LIMIT_CEILING
            &&& predicted.millionths < LIMIT_FLOOR ==> d->limit.millionths == LIMIT_FLOOR
            &&& predicted.millionths > LIMIT_CEILING ==> d->limit.millionths == LIMIT_CEILING
            &&& LIMIT_FLOOR <= predicted.millionths <= LIMIT_CEILING ==> d->limit == predicted
            &&& d->side == Side::Yes <==> predicted.millionths > market.millionths
        }),
{
}

} // verus!
