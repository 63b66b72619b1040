//! The wording of the log.
//!
//! Amounts are written in whole units, probabilities in whole percent and edges
//! in tenths of a percent, each rounded to the nearest with halves up.

use vstd::prelude::*;
use vstd::string::StringExecFns;
use crate::text::{decimal_text, head, head_of, push_decimal};
use crate::trade::Side;
use crate::units::{Amount, Probability};

verus! {

/// An amount as the log writes it.
pub open spec fn amount_text(a: Amount) -> Seq<char> {
    "M$"@ + decimal_text(a.units_rounded())
}

/// A probability as the log writes it.
pub open spec fn percent_text(p: Probability) -> Seq<char> {
    decimal_text(p.percent_rounded()) + "%"@
}

/// An edge of `size` millionths in tenths of a percent, halves rounded up.
pub open spec fn edge_tenths(size: nat) -> nat {
    (size + 500) / 1_000
}

/// An edge of `size` millionths as the log writes it.
pub open spec fn edge_text(size: nat) -> Seq<char> {
    decimal_text(edge_tenths(size) / 10) + "."@ + decimal_text(edge_tenths(size) % 10) + "%"@
}

/// Appends an amount to `out`.
pub fn push_amount(out: &mut String, a: Amount)
    ensures
        final(out)@ == old(out)@ + amount_text(a),
{
    let whole = a.thousandths / 1_000;
    let units = if a.thousandths % 1_000 >= 500 {
        whole + 1
    } else {
        whole
    };
    assert(units == a.units_rounded());
    out.append("M$");
    push_decimal(out, units);
    assert(out@ == old(out)@ + amount_text(a));
}

/// Appends a probability to `out`.
pub fn push_percent(out: &mut String, p: Probability)
    ensures
        final(out)@ == old(out)@ + percent_text(p),
{
    let whole = p.millionths / 10_000;
    let percent = if p.millionths % 10_000 >= 5_000 {
        whole + 1
    } else {
        whole
    };
    assert(percent == p.percent_rounded());
    push_decimal(out, percent as u64);
    out.append("%");
    assert(out@ == old(out)@ + percent_text(p));
}

/// Appends an edge of `size` millionths to `out`.
pub fn push_edge(out: &mut String, size: u32)
    ensures
        final(out)@ == old(out)@ + edge_text(size as nat),
{
    let tenths: u64 = (size as u64 + 500) / 1_000;
    push_decimal(out, tenths / 10);
    out.append(".");
    push_decimal(out, tenths % 10);
    out.append("%");
    assert(out@ == old(out)@ + edge_text(size as nat));
}

/// What is written in place of a reasoning that says nothing.
pub open spec fn stated_reasoning(reasoning: Seq<char>) -> Seq<char> {
    if reasoning.len() == 0 {
        "No reasoning provided"@
    } else {
        reasoning
    }
}

/// Appends a reasoning to `out`.
pub fn push_reasoning(out: &mut String, reasoning: &str)
    ensures
        final(out)@ == old(out)@ + stated_reasoning(reasoning@),
{
    if reasoning.unicode_len() == 0 {
        out.append("No reasoning provided");
    } else {
        out.append(reasoning);
    }
}

/// The consumer is told that the feed is connected.
pub open spec fn connected_text() -> Seq<char> {
    "WebSocket connected"@
}

/// The consumer is told that the feed is lost.
pub open spec fn disconnected_text() -> Seq<char> {
    "WebSocket disconnected, reconnecting..."@
}

/// The bot has started, with these settings.
pub open spec fn started_text(
    bet_amount: Amount,
    reversion_amount: Amount,
    min_edge: Probability,
    min_liquidity: Amount,
) -> Seq<char> {
    "Bot started ("@ + amount_text(bet_amount) + "/new, "@ + amount_text(reversion_amount)
        + "/reversion, "@ + percent_text(min_edge) + " min edge, "@ + amount_text(min_liquidity)
        + " min liquidity)"@
}

/// Writes `started_text`.
pub fn started_message(
    bet_amount: Amount,
    reversion_amount: Amount,
    min_edge: Probability,
    min_liquidity: Amount,
) -> (s: String)
    ensures
        s@ == started_text(bet_amount, reversion_amount, min_edge, min_liquidity),
{
    let mut s = String::from_str("Bot started (");
    push_amount(&mut s, bet_amount);
    s.append("/new, ");
    push_amount(&mut s, reversion_amount);
    s.append("/reversion, ");
    push_percent(&mut s, min_edge);
    s.append(" min edge, ");
    push_amount(&mut s, min_liquidity);
    s.append(" min liquidity)");
    s
}

/// A created market is passed over for want of liquidity.
pub open spec fn low_liquidity_text(liquidity: Amount, question: Seq<char>) -> Seq<char> {
    "Skipping low-liquidity market ("@ + amount_text(liquidity) + "): \""@ + question + "\""@
}

/// Writes `low_liquidity_text`.
pub fn low_liquidity_message(liquidity: Amount, question: &str) -> (s: String)
    ensures
        s@ == low_liquidity_text(liquidity, question@),
{
    let mut s = String::from_str("Skipping low-liquidity market (");
    push_amount(&mut s, liquidity);
    s.append("): \"");
    s.append(question);
    s.append("\"");
    s
}

/// A created market is taken up.
pub open spec fn new_market_text(liquidity: Amount, question: Seq<char>, username: Seq<char>) -> Seq<
    char,
> {
    "New binary market ("@ + amount_text(liquidity) + " liq): \""@ + question + "\" by "@
        + username
}

/// Writes `new_market_text`.
pub fn new_market_message(liquidity: Amount, question: &str, username: &str) -> (s: String)
    ensures
        s@ == new_market_text(liquidity, question@, username@),
{
    let mut s = String::from_str("New binary market (");
    push_amount(&mut s, liquidity);
    s.append(" liq): \"");
    s.append(question);
    s.append("\" by ");
    s.append(username);
    s
}

/// A created market is passed over because it is not binary.
pub open spec fn non_binary_text(question: Seq<char>, outcome_type: Seq<char>) -> Seq<char> {
    "Skipping non-binary market: \""@ + question + "\" ["@ + outcome_type + "]"@
}

/// Writes `non_binary_text`.
pub fn non_binary_message(question: &str, outcome_type: &str) -> (s: String)
    ensures
        s@ == non_binary_text(question@, outcome_type@),
{
    let mut s = String::from_str("Skipping non-binary market: \"");
    s.append(question);
    s.append("\" [");
    s.append(outcome_type);
    s.append("]");
    s
}

/// The oracle is being asked.
pub open spec fn researching_text(question: Seq<char>) -> Seq<char> {
    "Researching \""@ + question + "\"..."@
}

/// Writes `researching_text`.
pub fn researching_message(question: &str) -> (s: String)
    ensures
        s@ == researching_text(question@),
{
    let mut s = String::from_str("Researching \"");
    s.append(question);
    s.append("\"...");
    s
}

/// A market found through a trade is being analysed.
pub open spec fn analyzing_text(liquidity: Amount, question: Seq<char>) -> Seq<char> {
    "Analyzing market (bet-triggered, "@ + amount_text(liquidity) + " liq): \""@ + question
        + "\""@
}

/// Writes `analyzing_text`.
pub fn analyzing_message(liquidity: Amount, question: &str) -> (s: String)
    ensures
        s@ == analyzing_text(liquidity, question@),
{
    let mut s = String::from_str("Analyzing market (bet-triggered, ");
    push_amount(&mut s, liquidity);
    s.append(" liq): \"");
    s.append(question);
    s.append("\"");
    s
}

/// The market could not be fetched.
pub open spec fn fetch_failed_text(id: Seq<char>, error: Seq<char>) -> Seq<char> {
    "Failed to fetch market "@ + id + ": "@ + error
}

/// Writes `fetch_failed_text`.
pub fn fetch_failed_message(id: &str, error: &str) -> (s: String)
    ensures
        s@ == fetch_failed_text(id@, error@),
{
    let mut s = String::from_str("Failed to fetch market ");
    s.append(id);
    s.append(": ");
    s.append(error);
    s
}

/// The oracle could not be asked.
pub open spec fn research_failed_text(question: Seq<char>, error: Seq<char>) -> Seq<char> {
    "xAI research failed for \""@ + question + "\": "@ + error
}

/// Writes `research_failed_text`.
pub fn research_failed_message(question: &str, error: &str) -> (s: String)
    ensures
        s@ == research_failed_text(question@, error@),
{
    let mut s = String::from_str("xAI research failed for \"");
    s.append(question);
    s.append("\": ");
    s.append(error);
    s
}

/// The oracle declined.
pub open spec fn unevaluable_text(question: Seq<char>, reason: Seq<char>) -> Seq<char> {
    "Skipping unevaluable market: \""@ + question + "\" | "@ + reason
}

/// Writes `unevaluable_text`.
pub fn unevaluable_message(question: &str, reason: &str) -> (s: String)
    ensures
        s@ == unevaluable_text(question@, reason@),
{
    let mut s = String::from_str("Skipping unevaluable market: \"");
    s.append(question);
    s.append("\" | ");
    s.append(reason);
    s
}

/// The oracle's answer states no decision.
pub open spec fn unparseable_text(question: Seq<char>) -> Seq<char> {
    "Could not parse prediction for \""@ + question + "\""@
}

/// Writes `unparseable_text`.
pub fn unparseable_message(question: &str) -> (s: String)
    ensures
        s@ == unparseable_text(question@),
{
    let mut s = String::from_str("Could not parse prediction for \"");
    s.append(question);
    s.append("\"");
    s
}

/// How much of an answer that states no decision is quoted.
pub const EXCERPT_CHARS: usize = 300;

/// The start of an answer that states no decision.
pub open spec fn excerpt_text(answer: Seq<char>) -> Seq<char> {
    "xAI response: "@ + head(answer, EXCERPT_CHARS as nat)
}

/// Writes `excerpt_text`.
pub fn excerpt_message(answer: &str) -> (s: String)
    ensures
        s@ == excerpt_text(answer@),
{
    let mut s = String::from_str("xAI response: ");
    let quoted = head_of(answer, EXCERPT_CHARS);
    s.append(quoted.as_str());
    s
}

/// What leads the lines of an analysis that a trade set off.
pub open spec fn trigger_tag(reversion: bool) -> Seq<char> {
    if reversion {
        "[bet-triggered] "@
    } else {
        ""@
    }
}

/// The forecast is too close to the price.
pub open spec fn small_edge_text(
    reversion: bool,
    question: Seq<char>,
    predicted: Probability,
    market: Probability,
    size: nat,
    min_edge: Probability,
    reasoning: Seq<char>,
) -> Seq<char> {
    trigger_tag(reversion) + "["@ + question + "] "@ + percent_text(predicted) + " (market "@
        + percent_text(market) + "), edge "@ + edge_text(size) + " < "@ + percent_text(min_edge)
        + " min - skipping | "@ + stated_reasoning(reasoning)
}

/// Starts a line with the tag of its trigger.
fn tagged(reversion: bool) -> (s: String)
    ensures
        s@ == trigger_tag(reversion),
{
    if reversion {
        String::from_str("[bet-triggered] ")
    } else {
        String::from_str("")
    }
}

/// Writes `small_edge_text`.
pub fn small_edge_message(
    reversion: bool,
    question: &str,
    predicted: Probability,
    market: Probability,
    size: u32,
    min_edge: Probability,
    reasoning: &str,
) -> (s: String)
    ensures
        s@ == small_edge_text(
            reversion,
            question@,
            predicted,
            market,
            size as nat,
            min_edge,
            reasoning@,
        ),
{
    let mut s = tagged(reversion);
    s.append("[");
    s.append(question);
    s.append("] ");
    push_percent(&mut s, predicted);
    s.append(" (market ");
    push_percent(&mut s, market);
    s.append("), edge ");
    push_edge(&mut s, size);
    s.append(" < ");
    push_percent(&mut s, min_edge);
    s.append(" min - skipping | ");
    push_reasoning(&mut s, reasoning);
    s
}

/// An order is about to be placed.
pub open spec fn order_text(
    reversion: bool,
    question: Seq<char>,
    predicted: Probability,
    market: Probability,
    side: Side,
    reasoning: Seq<char>,
) -> Seq<char> {
    trigger_tag(reversion) + "["@ + question + "] "@ + percent_text(predicted) + " (market "@
        + percent_text(market) + ") -> "@ + side.name() + " limit@"@ + percent_text(predicted)
        + " | "@ + stated_reasoning(reasoning)
}

/// Writes `order_text`.
pub fn order_message(
    reversion: bool,
    question: &str,
    predicted: Probability,
    market: Probability,
    side: Side,
    reasoning: &str,
) -> (s: String)
    ensures
        s@ == order_text(reversion, question@, predicted, market, side, reasoning@),
{
    let mut s = tagged(reversion);
    s.append("[");
    s.append(question);
    s.append("] ");
    push_percent(&mut s, predicted);
    s.append(" (market ");
    push_percent(&mut s, market);
    s.append(") -> ");
    s.append(side.label());
    s.append(" limit@");
    push_percent(&mut s, predicted);
    s.append(" | ");
    push_reasoning(&mut s, reasoning);
    s
}

/// What leads the line of a placed order.
pub open spec fn placed_lead(reversion: bool) -> Seq<char> {
    if reversion {
        "BET PLACED (reversion): "@
    } else {
        "BET PLACED: "@
    }
}

/// An order was placed.
pub open spec fn placed_text(
    reversion: bool,
    outcome: Seq<char>,
    stake: Amount,
    question: Seq<char>,
    limit: Probability,
    filled: Amount,
) -> Seq<char> {
    placed_lead(reversion) + outcome + " "@ + amount_text(stake) + " on \""@ + question
        + "\" limit@"@ + percent_text(limit) + " (filled "@ + amount_text(filled) + ")"@
}

/// Writes `placed_text`.
pub fn placed_message(
    reversion: bool,
    outcome: &str,
    stake: Amount,
    question: &str,
    limit: Probability,
    filled: Amount,
) -> (s: String)
    ensures
        s@ == placed_text(reversion, outcome@, stake, question@, limit, filled),
{
    let mut s = if reversion {
        String::from_str("BET PLACED (reversion): ")
    } else {
        String::from_str("BET PLACED: ")
    };
    s.append(outcome);
    s.append(" ");
    push_amount(&mut s, stake);
    s.append(" on \"");
    s.append(question);
    s.append("\" limit@");
    push_percent(&mut s, limit);
    s.append(" (filled ");
    push_amount(&mut s, filled);
    s.append(")");
    s
}

/// An order was refused.
pub open spec fn bet_failed_text(question: Seq<char>, error: Seq<char>) -> Seq<char> {
    "Failed to place bet on \""@ + question + "\": "@ + error
}

/// Writes `bet_failed_text`.
pub fn bet_failed_message(question: &str, error: &str) -> (s: String)
    ensures
        s@ == bet_failed_text(question@, error@),
{
    let mut s = String::from_str("Failed to place bet on \"");
    s.append(question);
    s.append("\": ");
    s.append(error);
    s
}

} // verus!
