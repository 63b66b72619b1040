//! The trading platform: what it tells of a market, what an order says, and
//! how its answers to requests are read.

use vstd::prelude::*;
use vstd::string::StringExecFns;
use crate::json::{json_of, Json};
use crate::text::push_decimal;
use crate::text::decimal_text;
use crate::units::{Amount, Probability};
use crate::wire::{
    optional_amount_at, optional_amount_member, optional_probability_at,
    optional_probability_member,
};
use crate::ws::text_view;

verus! {

/// A market as the platform describes it on request.
#[derive(Debug, Clone)]
pub struct Market {
    pub id: String,
    pub question: String,
    pub url: String,
    pub probability: Option<Probability>,
    pub outcome_type: String,
    pub mechanism: String,
    pub is_resolved: bool,
    pub close_time: Option<u64>,
    pub creator_username: String,
    pub total_liquidity: Option<Amount>,
    pub text_description: Option<String>,
}

/// An order: a stake on one outcome of a market, with a limit on the price.
#[derive(Debug)]
pub struct BetRequest {
    pub contract_id: String,
    pub amount: Amount,
    pub outcome: String,
    pub limit_prob: Option<Probability>,
}

/// What the platform says of an order it took.
#[derive(Debug, Clone)]
pub struct BetResponse {
    pub bet_id: Option<String>,
    pub amount: Option<Amount>,
    pub outcome: Option<String>,
    pub contract_id: Option<String>,
}

/// `Market` as plain values.
pub struct MarketView {
    pub id: Seq<char>,
    pub question: Seq<char>,
    pub url: Seq<char>,
    pub probability: Option<Probability>,
    pub outcome_type: Seq<char>,
    pub mechanism: Seq<char>,
    pub is_resolved: bool,
    pub close_time: Option<u64>,
    pub creator_username: Seq<char>,
    pub total_liquidity: Option<Amount>,
    pub text_description: Option<Seq<char>>,
}

/// `BetRequest` as plain values.
pub struct OrderView {
    pub contract_id: Seq<char>,
    pub amount: Amount,
    pub outcome: Seq<char>,
    pub limit_prob: Option<Probability>,
}

/// `BetResponse` as plain values.
pub struct ReceiptView {
    pub bet_id: Option<Seq<char>>,
    pub amount: Option<Amount>,
    pub outcome: Option<Seq<char>>,
    pub contract_id: Option<Seq<char>>,
}

impl View for Market {
    type V = MarketView;

    open spec fn view(&self) -> MarketView {
        MarketView {
            id: self.id@,
            question: self.question@,
            url: self.url@,
            probability: self.probability,
            outcome_type: self.outcome_type@,
            mechanism: self.mechanism@,
            is_resolved: self.is_resolved,
            close_time: self.close_time,
            creator_username: self.creator_username@,
            total_liquidity: self.total_liquidity,
            text_description: text_view(self.text_description),
        }
    }
}

impl View for BetRequest {
    type V = OrderView;

    open spec fn view(&self) -> OrderView {
        OrderView {
            contract_id: self.contract_id@,
            amount: self.amount,
            outcome: self.outcome@,
            limit_prob: self.limit_prob,
        }
    }
}

impl View for BetResponse {
    type V = ReceiptView;

    open spec fn view(&self) -> ReceiptView {
        ReceiptView {
            bet_id: text_view(self.bet_id),
            amount: self.amount,
            outcome: text_view(self.outcome),
            contract_id: text_view(self.contract_id),
        }
    }
}

/// The strings that every market description must state.
pub open spec fn market_names(j: Json) -> Option<
    (Seq<char>, Seq<char>, Seq<char>, Seq<char>, Seq<char>, Seq<char>),
> {
    match (
        j.text_at("id"@),
        j.text_at("question"@),
        j.text_at("url"@),
        j.text_at("outcomeType"@),
        j.text_at("mechanism"@),
        j.text_at("creatorUsername"@),
    ) {
        (Some(id), Some(question), Some(url), Some(outcome_type), Some(mechanism), Some(creator)) => Some(
            (id, question, url, outcome_type, mechanism, creator),
        ),
        _ => None,
    }
}

/// The market that the object `j` describes. It must state `id`, `question`,
/// `url`, `outcomeType`, `mechanism` and `creatorUsername` as strings and
/// `isResolved` as a boolean. It may state `probability` as a probability,
/// `closeTime` as a whole number, `totalLiquidity` as an amount and
/// `textDescription` as a string.
pub open spec fn market_of(j: Json) -> Option<MarketView> {
    match (
        market_names(j),
        optional_probability_at(j, "probability"@),
        j.truth_at("isResolved"@),
        j.optional_whole_at("closeTime"@),
        optional_amount_at(j, "totalLiquidity"@),
        j.optional_text_at("textDescription"@),
    ) {
        (
            Some(names),
            Some(probability),
            Some(is_resolved),
            Some(close_time),
            Some(total_liquidity),
            Some(text_description),
        ) => Some(
            MarketView {
                id: names.0,
                question: names.1,
                url: names.2,
                probability,
                outcome_type: names.3,
                mechanism: names.4,
                is_resolved,
                close_time,
                creator_username: names.5,
                total_liquidity,
                text_description,
            },
        ),
        _ => None,
    }
}

/// Reads the market that `j` describes.
pub fn decode_market(j: &Json) -> (r: Option<Market>)
    ensures
        match r {
            Some(m) => market_of(*j) == Some(m@),
            None => market_of(*j) is None,
        },
{
    let id = match j.text_member("id") {
        Some(x) => x,
        None => {
            return None;
        },
    };
    let question = match j.text_member("question") {
        Some(x) => x,
        None => {
            return None;
        },
    };
    let url = match j.text_member("url") {
        Some(x) => x,
        None => {
            return None;
        },
    };
    let outcome_type = match j.text_member("outcomeType") {
        Some(x) => x,
        None => {
            return None;
        },
    };
    let mechanism = match j.text_member("mechanism") {
        Some(x) => x,
        None => {
            return None;
        },
    };
    let creator_username = match j.text_member("creatorUsername") {
        Some(x) => x,
        None => {
            return None;
        },
    };
    let probability = match optional_probability_member(j, "probability") {
        Some(x) => x,
        None => {
            return None;
        },
    };
    let is_resolved = match j.truth_member("isResolved") {
        Some(x) => x,
        None => {
            return None;
        },
    };
    let close_time = match j.optional_whole_member("closeTime") {
        Some(x) => x,
        None => {
            return None;
        },
    };
    let total_liquidity = match optional_amount_member(j, "totalLiquidity") {
        Some(x) => x,
        None => {
            return None;
        },
    };
    let text_description = match j.optional_text_member("textDescription") {
        Some(x) => x,
        None => {
            return None;
        },
    };
    Some(
        Market {
            id,
            question,
            url,
            probability,
            outcome_type,
            mechanism,
            is_resolved,
            close_time,
            creator_username,
            total_liquidity,
            text_description,
        },
    )
}

/// The receipt that the object `j` is: `betId`, `outcome` and `contractId` may
/// be stated as strings, `amount` as an amount.
pub open spec fn receipt_of(j: Json) -> Option<ReceiptView> {
    match (
        j.optional_text_at("betId"@),
        optional_amount_at(j, "amount"@),
        j.optional_text_at("outcome"@),
        j.optional_text_at("contractId"@),
    ) {
        (Some(bet_id), Some(amount), Some(outcome), Some(contract_id)) => if j is Object {
            Some(ReceiptView { bet_id, amount, outcome, contract_id })
        } else {
            None
        },
        _ => None,
    }
}

/// Reads the receipt that `j` is.
pub fn decode_receipt(j: &Json) -> (r: Option<BetResponse>)
    ensures
        match r {
            Some(b) => receipt_of(*j) == Some(b@),
            None => receipt_of(*j) is None,
        },
{
    let bet_id = match j.optional_text_member("betId") {
        Some(x) => x,
        None => {
            return None;
        },
    };
    let amount = match optional_amount_member(j, "amount") {
        Some(x) => x,
        None => {
            return None;
        },
    };
    let outcome = match j.optional_text_member("outcome") {
        Some(x) => x,
        None => {
            return None;
        },
    };
    let contract_id = match j.optional_text_member("contractId") {
        Some(x) => x,
        None => {
            return None;
        },
    };
    match j {
        Json::Object(_) => Some(BetResponse { bet_id, amount, outcome, contract_id }),
        _ => None,
    }
}

/// Whether an HTTP status reports success.
pub open spec fn is_success(status: u16) -> bool {
    200 <= status <= 299
}

/// Whether an HTTP status reports a failure of the client or of the server.
pub open spec fn is_failure(status: u16) -> bool {
    400 <= status <= 599
}

/// How a body that cannot be read is reported.
pub open spec fn unreadable_body() -> Seq<char> {
    "error decoding response body"@
}

/// `Result<Market, String>` as plain values.
pub open spec fn market_result_view(r: Result<Market, String>) -> Result<MarketView, Seq<char>> {
    match r {
        Ok(m) => Ok(m@),
        Err(e) => Err(e@),
    }
}

/// `Result<BetResponse, String>` as plain values.
pub open spec fn receipt_result_view(r: Result<BetResponse, String>) -> Result<
    ReceiptView,
    Seq<char>,
> {
    match r {
        Ok(b) => Ok(b@),
        Err(e) => Err(e@),
    }
}

/// What a request for a market comes to, from the status of the answer and the
/// document that its body is, if it is one. A failure status is an error that
/// names the status; else the body must describe a market.
pub open spec fn market_reply(status: u16, document: Option<Json>) -> Result<
    MarketView,
    Seq<char>,
> {
    if is_failure(status) {
        Err("HTTP status "@ + decimal_text(status as nat))
    } else {
        match document {
            Some(j) => match market_of(j) {
                Some(m) => Ok(m),
                None => Err(unreadable_body()),
            },
            None => Err(unreadable_body()),
        }
    }
}

/// Decides what a request for a market comes to, the body having been tried
/// as JSON.
pub fn interpret_market(status: u16, document: Option<Json>) -> (r: Result<Market, String>)
    ensures
        market_result_view(r) == market_reply(status, document),
{
    if 400 <= status && status <= 599 {
        let mut message = String::from_str("HTTP status ");
        push_decimal(&mut message, status as u64);
        return Err(message);
    }
    match document {
        Some(j) => match decode_market(&j) {
            Some(m) => Ok(m),
            None => Err(String::from_str("error decoding response body")),
        },
        None => Err(String::from_str("error decoding response body")),
    }
}

/// Decides what a request for a market comes to, from the status and the body
/// of the answer.
pub fn read_market(status: u16, body: &str) -> (r: Result<Market, String>)
    ensures
        market_result_view(r) == market_reply(status, json_of(body@)),
{
    interpret_market(status, Json::parse(body))
}

/// What placing an order comes to, from the status of the answer, its body and
/// the document that the body is, if it is one. Any status but success is an
/// error that quotes status and body; else the body must be a receipt.
pub open spec fn bet_reply(status: u16, body: Seq<char>, document: Option<Json>) -> Result<
    ReceiptView,
    Seq<char>,
> {
    if !is_success(status) {
        Err("Bet API error "@ + decimal_text(status as nat) + ": "@ + body)
    } else {
        match document {
            Some(j) => match receipt_of(j) {
                Some(b) => Ok(b),
                None => Err(unreadable_body()),
            },
            None => Err(unreadable_body()),
        }
    }
}

/// Decides what placing an order comes to, the body having been tried as
/// JSON.
pub fn interpret_bet(status: u16, body: &str, document: Option<Json>) -> (r: Result<
    BetResponse,
    String,
>)
    ensures
        receipt_result_view(r) == bet_reply(status, body@, document),
{
    if !(200 <= status && status <= 299) {
        let mut message = String::from_str("Bet API error ");
        push_decimal(&mut message, status as u64);
        message.append(": ");
        message.append(body);
        return Err(message);
    }
    match document {
        Some(j) => match decode_receipt(&j) {
            Some(b) => Ok(b),
            None => Err(String::from_str("error decoding response body")),
        },
        None => Err(String::from_str("error decoding response body")),
    }
}

/// Decides what placing an order comes to, from the status and the body of the
/// answer.
pub fn read_bet(status: u16, body: &str) -> (r: Result<BetResponse, String>)
    ensures
        receipt_result_view(r) == bet_reply(status, body@, json_of(body@)),
{
    interpret_bet(status, body, Json::parse(body))
}

} // verus!
