//! One analysis, from trigger to order.
//!
//! An analysis learns the state of its market, asks the oracle, reads the
//! answer, applies the edge rule and places at most one order. It is a state
//! machine: each step takes the reply to the last request and gives the lines
//! for the log, the next request, and the state that waits for its reply. The
//! caller carries requests out; an analysis touches nothing that another one
//! shares.

use vstd::prelude::*;
use crate::api::{
    market_result_view, receipt_result_view, BetRequest, BetResponse, Market, MarketView,
    OrderView, ReceiptView,
};
use crate::bot::{logs_view, BotConfig, BotLogEntry, LogView};
use crate::json::json_of;
use crate::messages::{
    analyzing_message, analyzing_text, bet_failed_message, bet_failed_text, excerpt_message,
    excerpt_text, fetch_failed_message, fetch_failed_text, order_message, order_text,
    placed_message, placed_text, research_failed_message, research_failed_text,
    researching_message, researching_text, small_edge_message, small_edge_text,
    unevaluable_message, unevaluable_text, unparseable_message, unparseable_text,
};
use crate::trade::{
    decide_trade, edge_between, edge_size, eligible, is_eligible, liquidity, liquidity_of,
    market_price, price_of, trade_for, Side, TradeDecision,
};
use crate::units::{Amount, Probability, LIMIT_CEILING, LIMIT_FLOOR};
use crate::ws::{text_view, BetData, BetView, BroadcastView, NewContractBroadcast};
use crate::xai::{
    answer_of, answer_view, parse_prediction, Answer, PredictionResult, SearchResult,
};

verus! {

/// What set an analysis off.
#[derive(Clone, Copy, Debug, PartialEq, Eq, Structural)]
pub enum Trigger {
    /// The creation of the market.
    Creation,
    /// A trade on the market.
    Reversion,
}

/// What an analysis knows of its market.
#[derive(Debug)]
pub struct Subject {
    pub contract_id: String,
    pub question: String,
    pub description: Option<String>,
    pub market_probability: Option<Probability>,
}

/// Where an analysis stands.
#[derive(Debug)]
pub enum Evaluation {
    /// It waits for the state of the market.
    AwaitingMarket { contract_id: String },
    /// It waits for the oracle.
    AwaitingResearch { trigger: Trigger, subject: Subject },
    /// It waits for the platform to take its order.
    AwaitingBet { trigger: Trigger, question: String, side: Side, stake: Amount, limit: Probability },
    /// It is over.
    Finished,
}

/// What an analysis asks its caller to do.
#[derive(Debug)]
pub enum Request {
    /// Fetch the market.
    FetchMarket { id: String },
    /// Ask the oracle about the question, with the resolution criteria where
    /// there are any.
    Research { question: String, description: Option<String> },
    /// Place the order.
    PlaceBet(BetRequest),
}

/// What came of a request.
#[derive(Debug)]
pub enum Reply {
    Market(Result<Market, String>),
    Research(Result<SearchResult, String>),
    Bet(Result<BetResponse, String>),
}

/// One step of an analysis.
#[derive(Debug)]
pub struct Progress {
    /// The state that waits for the reply to `request`.
    pub next: Evaluation,
    /// The lines for the log, in order.
    pub logs: Vec<BotLogEntry>,
    /// What to do next; nothing once the analysis is over.
    pub request: Option<Request>,
}

/// `Subject` as plain values.
pub struct SubjectView {
    pub contract_id: Seq<char>,
    pub question: Seq<char>,
    pub description: Option<Seq<char>>,
    pub market_probability: Option<Probability>,
}

/// `Evaluation` as plain values.
pub enum EvaluationView {
    AwaitingMarket { contract_id: Seq<char> },
    AwaitingResearch { trigger: Trigger, subject: SubjectView },
    AwaitingBet {
        trigger: Trigger,
        question: Seq<char>,
        side: Side,
        stake: Amount,
        limit: Probability,
    },
    Finished,
}

/// `Request` as plain values.
pub enum RequestView {
    FetchMarket { id: Seq<char> },
    Research { question: Seq<char>, description: Option<Seq<char>> },
    PlaceBet(OrderView),
}

/// `Reply` as plain values.
pub enum ReplyView {
    Market(Result<MarketView, Seq<char>>),
    Research(Result<Seq<char>, Seq<char>>),
    Bet(Result<ReceiptView, Seq<char>>),
}

/// `Progress` as plain values.
pub struct ProgressView {
    pub next: EvaluationView,
    pub logs: Seq<LogView>,
    pub request: Option<RequestView>,
}

impl View for Subject {
    type V = SubjectView;

    open spec fn view(&self) -> SubjectView {
        SubjectView {
            contract_id: self.contract_id@,
            question: self.question@,
            description: text_view(self.description),
            market_probability: self.market_probability,
        }
    }
}

impl View for Evaluation {
    type V = EvaluationView;

    open spec fn view(&self) -> EvaluationView {
        match self {
            Evaluation::AwaitingMarket { contract_id } => EvaluationView::AwaitingMarket {
                contract_id: contract_id@,
            },
            Evaluation::AwaitingResearch { trigger, subject } => EvaluationView::AwaitingResearch {
                trigger: *trigger,
                subject: subject@,
            },
            Evaluation::AwaitingBet { trigger, question, side, stake, limit } => EvaluationView::AwaitingBet {
                trigger: *trigger,
                question: question@,
                side: *side,
                stake: *stake,
                limit: *limit,
            },
            Evaluation::Finished => EvaluationView::Finished,
        }
    }
}

impl View for Request {
    type V = RequestView;

    open spec fn view(&self) -> RequestView {
        match self {
            Request::FetchMarket { id } => RequestView::FetchMarket { id: id@ },
            Request::Research { question, description } => RequestView::Research {
                question: question@,
                description: text_view(*description),
            },
            Request::PlaceBet(order) => RequestView::PlaceBet(order@),
        }
    }
}

impl View for Reply {
    type V = ReplyView;

    open spec fn view(&self) -> ReplyView {
        match self {
            Reply::Market(r) => ReplyView::Market(market_result_view(*r)),
            Reply::Research(r) => ReplyView::Research(
                match r {
                    Ok(found) => Ok(found.text@),
                    Err(e) => Err(e@),
                },
            ),
            Reply::Bet(r) => ReplyView::Bet(receipt_result_view(*r)),
        }
    }
}

/// The request that `r` holds, as plain values.
pub open spec fn request_view(r: Option<Request>) -> Option<RequestView> {
    match r {
        Some(request) => Some(request@),
        None => None,
    }
}

impl View for Progress {
    type V = ProgressView;

    open spec fn view(&self) -> ProgressView {
        ProgressView {
            next: self.next@,
            logs: logs_view(self.logs@),
            request: request_view(self.request),
        }
    }
}

/// Whether a trade set the analysis off.
pub open spec fn by_trade(trigger: Trigger) -> bool {
    trigger == Trigger::Reversion
}

/// The stake of an order, by what set the analysis off.
pub open spec fn stake_for(trigger: Trigger, config: BotConfig) -> Amount {
    match trigger {
        Trigger::Creation => config.bet_amount,
        Trigger::Reversion => config.reversion_amount,
    }
}

/// An analysis that is over, with these last lines.
pub open spec fn finished(logs: Seq<LogView>) -> ProgressView {
    ProgressView { next: EvaluationView::Finished, logs, request: None }
}

/// The step that asks the oracle about `subject`, with `logs` before it.
pub open spec fn asking(trigger: Trigger, subject: SubjectView, logs: Seq<LogView>) -> ProgressView {
    ProgressView {
        next: EvaluationView::AwaitingResearch { trigger, subject },
        logs,
        request: Some(
            RequestView::Research {
                question: subject.question,
                description: subject.description,
            },
        ),
    }
}

/// How the analysis of a created market begins: with the market as announced,
/// it asks the oracle at once.
pub open spec fn creation_start(b: BroadcastView) -> ProgressView {
    asking(
        Trigger::Creation,
        SubjectView {
            contract_id: b.contract.id,
            question: b.contract.question,
            description: b.contract.text_description,
            market_probability: b.contract.probability,
        },
        seq![LogView::Info(researching_text(b.contract.question))],
    )
}

/// How the analysis after a trade begins: it fetches the market.
pub open spec fn reversion_start(bet: BetView) -> ProgressView {
    ProgressView {
        next: EvaluationView::AwaitingMarket { contract_id: bet.contract_id },
        logs: Seq::empty(),
        request: Some(RequestView::FetchMarket { id: bet.contract_id }),
    }
}

/// What follows the fetch of a market. A failure is logged as an error. A
/// market that is resolved, not binary or short of liquidity ends the analysis
/// without a word. Any other market is put to the oracle.
pub open spec fn after_fetch(
    contract_id: Seq<char>,
    fetched: Result<MarketView, Seq<char>>,
    config: BotConfig,
) -> ProgressView {
    match fetched {
        Err(e) => finished(seq![LogView::Error(fetch_failed_text(contract_id, e))]),
        Ok(m) => if m.is_resolved || !is_eligible(
            m.outcome_type,
            m.total_liquidity,
            config.min_liquidity,
        ) {
            finished(Seq::empty())
        } else {
            asking(
                Trigger::Reversion,
                SubjectView {
                    contract_id,
                    question: m.question,
                    description: m.text_description,
                    market_probability: m.probability,
                },
                seq![LogView::Info(analyzing_text(liquidity_of(m.total_liquidity), m.question))],
            )
        },
    }
}

/// What follows the oracle's decision. An answer that states none is logged as
/// an error, with its first characters. A skip is logged with its reason. A
/// forecast is put to the edge rule: too small an edge is logged; any other
/// becomes an order on the side of the edge, at the stake of the trigger and
/// limited at the forecast held between one and ninety-nine percent.
pub open spec fn verdict(
    trigger: Trigger,
    subject: SubjectView,
    answer: Option<Answer>,
    raw: Seq<char>,
    config: BotConfig,
) -> ProgressView {
    match answer {
        None => finished(
            seq![
                LogView::Error(unparseable_text(subject.question)),
                LogView::Info(excerpt_text(raw)),
            ],
        ),
        Some(Answer::Skip { reason }) => finished(
            seq![LogView::Info(unevaluable_text(subject.question, reason))],
        ),
        Some(Answer::Predict { probability, reasoning }) => {
            let market = market_price(subject.market_probability);
            match trade_for(probability, market, config.min_edge) {
                TradeDecision::Pass => finished(
                    seq![
                        LogView::Info(
                            small_edge_text(
                                by_trade(trigger),
                                subject.question,
                                probability,
                                market,
                                edge_size(probability, market),
                                config.min_edge,
                                reasoning,
                            ),
                        ),
                    ],
                ),
                TradeDecision::Bet { side, limit } => ProgressView {
                    next: EvaluationView::AwaitingBet {
                        trigger,
                        question: subject.question,
                        side,
                        stake: stake_for(trigger, config),
                        limit,
                    },
                    logs: seq![
                        LogView::Info(
                            order_text(
                                by_trade(trigger),
                                subject.question,
                                probability,
                                market,
                                side,
                                reasoning,
                            ),
                        ),
                    ],
                    request: Some(
                        RequestView::PlaceBet(
                            OrderView {
                                contract_id: subject.contract_id,
                                amount: stake_for(trigger, config),
                                outcome: side.name(),
                                limit_prob: Some(limit),
                            },
                        ),
                    ),
                },
            }
        },
    }
}

/// What follows the oracle's reply: a failure is logged as an error, an answer
/// is read and judged.
pub open spec fn after_research(
    trigger: Trigger,
    subject: SubjectView,
    found: Result<Seq<char>, Seq<char>>,
    config: BotConfig,
) -> ProgressView {
    match found {
        Err(e) => finished(seq![LogView::Error(research_failed_text(subject.question, e))]),
        Ok(text) => verdict(trigger, subject, answer_of(json_of(text), text), text, config),
    }
}

/// What the platform filled of an order: what its receipt states, or nothing.
pub open spec fn filled_of(receipt: ReceiptView) -> Amount {
    liquidity_of(receipt.amount)
}

/// What follows the platform's reply to an order: a trade line for a receipt, an
/// error line for a refusal. Either ends the analysis; an order is not tried
/// again.
pub open spec fn after_bet(
    trigger: Trigger,
    question: Seq<char>,
    side: Side,
    stake: Amount,
    limit: Probability,
    placed: Result<ReceiptView, Seq<char>>,
) -> ProgressView {
    match placed {
        Ok(receipt) => finished(
            seq![
                LogView::Trade(
                    placed_text(
                        by_trade(trigger),
                        side.name(),
                        stake,
                        question,
                        limit,
                        filled_of(receipt),
                    ),
                ),
            ],
        ),
        Err(e) => finished(seq![LogView::Error(bet_failed_text(question, e))]),
    }
}

/// The step that `reply` brings about in `state`. A reply that the state does
/// not wait for changes nothing.
pub open spec fn step_of(state: EvaluationView, reply: ReplyView, config: BotConfig) -> ProgressView {
    match (state, reply) {
        (EvaluationView::AwaitingMarket { contract_id }, ReplyView::Market(fetched)) => after_fetch(
            contract_id,
            fetched,
            config,
        ),
        (EvaluationView::AwaitingResearch { trigger, subject }, ReplyView::Research(found)) => after_research(
            trigger,
            subject,
            found,
            config,
        ),
        (
            EvaluationView::AwaitingBet { trigger, question, side, stake, limit },
            ReplyView::Bet(placed),
        ) => after_bet(trigger, question, side, stake, limit, placed),
        _ => ProgressView { next: state, logs: Seq::empty(), request: None },
    }
}

/// An analysis that is over.
fn finish(logs: Vec<BotLogEntry>) -> (p: Progress)
    ensures
        p@ == finished(logs_view(logs@)),
{
    Progress { next: Evaluation::Finished, logs, request: None }
}

/// Puts `subject` to the oracle.
fn ask(trigger: Trigger, subject: Subject, logs: Vec<BotLogEntry>) -> (p: Progress)
    ensures
        p@ == asking(trigger, subject@, logs_view(logs@)),
{
    let question = subject.question.clone();
    let description = match &subject.description {
        Some(d) => Some(d.clone()),
        None => None,
    };
    Progress {
        next: Evaluation::AwaitingResearch { trigger, subject },
        logs,
        request: Some(Request::Research { question, description }),
    }
}

/// One line of the log.
fn one(entry: BotLogEntry) -> (logs: Vec<BotLogEntry>)
    ensures
        logs_view(logs@) == seq![entry@],
{
    let mut logs: Vec<BotLogEntry> = Vec::new();
    logs.push(entry);
    assert(logs_view(logs@) =~= seq![entry@]);
    logs
}

/// Begins the analysis of a market that was just created.
pub fn handle_new_market(broadcast: &NewContractBroadcast) -> (p: Progress)
    ensures
        p@ == creation_start(broadcast@),
{
    let contract = &broadcast.contract;
    let subject = Subject {
        contract_id: contract.id.clone(),
        question: contract.question.clone(),
        description: match &contract.text_description {
            Some(d) => Some(d.clone()),
            None => None,
        },
        market_probability: contract.probability,
    };
    let logs = one(BotLogEntry::Info(researching_message(contract.question.as_str())));
    ask(Trigger::Creation, subject, logs)
}

/// Begins the analysis of a market on which a trade was seen.
pub fn handle_bet_triggered(bet: &BetData) -> (p: Progress)
    ensures
        p@ == reversion_start(bet@),
{
    let logs: Vec<BotLogEntry> = Vec::new();
    assert(logs_view(logs@) =~= Seq::<LogView>::empty());
    Progress {
        next: Evaluation::AwaitingMarket { contract_id: bet.contract_id.clone() },
        logs,
        request: Some(Request::FetchMarket { id: bet.contract_id.clone() }),
    }
}

/// The stake of an order, by what set the analysis off.
pub fn stake(trigger: Trigger, config: &BotConfig) -> (a: Amount)
    ensures
        a == stake_for(trigger, *config),
{
    match trigger {
        Trigger::Creation => config.bet_amount,
        Trigger::Reversion => config.reversion_amount,
    }
}

/// Judges the oracle's decision on `subject`; `raw` is the answer it was read
/// from.
pub fn judge(
    trigger: Trigger,
    subject: Subject,
    answer: Option<PredictionResult>,
    raw: &str,
    config: &BotConfig,
) -> (p: Progress)
    ensures
        p@ == verdict(trigger, subject@, answer_view(answer), raw@, *config),
{
    let reversion = match trigger {
        Trigger::Creation => false,
        Trigger::Reversion => true,
    };
    match answer {
        None => {
            let mut logs: Vec<BotLogEntry> = Vec::new();
            logs.push(BotLogEntry::Error(unparseable_message(subject.question.as_str())));
            logs.push(BotLogEntry::Info(excerpt_message(raw)));
            assert(logs_view(logs@) =~= seq![
                LogView::Error(unparseable_text(subject.question@)),
                LogView::Info(excerpt_text(raw@)),
            ]);
            finish(logs)
        },
        Some(PredictionResult::Skip(reason)) => finish(
            one(
                BotLogEntry::Info(
                    unevaluable_message(subject.question.as_str(), reason.as_str()),
                ),
            ),
        ),
        Some(PredictionResult::Predict(prediction)) => {
            let market = price_of(subject.market_probability);
            match decide_trade(prediction.probability, market, config.min_edge) {
                TradeDecision::Pass => finish(
                    one(
                        BotLogEntry::Info(
                            small_edge_message(
                                reversion,
                                subject.question.as_str(),
                                prediction.probability,
                                market,
                                edge_between(prediction.probability, market),
                                config.min_edge,
                                prediction.reasoning.as_str(),
                            ),
                        ),
                    ),
                ),
                TradeDecision::Bet { side, limit } => {
                    let logs = one(
                        BotLogEntry::Info(
                            order_message(
                                reversion,
                                subject.question.as_str(),
                                prediction.probability,
                                market,
                                side,
                                prediction.reasoning.as_str(),
                            ),
                        ),
                    );
                    let amount = stake(trigger, config);
                    let order = BetRequest {
                        contract_id: subject.contract_id,
                        amount,
                        outcome: side.label().to_owned(),
                        limit_prob: Some(limit),
                    };
                    Progress {
                        next: Evaluation::AwaitingBet {
                            trigger,
                            question: subject.question,
                            side,
                            stake: amount,
                            limit,
                        },
                        logs,
                        request: Some(Request::PlaceBet(order)),
                    }
                },
            }
        },
    }
}

/// Takes in the reply to the last request and says what follows.
pub fn advance(state: Evaluation, reply: Reply, config: &BotConfig) -> (p: Progress)
    ensures
        p@ == step_of(state@, reply@, *config),
{
    match (state, reply) {
        (Evaluation::AwaitingMarket { contract_id }, Reply::Market(fetched)) => match fetched {
            Err(e) => finish(
                one(BotLogEntry::Error(fetch_failed_message(contract_id.as_str(), e.as_str()))),
            ),
            Ok(market) => {
                if market.is_resolved || !eligible(
                    market.outcome_type.as_str(),
                    market.total_liquidity,
                    config.min_liquidity,
                ) {
                    let logs: Vec<BotLogEntry> = Vec::new();
                    assert(logs_view(logs@) =~= Seq::<LogView>::empty());
                    finish(logs)
                } else {
                    let logs = one(
                        BotLogEntry::Info(
                            analyzing_message(
                                liquidity(market.total_liquidity),
                                market.question.as_str(),
                            ),
                        ),
                    );
                    let subject = Subject {
                        contract_id,
                        question: market.question,
                        description: market.text_description,
                        market_probability: market.probability,
                    };
                    ask(Trigger::Reversion, subject, logs)
                }
            },
        },
        (Evaluation::AwaitingResearch { trigger, subject }, Reply::Research(found)) => match found {
            Err(e) => finish(
                one(
                    BotLogEntry::Error(
                        research_failed_message(subject.question.as_str(), e.as_str()),
                    ),
                ),
            ),
            Ok(result) => {
                let answer = parse_prediction(result.text.as_str());
                judge(trigger, subject, answer, result.text.as_str(), config)
            },
        },
        (
            Evaluation::AwaitingBet { trigger, question, side, stake, limit },
            Reply::Bet(placed),
        ) => {
            let reversion = match trigger {
                Trigger::Creation => false,
                Trigger::Reversion => true,
            };
            match placed {
                Ok(receipt) => finish(
                    one(
                        BotLogEntry::Trade(
                            placed_message(
                                reversion,
                                side.label(),
                                stake,
                                question.as_str(),
                                limit,
                                liquidity(receipt.amount),
                            ),
                        ),
                    ),
                ),
                Err(e) => finish(
                    one(BotLogEntry::Error(bet_failed_message(question.as_str(), e.as_str()))),
                ),
            }
        },
        (state, _) => {
            let logs: Vec<BotLogEntry> = Vec::new();
            assert(logs_view(logs@) =~= Seq::<LogView>::empty());
            Progress { next: state, logs, request: None }
        },
    }
}

/// An analysis places at most one order. An order is asked for only when the
/// oracle has replied; it is for the market of the analysis, at the stake of
/// the trigger, and limited between one and ninety-nine percent. Whatever the
/// platform replies to it ends the analysis, and an analysis that is over asks
/// for nothing more.
pub proof fn law_at_most_one_order(state: EvaluationView, reply: ReplyView, config: BotConfig)
    ensures
        ({
            let step = step_of(state, reply, config);
            &&& step.request matches Some(RequestView::PlaceBet(order)) ==> {
                &&& state matches EvaluationView::AwaitingResearch { trigger, subject }
                &&& reply is Research
                &&& step.next is AwaitingBet
                &&& order.contract_id == subject.contract_id
                &&& order.amount == stake_for(trigger, config)
                &&& order.limit_prob matches Some(limit)
                &&& LIMIT_FLOOR <= limit.millionths <= LIMIT_CEILING
            }
            &&& state is AwaitingBet && reply is Bet ==> step.next is Finished && step.request
                is None
            &&& state is Finished ==> step.next is Finished && step.request is None && step.logs.len()
                == 0
        }),
{
}

} // verus!
