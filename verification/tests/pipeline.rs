use manifold_domination::api::{BetResponse, Market};
use manifold_domination::bot::{BotConfig, BotLogEntry};
use manifold_domination::evaluation::{
    advance, handle_bet_triggered, handle_new_market, judge, stake, Evaluation, Progress, Reply,
    Request, Subject, Trigger,
};
use manifold_domination::trade::Side;
use manifold_domination::units::{Amount, Probability};
use manifold_domination::ws::{BetData, ContractData, CreatorData, NewContractBroadcast};
use manifold_domination::xai::{Prediction, PredictionResult, SearchResult};

fn created(probability: Option<u32>, description: Option<&str>) -> NewContractBroadcast {
    NewContractBroadcast {
        contract: ContractData {
            id: "m1".to_string(),
            slug: "rain".to_string(),
            question: "Will it rain?".to_string(),
            outcome_type: "BINARY".to_string(),
            mechanism: "cpmm-1".to_string(),
            visibility: "public".to_string(),
            created_time: 1,
            close_time: None,
            is_resolved: false,
            volume: None,
            probability: probability.map(|millionths| Probability { millionths }),
            p: None,
            total_liquidity: Some(Amount { thousandths: 150_000 }),
            text_description: description.map(|d| d.to_string()),
        },
        creator: CreatorData { id: "u".to_string(), username: "alice".to_string(), name: "A".to_string() },
    }
}

fn fetched(outcome_type: &str, resolved: bool, liquidity: Option<u64>) -> Market {
    Market {
        id: "m7".to_string(),
        question: "Will it snow?".to_string(),
        url: "https://example.test/m7".to_string(),
        probability: Some(Probability { millionths: 700_000 }),
        outcome_type: outcome_type.to_string(),
        mechanism: "cpmm-1".to_string(),
        is_resolved: resolved,
        close_time: None,
        creator_username: "bob".to_string(),
        total_liquidity: liquidity.map(|units| Amount { thousandths: units * 1_000 }),
        text_description: Some("Snow at the airport.".to_string()),
    }
}

fn answer(text: &str) -> Reply {
    Reply::Research(Ok(SearchResult { text: text.to_string() }))
}

fn lines(p: &Progress) -> Vec<String> {
    p.logs
        .iter()
        .map(|e| match e {
            BotLogEntry::Info(m) => format!("info: {}", m),
            BotLogEntry::Trade(m) => format!("trade: {}", m),
            BotLogEntry::Error(m) => format!("error: {}", m),
        })
        .collect()
}

fn is_over(p: &Progress) -> bool {
    matches!(p.next, Evaluation::Finished) && p.request.is_none()
}

#[test]
fn analysis_of_a_created_market_asks_the_oracle_at_once() {
    let p = handle_new_market(&created(Some(400_000), Some("Rain at noon.")));
    assert_eq!(lines(&p), vec!["info: Researching \"Will it rain?\"..."]);
    match &p.request {
        Some(Request::Research { question, description }) => {
            assert_eq!(question, "Will it rain?");
            assert_eq!(description.as_deref(), Some("Rain at noon."));
        }
        other => panic!("expected a question for the oracle, got {:?}", other),
    }
    match &p.next {
        Evaluation::AwaitingResearch { trigger, subject } => {
            assert_eq!(*trigger, Trigger::Creation);
            assert_eq!(subject.contract_id, "m1");
            assert_eq!(subject.question, "Will it rain?");
            assert_eq!(subject.market_probability, Some(Probability { millionths: 400_000 }));
        }
        other => panic!("expected to wait for the oracle, got {:?}", other),
    }
}

#[test]
fn forecast_with_an_edge_becomes_an_order_and_a_trade_line() {
    let config = BotConfig::default();
    let p = handle_new_market(&created(Some(400_000), None));
    let p = advance(
        p.next,
        answer(r#"{"action":"predict","probability":55,"reasoning":"Clouds gather"}"#),
        &config,
    );
    assert_eq!(
        lines(&p),
        vec!["info: [Will it rain?] 55% (market 40%) -> YES limit@55% | Clouds gather"]
    );
    match &p.request {
        Some(Request::PlaceBet(order)) => {
            assert_eq!(order.contract_id, "m1");
            assert_eq!(order.amount, Amount { thousandths: 10_000 });
            assert_eq!(order.outcome, "YES");
            assert_eq!(order.limit_prob, Some(Probability { millionths: 550_000 }));
        }
        other => panic!("expected an order, got {:?}", other),
    }
    assert!(matches!(
        &p.next,
        Evaluation::AwaitingBet { trigger: Trigger::Creation, side: Side::Yes, .. }
    ));

    let receipt = BetResponse {
        bet_id: Some("b1".to_string()),
        amount: Some(Amount { thousandths: 9_600 }),
        outcome: Some("YES".to_string()),
        contract_id: Some("m1".to_string()),
    };
    let p = advance(p.next, Reply::Bet(Ok(receipt)), &config);
    assert_eq!(
        lines(&p),
        vec!["trade: BET PLACED: YES M$10 on \"Will it rain?\" limit@55% (filled M$10)"]
    );
    assert!(is_over(&p));
}

#[test]
fn analysis_with_a_small_edge_ends_without_an_order() {
    let config = BotConfig::default();
    let p = handle_new_market(&created(Some(400_000), None));
    let p = advance(
        p.next,
        answer(r#"{"action":"predict","probability":47,"reasoning":""}"#),
        &config,
    );
    assert_eq!(
        lines(&p),
        vec!["info: [Will it rain?] 47% (market 40%), edge 7.0% < 10% min - skipping | No reasoning provided"]
    );
    assert!(is_over(&p));
}

#[test]
fn order_limit_is_held_within_one_and_ninety_nine_percent() {
    let config = BotConfig::default();
    let p = advance(
        handle_new_market(&created(Some(400_000), None)).next,
        answer(r#"{"action":"predict","probability":99.5,"reasoning":"r"}"#),
        &config,
    );
    match &p.request {
        Some(Request::PlaceBet(order)) => {
            assert_eq!(order.limit_prob, Some(Probability { millionths: 990_000 }));
            assert_eq!(order.outcome, "YES");
        }
        other => panic!("expected an order, got {:?}", other),
    }
    assert_eq!(lines(&p), vec!["info: [Will it rain?] 100% (market 40%) -> YES limit@100% | r"]);

    let p = advance(
        handle_new_market(&created(Some(400_000), None)).next,
        answer(r#"{"action":"predict","probability":0.2,"reasoning":"r"}"#),
        &config,
    );
    match &p.request {
        Some(Request::PlaceBet(order)) => {
            assert_eq!(order.limit_prob, Some(Probability { millionths: 10_000 }));
            assert_eq!(order.outcome, "NO");
        }
        other => panic!("expected an order, got {:?}", other),
    }
    let p = advance(p.next, Reply::Bet(Err("Bet API error 403: no".to_string())), &config);
    assert_eq!(
        lines(&p),
        vec!["error: Failed to place bet on \"Will it rain?\": Bet API error 403: no"]
    );
    assert!(is_over(&p));
}

#[test]
fn market_without_a_price_is_judged_against_one_half() {
    let config = BotConfig::default();
    let p = advance(
        handle_new_market(&created(None, None)).next,
        answer("PROBABILITY: 35%\nREASONING: dry season"),
        &config,
    );
    assert_eq!(
        lines(&p),
        vec!["info: [Will it rain?] 35% (market 50%) -> NO limit@35% | dry season"]
    );
    assert!(matches!(&p.request, Some(Request::PlaceBet(order)) if order.outcome == "NO"));
}

#[test]
fn skip_is_logged_and_ends_the_analysis() {
    let p = advance(
        handle_new_market(&created(Some(400_000), None)).next,
        answer(r#"{"action":"skip","reasoning":"Subjective market"}"#),
        &BotConfig::default(),
    );
    assert_eq!(
        lines(&p),
        vec!["info: Skipping unevaluable market: \"Will it rain?\" | Subjective market"]
    );
    assert!(is_over(&p));
}

#[test]
fn answer_without_a_decision_is_an_error_with_an_excerpt() {
    let long: String = "é".repeat(299) + "xyz";
    let p = advance(
        handle_new_market(&created(Some(400_000), None)).next,
        answer(&long),
        &BotConfig::default(),
    );
    let want = format!("info: xAI response: {}x", "é".repeat(299));
    assert_eq!(
        lines(&p),
        vec!["error: Could not parse prediction for \"Will it rain?\"".to_string(), want]
    );
    assert!(is_over(&p));

    let p = advance(
        handle_new_market(&created(Some(400_000), None)).next,
        answer("no idea"),
        &BotConfig::default(),
    );
    assert_eq!(lines(&p)[1], "info: xAI response: no idea");
}

#[test]
fn oracle_failure_is_an_error() {
    let p = advance(
        handle_new_market(&created(Some(400_000), None)).next,
        Reply::Research(Err("xAI API error 500: boom".to_string())),
        &BotConfig::default(),
    );
    assert_eq!(
        lines(&p),
        vec!["error: xAI research failed for \"Will it rain?\": xAI API error 500: boom"]
    );
    assert!(is_over(&p));
}

#[test]
fn analysis_after_a_trade_fetches_the_market_first() {
    let bet = BetData {
        contract_id: "m7".to_string(),
        prob_before: Probability { millionths: 600_000 },
        prob_after: Probability { millionths: 700_000 },
    };
    let p = handle_bet_triggered(&bet);
    assert!(p.logs.is_empty());
    assert!(matches!(&p.request, Some(Request::FetchMarket { id }) if id == "m7"));
    assert!(matches!(&p.next, Evaluation::AwaitingMarket { contract_id } if contract_id == "m7"));

    let config = BotConfig::default();
    let p = advance(p.next, Reply::Market(Ok(fetched("BINARY", false, Some(2_500)))), &config);
    assert_eq!(
        lines(&p),
        vec!["info: Analyzing market (bet-triggered, M$2500 liq): \"Will it snow?\""]
    );
    match &p.request {
        Some(Request::Research { question, description }) => {
            assert_eq!(question, "Will it snow?");
            assert_eq!(description.as_deref(), Some("Snow at the airport."));
        }
        other => panic!("expected a question for the oracle, got {:?}", other),
    }

    let p = advance(
        p.next,
        answer(r#"{"action":"predict","probability":40,"reasoning":"Warm front"}"#),
        &config,
    );
    assert_eq!(
        lines(&p),
        vec!["info: [bet-triggered] [Will it snow?] 40% (market 70%) -> NO limit@40% | Warm front"]
    );
    match &p.request {
        Some(Request::PlaceBet(order)) => {
            assert_eq!(order.contract_id, "m7");
            assert_eq!(order.amount, Amount { thousandths: 25_000 });
            assert_eq!(order.outcome, "NO");
            assert_eq!(order.limit_prob, Some(Probability { millionths: 400_000 }));
        }
        other => panic!("expected an order, got {:?}", other),
    }

    let receipt = BetResponse { bet_id: None, amount: None, outcome: None, contract_id: None };
    let p = advance(p.next, Reply::Bet(Ok(receipt)), &config);
    assert_eq!(
        lines(&p),
        vec!["trade: BET PLACED (reversion): NO M$25 on \"Will it snow?\" limit@40% (filled M$0)"]
    );
    assert!(is_over(&p));
}

#[test]
fn market_that_changed_ends_the_analysis_without_a_word() {
    let config = BotConfig::default();
    let bet = BetData {
        contract_id: "m7".to_string(),
        prob_before: Probability { millionths: 1 },
        prob_after: Probability { millionths: 2 },
    };
    for market in [
        fetched("BINARY", true, Some(2_500)),
        fetched("MULTIPLE_CHOICE", false, Some(2_500)),
        fetched("BINARY", false, Some(99)),
        fetched("BINARY", false, None),
    ] {
        let p = advance(handle_bet_triggered(&bet).next, Reply::Market(Ok(market)), &config);
        assert!(p.logs.is_empty());
        assert!(is_over(&p));
    }
    let p = advance(
        handle_bet_triggered(&bet).next,
        Reply::Market(Ok(fetched("BINARY", false, Some(100)))),
        &config,
    );
    assert!(matches!(&p.request, Some(Request::Research { .. })));
}

#[test]
fn market_that_cannot_be_fetched_is_an_error() {
    let bet = BetData {
        contract_id: "m7".to_string(),
        prob_before: Probability { millionths: 1 },
        prob_after: Probability { millionths: 2 },
    };
    let p = advance(
        handle_bet_triggered(&bet).next,
        Reply::Market(Err("HTTP status 404".to_string())),
        &BotConfig::default(),
    );
    assert_eq!(lines(&p), vec!["error: Failed to fetch market m7: HTTP status 404"]);
    assert!(is_over(&p));
}

#[test]
fn small_edge_after_a_trade_is_tagged() {
    let config = BotConfig::default();
    let bet = BetData {
        contract_id: "m7".to_string(),
        prob_before: Probability { millionths: 1 },
        prob_after: Probability { millionths: 2 },
    };
    let p = advance(
        handle_bet_triggered(&bet).next,
        Reply::Market(Ok(fetched("BINARY", false, Some(500)))),
        &config,
    );
    let p = advance(p.next, answer("REASONING: close call\nPROBABILITY: 66.25"), &config);
    assert_eq!(
        lines(&p),
        vec!["info: [bet-triggered] [Will it snow?] 66% (market 70%), edge 3.8% < 10% min - skipping | close call"]
    );
    assert!(is_over(&p));
}

#[test]
fn reply_that_is_not_awaited_changes_nothing() {
    let config = BotConfig::default();
    let p = handle_new_market(&created(Some(400_000), None));
    let p = advance(p.next, Reply::Market(Err("late".to_string())), &config);
    assert!(p.logs.is_empty());
    assert!(p.request.is_none());
    assert!(matches!(&p.next, Evaluation::AwaitingResearch { .. }));
    let p = advance(p.next, Reply::Bet(Err("late".to_string())), &config);
    assert!(matches!(&p.next, Evaluation::AwaitingResearch { .. }));

    let p = advance(Evaluation::Finished, answer("PROBABILITY: 99"), &config);
    assert!(p.logs.is_empty());
    assert!(is_over(&p));
}

#[test]
fn stake_follows_the_trigger() {
    let config = BotConfig {
        bet_amount: Amount { thousandths: 1_234 },
        reversion_amount: Amount { thousandths: 5_678 },
        min_edge: Probability { millionths: 50_000 },
        min_liquidity: Amount { thousandths: 0 },
    };
    assert_eq!(stake(Trigger::Creation, &config), Amount { thousandths: 1_234 });
    assert_eq!(stake(Trigger::Reversion, &config), Amount { thousandths: 5_678 });
}

#[test]
fn decision_can_be_judged_by_itself() {
    let config = BotConfig::default();
    let subject = || Subject {
        contract_id: "m1".to_string(),
        question: "Q".to_string(),
        description: None,
        market_probability: Some(Probability { millionths: 400_000 }),
    };
    let forecast = PredictionResult::Predict(Prediction {
        probability: Probability { millionths: 550_000 },
        reasoning: "x".to_string(),
    });
    let p = judge(Trigger::Creation, subject(), Some(forecast), "raw", &config);
    assert!(matches!(&p.request, Some(Request::PlaceBet(order)) if order.outcome == "YES"));

    let p = judge(Trigger::Creation, subject(), None, "raw", &config);
    assert_eq!(
        lines(&p),
        vec!["error: Could not parse prediction for \"Q\"", "info: xAI response: raw"]
    );

    let p = judge(
        Trigger::Reversion,
        subject(),
        Some(PredictionResult::Skip("why".to_string())),
        "raw",
        &config,
    );
    assert_eq!(lines(&p), vec!["info: Skipping unevaluable market: \"Q\" | why"]);
}
