use manifold_domination::bot::{dispatch, started_entry, BotConfig, BotLogEntry, Task};
use manifold_domination::dedup::DedupCache;
use manifold_domination::units::{Amount, Probability};
use manifold_domination::ws::{BetData, ContractData, CreatorData, NewContractBroadcast, WsEvent};

const DAY: u64 = 24 * 60 * 60;

fn market(id: &str, outcome_type: &str, liquidity: Option<u64>) -> WsEvent {
    WsEvent::NewContract(Box::new(NewContractBroadcast {
        contract: ContractData {
            id: id.to_string(),
            slug: "will-it-rain".to_string(),
            question: "Will it rain?".to_string(),
            outcome_type: outcome_type.to_string(),
            mechanism: "cpmm-1".to_string(),
            visibility: "public".to_string(),
            created_time: 1_700_000_000_000,
            close_time: None,
            is_resolved: false,
            volume: None,
            probability: Some(Probability { millionths: 400_000 }),
            p: None,
            total_liquidity: liquidity.map(|units| Amount { thousandths: units * 1_000 }),
            text_description: None,
        },
        creator: CreatorData {
            id: "u1".to_string(),
            username: "alice".to_string(),
            name: "Alice".to_string(),
        },
    }))
}

fn trade(id: &str) -> WsEvent {
    WsEvent::NewBet(Box::new(BetData {
        contract_id: id.to_string(),
        prob_before: Probability { millionths: 400_000 },
        prob_after: Probability { millionths: 450_000 },
    }))
}

fn info(entry: &BotLogEntry) -> &str {
    match entry {
        BotLogEntry::Info(m) => m,
        other => panic!("expected an info line, got {:?}", other),
    }
}

#[test]
fn default_settings() {
    let config = BotConfig::default();
    assert_eq!(config.bet_amount, Amount { thousandths: 10_000 });
    assert_eq!(config.reversion_amount, Amount { thousandths: 25_000 });
    assert_eq!(config.min_edge, Probability { millionths: 100_000 });
    assert_eq!(config.min_liquidity, Amount { thousandths: 100_000 });
    assert_eq!(config.bet_amount.thousandths as f64 / 1_000.0, 10.0);
    assert_eq!(config.min_edge.millionths as f64 / 1_000_000.0, 0.10);
}

#[test]
fn log_opens_with_the_settings() {
    let entry = started_entry(&BotConfig::default());
    assert_eq!(
        info(&entry),
        "Bot started (M$10/new, M$25/reversion, 10% min edge, M$100 min liquidity)"
    );
}

#[test]
fn liquid_market_sets_off_an_analysis() {
    let mut cache = DedupCache::new();
    let d = dispatch(&mut cache, &BotConfig::default(), market("m1", "BINARY", Some(150)), 1_000);
    match d.task {
        Some(Task::NewMarket(b)) => {
            assert_eq!(b.contract.id, "m1");
            assert_eq!(b.creator.username, "alice");
        }
        other => panic!("expected an analysis of the new market, got {:?}", other),
    }
    assert_eq!(d.logs.len(), 1);
    assert_eq!(info(&d.logs[0]), "New binary market (M$150 liq): \"Will it rain?\" by alice");
    assert_eq!(cache.stamp_of("m1"), Some(1_000));
}

#[test]
fn illiquid_market_is_only_logged() {
    let mut cache = DedupCache::new();
    let d = dispatch(&mut cache, &BotConfig::default(), market("m1", "BINARY", Some(50)), 1_000);
    assert!(d.task.is_none());
    assert_eq!(d.logs.len(), 1);
    assert_eq!(info(&d.logs[0]), "Skipping low-liquidity market (M$50): \"Will it rain?\"");
    assert!(!cache.contains("m1"));
}

#[test]
fn market_at_the_minimum_is_taken_up() {
    let mut cache = DedupCache::new();
    let d = dispatch(&mut cache, &BotConfig::default(), market("m1", "BINARY", Some(100)), 1_000);
    assert!(d.task.is_some());
}

#[test]
fn market_without_liquidity_counts_as_empty() {
    let mut cache = DedupCache::new();
    let d = dispatch(&mut cache, &BotConfig::default(), market("m1", "BINARY", None), 1_000);
    assert!(d.task.is_none());
    assert_eq!(info(&d.logs[0]), "Skipping low-liquidity market (M$0): \"Will it rain?\"");
}

#[test]
fn market_that_is_not_binary_is_only_logged() {
    let mut cache = DedupCache::new();
    let d = dispatch(
        &mut cache,
        &BotConfig::default(),
        market("m1", "MULTIPLE_CHOICE", Some(5_000)),
        1_000,
    );
    assert!(d.task.is_none());
    assert_eq!(d.logs.len(), 1);
    assert_eq!(
        info(&d.logs[0]),
        "Skipping non-binary market: \"Will it rain?\" [MULTIPLE_CHOICE]"
    );
    assert_eq!(cache.len(), 0);
}

#[test]
fn two_trades_within_the_window_set_off_one_analysis() {
    let mut cache = DedupCache::new();
    let config = BotConfig::default();
    let first = dispatch(&mut cache, &config, trade("m1"), 1_000);
    let second = dispatch(&mut cache, &config, trade("m1"), 1_000 + DAY);
    match first.task {
        Some(Task::BetTriggered(b)) => assert_eq!(b.contract_id, "m1"),
        other => panic!("expected an analysis after the trade, got {:?}", other),
    }
    assert!(second.task.is_none());
    assert!(first.logs.is_empty());
    assert!(second.logs.is_empty());
    assert_eq!(cache.stamp_of("m1"), Some(1_000));
}

#[test]
fn trade_after_the_window_sets_off_another_analysis() {
    let mut cache = DedupCache::new();
    let config = BotConfig::default();
    assert!(dispatch(&mut cache, &config, trade("m1"), 1_000).task.is_some());
    assert!(dispatch(&mut cache, &config, trade("m1"), 1_000 + DAY + 1).task.is_some());
    assert_eq!(cache.stamp_of("m1"), Some(1_000 + DAY + 1));
}

#[test]
fn trades_on_other_markets_are_not_held_back() {
    let mut cache = DedupCache::new();
    let config = BotConfig::default();
    assert!(dispatch(&mut cache, &config, trade("m1"), 1_000).task.is_some());
    assert!(dispatch(&mut cache, &config, trade("m2"), 1_001).task.is_some());
    assert!(dispatch(&mut cache, &config, trade("m1"), 1_002).task.is_none());
    assert!(dispatch(&mut cache, &config, trade("m2"), 1_003).task.is_none());
    assert_eq!(cache.len(), 2);
}

#[test]
fn creation_holds_back_the_trades_that_follow() {
    let mut cache = DedupCache::new();
    let config = BotConfig::default();
    assert!(dispatch(&mut cache, &config, market("m1", "BINARY", Some(150)), 1_000).task.is_some());
    assert!(dispatch(&mut cache, &config, trade("m1"), 1_005).task.is_none());
    assert!(dispatch(&mut cache, &config, trade("m1"), 1_000 + DAY).task.is_none());
    assert!(dispatch(&mut cache, &config, trade("m1"), 1_001 + DAY).task.is_some());
}

#[test]
fn market_that_was_passed_over_does_not_hold_back_trades() {
    let mut cache = DedupCache::new();
    let config = BotConfig::default();
    assert!(dispatch(&mut cache, &config, market("m1", "BINARY", Some(50)), 1_000).task.is_none());
    assert!(dispatch(&mut cache, &config, trade("m1"), 1_005).task.is_some());
}

#[test]
fn trade_sweeps_the_cache() {
    let mut cache = DedupCache::new();
    let config = BotConfig::default();
    cache.insert("old", 10);
    cache.insert("recent", 5_000);
    let d = dispatch(&mut cache, &config, trade("m1"), 4_000 + DAY);
    assert!(d.task.is_some());
    assert!(!cache.contains("old"));
    assert!(cache.contains("recent"));
    assert!(cache.contains("m1"));
}

#[test]
fn creation_does_not_sweep_the_cache() {
    let mut cache = DedupCache::new();
    let config = BotConfig::default();
    cache.insert("old", 10);
    dispatch(&mut cache, &config, market("m1", "BINARY", Some(150)), 4_000 + DAY);
    assert!(cache.contains("old"));
    assert!(cache.contains("m1"));
}

#[test]
fn status_events_are_logged_and_nothing_else() {
    let mut cache = DedupCache::new();
    cache.insert("old", 10);
    let config = BotConfig::default();

    let d = dispatch(&mut cache, &config, WsEvent::Connected, 9 * DAY);
    assert!(d.task.is_none());
    assert_eq!(d.logs.len(), 1);
    assert_eq!(info(&d.logs[0]), "WebSocket connected");

    let d = dispatch(&mut cache, &config, WsEvent::Disconnected, 9 * DAY);
    assert!(d.task.is_none());
    assert_eq!(d.logs.len(), 1);
    assert_eq!(info(&d.logs[0]), "WebSocket disconnected, reconnecting...");

    let d = dispatch(&mut cache, &config, WsEvent::Error("WS error: refused".to_string()), 9 * DAY);
    assert!(d.task.is_none());
    assert_eq!(d.logs.len(), 1);
    match &d.logs[0] {
        BotLogEntry::Error(m) => assert_eq!(m, "WS error: refused"),
        other => panic!("expected an error line, got {:?}", other),
    }
    assert!(cache.contains("old"));
    assert_eq!(cache.len(), 1);
}
