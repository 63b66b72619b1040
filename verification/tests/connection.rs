use manifold_domination::connection::{
    after, Command, Connection, Input, Phase, FIRST_PING_TXID, PING_INTERVAL_MS,
    RECONNECT_DELAY_MS, STALE_AFTER_MS, SUBSCRIBE_TXID,
};
use manifold_domination::ws::WsEvent;

fn subscribed_at(now: u64) -> Connection {
    let mut c = Connection::new();
    assert_eq!(c.step(Input::Tick, now).command, Some(Command::Connect));
    assert_eq!(
        c.step(Input::Opened, now).command,
        Some(Command::Subscribe { txid: SUBSCRIBE_TXID })
    );
    let r = c.step(Input::Sent, now);
    assert_eq!(r.command, Some(Command::Ping { txid: FIRST_PING_TXID }));
    assert!(matches!(r.events.as_slice(), [WsEvent::Connected]));
    c
}

fn error_text(event: &WsEvent) -> &str {
    match event {
        WsEvent::Error(m) => m,
        other => panic!("expected an error event, got {:?}", other),
    }
}

#[test]
fn timings() {
    assert_eq!(PING_INTERVAL_MS, 20_000);
    assert_eq!(STALE_AFTER_MS, 90_000);
    assert_eq!(RECONNECT_DELAY_MS, 3_000);
    assert_eq!(SUBSCRIBE_TXID, 1);
    assert_eq!(FIRST_PING_TXID, 101);
}

#[test]
fn first_attempt_is_due_at_once() {
    let mut c = Connection::new();
    assert_eq!(c.phase, Phase::Waiting { retry_at: 0 });
    assert_eq!(c.deadline(), Some(0));
    let r = c.step(Input::Tick, 0);
    assert_eq!(r.command, Some(Command::Connect));
    assert!(r.events.is_empty());
    assert_eq!(c.phase, Phase::Connecting);
    assert_eq!(c.deadline(), None);
}

#[test]
fn opening_leads_to_subscribing_and_then_to_the_first_ping() {
    let c = subscribed_at(5_000);
    assert_eq!(
        c.phase,
        Phase::Active { last_frame: 5_000, next_ping: 25_000, next_txid: 102 }
    );
    assert_eq!(c.deadline(), Some(25_000));
}

#[test]
fn silence_of_ninety_one_seconds_ends_the_connection_and_one_attempt_follows() {
    let mut c = subscribed_at(0);
    for at in [20_000u64, 40_000, 60_000, 80_000] {
        assert!(matches!(c.step(Input::Tick, at).command, Some(Command::Ping { .. })));
    }
    let r = c.step(Input::Tick, 91_000);
    assert_eq!(r.command, None);
    assert_eq!(r.events.len(), 2);
    assert_eq!(error_text(&r.events[0]), "WS stale - no message for 90s");
    assert!(matches!(r.events[1], WsEvent::Disconnected));
    assert_eq!(c.phase, Phase::Waiting { retry_at: 94_000 });
    assert_eq!(c.deadline(), Some(94_000));

    let r = c.step(Input::Tick, 93_999);
    assert_eq!(r.command, None);
    assert!(r.events.is_empty());
    assert_eq!(c.phase, Phase::Waiting { retry_at: 94_000 });

    let r = c.step(Input::Tick, 94_000);
    assert_eq!(r.command, Some(Command::Connect));
    assert!(r.events.is_empty());
    assert_eq!(c.phase, Phase::Connecting);

    for at in [94_001u64, 95_000, 200_000] {
        let r = c.step(Input::Tick, at);
        assert_eq!(r.command, None);
        assert!(r.events.is_empty());
        assert_eq!(c.phase, Phase::Connecting);
    }
}

#[test]
fn silence_is_measured_from_the_last_frame() {
    let mut c = subscribed_at(0);
    assert!(c.step(Input::OtherFrame, 50_000).events.is_empty());
    let r = c.step(Input::Tick, 139_999);
    assert!(r.events.is_empty());
    assert!(matches!(c.phase, Phase::Active { last_frame: 50_000, .. }));
    let r = c.step(Input::Tick, 140_000);
    assert_eq!(r.events.len(), 2);
    assert_eq!(c.phase, Phase::Waiting { retry_at: 143_000 });
}

#[test]
fn connection_is_not_stale_before_ninety_seconds() {
    let mut c = subscribed_at(1_000);
    let r = c.step(Input::Tick, 90_999);
    assert!(r.events.is_empty());
    assert!(matches!(c.phase, Phase::Active { .. }));
    assert_eq!(c.deadline(), Some(91_000));
}

#[test]
fn pings_go_out_every_twenty_seconds_with_rising_numbers() {
    let mut c = subscribed_at(0);
    assert_eq!(c.step(Input::Tick, 19_999).command, None);
    assert_eq!(c.step(Input::Tick, 20_000).command, Some(Command::Ping { txid: 102 }));
    assert!(c.step(Input::Sent, 20_001).events.is_empty());
    assert_eq!(c.step(Input::Tick, 20_001).command, None);
    assert!(c.step(Input::OtherFrame, 30_000).events.is_empty());
    assert_eq!(c.step(Input::Tick, 39_999).command, None);
    assert_eq!(c.step(Input::Tick, 41_000).command, Some(Command::Ping { txid: 103 }));
    assert_eq!(
        c.phase,
        Phase::Active { last_frame: 30_000, next_ping: 61_000, next_txid: 104 }
    );
    assert_eq!(c.deadline(), Some(61_000));
}

#[test]
fn failed_attempt_is_reported_and_tried_again() {
    let mut c = Connection::new();
    c.step(Input::Tick, 10);
    let r = c.step(Input::Failed("connection refused".to_string()), 500);
    assert_eq!(r.command, None);
    assert_eq!(r.events.len(), 2);
    assert_eq!(error_text(&r.events[0]), "WS error: connection refused");
    assert!(matches!(r.events[1], WsEvent::Disconnected));
    assert_eq!(c.phase, Phase::Waiting { retry_at: 3_500 });
    assert_eq!(c.step(Input::Tick, 3_499).command, None);
    assert_eq!(c.step(Input::Tick, 3_500).command, Some(Command::Connect));
}

#[test]
fn failed_subscription_is_reported_and_tried_again() {
    let mut c = Connection::new();
    c.step(Input::Tick, 0);
    c.step(Input::Opened, 100);
    assert_eq!(c.phase, Phase::Subscribing);
    let r = c.step(Input::Failed("broken pipe".to_string()), 200);
    assert_eq!(error_text(&r.events[0]), "WS error: broken pipe");
    assert!(matches!(r.events[1], WsEvent::Disconnected));
    assert_eq!(c.phase, Phase::Waiting { retry_at: 3_200 });
}

#[test]
fn failed_ping_ends_the_connection() {
    let mut c = subscribed_at(0);
    let r = c.step(Input::Failed("broken pipe".to_string()), 20_500);
    assert_eq!(r.command, None);
    assert!(matches!(r.events.as_slice(), [WsEvent::Disconnected]));
    assert_eq!(c.phase, Phase::Waiting { retry_at: 23_500 });
}

#[test]
fn close_frame_and_end_of_stream_end_the_connection() {
    let mut c = subscribed_at(0);
    let r = c.step(Input::Closed, 7_000);
    assert!(matches!(r.events.as_slice(), [WsEvent::Disconnected]));
    assert_eq!(c.phase, Phase::Waiting { retry_at: 10_000 });

    let mut c = subscribed_at(0);
    let r = c.step(Input::Ended, 8_000);
    assert!(matches!(r.events.as_slice(), [WsEvent::Disconnected]));
    assert_eq!(c.phase, Phase::Waiting { retry_at: 11_000 });
}

#[test]
fn read_failure_is_reported_before_the_disconnect() {
    let mut c = subscribed_at(0);
    let r = c.step(Input::ReadFailed("reset by peer".to_string()), 9_000);
    assert_eq!(r.events.len(), 2);
    assert_eq!(error_text(&r.events[0]), "WS read error: reset by peer");
    assert!(matches!(r.events[1], WsEvent::Disconnected));
    assert_eq!(c.phase, Phase::Waiting { retry_at: 12_000 });
}

#[test]
fn text_frames_become_events_and_count_as_life() {
    let mut c = subscribed_at(0);
    let r = c.step(
        Input::Text(r#"{"type":"broadcast","topic":"global/new-bet","data":{"bets":[{"contractId":"m9","probBefore":0.25,"probAfter":0.5}]}}"#.to_string()),
        60_000,
    );
    assert_eq!(r.command, None);
    match r.events.as_slice() {
        [WsEvent::NewBet(b)] => {
            assert_eq!(b.contract_id, "m9");
            assert_eq!(b.prob_before.millionths, 250_000);
            assert_eq!(b.prob_after.millionths, 500_000);
        }
        other => panic!("expected one trade, got {:?}", other),
    }
    assert!(matches!(c.phase, Phase::Active { last_frame: 60_000, .. }));

    let r = c.step(Input::Text("garbage".to_string()), 70_000);
    assert!(r.events.is_empty());
    assert!(matches!(c.phase, Phase::Active { last_frame: 70_000, .. }));

    let r = c.step(Input::Text(r#"{"type":"ack","txid":1,"success":false}"#.to_string()), 71_000);
    assert_eq!(r.events.len(), 1);
    assert_eq!(error_text(&r.events[0]), "Subscription failed");
    assert!(matches!(c.phase, Phase::Active { last_frame: 71_000, .. }));
}

#[test]
fn what_is_not_awaited_is_passed_over() {
    let mut c = Connection::new();
    for input in [Input::Opened, Input::Sent, Input::Closed, Input::Ended, Input::OtherFrame] {
        let r = c.step(input, 0);
        assert_eq!(r.command, None);
        assert!(r.events.is_empty());
        assert_eq!(c.phase, Phase::Waiting { retry_at: 0 });
    }
    let r = c.step(Input::Text(r#"{"type":"ack","txid":1,"success":false}"#.to_string()), 0);
    assert!(r.events.is_empty());
    let r = c.step(Input::Failed("late".to_string()), 0);
    assert!(r.events.is_empty());

    c.step(Input::Tick, 0);
    for input in [Input::Sent, Input::Closed, Input::Ended, Input::OtherFrame, Input::Tick] {
        let r = c.step(input, 5);
        assert_eq!(r.command, None);
        assert!(r.events.is_empty());
        assert_eq!(c.phase, Phase::Connecting);
    }
}

#[test]
fn times_stop_at_the_end_of_the_clock() {
    assert_eq!(after(10, 3_000), 3_010);
    assert_eq!(after(u64::MAX - 3_000, 3_000), u64::MAX);
    assert_eq!(after(u64::MAX - 2_999, 3_000), u64::MAX);
    assert_eq!(after(u64::MAX, 1), u64::MAX);
    let mut c = subscribed_at(0);
    c.step(Input::Closed, u64::MAX - 5);
    assert_eq!(c.phase, Phase::Waiting { retry_at: u64::MAX });
}
