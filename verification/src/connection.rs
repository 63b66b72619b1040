//! The life cycle of the streaming connection.
//!
//! The connection is opened, subscribed, kept alive with pings and watched for
//! silence; whenever it ends, for whatever reason, it is opened again after a
//! fixed delay. There is no last state. The type here decides; its driver opens
//! sockets, sends frames and reads the clock, and tells the connection what
//! happened and when. Times are milliseconds on a clock that never runs back.

use vstd::prelude::*;
use vstd::string::StringExecFns;
use crate::json::{json_of, Json};
use crate::ws::{
    broadcast_event, frame_event, message_of, read_frame, EventView, MessageView, WsEvent,
};

verus! {

/// A ping is sent this often.
pub const PING_INTERVAL_MS: u64 = 20_000;

/// A connection that has been silent for this long is given up.
pub const STALE_AFTER_MS: u64 = 90_000;

/// The pause between the end of a connection and the next attempt.
pub const RECONNECT_DELAY_MS: u64 = 3_000;

/// The number of the subscribe request.
pub const SUBSCRIBE_TXID: u64 = 1;

/// The number of the first ping of a connection.
pub const FIRST_PING_TXID: u64 = 101;

/// Where the connection stands.
#[derive(Clone, Copy, Debug, PartialEq, Eq, Structural)]
pub enum Phase {
    /// Not connected; the next attempt is due at `retry_at`.
    Waiting { retry_at: u64 },
    /// The connection is being opened.
    Connecting,
    /// The connection is open and the subscribe request is being sent.
    Subscribing,
    /// Subscribed: the last frame arrived at `last_frame`, the next ping is due
    /// at `next_ping` and will carry the number `next_txid`.
    Active { last_frame: u64, next_ping: u64, next_txid: u64 },
}

/// What the driver reports.
#[derive(Debug)]
pub enum Input {
    /// Nothing happened but time.
    Tick,
    /// The connection is open.
    Opened,
    /// The frame that was last asked for has been sent.
    Sent,
    /// Opening the connection or sending a frame failed.
    Failed(String),
    /// A text frame arrived.
    Text(String),
    /// A close frame arrived.
    Closed,
    /// A frame of another kind arrived.
    OtherFrame,
    /// Reading from the connection failed.
    ReadFailed(String),
    /// The connection ended.
    Ended,
}

/// `Input` as plain values.
pub enum InputView {
    Tick,
    Opened,
    Sent,
    Failed(Seq<char>),
    Text(Seq<char>),
    Closed,
    OtherFrame,
    ReadFailed(Seq<char>),
    Ended,
}

impl View for Input {
    type V = InputView;

    open spec fn view(&self) -> InputView {
        match self {
            Input::Tick => InputView::Tick,
            Input::Opened => InputView::Opened,
            Input::Sent => InputView::Sent,
            Input::Failed(m) => InputView::Failed(m@),
            Input::Text(t) => InputView::Text(t@),
            Input::Closed => InputView::Closed,
            Input::OtherFrame => InputView::OtherFrame,
            Input::ReadFailed(m) => InputView::ReadFailed(m@),
            Input::Ended => InputView::Ended,
        }
    }
}

/// What the driver is asked to do.
#[derive(Clone, Copy, Debug, PartialEq, Eq, Structural)]
pub enum Command {
    /// Open the connection.
    Connect,
    /// Send the request that subscribes to both topics, under this number.
    Subscribe { txid: u64 },
    /// Send a ping under this number.
    Ping { txid: u64 },
}

/// What one step comes to: the events for the consumer, in order, and at most
/// one thing for the driver to do.
#[derive(Debug)]
pub struct Reaction {
    pub events: Vec<WsEvent>,
    pub command: Option<Command>,
}

/// The time `delay` after `now`, held at the end of the clock.
pub open spec fn later(now: u64, delay: u64) -> u64 {
    if now + delay <= u64::MAX {
        (now + delay) as u64
    } else {
        u64::MAX
    }
}

/// The number after `txid`, held at the largest.
pub open spec fn following(txid: u64) -> u64 {
    if txid < u64::MAX {
        (txid + 1) as u64
    } else {
        txid
    }
}

/// Whether a connection whose last frame arrived at `last_frame` is stale at
/// `now`.
pub open spec fn is_stale(last_frame: u64, now: u64) -> bool {
    now - last_frame >= STALE_AFTER_MS
}

/// The phase in which the end of a connection at `now` leaves it.
pub open spec fn waiting_from(now: u64) -> Phase {
    Phase::Waiting { retry_at: later(now, RECONNECT_DELAY_MS) }
}

/// The phase after `input` at `now`.
pub open spec fn next_phase(phase: Phase, input: InputView, now: u64) -> Phase {
    match phase {
        Phase::Waiting { retry_at } => match input {
            InputView::Tick => if now >= retry_at {
                Phase::Connecting
            } else {
                phase
            },
            _ => phase,
        },
        Phase::Connecting => match input {
            InputView::Opened => Phase::Subscribing,
            InputView::Failed(_) => waiting_from(now),
            _ => phase,
        },
        Phase::Subscribing => match input {
            InputView::Sent => Phase::Active {
                last_frame: now,
                next_ping: later(now, PING_INTERVAL_MS),
                next_txid: following(FIRST_PING_TXID),
            },
            InputView::Failed(_) => waiting_from(now),
            _ => phase,
        },
        Phase::Active { last_frame, next_ping, next_txid } => match input {
            InputView::Tick => if is_stale(last_frame, now) {
                waiting_from(now)
            } else if now >= next_ping {
                Phase::Active {
                    last_frame,
                    next_ping: later(now, PING_INTERVAL_MS),
                    next_txid: following(next_txid),
                }
            } else {
                phase
            },
            InputView::Text(_) => Phase::Active { last_frame: now, next_ping, next_txid },
            InputView::OtherFrame => Phase::Active { last_frame: now, next_ping, next_txid },
            InputView::Failed(_) => waiting_from(now),
            InputView::Closed => waiting_from(now),
            InputView::ReadFailed(_) => waiting_from(now),
            InputView::Ended => waiting_from(now),
            _ => phase,
        },
    }
}

/// What the driver is asked to do after `input` at `now`.
pub open spec fn command_of(phase: Phase, input: InputView, now: u64) -> Option<Command> {
    match phase {
        Phase::Waiting { retry_at } => match input {
            InputView::Tick => if now >= retry_at {
                Some(Command::Connect)
            } else {
                None
            },
            _ => None,
        },
        Phase::Connecting => match input {
            InputView::Opened => Some(Command::Subscribe { txid: SUBSCRIBE_TXID }),
            _ => None,
        },
        Phase::Subscribing => match input {
            InputView::Sent => Some(Command::Ping { txid: FIRST_PING_TXID }),
            _ => None,
        },
        Phase::Active { last_frame, next_ping, next_txid } => match input {
            InputView::Tick => if !is_stale(last_frame, now) && now >= next_ping {
                Some(Command::Ping { txid: next_txid })
            } else {
                None
            },
            _ => None,
        },
    }
}

/// The events that the end of an attempt gives: the failure, then the
/// disconnect.
pub open spec fn attempt_failed(message: Seq<char>) -> Seq<EventView> {
    seq![EventView::Error("WS error: "@ + message), EventView::Disconnected]
}

/// The events for the consumer after `input` at `now`, in order.
pub open spec fn events_of(phase: Phase, input: InputView, now: u64) -> Seq<EventView> {
    match phase {
        Phase::Waiting { retry_at } => Seq::empty(),
        Phase::Connecting => match input {
            InputView::Failed(message) => attempt_failed(message),
            _ => Seq::empty(),
        },
        Phase::Subscribing => match input {
            InputView::Sent => seq![EventView::Connected],
            InputView::Failed(message) => attempt_failed(message),
            _ => Seq::empty(),
        },
        Phase::Active { last_frame, next_ping, next_txid } => match input {
            InputView::Tick => if is_stale(last_frame, now) {
                seq![
                    EventView::Error("WS stale - no message for 90s"@),
                    EventView::Disconnected,
                ]
            } else {
                Seq::empty()
            },
            InputView::Text(text) => match frame_event(json_of(text)) {
                Some(event) => seq![event],
                None => Seq::empty(),
            },
            InputView::Failed(_) => seq![EventView::Disconnected],
            InputView::Closed => seq![EventView::Disconnected],
            InputView::ReadFailed(message) => seq![
                EventView::Error("WS read error: "@ + message),
                EventView::Disconnected,
            ],
            InputView::Ended => seq![EventView::Disconnected],
            _ => Seq::empty(),
        },
    }
}

/// The events of `events`, as plain values.
pub open spec fn events_view(events: Seq<WsEvent>) -> Seq<EventView> {
    events.map_values(|e: WsEvent| e@)
}

/// The time `delay` after `now`, held at the end of the clock.
pub fn after(now: u64, delay: u64) -> (r: u64)
    ensures
        r == later(now, delay),
{
    if now <= u64::MAX - delay {
        now + delay
    } else {
        u64::MAX
    }
}

/// The streaming connection.
pub struct Connection {
    pub phase: Phase,
}

impl Connection {
    /// A connection that has never been opened: its first attempt is due at
    /// once.
    pub fn new() -> (c: Connection)
        ensures
            c.phase == (Phase::Waiting { retry_at: 0 }),
    {
        Connection { phase: Phase::Waiting { retry_at: 0 } }
    }

    /// The time by which the driver must report a tick, if nothing else happens
    /// before: the next attempt while waiting; while subscribed, the next ping or
    /// the moment of staleness, whichever is first.
    pub fn deadline(&self) -> (r: Option<u64>)
        ensures
            r == match self.phase {
                Phase::Waiting { retry_at } => Some(retry_at),
                Phase::Active { last_frame, next_ping, next_txid } => Some(
                    if next_ping <= later(last_frame, STALE_AFTER_MS) {
                        next_ping
                    } else {
                        later(last_frame, STALE_AFTER_MS)
                    },
                ),
                _ => None::<u64>,
            },
    {
        match self.phase {
            Phase::Waiting { retry_at } => Some(retry_at),
            Phase::Active { last_frame, next_ping, next_txid } => {
                let stale_at = after(last_frame, STALE_AFTER_MS);
                if next_ping <= stale_at {
                    Some(next_ping)
                } else {
                    Some(stale_at)
                }
            },
            _ => None,
        }
    }

    /// Takes in what the driver reports at `now`, and says what follows: the
    /// events for the consumer and the next thing to do.
    pub fn step(&mut self, input: Input, now: u64) -> (r: Reaction)
        ensures
            final(self).phase == next_phase(old(self).phase, input@, now),
            events_view(r.events@) == events_of(old(self).phase, input@, now),
            r.command == command_of(old(self).phase, input@, now),
    {
        let mut events: Vec<WsEvent> = Vec::new();
        let mut command: Option<Command> = None;
        let ghost before = self.phase;
        match self.phase {
            Phase::Waiting { retry_at } => {
                if let Input::Tick = input {
                    if now >= retry_at {
                        self.phase = Phase::Connecting;
                        command = Some(Command::Connect);
                    }
                }
            },
            Phase::Connecting => match input {
                Input::Opened => {
                    self.phase = Phase::Subscribing;
                    command = Some(Command::Subscribe { txid: SUBSCRIBE_TXID });
                },
                Input::Failed(message) => {
                    let mut text = String::from_str("WS error: ");
                    text.append(message.as_str());
                    events.push(WsEvent::Error(text));
                    events.push(WsEvent::Disconnected);
                    self.phase = Phase::Waiting { retry_at: after(now, RECONNECT_DELAY_MS) };
                },
                _ => {},
            },
            Phase::Subscribing => match input {
                Input::Sent => {
                    events.push(WsEvent::Connected);
                    self.phase = Phase::Active {
                        last_frame: now,
                        next_ping: after(now, PING_INTERVAL_MS),
                        next_txid: FIRST_PING_TXID + 1,
                    };
                    command = Some(Command::Ping { txid: FIRST_PING_TXID });
                },
                Input::Failed(message) => {
                    let mut text = String::from_str("WS error: ");
                    text.append(message.as_str());
                    events.push(WsEvent::Error(text));
                    events.push(WsEvent::Disconnected);
                    self.phase = Phase::Waiting { retry_at: after(now, RECONNECT_DELAY_MS) };
                },
                _ => {},
            },
            Phase::Active { last_frame, next_ping, next_txid } => match input {
                Input::Tick => {
                    if now >= last_frame && now - last_frame >= STALE_AFTER_MS {
                        events.push(
                            WsEvent::Error(String::from_str("WS stale - no message for 90s")),
                        );
                        events.push(WsEvent::Disconnected);
                        self.phase = Phase::Waiting { retry_at: after(now, RECONNECT_DELAY_MS) };
                    } else if now >= next_ping {
                        command = Some(Command::Ping { txid: next_txid });
                        self.phase = Phase::Active {
                            last_frame,
                            next_ping: after(now, PING_INTERVAL_MS),
                            next_txid: if next_txid < u64::MAX {
                                next_txid + 1
                            } else {
                                next_txid
                            },
                        };
                    }
                },
                Input::Text(text) => {
                    match read_frame(text.as_str()) {
                        Some(event) => {
                            events.push(event);
                        },
                        None => {},
                    }
                    self.phase = Phase::Active { last_frame: now, next_ping, next_txid };
                },
                Input::OtherFrame => {
                    self.phase = Phase::Active { last_frame: now, next_ping, next_txid };
                },
                Input::Failed(_) => {
                    events.push(WsEvent::Disconnected);
                    self.phase = Phase::Waiting { retry_at: after(now, RECONNECT_DELAY_MS) };
                },
                Input::Closed => {
                    events.push(WsEvent::Disconnected);
                    self.phase = Phase::Waiting { retry_at: after(now, RECONNECT_DELAY_MS) };
                },
                Input::ReadFailed(message) => {
                    let mut text = String::from_str("WS read error: ");
                    text.append(message.as_str());
                    events.push(WsEvent::Error(text));
                    events.push(WsEvent::Disconnected);
                    self.phase = Phase::Waiting { retry_at: after(now, RECONNECT_DELAY_MS) };
                },
                Input::Ended => {
                    events.push(WsEvent::Disconnected);
                    self.phase = Phase::Waiting { retry_at: after(now, RECONNECT_DELAY_MS) };
                },
                _ => {},
            },
        }
        assert(events_view(events@) =~= events_of(before, input@, now));
        Reaction { events, command }
    }
}

/// A connection that has been silent for the stale window is given up on the
/// next tick: the consumer is told of the error and then of the disconnect, and
/// the driver is given nothing to do. While the reconnect delay runs, ticks
/// change nothing. The first tick after it asks for one attempt, and no tick
/// asks for another while that attempt is under way.
pub proof fn law_stale_connection_is_reopened_once(
    last_frame: u64,
    next_ping: u64,
    next_txid: u64,
    now: u64,
    early: u64,
    due: u64,
    during: u64,
)
    requires
        now - last_frame >= STALE_AFTER_MS,
        early < later(now, RECONNECT_DELAY_MS) <= due,
    ensures
        ({
            let active = Phase::Active { last_frame, next_ping, next_txid };
            let waiting = Phase::Waiting { retry_at: later(now, RECONNECT_DELAY_MS) };
            &&& events_of(active, InputView::Tick, now) == seq![
                EventView::Error("WS stale - no message for 90s"@),
                EventView::Disconnected,
            ]
            &&& command_of(active, InputView::Tick, now) is None
            &&& next_phase(active, InputView::Tick, now) == waiting
            &&& events_of(waiting, InputView::Tick, early) == Seq::<EventView>::empty()
            &&& command_of(waiting, InputView::Tick, early) is None
            &&& next_phase(waiting, InputView::Tick, early) == waiting
            &&& command_of(waiting, InputView::Tick, due) == Some(Command::Connect)
            &&& next_phase(waiting, InputView::Tick, due) == Phase::Connecting
            &&& command_of(Phase::Connecting, InputView::Tick, during) is None
            &&& next_phase(Phase::Connecting, InputView::Tick, during) == Phase::Connecting
        }),
{
}

/// A text frame becomes an error, a created market or a trade, or nothing: never
/// a change of the connection.
pub proof fn lemma_frames_never_disconnect(document: Option<Json>)
    ensures
        frame_event(document) != Some(EventView::Disconnected),
        frame_event(document) != Some(EventView::Connected),
{
    if let Some(j) = document {
        if let Some(MessageView::Broadcast { topic, data }) = message_of(j) {
            let e = broadcast_event(topic, data);
            assert(e != EventView::Disconnected && e != EventView::Connected);
        }
    }
}

/// Whenever a connection that was being opened or was open ends, the consumer
/// hears of the disconnect last and the next attempt is due after the reconnect
/// delay; and the consumer hears of a disconnect at no other time. No input
/// leaves the connection without a next attempt.
pub proof fn law_every_end_leads_to_a_new_attempt(phase: Phase, input: InputView, now: u64)
    ensures
        ({
            let next = next_phase(phase, input, now);
            let events = events_of(phase, input, now);
            &&& (next is Waiting && !(phase is Waiting)) ==> (next == waiting_from(now)
                && events.len() > 0 && events.last() == EventView::Disconnected)
            &&& (events.len() > 0 && events.last() == EventView::Disconnected) ==> next
                == waiting_from(now)
        }),
{
    if let Phase::Active { last_frame, next_ping, next_txid } = phase {
        if let InputView::Text(text) = input {
            lemma_frames_never_disconnect(json_of(text));
        }
    }
}

} // verus!
