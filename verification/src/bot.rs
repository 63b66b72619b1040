//! The orchestrator: the single consumer of the event feed.
//!
//! Each event is looked at once, in the order of arrival. Status events become
//! log lines. A created market is taken up if it is eligible. A trade sets off
//! an analysis of its market unless the cooldown cache holds that market. The
//! cache is written before the analysis is handed out, so that a burst of
//! trades on one market sets off one analysis only.

use vstd::prelude::*;
use vstd::string::StringExecFns;
use crate::dedup::{is_fresh, map_of, swept, DedupCache, Entry, CACHE_TTL_SECS};
use crate::json::{json_of, Json};
use crate::messages::{
    connected_text, disconnected_text, low_liquidity_message, low_liquidity_text,
    new_market_message, new_market_text, non_binary_message, non_binary_text, started_message,
    started_text,
};
use crate::trade::{binary, is_binary, liquidity, liquidity_of};
use crate::units::{Amount, Probability};
use crate::ws::{BetData, BetView, BroadcastView, EventView, NewContractBroadcast, WsEvent};

verus! {

/// A line of the log.
#[derive(Debug, Clone)]
pub enum BotLogEntry {
    Info(String),
    Trade(String),
    Error(String),
}

/// `BotLogEntry` as plain values.
pub enum LogView {
    Info(Seq<char>),
    Trade(Seq<char>),
    Error(Seq<char>),
}

impl View for BotLogEntry {
    type V = LogView;

    open spec fn view(&self) -> LogView {
        match self {
            BotLogEntry::Info(m) => LogView::Info(m@),
            BotLogEntry::Trade(m) => LogView::Trade(m@),
            BotLogEntry::Error(m) => LogView::Error(m@),
        }
    }
}

/// The lines of `logs`, as plain values.
pub open spec fn logs_view(logs: Seq<BotLogEntry>) -> Seq<LogView> {
    logs.map_values(|e: BotLogEntry| e@)
}

/// The settings of the bot.
#[derive(Clone, Copy)]
pub struct BotConfig {
    /// The stake on a market analysed at its creation.
    pub bet_amount: Amount,
    /// The stake on a market found through a trade.
    pub reversion_amount: Amount,
    /// The smallest edge that is traded.
    pub min_edge: Probability,
    /// The smallest liquidity that makes a market worth analysing.
    pub min_liquidity: Amount,
}

impl Default for BotConfig {
    /// Ten units on a new market, twenty-five on a reversion, an edge of ten
    /// percent and a liquidity of a hundred units.
    fn default() -> (config: BotConfig)
        ensures
            config.bet_amount.thousandths == 10_000,
            config.reversion_amount.thousandths == 25_000,
            config.min_edge.millionths == 100_000,
            config.min_liquidity.thousandths == 100_000,
    {
        BotConfig {
            bet_amount: Amount { thousandths: 10_000 },
            reversion_amount: Amount { thousandths: 25_000 },
            min_edge: Probability { millionths: 100_000 },
            min_liquidity: Amount { thousandths: 100_000 },
        }
    }
}

/// `std::time::SystemTime`, a reading of the system clock. It is only carried
/// from one call to the next.
#[verifier::external_type_specification]
#[verifier::external_body]
pub struct ExSystemTime(std::time::SystemTime);

/// `std::time::SystemTimeError`, the error of a reading that lies before the
/// time it is measured from. It is only told apart from success.
#[verifier::external_type_specification]
#[verifier::external_body]
pub struct ExSystemTimeError(std::time::SystemTimeError);

/// `SystemTime::now` of the standard library: the time of the system clock.
/// Nothing is promised of it.
#[verifier::external_body]
fn system_now() -> std::time::SystemTime {
    std::time::SystemTime::now()
}

/// `SystemTime::duration_since` of the standard library, from the start of
/// 1970: how long after it `at` lies, or an error where `at` lies before it.
#[verifier::external_body]
fn since_epoch(at: &std::time::SystemTime) -> Result<
    std::time::Duration,
    std::time::SystemTimeError,
> {
    at.duration_since(std::time::UNIX_EPOCH)
}

/// `Duration::as_secs` of the standard library: the whole seconds of a span.
#[verifier::external_body]
fn whole_seconds(span: &std::time::Duration) -> u64 {
    span.as_secs()
}

/// The time of the system clock in seconds since the start of 1970, or zero
/// where the clock stands before that.
pub fn now_epoch_secs() -> u64 {
    let at = system_now();
    match since_epoch(&at) {
        Ok(span) => whole_seconds(&span),
        Err(_) => 0,
    }
}

/// The map that the members of a stored cache stand for: each member names a
/// market and states the second of its last trigger as a whole number. One
/// member of another kind spoils the whole.
pub open spec fn members_map(members: Seq<(String, Json)>) -> Option<Map<Seq<char>, u64>>
    decreases members.len(),
{
    if members.len() == 0 {
        Some(Map::empty())
    } else {
        match (members_map(members.drop_last()), members.last().1.whole()) {
            (Some(m), Some(stamp)) => Some(m.insert(members.last().0@, stamp)),
            _ => None,
        }
    }
}

/// The cache that a stored document stands for at `now`: the entries of the
/// object that are no older than the cooldown window. Anything but an object of
/// whole numbers stands for an empty cache.
pub open spec fn stored_cache(document: Option<Json>, now: u64) -> Map<Seq<char>, u64> {
    match document {
        Some(Json::Object(members)) => match members_map(members@) {
            Some(m) => swept(m, now),
            None => Map::empty(),
        },
        _ => Map::empty(),
    }
}

/// Rebuilds the cache at `now` from a stored document.
pub fn restore_cache(document: Option<Json>, now: u64) -> (cache: DedupCache)
    ensures
        cache@ == stored_cache(document, now),
{
    let members = match &document {
        Some(Json::Object(members)) => members,
        _ => {
            return DedupCache::new();
        },
    };
    let mut entries: Vec<Entry> = Vec::new();
    let mut i: usize = 0;
    assert(members@.take(0) == Seq::<(String, Json)>::empty());
    while i < members.len()
        invariant
            i <= members@.len(),
            document == Some(Json::Object(*members)),
            members_map(members@.take(i as int)) == Some(map_of(entries@)),
        decreases members@.len() - i,
    {
        assert(members@.take(i + 1).drop_last() == members@.take(i as int));
        assert(members@.take(i + 1).last() == members@[i as int]);
        match members[i].1.as_whole() {
            Some(stamp) => {
                let ghost before = entries@;
                entries.push(Entry { id: members[i].0.clone(), stamp });
                assert(entries@.drop_last() == before);
            },
            None => {
                proof {
                    assert(members_map(members@.take(i + 1)) is None);
                    lemma_spoiled(members@, i as int + 1);
                }
                return DedupCache::new();
            },
        }
        i += 1;
    }
    assert(members@.take(members@.len() as int) == members@);
    DedupCache::restore(&entries, now)
}

/// Members that are spoiled up to some place are spoiled as a whole.
proof fn lemma_spoiled(members: Seq<(String, Json)>, n: int)
    requires
        0 <= n <= members.len(),
        members_map(members.take(n)) is None,
    ensures
        members_map(members) is None,
    decreases members.len() - n,
{
    if n < members.len() {
        assert(members.take(n + 1).drop_last() == members.take(n));
        lemma_spoiled(members, n + 1);
    } else {
        assert(members.take(n) == members);
    }
}

/// Rebuilds the cache at `now` from the text it was stored as.
pub fn load_cache(text: &str, now: u64) -> (cache: DedupCache)
    ensures
        cache@ == stored_cache(json_of(text@), now),
{
    restore_cache(Json::parse(text), now)
}

/// The text that `serde_json` writes for a cache: a JSON object with one member
/// for each market, named by the market and holding the second of its last
/// trigger, the members in the order of their names.
pub uninterp spec fn stored_text(cache: Map<Seq<char>, u64>) -> Seq<char>;

/// Calls `serde_json::to_string` on the entries, gathered in a `BTreeMap` from
/// market to second. Where a market occurs twice the later entry counts, as it
/// does in `map_of`; the map is written in the order of its keys, so the text
/// depends on the map alone.
#[verifier::external_body]
fn write_entries(entries: &Vec<Entry>) -> (text: String)
    ensures
        text@ == stored_text(map_of(entries@)),
{
    let map: std::collections::BTreeMap<&str, u64> =
        entries.iter().map(|e| (e.id.as_str(), e.stamp)).collect();
    serde_json::to_string(&map).unwrap_or_default()
}

/// The text to store the cache as.
pub fn save_cache(cache: &DedupCache) -> (text: String)
    ensures
        text@ == stored_text(cache@),
{
    let entries = cache.entries();
    write_entries(&entries)
}

/// The line that opens the log.
pub fn started_entry(config: &BotConfig) -> (entry: BotLogEntry)
    ensures
        entry@ == LogView::Info(
            started_text(
                config.bet_amount,
                config.reversion_amount,
                config.min_edge,
                config.min_liquidity,
            ),
        ),
{
    BotLogEntry::Info(
        started_message(
            config.bet_amount,
            config.reversion_amount,
            config.min_edge,
            config.min_liquidity,
        ),
    )
}

/// An analysis to be run, apart from all others.
#[derive(Debug)]
pub enum Task {
    /// Of a market that was just created, as announced.
    NewMarket(Box<NewContractBroadcast>),
    /// Of a market on which a trade was seen; its state must be fetched.
    BetTriggered(Box<BetData>),
}

/// `Task` as plain values.
pub enum TaskView {
    NewMarket(BroadcastView),
    BetTriggered(BetView),
}

impl View for Task {
    type V = TaskView;

    open spec fn view(&self) -> TaskView {
        match self {
            Task::NewMarket(b) => TaskView::NewMarket(b@),
            Task::BetTriggered(b) => TaskView::BetTriggered(b@),
        }
    }
}

/// The task that `t` holds, as plain values.
pub open spec fn task_view(t: Option<Task>) -> Option<TaskView> {
    match t {
        Some(task) => Some(task@),
        None => None,
    }
}

/// What the orchestrator does about one event.
#[derive(Debug)]
pub struct Dispatch {
    /// The lines for the log, in order.
    pub logs: Vec<BotLogEntry>,
    /// The analysis to start, if the event sets one off. The cache holds its
    /// market by the time it is handed out.
    pub task: Option<Task>,
}

/// Whether a created market is taken up.
pub open spec fn takes_up(b: BroadcastView, min_liquidity: Amount) -> bool {
    is_binary(b.contract.outcome_type) && liquidity_of(b.contract.total_liquidity).thousandths
        >= min_liquidity.thousandths
}

/// The analysis that an event sets off, given what the cache holds when the
/// event arrives at `now`. A created market sets one off if it is binary and
/// liquid enough. A trade sets one off unless the cache holds its market with
/// an entry that is still fresh. No other event sets one off.
pub open spec fn task_of(
    cache: Map<Seq<char>, u64>,
    event: EventView,
    min_liquidity: Amount,
    now: u64,
) -> Option<TaskView> {
    match event {
        EventView::NewContract(b) => if takes_up(b, min_liquidity) {
            Some(TaskView::NewMarket(b))
        } else {
            None
        },
        EventView::NewBet(bet) => if swept(cache, now).contains_key(bet.contract_id) {
            None
        } else {
            Some(TaskView::BetTriggered(bet))
        },
        _ => None,
    }
}

/// The cache after an event that arrives at `now`. A created market that is
/// taken up is entered, or entered anew. A trade first sweeps the cache, and
/// enters its market if the cache does not hold it then. No other event touches
/// the cache.
pub open spec fn cache_after(
    cache: Map<Seq<char>, u64>,
    event: EventView,
    min_liquidity: Amount,
    now: u64,
) -> Map<Seq<char>, u64> {
    match event {
        EventView::NewContract(b) => if takes_up(b, min_liquidity) {
            cache.insert(b.contract.id, now)
        } else {
            cache
        },
        EventView::NewBet(bet) => if swept(cache, now).contains_key(bet.contract_id) {
            swept(cache, now)
        } else {
            swept(cache, now).insert(bet.contract_id, now)
        },
        _ => cache,
    }
}

/// The lines that an event adds to the log.
pub open spec fn logs_of(event: EventView, min_liquidity: Amount) -> Seq<LogView> {
    match event {
        EventView::Connected => seq![LogView::Info(connected_text())],
        EventView::Disconnected => seq![LogView::Info(disconnected_text())],
        EventView::Error(message) => seq![LogView::Error(message)],
        EventView::NewContract(b) => if !is_binary(b.contract.outcome_type) {
            seq![LogView::Info(non_binary_text(b.contract.question, b.contract.outcome_type))]
        } else if !takes_up(b, min_liquidity) {
            seq![
                LogView::Info(
                    low_liquidity_text(
                        liquidity_of(b.contract.total_liquidity),
                        b.contract.question,
                    ),
                ),
            ]
        } else {
            seq![
                LogView::Info(
                    new_market_text(
                        liquidity_of(b.contract.total_liquidity),
                        b.contract.question,
                        b.creator.username,
                    ),
                ),
            ]
        },
        EventView::NewBet(_) => Seq::empty(),
    }
}

/// Handles one event that arrives at `now`: writes the cache, and says what to
/// log and which analysis to start.
pub fn dispatch(cache: &mut DedupCache, config: &BotConfig, event: WsEvent, now: u64) -> (d:
    Dispatch)
    ensures
        final(cache)@ == cache_after(old(cache)@, event@, config.min_liquidity, now),
        task_view(d.task) == task_of(old(cache)@, event@, config.min_liquidity, now),
        logs_view(d.logs@) == logs_of(event@, config.min_liquidity),
{
    let mut logs: Vec<BotLogEntry> = Vec::new();
    let mut task: Option<Task> = None;
    let ghost seen = event@;
    match event {
        WsEvent::Connected => {
            logs.push(BotLogEntry::Info(String::from_str("WebSocket connected")));
        },
        WsEvent::Disconnected => {
            logs.push(
                BotLogEntry::Info(String::from_str("WebSocket disconnected, reconnecting...")),
            );
        },
        WsEvent::Error(message) => {
            logs.push(BotLogEntry::Error(message));
        },
        WsEvent::NewContract(broadcast) => {
            let contract = &broadcast.contract;
            if !binary(contract.outcome_type.as_str()) {
                logs.push(
                    BotLogEntry::Info(
                        non_binary_message(
                            contract.question.as_str(),
                            contract.outcome_type.as_str(),
                        ),
                    ),
                );
            } else {
                let held = liquidity(contract.total_liquidity);
                if !held.at_least(config.min_liquidity) {
                    logs.push(
                        BotLogEntry::Info(low_liquidity_message(held, contract.question.as_str())),
                    );
                } else {
                    logs.push(
                        BotLogEntry::Info(
                            new_market_message(
                                held,
                                contract.question.as_str(),
                                broadcast.creator.username.as_str(),
                            ),
                        ),
                    );
                    cache.insert(contract.id.as_str(), now);
                    task = Some(Task::NewMarket(broadcast));
                }
            }
        },
        WsEvent::NewBet(bet) => {
            cache.sweep(now);
            if !cache.contains(bet.contract_id.as_str()) {
                cache.insert(bet.contract_id.as_str(), now);
                task = Some(Task::BetTriggered(bet));
            }
        },
    }
    assert(logs_view(logs@) =~= logs_of(seen, config.min_liquidity));
    Dispatch { logs, task }
}

/// The market of an analysis.
pub open spec fn task_market(task: TaskView) -> Seq<char> {
    match task {
        TaskView::NewMarket(b) => b.contract.id,
        TaskView::BetTriggered(bet) => bet.contract_id,
    }
}

/// By the time an analysis is handed out, the cache holds its market, stamped
/// with the time of the event: no trade that follows within the window can set
/// off another. And the cache is written for no other reason: an event that
/// sets off no analysis enters no market.
pub proof fn law_cache_is_written_before_the_analysis(
    cache: Map<Seq<char>, u64>,
    event: EventView,
    min_liquidity: Amount,
    now: u64,
)
    ensures
        ({
            let after = cache_after(cache, event, min_liquidity, now);
            &&& task_of(cache, event, min_liquidity, now) matches Some(task) ==> after.contains_key(
                task_market(task),
            ) && after[task_market(task)] == now
            &&& task_of(cache, event, min_liquidity, now) is None ==> forall|id: Seq<char>|
                after.contains_key(id) ==> cache.contains_key(id) && #[trigger] after[id]
                    == cache[id]
        }),
{
}

/// Two trades on one market that arrive within the cooldown window of each
/// other never set off two analyses, whatever the cache held before and whatever
/// else the trades say. The first sets one off exactly if the cache did not
/// hold the market, fresh, when it arrived, and the second then sets off none:
/// a market that is new to the cache is analysed exactly once.
pub proof fn law_one_analysis_per_window(
    cache: Map<Seq<char>, u64>,
    first: BetView,
    second: BetView,
    min_liquidity: Amount,
    at_first: u64,
    at_second: u64,
)
    requires
        first.contract_id == second.contract_id,
        at_first <= at_second,
        at_second - at_first <= CACHE_TTL_SECS,
    ensures
        ({
            let set_off = task_of(cache, EventView::NewBet(first), min_liquidity, at_first);
            let between = cache_after(cache, EventView::NewBet(first), min_liquidity, at_first);
            let again = task_of(between, EventView::NewBet(second), min_liquidity, at_second);
            &&& set_off is Some <==> !(cache.contains_key(first.contract_id) && is_fresh(
                cache[first.contract_id],
                at_first,
            ))
            &&& set_off is Some ==> again is None
            &&& !(set_off is Some && again is Some)
        }),
{
    let id = first.contract_id;
    let between = cache_after(cache, EventView::NewBet(first), min_liquidity, at_first);
    if !swept(cache, at_first).contains_key(id) {
        assert(between.contains_key(id) && between[id] == at_first);
        assert(is_fresh(between[id], at_second));
    }
}

} // verus!
