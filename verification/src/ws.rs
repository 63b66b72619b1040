//! The event feed: what the platform sends, and the events it becomes.
//!
//! A text frame is a JSON document. An acknowledgment tells whether a request
//! was accepted. A broadcast carries a topic and a payload: a market that was
//! created, or trades that were made. Everything else is reported as an error
//! event or passed over.

use vstd::prelude::*;
use vstd::string::StringExecFns;
use crate::json::{json_of, Json};
use crate::text::same_text;
use crate::units::{Amount, Probability};
use crate::wire::{
    optional_amount_at, optional_amount_member, optional_probability_at,
    optional_probability_member, probability_at, probability_member,
};

verus! {

/// The topic on which created markets are broadcast.
pub const TOPIC_NEW_CONTRACT: &'static str = "global/new-contract";

/// The topic on which trades are broadcast.
pub const TOPIC_NEW_BET: &'static str = "global/new-bet";

/// A message of the platform.
#[derive(Debug)]
pub enum WsMessage {
    /// The answer to request `txid`.
    Ack { txid: u64, success: bool },
    /// A payload pushed on a topic.
    Broadcast { topic: String, data: Json },
}

/// A market as it is announced at its creation.
#[derive(Debug, Clone)]
pub struct ContractData {
    pub id: String,
    pub slug: String,
    pub question: String,
    pub outcome_type: String,
    pub mechanism: String,
    pub visibility: String,
    pub created_time: u64,
    pub close_time: Option<u64>,
    pub is_resolved: bool,
    pub volume: Option<Amount>,
    pub probability: Option<Probability>,
    pub p: Option<Probability>,
    pub total_liquidity: Option<Amount>,
    pub text_description: Option<String>,
}

/// Who created a market.
#[derive(Debug, Clone)]
pub struct CreatorData {
    pub id: String,
    pub username: String,
    pub name: String,
}

/// The payload of a created market.
#[derive(Debug, Clone)]
pub struct NewContractBroadcast {
    pub contract: ContractData,
    pub creator: CreatorData,
}

/// One trade: the market, and its probability before and after.
#[derive(Debug, Clone)]
pub struct BetData {
    pub contract_id: String,
    pub prob_before: Probability,
    pub prob_after: Probability,
}

/// What the streaming client tells its consumer.
#[derive(Debug, Clone)]
pub enum WsEvent {
    Connected,
    NewContract(Box<NewContractBroadcast>),
    NewBet(Box<BetData>),
    Error(String),
    Disconnected,
}

/// No text.
pub open spec fn no_text() -> Option<Seq<char>> {
    None
}

/// The text that `s` holds, if it holds one.
pub open spec fn text_view(s: Option<String>) -> Option<Seq<char>> {
    match s {
        Some(t) => Some(t@),
        None => None,
    }
}

/// `ContractData` as plain values.
pub struct ContractView {
    pub id: Seq<char>,
    pub slug: Seq<char>,
    pub question: Seq<char>,
    pub outcome_type: Seq<char>,
    pub mechanism: Seq<char>,
    pub visibility: Seq<char>,
    pub created_time: u64,
    pub close_time: Option<u64>,
    pub is_resolved: bool,
    pub volume: Option<Amount>,
    pub probability: Option<Probability>,
    pub p: Option<Probability>,
    pub total_liquidity: Option<Amount>,
    pub text_description: Option<Seq<char>>,
}

/// `CreatorData` as plain values.
pub struct CreatorView {
    pub id: Seq<char>,
    pub username: Seq<char>,
    pub name: Seq<char>,
}

/// `NewContractBroadcast` as plain values.
pub struct BroadcastView {
    pub contract: ContractView,
    pub creator: CreatorView,
}

/// `BetData` as plain values.
pub struct BetView {
    pub contract_id: Seq<char>,
    pub prob_before: Probability,
    pub prob_after: Probability,
}

/// `WsEvent` as plain values.
pub enum EventView {
    Connected,
    NewContract(BroadcastView),
    NewBet(BetView),
    Error(Seq<char>),
    Disconnected,
}

impl View for ContractData {
    type V = ContractView;

    open spec fn view(&self) -> ContractView {
        ContractView {
            id: self.id@,
            slug: self.slug@,
            question: self.question@,
            outcome_type: self.outcome_type@,
            mechanism: self.mechanism@,
            visibility: self.visibility@,
            created_time: self.created_time,
            close_time: self.close_time,
            is_resolved: self.is_resolved,
            volume: self.volume,
            probability: self.probability,
            p: self.p,
            total_liquidity: self.total_liquidity,
            text_description: text_view(self.text_description),
        }
    }
}

impl View for CreatorData {
    type V = CreatorView;

    open spec fn view(&self) -> CreatorView {
        CreatorView { id: self.id@, username: self.username@, name: self.name@ }
    }
}

impl View for NewContractBroadcast {
    type V = BroadcastView;

    open spec fn view(&self) -> BroadcastView {
        BroadcastView { contract: self.contract@, creator: self.creator@ }
    }
}

impl View for BetData {
    type V = BetView;

    open spec fn view(&self) -> BetView {
        BetView {
            contract_id: self.contract_id@,
            prob_before: self.prob_before,
            prob_after: self.prob_after,
        }
    }
}

impl View for WsEvent {
    type V = EventView;

    open spec fn view(&self) -> EventView {
        match self {
            WsEvent::Connected => EventView::Connected,
            WsEvent::NewContract(b) => EventView::NewContract(b@),
            WsEvent::NewBet(b) => EventView::NewBet(b@),
            WsEvent::Error(message) => EventView::Error(message@),
            WsEvent::Disconnected => EventView::Disconnected,
        }
    }
}

/// The creator that the object `j` describes: `id`, `username` and `name` must
/// be strings.
pub open spec fn creator_of(j: Json) -> Option<CreatorView> {
    match (j.text_at("id"@), j.text_at("username"@), j.text_at("name"@)) {
        (Some(id), Some(username), Some(name)) => Some(CreatorView { id, username, name }),
        _ => None,
    }
}

/// Reads the creator that `j` describes.
pub fn decode_creator(j: &Json) -> (r: Option<CreatorData>)
    ensures
        match r {
            Some(c) => creator_of(*j) == Some(c@),
            None => creator_of(*j) is None,
        },
{
    let id = match j.text_member("id") {
        Some(x) => x,
        None => {
            return None;
        },
    };
    let username = match j.text_member("username") {
        Some(x) => x,
        None => {
            return None;
        },
    };
    let name = match j.text_member("name") {
        Some(x) => x,
        None => {
            return None;
        },
    };
    Some(CreatorData { id, username, name })
}

/// The strings that every market must state.
pub open spec fn contract_names(j: Json) -> Option<
    (Seq<char>, Seq<char>, Seq<char>, Seq<char>, Seq<char>, Seq<char>),
> {
    match (
        j.text_at("id"@),
        j.text_at("slug"@),
        j.text_at("question"@),
        j.text_at("outcomeType"@),
        j.text_at("mechanism"@),
        j.text_at("visibility"@),
    ) {
        (Some(id), Some(slug), Some(question), Some(outcome_type), Some(mechanism), Some(visibility)) => Some(
            (id, slug, question, outcome_type, mechanism, visibility),
        ),
        _ => None,
    }
}

/// The market that the object `j` describes. It must state `id`, `slug`,
/// `question`, `outcomeType`, `mechanism` and `visibility` as strings,
/// `createdTime` as a whole number and `isResolved` as a boolean. It may state
/// `closeTime` as a whole number, `volume` and `totalLiquidity` as amounts,
/// `probability` and `p` as probabilities and `textDescription` as a string.
pub open spec fn contract_of(j: Json) -> Option<ContractView> {
    match (
        contract_names(j),
        j.whole_at("createdTime"@),
        j.optional_whole_at("closeTime"@),
        j.truth_at("isResolved"@),
        optional_amount_at(j, "volume"@),
        optional_probability_at(j, "probability"@),
        optional_probability_at(j, "p"@),
        optional_amount_at(j, "totalLiquidity"@),
        j.optional_text_at("textDescription"@),
    ) {
        (
            Some(names),
            Some(created_time),
            Some(close_time),
            Some(is_resolved),
            Some(volume),
            Some(probability),
            Some(p),
            Some(total_liquidity),
            Some(text_description),
        ) => Some(
            ContractView {
                id: names.0,
                slug: names.1,
                question: names.2,
                outcome_type: names.3,
                mechanism: names.4,
                visibility: names.5,
                created_time,
                close_time,
                is_resolved,
                volume,
                probability,
                p,
                total_liquidity,
                text_description,
            },
        ),
        _ => None,
    }
}

/// Reads the market that `j` describes.
pub fn decode_contract(j: &Json) -> (r: Option<ContractData>)
    ensures
        match r {
            Some(c) => contract_of(*j) == Some(c@),
            None => contract_of(*j) is None,
        },
{
    let id = match j.text_member("id") {
        Some(x) => x,
        None => {
            return None;
        },
    };
    let slug = match j.text_member("slug") {
        Some(x) => x,
        None => {
            return None;
        },
    };
    let question = match j.text_member("question") {
        Some(x) => x,
        None => {
            return None;
        },
    };
    let outcome_type = match j.text_member("outcomeType") {
        Some(x) => x,
        None => {
            return None;
        },
    };
    let mechanism = match j.text_member("mechanism") {
        Some(x) => x,
        None => {
            return None;
        },
    };
    let visibility = match j.text_member("visibility") {
        Some(x) => x,
        None => {
            return None;
        },
    };
    let created_time = match j.whole_member("createdTime") {
        Some(x) => x,
        None => {
            return None;
        },
    };
    let close_time = match j.optional_whole_member("closeTime") {
        Some(x) => x,
        None => {
            return None;
        },
    };
    let is_resolved = match j.truth_member("isResolved") {
        Some(x) => x,
        None => {
            return None;
        },
    };
    let volume = match optional_amount_member(j, "volume") {
        Some(x) => x,
        None => {
            return None;
        },
    };
    let probability = match optional_probability_member(j, "probability") {
        Some(x) => x,
        None => {
            return None;
        },
    };
    let p = match optional_probability_member(j, "p") {
        Some(x) => x,
        None => {
            return None;
        },
    };
    let total_liquidity = match optional_amount_member(j, "totalLiquidity") {
        Some(x) => x,
        None => {
            return None;
        },
    };
    let text_description = match j.optional_text_member("textDescription") {
        Some(x) => x,
        None => {
            return None;
        },
    };
    Some(
        ContractData {
            id,
            slug,
            question,
            outcome_type,
            mechanism,
            visibility,
            created_time,
            close_time,
            is_resolved,
            volume,
            probability,
            p,
            total_liquidity,
            text_description,
        },
    )
}

/// The created market that the payload `data` announces: its `contract` and
/// its `creator`.
pub open spec fn new_contract_of(data: Json) -> Option<BroadcastView> {
    match (data.member("contract"@), data.member("creator"@)) {
        (Some(contract), Some(creator)) => match (contract_of(contract), creator_of(creator)) {
            (Some(contract), Some(creator)) => Some(BroadcastView { contract, creator }),
            _ => None,
        },
        _ => None,
    }
}

/// Reads the created market that the payload `data` announces.
pub fn decode_new_contract(data: &Json) -> (r: Option<NewContractBroadcast>)
    ensures
        match r {
            Some(b) => new_contract_of(*data) == Some(b@),
            None => new_contract_of(*data) is None,
        },
{
    let contract = match data.get("contract") {
        Some(j) => j,
        None => {
            return None;
        },
    };
    let creator = match data.get("creator") {
        Some(j) => j,
        None => {
            return None;
        },
    };
    let contract = match decode_contract(contract) {
        Some(c) => c,
        None => {
            return None;
        },
    };
    let creator = match decode_creator(creator) {
        Some(c) => c,
        None => {
            return None;
        },
    };
    Some(NewContractBroadcast { contract, creator })
}

/// The trade that the object `j` describes: `contractId` must be a string,
/// `probBefore` and `probAfter` probabilities.
pub open spec fn bet_of(j: Json) -> Option<BetView> {
    match (
        j.text_at("contractId"@),
        probability_at(j, "probBefore"@),
        probability_at(j, "probAfter"@),
    ) {
        (Some(contract_id), Some(prob_before), Some(prob_after)) => Some(
            BetView { contract_id, prob_before, prob_after },
        ),
        _ => None,
    }
}

/// Reads the trade that `j` describes.
pub fn decode_bet(j: &Json) -> (r: Option<BetData>)
    ensures
        match r {
            Some(b) => bet_of(*j) == Some(b@),
            None => bet_of(*j) is None,
        },
{
    let contract_id = match j.text_member("contractId") {
        Some(x) => x,
        None => {
            return None;
        },
    };
    let prob_before = match probability_member(j, "probBefore") {
        Some(x) => x,
        None => {
            return None;
        },
    };
    let prob_after = match probability_member(j, "probAfter") {
        Some(x) => x,
        None => {
            return None;
        },
    };
    Some(BetData { contract_id, prob_before, prob_after })
}

/// The event that a payload of trades becomes. The payload must hold a list
/// under `bets`; the first trade of the list is the event, and the others are
/// passed over. An empty list is an error of its own.
pub open spec fn new_bet_event(data: Json) -> EventView {
    match data.member("bets"@) {
        Some(Json::Array(bets)) => if bets@.len() == 0 {
            EventView::Error("Empty bets array in new-bet broadcast"@)
        } else {
            match bet_of(bets@[0]) {
                Some(bet) => EventView::NewBet(bet),
                None => EventView::Error("Failed to parse new bet"@),
            }
        },
        _ => EventView::Error("Failed to parse new bet"@),
    }
}

/// The event that a broadcast becomes, by its topic: a created market, the
/// first of a list of trades, or an error that names what went wrong.
pub open spec fn broadcast_event(topic: Seq<char>, data: Json) -> EventView {
    if topic == TOPIC_NEW_CONTRACT@ {
        match new_contract_of(data) {
            Some(b) => EventView::NewContract(b),
            None => EventView::Error("Failed to parse new contract"@),
        }
    } else if topic == TOPIC_NEW_BET@ {
        new_bet_event(data)
    } else {
        EventView::Error("Unknown topic: "@ + topic)
    }
}

/// Turns a broadcast into the event it stands for.
pub fn parse_broadcast(topic: &str, data: Json) -> (event: WsEvent)
    ensures
        event@ == broadcast_event(topic@, data),
{
    if same_text(topic, TOPIC_NEW_CONTRACT) {
        match decode_new_contract(&data) {
            Some(b) => WsEvent::NewContract(Box::new(b)),
            None => WsEvent::Error(String::from_str("Failed to parse new contract")),
        }
    } else if same_text(topic, TOPIC_NEW_BET) {
        match data.get("bets") {
            Some(Json::Array(bets)) => {
                if bets.len() == 0 {
                    WsEvent::Error(String::from_str("Empty bets array in new-bet broadcast"))
                } else {
                    match decode_bet(&bets[0]) {
                        Some(bet) => WsEvent::NewBet(Box::new(bet)),
                        None => WsEvent::Error(String::from_str("Failed to parse new bet")),
                    }
                }
            },
            _ => WsEvent::Error(String::from_str("Failed to parse new bet")),
        }
    } else {
        let mut message = String::from_str("Unknown topic: ");
        message.append(topic);
        WsEvent::Error(message)
    }
}

/// `WsMessage` as plain values.
pub enum MessageView {
    Ack { txid: u64, success: bool },
    Broadcast { topic: Seq<char>, data: Json },
}

impl View for WsMessage {
    type V = MessageView;

    open spec fn view(&self) -> MessageView {
        match self {
            WsMessage::Ack { txid, success } => MessageView::Ack { txid: *txid, success: *success },
            WsMessage::Broadcast { topic, data } => MessageView::Broadcast {
                topic: topic@,
                data: *data,
            },
        }
    }
}

/// The message that a document is. Its `type` tells the kind: `ack` with a
/// whole `txid` and a boolean `success`, or `broadcast` with a `topic` string
/// and `data` of any kind.
pub open spec fn message_of(document: Json) -> Option<MessageView> {
    match document.text_at("type"@) {
        Some(kind) => if kind == "ack"@ {
            match (document.whole_at("txid"@), document.truth_at("success"@)) {
                (Some(txid), Some(success)) => Some(MessageView::Ack { txid, success }),
                _ => None,
            }
        } else if kind == "broadcast"@ {
            match (document.text_at("topic"@), document.member("data"@)) {
                (Some(topic), Some(data)) => Some(MessageView::Broadcast { topic, data }),
                _ => None,
            }
        } else {
            None
        },
        None => None,
    }
}

/// Reads the message that `document` is.
pub fn decode_message(document: Json) -> (r: Option<WsMessage>)
    ensures
        match r {
            Some(m) => message_of(document) == Some(m@),
            None => message_of(document) is None,
        },
{
    let kind = match document.text_member("type") {
        Some(k) => k,
        None => {
            return None;
        },
    };
    if same_text(kind.as_str(), "ack") {
        let txid = match document.whole_member("txid") {
            Some(x) => x,
            None => {
                return None;
            },
        };
        let success = match document.truth_member("success") {
            Some(x) => x,
            None => {
                return None;
            },
        };
        Some(WsMessage::Ack { txid, success })
    } else if same_text(kind.as_str(), "broadcast") {
        let topic = match document.text_member("topic") {
            Some(x) => x,
            None => {
                return None;
            },
        };
        match document.into_member("data") {
            Some(data) => Some(WsMessage::Broadcast { topic, data }),
            None => None,
        }
    } else {
        None
    }
}

/// The event that a message calls for: an error for a request that was
/// refused, none for one that was accepted, and for a broadcast the event it
/// stands for.
pub open spec fn message_event(message: MessageView) -> Option<EventView> {
    match message {
        MessageView::Ack { txid, success } => if success {
            None
        } else {
            Some(EventView::Error("Subscription failed"@))
        },
        MessageView::Broadcast { topic, data } => Some(broadcast_event(topic, data)),
    }
}

/// The event that a text frame calls for, given the document that the frame
/// is, if it is one. A frame that is no message calls for none.
pub open spec fn frame_event(document: Option<Json>) -> Option<EventView> {
    match document {
        Some(j) => match message_of(j) {
            Some(message) => message_event(message),
            None => None,
        },
        None => None,
    }
}

/// The event that `r` holds, as plain values.
pub open spec fn event_view(r: Option<WsEvent>) -> Option<EventView> {
    match r {
        Some(e) => Some(e@),
        None => None,
    }
}

/// Decides the event for a text frame whose text has been tried as JSON.
pub fn interpret_frame(document: Option<Json>) -> (r: Option<WsEvent>)
    ensures
        event_view(r) == frame_event(document),
{
    let j = match document {
        Some(j) => j,
        None => {
            return None;
        },
    };
    match decode_message(j) {
        Some(WsMessage::Ack { txid, success }) => {
            if success {
                None
            } else {
                Some(WsEvent::Error(String::from_str("Subscription failed")))
            }
        },
        Some(WsMessage::Broadcast { topic, data }) => Some(parse_broadcast(topic.as_str(), data)),
        None => None,
    }
}

/// Decides the event for a text frame.
pub fn read_frame(text: &str) -> (r: Option<WsEvent>)
    ensures
        event_view(r) == frame_event(json_of(text@)),
{
    interpret_frame(Json::parse(text))
}

} // verus!
