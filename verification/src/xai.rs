//! The oracle: what it is asked, what it answers, and how an answer is read.
//!
//! An answer comes in one of two shapes. The structured shape is a JSON object
//! with an `action`, a `probability` in percent and a `reasoning`. The older
//! shape is free text with the marker lines `REASONING:`, `PROBABILITY:` and
//! `SKIP`. Text that is a JSON document is read as the first, all other text as
//! the second.

use vstd::prelude::*;
use vstd::slice::slice_subrange;
use vstd::string::StringExecFns;
use crate::api::{is_success, unreadable_body};
use crate::decimal::{fixed_point, parse_fixed};
use crate::json::{json_of, left_out, Json};
use crate::text::{
    chars_of, decimal_text, find_line_end, has_prefix, lines_of, push_decimal, same_text, spells,
    string_of, strip_prefix, trim, trimmed,
};
use crate::units::{Probability, MILLION};

verus! {

/// What the oracle's service sends back.
#[derive(Debug)]
pub struct XaiResponse {
    pub output: Option<Vec<OutputItem>>,
    pub error: Option<ApiError>,
}

/// A failure that the service reports inside a response.
#[derive(Debug)]
pub struct ApiError {
    pub message: String,
}

/// One item of a response's output.
#[derive(Debug)]
pub struct OutputItem {
    pub item_type: String,
    pub content: Option<Vec<ContentBlock>>,
}

/// One block of an output item.
#[derive(Debug)]
pub struct ContentBlock {
    pub block_type: String,
    pub text: Option<String>,
}

/// The oracle's answer as raw text.
#[derive(Debug)]
pub struct SearchResult {
    pub text: String,
}

/// `ContentBlock` as plain values.
pub struct BlockView {
    pub block_type: Seq<char>,
    pub text: Option<Seq<char>>,
}

/// `OutputItem` as plain values.
pub struct ItemView {
    pub item_type: Seq<char>,
    pub content: Option<Seq<BlockView>>,
}

/// `XaiResponse` as plain values; of a reported failure, the message.
pub struct ResponseView {
    pub output: Option<Seq<ItemView>>,
    pub error: Option<Seq<char>>,
}

impl View for ContentBlock {
    type V = BlockView;

    open spec fn view(&self) -> BlockView {
        BlockView {
            block_type: self.block_type@,
            text: match self.text {
                Some(t) => Some(t@),
                None => None,
            },
        }
    }
}

/// Blocks as plain values.
pub open spec fn blocks_view(blocks: Seq<ContentBlock>) -> Seq<BlockView> {
    blocks.map_values(|b: ContentBlock| b@)
}

impl View for OutputItem {
    type V = ItemView;

    open spec fn view(&self) -> ItemView {
        ItemView {
            item_type: self.item_type@,
            content: match self.content {
                Some(blocks) => Some(blocks_view(blocks@)),
                None => None,
            },
        }
    }
}

/// Items as plain values.
pub open spec fn items_view(items: Seq<OutputItem>) -> Seq<ItemView> {
    items.map_values(|i: OutputItem| i@)
}

impl View for XaiResponse {
    type V = ResponseView;

    open spec fn view(&self) -> ResponseView {
        ResponseView {
            output: match self.output {
                Some(items) => Some(items_view(items@)),
                None => None,
            },
            error: match self.error {
                Some(e) => Some(e.message@),
                None => None,
            },
        }
    }
}

/// What a block adds to the answer: its text, if it is a block of output text
/// that carries any.
pub open spec fn block_text(block: BlockView) -> Seq<char> {
    if block.block_type == "output_text"@ {
        match block.text {
            Some(t) => t,
            None => Seq::<char>::empty(),
        }
    } else {
        Seq::<char>::empty()
    }
}

/// What blocks add to the answer, in order.
pub open spec fn blocks_text(blocks: Seq<BlockView>) -> Seq<char>
    decreases blocks.len(),
{
    if blocks.len() == 0 {
        Seq::<char>::empty()
    } else {
        blocks_text(blocks.drop_last()) + block_text(blocks.last())
    }
}

/// What an item adds to the answer: the text of its blocks, if it is a message
/// that has any.
pub open spec fn item_text(item: ItemView) -> Seq<char> {
    if item.item_type == "message"@ {
        match item.content {
            Some(blocks) => blocks_text(blocks),
            None => Seq::<char>::empty(),
        }
    } else {
        Seq::<char>::empty()
    }
}

/// What items add to the answer, in order.
pub open spec fn items_text(items: Seq<ItemView>) -> Seq<char>
    decreases items.len(),
{
    if items.len() == 0 {
        Seq::<char>::empty()
    } else {
        items_text(items.drop_last()) + item_text(items.last())
    }
}

/// The answer that a response carries: the output text of its messages, joined
/// in order.
pub open spec fn response_text(resp: ResponseView) -> Seq<char> {
    match resp.output {
        Some(items) => items_text(items),
        None => Seq::<char>::empty(),
    }
}

impl SearchResult {
    /// Gathers the answer that `resp` carries.
    pub fn from_response(resp: XaiResponse) -> (r: Self)
        ensures
            r.text@ == response_text(resp@),
    {
        let mut text = String::new();
        if let Some(output) = &resp.output {
            let ghost items = items_view(output@);
            let mut i: usize = 0;
            assert(items.take(0) == Seq::<ItemView>::empty());
            while i < output.len()
                invariant
                    i <= output.len(),
                    items == items_view(output@),
                    text@ == items_text(items.take(i as int)),
                decreases output.len() - i,
            {
                let item = &output[i];
                let ghost before = text@;
                assert(items.take(i + 1).drop_last() == items.take(i as int));
                assert(items.take(i + 1).last() == item@);
                if same_text(item.item_type.as_str(), "message") {
                    if let Some(content) = &item.content {
                        let ghost blocks = blocks_view(content@);
                        let mut k: usize = 0;
                        assert(blocks.take(0) == Seq::<BlockView>::empty());
                        assert(before + Seq::<char>::empty() == before);
                        while k < content.len()
                            invariant
                                k <= content.len(),
                                blocks == blocks_view(content@),
                                text@ == before + blocks_text(blocks.take(k as int)),
                            decreases content.len() - k,
                        {
                            let block = &content[k];
                            assert(blocks.take(k + 1).drop_last() == blocks.take(k as int));
                            assert(blocks.take(k + 1).last() == block@);
                            let ghost sofar = blocks_text(blocks.take(k as int));
                            if same_text(block.block_type.as_str(), "output_text") {
                                if let Some(t) = &block.text {
                                    text.append(t.as_str());
                                    assert(before + sofar + t@ == before + (sofar + t@));
                                }
                            }
                            assert(sofar + Seq::<char>::empty() == sofar);
                            k += 1;
                        }
                        assert(blocks.take(content.len() as int) == blocks);
                    }
                }
                assert(before + Seq::<char>::empty() == before);
                i += 1;
            }
            assert(items.take(output.len() as int) == items);
        }
        SearchResult { text }
    }
}

/// How a failure reported inside a response is worded.
pub open spec fn reported_failure(message: Seq<char>) -> Seq<char> {
    "xAI error: "@ + message
}

/// What a response comes to: the failure that it reports, or else the answer
/// it carries.
pub open spec fn response_outcome(resp: ResponseView) -> Result<Seq<char>, Seq<char>> {
    match resp.error {
        Some(message) => Err(reported_failure(message)),
        None => Ok(response_text(resp)),
    }
}

/// `Result<SearchResult, String>` as plain values.
pub open spec fn found_view(r: Result<SearchResult, String>) -> Result<Seq<char>, Seq<char>> {
    match r {
        Ok(found) => Ok(found.text@),
        Err(e) => Err(e@),
    }
}

/// What a research call comes to once the service has answered: the failure
/// that the response reports, or else the answer it carries.
pub fn research_outcome(resp: XaiResponse) -> (r: Result<SearchResult, String>)
    ensures
        found_view(r) == response_outcome(resp@),
{
    if let Some(e) = &resp.error {
        let mut message = String::from_str("xAI error: ");
        message.append(e.message.as_str());
        return Err(message);
    }
    Ok(SearchResult::from_response(resp))
}

/// The block that the object `j` describes: `type` must be a string, `text`
/// may be one.
pub open spec fn block_of(j: Json) -> Option<BlockView> {
    match (j.text_at("type"@), j.optional_text_at("text"@)) {
        (Some(block_type), Some(text)) => Some(BlockView { block_type, text }),
        _ => None,
    }
}

/// The blocks that a list describes; one that is no block spoils the list.
pub open spec fn blocks_of(list: Seq<Json>) -> Option<Seq<BlockView>>
    decreases list.len(),
{
    if list.len() == 0 {
        Some(Seq::empty())
    } else {
        match (blocks_of(list.drop_last()), block_of(list.last())) {
            (Some(head), Some(last)) => Some(head.push(last)),
            _ => None,
        }
    }
}

/// The blocks under `content`: none where the member is left out, and a fault
/// where it is anything but a list of blocks.
pub open spec fn content_of(j: Json) -> Option<Option<Seq<BlockView>>> {
    if left_out(j.member("content"@)) {
        Some(None)
    } else {
        match j.member("content"@) {
            Some(Json::Array(list)) => match blocks_of(list@) {
                Some(blocks) => Some(Some(blocks)),
                None => None,
            },
            _ => None,
        }
    }
}

/// The item that the object `j` describes: `type` must be a string, `content`
/// may be a list of blocks.
pub open spec fn item_of(j: Json) -> Option<ItemView> {
    match (j.text_at("type"@), content_of(j)) {
        (Some(item_type), Some(content)) => Some(ItemView { item_type, content }),
        _ => None,
    }
}

/// The items that a list describes; one that is no item spoils the list.
pub open spec fn items_of(list: Seq<Json>) -> Option<Seq<ItemView>>
    decreases list.len(),
{
    if list.len() == 0 {
        Some(Seq::empty())
    } else {
        match (items_of(list.drop_last()), item_of(list.last())) {
            (Some(head), Some(last)) => Some(head.push(last)),
            _ => None,
        }
    }
}

/// The items under `output`: none where the member is left out, and a fault
/// where it is anything but a list of items.
pub open spec fn output_of(j: Json) -> Option<Option<Seq<ItemView>>> {
    if left_out(j.member("output"@)) {
        Some(None)
    } else {
        match j.member("output"@) {
            Some(Json::Array(list)) => match items_of(list@) {
                Some(items) => Some(Some(items)),
                None => None,
            },
            _ => None,
        }
    }
}

/// The failure under `error`: none where the member is left out, and a fault
/// where it is anything but an object with a `message` string.
pub open spec fn failure_of(j: Json) -> Option<Option<Seq<char>>> {
    if left_out(j.member("error"@)) {
        Some(None)
    } else {
        match j.member("error"@) {
            Some(e) => match e.text_at("message"@) {
                Some(message) => Some(Some(message)),
                None => None,
            },
            None => None,
        }
    }
}

/// The response that the document `j` is: an object that may hold a list of
/// items under `output` and a failure under `error`.
pub open spec fn response_of(j: Json) -> Option<ResponseView> {
    match (output_of(j), failure_of(j)) {
        (Some(output), Some(error)) => if j is Object {
            Some(ResponseView { output, error })
        } else {
            None
        },
        _ => None,
    }
}

/// Reads the block that `j` describes.
pub fn decode_block(j: &Json) -> (r: Option<ContentBlock>)
    ensures
        match r {
            Some(b) => block_of(*j) == Some(b@),
            None => block_of(*j) is None,
        },
{
    let block_type = match j.text_member("type") {
        Some(x) => x,
        None => {
            return None;
        },
    };
    let text = match j.optional_text_member("text") {
        Some(x) => x,
        None => {
            return None;
        },
    };
    Some(ContentBlock { block_type, text })
}

/// A list that is spoiled up to some place is spoiled as a whole.
proof fn lemma_blocks_spoiled(list: Seq<Json>, n: int)
    requires
        0 <= n <= list.len(),
        blocks_of(list.take(n)) is None,
    ensures
        blocks_of(list) is None,
    decreases list.len() - n,
{
    if n < list.len() {
        assert(list.take(n + 1).drop_last() == list.take(n));
        lemma_blocks_spoiled(list, n + 1);
    } else {
        assert(list.take(n) == list);
    }
}

/// A list that is spoiled up to some place is spoiled as a whole.
proof fn lemma_items_spoiled(list: Seq<Json>, n: int)
    requires
        0 <= n <= list.len(),
        items_of(list.take(n)) is None,
    ensures
        items_of(list) is None,
    decreases list.len() - n,
{
    if n < list.len() {
        assert(list.take(n + 1).drop_last() == list.take(n));
        lemma_items_spoiled(list, n + 1);
    } else {
        assert(list.take(n) == list);
    }
}

/// Reads the blocks that `list` describes.
pub fn decode_blocks(list: &Vec<Json>) -> (r: Option<Vec<ContentBlock>>)
    ensures
        match r {
            Some(blocks) => blocks_of(list@) == Some(blocks_view(blocks@)),
            None => blocks_of(list@) is None,
        },
{
    let mut blocks: Vec<ContentBlock> = Vec::new();
    let mut i: usize = 0;
    assert(list@.take(0) == Seq::<Json>::empty());
    assert(blocks_view(blocks@) == Seq::<BlockView>::empty());
    while i < list.len()
        invariant
            i <= list.len(),
            blocks_of(list@.take(i as int)) == Some(blocks_view(blocks@)),
        decreases list.len() - i,
    {
        assert(list@.take(i + 1).drop_last() == list@.take(i as int));
        assert(list@.take(i + 1).last() == list@[i as int]);
        match decode_block(&list[i]) {
            Some(b) => {
                let ghost before = blocks@;
                blocks.push(b);
                assert(blocks_view(blocks@) == blocks_view(before).push(b@));
            },
            None => {
                proof {
                    assert(blocks_of(list@.take(i + 1)) is None);
                    lemma_blocks_spoiled(list@, i as int + 1);
                }
                return None;
            },
        }
        i += 1;
    }
    assert(list@.take(list.len() as int) == list@);
    Some(blocks)
}

/// Reads the item that `j` describes.
pub fn decode_item(j: &Json) -> (r: Option<OutputItem>)
    ensures
        match r {
            Some(item) => item_of(*j) == Some(item@),
            None => item_of(*j) is None,
        },
{
    let item_type = match j.text_member("type") {
        Some(x) => x,
        None => {
            return None;
        },
    };
    let content = if j.leaves_out("content") {
        None
    } else {
        match j.get("content") {
            Some(Json::Array(list)) => match decode_blocks(list) {
                Some(blocks) => Some(blocks),
                None => {
                    return None;
                },
            },
            _ => {
                return None;
            },
        }
    };
    Some(OutputItem { item_type, content })
}

/// Reads the items that `list` describes.
pub fn decode_items(list: &Vec<Json>) -> (r: Option<Vec<OutputItem>>)
    ensures
        match r {
            Some(items) => items_of(list@) == Some(items_view(items@)),
            None => items_of(list@) is None,
        },
{
    let mut items: Vec<OutputItem> = Vec::new();
    let mut i: usize = 0;
    assert(list@.take(0) == Seq::<Json>::empty());
    assert(items_view(items@) == Seq::<ItemView>::empty());
    while i < list.len()
        invariant
            i <= list.len(),
            items_of(list@.take(i as int)) == Some(items_view(items@)),
        decreases list.len() - i,
    {
        assert(list@.take(i + 1).drop_last() == list@.take(i as int));
        assert(list@.take(i + 1).last() == list@[i as int]);
        match decode_item(&list[i]) {
            Some(item) => {
                let ghost before = items@;
                items.push(item);
                assert(items_view(items@) == items_view(before).push(item@));
            },
            None => {
                proof {
                    assert(items_of(list@.take(i + 1)) is None);
                    lemma_items_spoiled(list@, i as int + 1);
                }
                return None;
            },
        }
        i += 1;
    }
    assert(list@.take(list.len() as int) == list@);
    Some(items)
}

/// Reads the response that the document `j` is.
pub fn decode_response(j: &Json) -> (r: Option<XaiResponse>)
    ensures
        match r {
            Some(resp) => response_of(*j) == Some(resp@),
            None => response_of(*j) is None,
        },
{
    let output = if j.leaves_out("output") {
        None
    } else {
        match j.get("output") {
            Some(Json::Array(list)) => match decode_items(list) {
                Some(items) => Some(items),
                None => {
                    return None;
                },
            },
            _ => {
                return None;
            },
        }
    };
    let error = if j.leaves_out("error") {
        None
    } else {
        match j.get("error") {
            Some(e) => match e.text_member("message") {
                Some(message) => Some(ApiError { message }),
                None => {
                    return None;
                },
            },
            None => {
                return None;
            },
        }
    };
    match j {
        Json::Object(_) => Some(XaiResponse { output, error }),
        _ => None,
    }
}

/// What a research call comes to, from the status of the answer, its body and
/// the document that the body is, if it is one. Any status but success is an
/// error that quotes status and body. Else the body must be a response, and
/// stands for the failure it reports or for the answer it carries.
pub open spec fn research_reply(status: u16, body: Seq<char>, document: Option<Json>) -> Result<
    Seq<char>,
    Seq<char>,
> {
    if !is_success(status) {
        Err("xAI API error "@ + decimal_text(status as nat) + ": "@ + body)
    } else {
        match document {
            Some(j) => match response_of(j) {
                Some(resp) => response_outcome(resp),
                None => Err(unreadable_body()),
            },
            None => Err(unreadable_body()),
        }
    }
}

/// Decides what a research call comes to, the body having been tried as
/// JSON.
pub fn interpret_research(status: u16, body: &str, document: Option<Json>) -> (r: Result<
    SearchResult,
    String,
>)
    ensures
        found_view(r) == research_reply(status, body@, document),
{
    if !(200 <= status && status <= 299) {
        let mut message = String::from_str("xAI API error ");
        push_decimal(&mut message, status as u64);
        message.append(": ");
        message.append(body);
        return Err(message);
    }
    match document {
        Some(j) => match decode_response(&j) {
            Some(resp) => research_outcome(resp),
            None => Err(String::from_str("error decoding response body")),
        },
        None => Err(String::from_str("error decoding response body")),
    }
}

/// Decides what a research call comes to, from the status and the body of the
/// answer.
pub fn read_research(status: u16, body: &str) -> (r: Result<SearchResult, String>)
    ensures
        found_view(r) == research_reply(status, body@, json_of(body@)),
{
    interpret_research(status, body, Json::parse(body))
}

/// The instructions that lead every question put to the oracle.
pub const PROMPT_LEAD: &'static str =
    "Search X (Twitter) for recent posts, news, and discussion about the following prediction market question. Focus on finding concrete evidence: official announcements, credible reporting, expert opinions, and sentiment from informed accounts.\n\nBased ONLY on what you find on X, estimate the probability (0-100) that this resolves YES. If you find little or no relevant information on X, say so and give a low-confidence estimate near 50.\n\nIf this market is subjective, personal, not objectively resolvable, or depends on information you cannot access (e.g. private metrics, personal decisions, inside knowledge), set action to \"skip\".\n\nQuestion: \"";

/// What introduces the resolution criteria in a prompt.
pub const CRITERIA_LEAD: &'static str = "\n\nResolution criteria / description:\n\"";

/// The part of a prompt that quotes the resolution criteria: nothing where
/// there are none or they are empty.
pub open spec fn criteria_section(description: Option<Seq<char>>) -> Seq<char> {
    match description {
        Some(d) => if d.len() == 0 {
            Seq::<char>::empty()
        } else {
            CRITERIA_LEAD@ + d + "\""@
        },
        None => Seq::<char>::empty(),
    }
}

/// The prompt for a question: the instructions, the question in quotes, and
/// the resolution criteria where there are any.
pub open spec fn prompt_text(question: Seq<char>, description: Option<Seq<char>>) -> Seq<char> {
    PROMPT_LEAD@ + question + "\""@ + criteria_section(description)
}

/// The text that `s` refers to, if it refers to one.
pub open spec fn str_view(s: Option<&str>) -> Option<Seq<char>> {
    match s {
        Some(t) => Some(t@),
        None => None,
    }
}

/// Writes the prompt for a question.
pub fn research_prompt(question: &str, description: Option<&str>) -> (prompt: String)
    ensures
        prompt@ == prompt_text(question@, str_view(description)),
{
    let mut prompt = String::from_str(PROMPT_LEAD);
    prompt.append(question);
    prompt.append("\"");
    let ghost stem = prompt@;
    match description {
        Some(d) => {
            if d.unicode_len() != 0 {
                prompt.append(CRITERIA_LEAD);
                prompt.append(d);
                prompt.append("\"");
                assert(prompt@ == stem + (CRITERIA_LEAD@ + d@ + "\""@));
            } else {
                assert(prompt@ == stem + Seq::<char>::empty());
            }
        },
        None => {
            assert(prompt@ == stem + Seq::<char>::empty());
        },
    }
    prompt
}

/// A forecast: the probability that the market resolves YES, and why.
#[derive(Debug)]
pub struct Prediction {
    pub probability: Probability,
    pub reasoning: String,
}

/// What the oracle decided about a market.
#[derive(Debug)]
pub enum PredictionResult {
    /// It forecasts.
    Predict(Prediction),
    /// It declines, for the reason given.
    Skip(String),
}

/// An oracle's decision as plain values.
pub enum Answer {
    Predict { probability: Probability, reasoning: Seq<char> },
    Skip { reason: Seq<char> },
}

impl View for PredictionResult {
    type V = Answer;

    open spec fn view(&self) -> Answer {
        match self {
            PredictionResult::Predict(p) => Answer::Predict {
                probability: p.probability,
                reasoning: p.reasoning@,
            },
            PredictionResult::Skip(reason) => Answer::Skip { reason: reason@ },
        }
    }
}

/// The decision that `r` holds, as plain values.
pub open spec fn answer_view(r: Option<PredictionResult>) -> Option<Answer> {
    match r {
        Some(result) => Some(result@),
        None => None,
    }
}

/// The probability that a numeral of percent stands for: the numeral must lie
/// between 0 and 100, and its hundredth is kept to the millionth, rounded down.
pub open spec fn percent_of(numeral: Seq<char>) -> Option<Probability> {
    match fixed_point(numeral, 4, MILLION as nat) {
        Some(p) => Some(Probability { millionths: p as u32 }),
        None => None,
    }
}

/// Reads a numeral of percent as a probability.
pub fn read_percent(numeral: &[char]) -> (r: Option<Probability>)
    ensures
        r == percent_of(numeral@),
        r matches Some(p) ==> p.wf(),
{
    match parse_fixed(numeral, 4, MILLION as u64) {
        Some(p) => Some(Probability { millionths: p as u32 }),
        None => None,
    }
}

/// The percentage that a structured answer carries: none where the member is
/// missing or null, a numeral where it is a number. Any other member is a fault
/// in the answer.
pub open spec fn stated_percent(j: Json) -> Option<Option<Seq<char>>> {
    match j.member("probability"@) {
        None => Some(None),
        Some(Json::Null) => Some(None),
        Some(Json::Number(n)) => Some(Some(n@)),
        Some(_) => None,
    }
}

/// The decision that a structured answer states. The document must be an object
/// whose `action` and `reasoning` are strings and whose `probability` is a
/// number, null or missing. `skip` declines with the reasoning. `predict`
/// forecasts, and needs a probability between 0 and 100 percent. Every other
/// document states nothing.
pub open spec fn structured_answer(j: Json) -> Option<Answer> {
    match (j.member("action"@), j.member("reasoning"@), stated_percent(j)) {
        (Some(Json::Text(action)), Some(Json::Text(reasoning)), Some(percent)) => {
            if action@ == "skip"@ {
                Some(Answer::Skip { reason: reasoning@ })
            } else if action@ == "predict"@ {
                match percent {
                    Some(numeral) => match percent_of(numeral) {
                        Some(probability) => Some(
                            Answer::Predict { probability, reasoning: reasoning@ },
                        ),
                        None => None,
                    },
                    None => None,
                }
            } else {
                None
            }
        },
        _ => None,
    }
}

/// Reads the decision that the structured answer `j` states.
pub fn parse_structured(j: &Json) -> (r: Option<PredictionResult>)
    ensures
        answer_view(r) == structured_answer(*j),
        r matches Some(PredictionResult::Predict(p)) ==> p.probability.wf(),
{
    let action = match j.get("action") {
        Some(Json::Text(a)) => a,
        _ => {
            return None;
        },
    };
    let reasoning = match j.get("reasoning") {
        Some(Json::Text(r)) => r,
        _ => {
            return None;
        },
    };
    let percent: Option<&String> = match j.get("probability") {
        None => None,
        Some(Json::Null) => None,
        Some(Json::Number(n)) => Some(n),
        Some(_) => {
            return None;
        },
    };
    let action_chars = chars_of(action.as_str());
    if spells(action_chars.as_slice(), "skip") {
        Some(PredictionResult::Skip(reasoning.clone()))
    } else if spells(action_chars.as_slice(), "predict") {
        match percent {
            Some(numeral) => {
                let chars = chars_of(numeral.as_str());
                match read_percent(chars.as_slice()) {
                    Some(probability) => Some(
                        PredictionResult::Predict(
                            Prediction { probability, reasoning: reasoning.clone() },
                        ),
                    ),
                    None => None,
                }
            },
            None => None,
        }
    } else {
        None
    }
}

/// What the marker lines of a free-text answer have said so far.
pub struct Fields {
    /// The text of the last `REASONING:` line; empty before the first.
    pub reasoning: Seq<char>,
    /// The probability of the last `PROBABILITY:` line, if that line held a
    /// numeral between 0 and 100.
    pub probability: Option<Probability>,
    /// Whether a `SKIP` line was seen.
    pub skip: bool,
}

/// The numeral of a `PROBABILITY:` line: what follows the marker, trimmed, less
/// one percent sign at its end.
pub open spec fn percent_text(s: Seq<char>) -> Seq<char> {
    let v = trimmed(s);
    if v.len() > 0 && v.last() == '%' {
        trimmed(v.drop_last())
    } else {
        v
    }
}

/// The fields after one more line. A line counts by what it holds between its
/// blanks: `REASONING:` and text, `PROBABILITY:` and a numeral of percent, or
/// the word `SKIP` alone. Any other line changes nothing.
pub open spec fn absorb(fields: Fields, line: Seq<char>) -> Fields {
    let t = trimmed(line);
    if has_prefix(t, "REASONING:"@) {
        Fields { reasoning: trimmed(t.skip("REASONING:"@.len() as int)), ..fields }
    } else if has_prefix(t, "PROBABILITY:"@) {
        Fields {
            probability: percent_of(percent_text(t.skip("PROBABILITY:"@.len() as int))),
            ..fields
        }
    } else if t == "SKIP"@ {
        Fields { skip: true, ..fields }
    } else {
        fields
    }
}

/// The fields after the lines `lines`, read in order from `fields`: of a
/// marker that occurs more than once, the last line counts.
pub open spec fn read_lines(lines: Seq<Seq<char>>, fields: Fields) -> Fields
    decreases lines.len(),
{
    if lines.len() == 0 {
        fields
    } else {
        absorb(read_lines(lines.drop_last(), fields), lines.last())
    }
}

/// The fields before any line is read.
pub open spec fn no_fields() -> Fields {
    Fields { reasoning: Seq::<char>::empty(), probability: None, skip: false }
}

/// The decision that fields stand for: a `SKIP` line declines, whatever else was
/// said; without one, a valid probability forecasts; without either, nothing is
/// decided.
pub open spec fn fields_answer(fields: Fields) -> Option<Answer> {
    if fields.skip {
        Some(Answer::Skip { reason: fields.reasoning })
    } else {
        match fields.probability {
            Some(probability) => Some(
                Answer::Predict { probability, reasoning: fields.reasoning },
            ),
            None => None,
        }
    }
}

/// The decision that a free-text answer states.
pub open spec fn free_text_answer(text: Seq<char>) -> Option<Answer> {
    fields_answer(read_lines(lines_of(text), no_fields()))
}

/// Reads the decision that the free-text answer `text` states.
pub fn parse_free_text(text: &str) -> (r: Option<PredictionResult>)
    ensures
        answer_view(r) == free_text_answer(text@),
        r matches Some(PredictionResult::Predict(p)) ==> p.probability.wf(),
{
    let chars = chars_of(text);
    let mut rest: &[char] = chars.as_slice();
    let mut reasoning: &[char] = slice_subrange(rest, 0, 0);
    let mut probability: Option<Probability> = None;
    let mut skip = false;
    let mut done = false;
    let ghost read: Seq<Seq<char>> = Seq::empty();
    assert(reasoning@ == Seq::<char>::empty());
    assert(read + lines_of(rest@) == lines_of(text@));
    while !done
        invariant
            probability matches Some(p) ==> p.wf(),
            (Fields { reasoning: reasoning@, probability, skip }) == read_lines(read, no_fields()),
            !done ==> read + lines_of(rest@) == lines_of(text@),
            done ==> read == lines_of(text@),
        decreases rest.len() + if done { 0int } else { 1int },
    {
        let n = find_line_end(rest);
        let whole_line = slice_subrange(rest, 0, n);
        let line = trim(whole_line);
        assert(whole_line@ == rest@.take(n as int));
        let ghost before = read;
        proof {
            read = read.push(whole_line@);
            assert(read.drop_last() == before);
        }
        match strip_prefix(line, "REASONING:") {
            Some(after) => {
                reasoning = trim(after);
            },
            None => match strip_prefix(line, "PROBABILITY:") {
                Some(after) => {
                    let value = trim(after);
                    let numeral = if value.len() > 0 && value[value.len() - 1] == '%' {
                        trim(slice_subrange(value, 0, value.len() - 1))
                    } else {
                        value
                    };
                    assert(numeral@ == percent_text(after@));
                    probability = read_percent(numeral);
                },
                None => {
                    if spells(line, "SKIP") {
                        skip = true;
                    }
                },
            },
        }
        if n >= rest.len() {
            assert(rest@.take(n as int) == rest@);
            assert(lines_of(rest@) == seq![rest@]);
            assert(before + lines_of(rest@) == read);
            done = true;
        } else {
            let ghost old_rest = rest@;
            rest = slice_subrange(rest, n + 1, rest.len());
            assert(rest@ == old_rest.skip(n as int + 1));
            assert(read + lines_of(rest@) == before + lines_of(old_rest));
        }
    }
    let reasoning = string_of(reasoning);
    if skip {
        Some(PredictionResult::Skip(reasoning))
    } else {
        match probability {
            Some(probability) => Some(
                PredictionResult::Predict(Prediction { probability, reasoning }),
            ),
            None => None,
        }
    }
}

/// Whether a line is a `PROBABILITY:` line.
pub open spec fn marks_probability(line: Seq<char>) -> bool {
    !has_prefix(trimmed(line), "REASONING:"@) && has_prefix(trimmed(line), "PROBABILITY:"@)
}

/// Whether a line is a `SKIP` line.
pub open spec fn marks_skip(line: Seq<char>) -> bool {
    !has_prefix(trimmed(line), "REASONING:"@) && !has_prefix(trimmed(line), "PROBABILITY:"@)
        && trimmed(line) == "SKIP"@
}

/// The numeral that a `PROBABILITY:` line states.
pub open spec fn stated_numeral(line: Seq<char>) -> Seq<char> {
    percent_text(trimmed(line).skip("PROBABILITY:"@.len() as int))
}

/// Lines without a `SKIP` line leave the skip as it was.
proof fn lemma_no_skip(lines: Seq<Seq<char>>, fields: Fields)
    requires
        forall|j: int| 0 <= j < lines.len() ==> !marks_skip(#[trigger] lines[j]),
    ensures
        read_lines(lines, fields).skip == fields.skip,
    decreases lines.len(),
{
    if lines.len() > 0 {
        assert forall|j: int| 0 <= j < lines.drop_last().len() implies !marks_skip(
            #[trigger] lines.drop_last()[j],
        ) by {
            assert(lines.drop_last()[j] == lines[j]);
        }
        lemma_no_skip(lines.drop_last(), fields);
        assert(!marks_skip(lines[lines.len() - 1]));
    }
}

/// The probability after the lines is that of the last `PROBABILITY:` line.
proof fn lemma_last_probability(lines: Seq<Seq<char>>, fields: Fields, i: int)
    requires
        0 <= i < lines.len(),
        marks_probability(lines[i]),
        forall|j: int| i < j < lines.len() ==> !marks_probability(#[trigger] lines[j]),
    ensures
        read_lines(lines, fields).probability == percent_of(stated_numeral(lines[i])),
    decreases lines.len(),
{
    if i < lines.len() - 1 {
        let head = lines.drop_last();
        assert(head[i] == lines[i]);
        assert forall|j: int| i < j < head.len() implies !marks_probability(#[trigger] head[j]) by {
            assert(head[j] == lines[j]);
        }
        lemma_last_probability(head, fields, i);
        assert(!marks_probability(lines[lines.len() - 1]));
    }
}

/// A structured answer whose probability is a number outside 0 to 100 states no
/// decision, whatever its other members hold, unless its action is to skip: a
/// skip does not look at the probability.
pub proof fn law_structured_probability_out_of_range(j: Json, numeral: String)
    requires
        j.member("probability"@) == Some(Json::Number(numeral)),
        percent_of(numeral@) is None,
        j.text_at("action"@) != Some("skip"@),
    ensures
        structured_answer(j) is None,
{
}

/// A free-text answer whose last `PROBABILITY:` line states a numeral outside 0
/// to 100, or no numeral, states no decision, whatever its other lines hold,
/// unless one of them is a `SKIP` line: a skip does not look at the
/// probability.
pub proof fn law_free_text_probability_out_of_range(text: Seq<char>, i: int)
    requires
        0 <= i < lines_of(text).len(),
        marks_probability(lines_of(text)[i]),
        percent_of(stated_numeral(lines_of(text)[i])) is None,
        forall|j: int| i < j < lines_of(text).len() ==> !marks_probability(#[trigger] lines_of(text)[j]),
        forall|j: int| 0 <= j < lines_of(text).len() ==> !marks_skip(#[trigger] lines_of(text)[j]),
    ensures
        free_text_answer(text) is None,
{
    lemma_no_skip(lines_of(text), no_fields());
    lemma_last_probability(lines_of(text), no_fields(), i);
}

/// The decision that an answer states, given the JSON document that its text
/// is, if it is one: a document is read as a structured answer, other text as a
/// free-text answer.
pub open spec fn answer_of(document: Option<Json>, text: Seq<char>) -> Option<Answer> {
    match document {
        Some(j) => structured_answer(j),
        None => free_text_answer(text),
    }
}

/// Reads the decision of an answer whose text has been tried as JSON.
pub fn interpret_answer(document: Option<Json>, text: &str) -> (r: Option<PredictionResult>)
    ensures
        answer_view(r) == answer_of(document, text@),
        r matches Some(PredictionResult::Predict(p)) ==> p.probability.wf(),
{
    match document {
        Some(j) => parse_structured(&j),
        None => parse_free_text(text),
    }
}

/// Reads the oracle's answer: `None` where it states no decision.
pub fn parse_prediction(text: &str) -> (r: Option<PredictionResult>)
    ensures
        answer_view(r) == answer_of(json_of(text@), text@),
        r matches Some(PredictionResult::Predict(p)) ==> p.probability.wf(),
{
    interpret_answer(Json::parse(text), text)
}

} // verus!
