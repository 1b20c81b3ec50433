//! Reading the answer: the first line of the stream that is more than a control
//! line decides.
use vstd::prelude::*;
use vstd::utf8::{decode_utf8, valid_utf8};

use crate::json::{json_text, parse_json, tree_of_ref, Json, JsonTree};
use crate::text::{self, first_index, lemma_first_index, lowered, occurs, trimmed};
use crate::types::{
    message, outcome_of, AppError, AppErrorView, CheckProtocol, ModelCheckService, Outcome,
    OutcomeView,
};

verus! {

/// What a line says of the answer: nothing, that it is one, or that it is an error.
pub type Verdict = Option<Result<(), AppErrorView>>;

/// What a verdict stands for.
pub open spec fn verdict_of(verdict: Option<Result<(), AppError>>) -> Verdict {
    match verdict {
        None => None,
        Some(Ok(_)) => Some(Ok(())),
        Some(Err(error)) => Some(Err(error@)),
    }
}

/// The `type` of a payload.
pub open spec fn event_type(parsed: Option<JsonTree>) -> Option<Seq<char>> {
    match parsed {
        Some(tree) => match tree.get("type"@) {
            Some(kind) => kind.as_str(),
            None => None,
        },
        None => None,
    }
}

/// The payload has an `error` that is not `null`.
pub open spec fn has_error(parsed: Option<JsonTree>) -> bool {
    match parsed {
        Some(tree) => tree.get("error"@) matches Some(error) && !(error is Null),
        None => false,
    }
}

/// The text mentions an error, and is neither the start of a message nor a list of
/// candidates.
pub open spec fn mentions_error(lower: Seq<char>) -> bool {
    &&& occurs(lower, "\"error\""@)
    &&& !occurs(lower, "\"error\":null"@)
    &&& !occurs(lower, "message_start"@)
    &&& !occurs(lower, "candidates"@)
}

/// A payload, and the JSON value that it is if it is one, report an error.
pub open spec fn is_error_payload(payload: Seq<char>, parsed: Option<JsonTree>) -> bool {
    ||| has_error(parsed)
    ||| event_type(parsed) == Some("error"@)
    ||| event_type(parsed) == Some("response.failed"@)
    ||| mentions_error(lowered(payload))
}

/// What a payload says, given the JSON value that it is if it is one.
pub open spec fn payload_verdict(payload: Seq<char>, parsed: Option<JsonTree>) -> Verdict {
    if event_type(parsed) == Some("ping"@) {
        None
    } else if is_error_payload(payload, parsed) {
        Some(message("上游返回了错误响应体"@))
    } else {
        Some(Ok(()))
    }
}

/// What an event line says.
pub open spec fn event_verdict(event: Seq<char>) -> Verdict {
    let name = lowered(trimmed(event));
    if name == "error"@ || name == "response.failed"@ {
        Some(message("上游返回了错误事件"@))
    } else {
        None
    }
}

/// A line that carries no part of an answer: a blank one, a comment, an identifier or
/// a reconnection time.
pub open spec fn is_control(line: Seq<char>) -> bool {
    ||| line.len() == 0
    ||| ":"@.is_prefix_of(line)
    ||| "id:"@.is_prefix_of(line)
    ||| "retry:"@.is_prefix_of(line)
}

/// The payload of a line: what follows `data:`, or the whole line.
pub open spec fn payload_of(line: Seq<char>) -> Seq<char> {
    if "data:"@.is_prefix_of(line) {
        trimmed(line.skip("data:"@.len() as int))
    } else {
        line
    }
}

/// The payload that is read from a line, where it is one that carries a payload.
pub open spec fn carried_payload(line: Seq<char>) -> Option<Seq<char>> {
    let line = trimmed(line);
    let payload = payload_of(line);
    if is_control(line) || "event:"@.is_prefix_of(line) || payload.len() == 0 || lowered(payload)
        == lowered("[DONE]"@) {
        None
    } else {
        Some(payload)
    }
}

/// What a line of the stream says, given the JSON value that its payload is.
pub open spec fn line_verdict_with(line: Seq<char>, parsed: Option<JsonTree>) -> Verdict {
    let inner = trimmed(line);
    if !is_control(inner) && "event:"@.is_prefix_of(inner) {
        event_verdict(inner.skip("event:"@.len() as int))
    } else {
        match carried_payload(line) {
            Some(payload) => payload_verdict(payload, parsed),
            None => None,
        }
    }
}

/// What a line of the stream says.
pub open spec fn line_verdict(line: Seq<char>) -> Verdict {
    line_verdict_with(
        line,
        match carried_payload(line) {
            Some(payload) => json_text(payload),
            None => None,
        },
    )
}

/// The verdict of the first complete line that has one, and the text behind it; where
/// none has one, the text behind the last line break.
pub open spec fn scan(text: Seq<char>) -> (Verdict, Seq<char>)
    decreases text.len(),
{
    match first_index(text, '\n') {
        None => (None, text),
        Some(i) => {
            proof {
                lemma_first_index(text, '\n');
            }
            match line_verdict(text.take(i)) {
                Some(verdict) => (Some(verdict), text.skip(i + 1)),
                None => scan(text.skip(i + 1)),
            }
        },
    }
}

/// How a check ends with a verdict.
pub open spec fn ended(verdict: Result<(), AppErrorView>, status: u16, model: Seq<char>) -> OutcomeView {
    match verdict {
        Ok(_) => Ok((status, model)),
        Err(error) => Err(error),
    }
}

/// How a check ends whose stream closes with `pending` unread.
pub open spec fn closed_outcome(pending: Seq<char>, status: u16, model: Seq<char>) -> OutcomeView {
    match line_verdict(pending) {
        Some(verdict) => ended(verdict, status, model),
        None => message("模型响应为空，未收到有效数据"@),
    }
}

/// What the event name of an event line says.
fn judge_event(event: &str) -> (r: Option<Result<(), AppError>>)
    ensures
        verdict_of(r) == event_verdict(event@),
{
    let name = text::to_ascii_lowercase(text::trim(event));
    if text::same_chars(&name, "error") || text::same_chars(&name, "response.failed") {
        Some(Err(AppError::message("上游返回了错误事件")))
    } else {
        None
    }
}

/// Whether the `type` of a payload is `name`.
fn is_type(parsed: Option<&Json>, name: &str) -> (r: bool)
    ensures
        r == (event_type(tree_of_ref(parsed)) == Some(name@)),
{
    match parsed {
        Some(json) => match json.get("type") {
            Some(kind) => match kind.as_str() {
                Some(kind) => text::same(kind, name),
                None => false,
            },
            None => false,
        },
        None => false,
    }
}

/// The payload of a line without white space around it.
fn payload_in(line: &str) -> (r: &str)
    ensures
        r@ == payload_of(line@),
{
    match text::strip_prefix(line, "data:") {
        Some(data) => text::trim(data),
        None => line,
    }
}

/// Whether a line without white space around it carries no part of an answer.
fn control(line: &str) -> (r: bool)
    ensures
        r == is_control(line@),
{
    line.is_empty() || text::starts_with(line, ":") || text::starts_with(line, "id:")
        || text::starts_with(line, "retry:")
}

impl ModelCheckService {
    /// The payload that is read from a line, where it is one that carries a payload.
    pub fn line_payload(line: &str) -> (r: Option<&str>)
        ensures
            match r {
                Some(payload) => carried_payload(line@) == Some(payload@),
                None => carried_payload(line@) is None,
            },
    {
        let inner = text::trim(line);
        if control(inner) || text::starts_with(inner, "event:") {
            return None;
        }
        let payload = payload_in(inner);
        if payload.is_empty() || text::eq_ignore_ascii_case(payload, "[DONE]") {
            None
        } else {
            Some(payload)
        }
    }

    /// What a line of the stream says, given the JSON value that its payload is.
    pub fn validate_response_line_with(line: &str, parsed: Option<&Json>, protocol: CheckProtocol)
        -> (r: Option<Result<(), AppError>>)
        ensures
            verdict_of(r) == line_verdict_with(line@, tree_of_ref(parsed)),
    {
        let inner = text::trim(line);
        if control(inner) {
            return None;
        }
        match text::strip_prefix(inner, "event:") {
            Some(event) => {
                return judge_event(event);
            },
            None => {},
        }
        match Self::line_payload(line) {
            Some(payload) => if is_type(parsed, "ping") {
                None
            } else if Self::looks_like_error_payload_with(payload, parsed, protocol) {
                Some(Err(AppError::message("上游返回了错误响应体")))
            } else {
                Some(Ok(()))
            },
            None => None,
        }
    }

    /// What a line of the stream says: `None` for a control line, else whether it is
    /// part of an answer or an error.
    pub fn validate_response_line(line: &str, protocol: CheckProtocol) -> (r: Option<
        Result<(), AppError>,
    >)
        ensures
            verdict_of(r) == line_verdict(line@),
    {
        let parsed = match Self::line_payload(line) {
            Some(payload) => parse_json(payload),
            None => None,
        };
        Self::validate_response_line_with(line, parsed.as_ref(), protocol)
    }

    /// Whether a payload reports an error, given the JSON value that it is.
    pub fn looks_like_error_payload_with(
        text: &str,
        parsed: Option<&Json>,
        _protocol: CheckProtocol,
    ) -> (r: bool)
        ensures
            r == is_error_payload(text@, tree_of_ref(parsed)),
    {
        let has_error = match parsed {
            Some(json) => match json.get("error") {
                Some(error) => !error.is_null(),
                None => false,
            },
            None => false,
        };
        if has_error || is_type(parsed, "error") || is_type(parsed, "response.failed") {
            return true;
        }
        let lower = text::to_ascii_lowercase(text);
        text::contains(&lower, "\"error\"") && !text::contains(&lower, "\"error\":null")
            && !text::contains(&lower, "message_start") && !text::contains(&lower, "candidates")
    }

    /// Whether a payload reports an error.
    pub fn looks_like_error_payload(text: &str, protocol: CheckProtocol) -> (r: bool)
        ensures
            r == is_error_payload(text@, json_text(text@)),
    {
        let parsed = parse_json(text);
        Self::looks_like_error_payload_with(text, parsed.as_ref(), protocol)
    }
}

/// What `String::from_utf8_lossy` makes of bytes that are not UTF-8.
pub uninterp spec fn lossy_text(bytes: Seq<u8>) -> Seq<char>;

/// The text of a chunk of the stream.
pub open spec fn chunk_text(bytes: Seq<u8>) -> Seq<char> {
    if valid_utf8(bytes) {
        decode_utf8(bytes)
    } else {
        lossy_text(bytes)
    }
}

/// Calls `String::from_utf8_lossy`: UTF-8 is decoded; other bytes become the text that
/// the name `lossy_text` stands for, with replacement characters in place of what
/// cannot be decoded.
#[verifier::external_body]
fn text_from_utf8_lossy(bytes: &[u8]) -> (r: String)
    ensures
        r@ == if valid_utf8(bytes@) {
            decode_utf8(bytes@)
        } else {
            lossy_text(bytes@)
        },
{
    String::from_utf8_lossy(bytes).into_owned()
}

/// A streamed answer that is being read, after a status that means success.
pub struct ResponseReader {
    status: u16,
    model: String,
    protocol: CheckProtocol,
    pending: String,
}

/// What a [`ResponseReader`] stands for.
pub struct ReaderView {
    pub status: u16,
    pub model: Seq<char>,
    pub protocol: CheckProtocol,
    /// What was read of a line that is not complete.
    pub pending: Seq<char>,
}

impl View for ResponseReader {
    type V = ReaderView;

    closed spec fn view(&self) -> ReaderView {
        ReaderView {
            status: self.status,
            model: self.model@,
            protocol: self.protocol,
            pending: self.pending@,
        }
    }
}

/// What a reader makes of a further piece of text: how the check ends, if it does,
/// and what is left unread.
pub open spec fn fed(reader: ReaderView, text: Seq<char>) -> (Option<OutcomeView>, ReaderView) {
    let (verdict, rest) = scan(reader.pending + text);
    let after = ReaderView { pending: rest, ..reader };
    match verdict {
        Some(verdict) => (Some(ended(verdict, reader.status, reader.model)), after),
        None => (None, after),
    }
}

/// An outcome that may not be there yet.
pub open spec fn progress_of(outcome: Option<Outcome>) -> Option<OutcomeView> {
    match outcome {
        Some(outcome) => Some(outcome_of(outcome)),
        None => None,
    }
}

impl ResponseReader {
    /// A reader at the start of the stream.
    pub fn new(status: u16, model: &str, protocol: CheckProtocol) -> (r: ResponseReader)
        ensures
            r@ == (ReaderView { status, model: model@, protocol, pending: seq![] }),
    {
        let r = ResponseReader { status, model: model.to_string(), protocol, pending: String::new() };
        assert(r@.pending =~= seq![]);
        r
    }

    /// Reads a piece of the stream. The outcome is there as soon as a complete line
    /// decides it.
    pub fn read_text(&mut self, text: &str) -> (r: Option<Outcome>)
        ensures
            (progress_of(r), final(self)@) == fed(old(self)@, text@),
    {
        let mut rest = text::join2(self.pending.as_str(), text);
        let ghost whole = rest@;
        loop
            invariant
                scan(whole) == scan(rest@),
                whole == old(self)@.pending + text@,
                *self == *old(self),
            decreases rest@.len(),
        {
            let newline = match text::find(rest.as_str(), '\n') {
                Some(newline) => newline,
                None => {
                    self.pending = rest;
                    return None;
                },
            };
            let total: usize = rest.as_str().unicode_len();
            assert(rest@.subrange(0, newline as int) == rest@.take(newline as int));
            assert(rest@.subrange(newline + 1, total as int) == rest@.skip(newline + 1));
            let line = rest.as_str().substring_char(0, newline).to_string();
            rest = rest.as_str().substring_char(newline + 1, total).to_string();
            match ModelCheckService::validate_response_line(line.as_str(), self.protocol) {
                Some(Ok(_)) => {
                    self.pending = rest;
                    return Some(Ok((self.status, self.model.clone())));
                },
                Some(Err(error)) => {
                    self.pending = rest;
                    return Some(Err(error));
                },
                None => {},
            }
        }
    }

    /// Reads a chunk of bytes; an empty one is passed over.
    pub fn read_chunk(&mut self, chunk: &[u8]) -> (r: Option<Outcome>)
        ensures
            chunk@.len() == 0 ==> r is None && final(self)@ == old(self)@,
            chunk@.len() > 0 ==> (progress_of(r), final(self)@) == fed(
                old(self)@,
                chunk_text(chunk@),
            ),
    {
        if chunk.len() == 0 {
            return None;
        }
        let text = text_from_utf8_lossy(chunk);
        self.read_text(text.as_str())
    }

    /// How the check ends when the stream closes: what is left counts as a line.
    pub fn finish(self) -> (r: Outcome)
        ensures
            outcome_of(r) == closed_outcome(self@.pending, self@.status, self@.model),
    {
        match ModelCheckService::validate_response_line(self.pending.as_str(), self.protocol) {
            Some(Ok(_)) => Ok((self.status, self.model)),
            Some(Err(error)) => Err(error),
            None => Err(AppError::message("模型响应为空，未收到有效数据")),
        }
    }

    /// How the check ends when the stream breaks off with an error.
    pub fn broken(error: &str) -> (r: Outcome)
        ensures
            outcome_of(r) == message::<(u16, Seq<char>)>("读取模型响应失败: "@ + error@),
    {
        Err(AppError::Message(text::join2("读取模型响应失败: ", error)))
    }
}

} // verus!
